//! What holds of every line that is printed, and how the lines agree with what was found.

use crate::decimal::decimal_text;
use crate::decimal::usize_of;
use crate::report::assessment;
use crate::report::banner_text;
use crate::report::delivered_text;
use crate::report::results_text;
use crate::report::sending_text;
use crate::report::starting_text;
use crate::report::texts;
use crate::report::timed_out_text;
use crate::report::write_error_text;
use crate::report::Assessment;
use vstd::prelude::*;

verus! {

/// Whether a line is a label, a number that reads as `n` and is written no longer than it
/// need be, and what follows it.
pub open spec fn shows(line: Seq<char>, label: Seq<char>, n: usize, tail: Seq<char>) -> bool {
    let digits = line.len() - label.len() - tail.len();
    &&& digits == decimal_text(n as nat).len()
    &&& line.take(label.len() as int) == label
    &&& usize_of(line.subrange(label.len() as int, label.len() + digits)) == Some(n)
    &&& line.skip(label.len() + digits) == tail
}

/// Whether some line begins with this text.
pub open spec fn some_line_begins(lines: Seq<Seq<char>>, text: Seq<char>) -> bool {
    exists|i: int| 0 <= i < lines.len() && text.is_prefix_of(#[trigger] lines[i])
}

proof fn lemma_shows(label: Seq<char>, n: usize, tail: Seq<char>)
    ensures
        shows(label + decimal_text(n as nat) + tail, label, n, tail),
{
    let number = decimal_text(n as nat);
    let line = label + number + tail;
    crate::decimal::decimal_reads_back(n);
    assert(line.take(label.len() as int) =~= label);
    assert(line.subrange(label.len() as int, (label.len() + number.len()) as int) =~= number);
    assert(line.skip((label.len() + number.len()) as int) =~= tail);
}

proof fn lemma_shows_at_the_end(label: Seq<char>, n: usize)
    ensures
        shows(label + decimal_text(n as nat), label, n, Seq::empty()),
{
    lemma_shows(label, n, Seq::empty());
    assert(label + decimal_text(n as nat) + Seq::<char>::empty() =~= label + decimal_text(n as nat));
}

/// A list of lines is as long as its texts, and each of these is the text of its line.
pub proof fn texts_are_the_lines(lines: Seq<String>)
    ensures
        texts(lines).len() == lines.len(),
        forall|i: int| 0 <= i < lines.len() ==> #[trigger] texts(lines)[i] == lines[i]@,
{
}

/// The count decides what is printed. The bug is confirmed in the last line, and dropped lines
/// and bytes are listed, exactly where fewer bytes arrived than were sent; that all arrived is
/// said exactly where no fewer did.
pub proof fn results_agree_with_the_count(found: Assessment, percent: Seq<char>)
    ensures
        ({
            let lines = results_text(found, percent);
            let short = found.bytes_received < found.bytes_sent;
            &&& lines.len() > 0
            &&& lines.last() == "  [BUG CONFIRMED]"@ <==> short
            &&& some_line_begins(lines, "  [BUG CONFIRMED]"@) <==> short
            &&& some_line_begins(lines, "  Lines dropped"@) <==> short
            &&& some_line_begins(lines, "  Bytes dropped"@) <==> short
            &&& some_line_begins(lines, "  [OK]"@) <==> !short
            &&& "  [OK]"@.is_prefix_of(lines.last()) <==> !short
        }),
{
    let lines = results_text(found, percent);
    let short = found.bytes_received < found.bytes_sent;
    reveal_strlit("");
    reveal_strlit("============================================================");
    reveal_strlit("RESULTS");
    reveal_strlit("  Lines sent     : ");
    reveal_strlit("  Lines received : ~");
    reveal_strlit("  Bytes sent     : ");
    reveal_strlit("  Bytes received : ");
    reveal_strlit("  [OK] All ");
    reveal_strlit("  Lines dropped  : ~");
    reveal_strlit("  Bytes dropped  : ");
    reveal_strlit("  [BUG CONFIRMED]");
    reveal_strlit("  Lines dropped");
    reveal_strlit("  Bytes dropped");
    reveal_strlit("  [OK]");
    let confirmed = "  [BUG CONFIRMED]"@;
    let lines_dropped = "  Lines dropped"@;
    let bytes_dropped = "  Bytes dropped"@;
    let ok = "  [OK]"@;
    // Each text is told from every line that does not begin with it by one of these characters.
    assert(confirmed[3] == 'B' && lines_dropped[2] == 'L' && lines_dropped[8] == 'd'
        && bytes_dropped[2] == 'B' && bytes_dropped[8] == 'd' && ok[2] == '[' && ok[3] == 'O');
    assert forall|i: int| 0 <= i < 7 implies {
        &&& !confirmed.is_prefix_of(#[trigger] lines[i])
        &&& !lines_dropped.is_prefix_of(lines[i])
        &&& !bytes_dropped.is_prefix_of(lines[i])
        &&& !ok.is_prefix_of(lines[i])
    } by {
        let line = lines[i];
        if i == 3 {
            assert(line[2] == 'L' && line[8] == 's');
        } else if i == 4 {
            assert(line[2] == 'L' && line[8] == 'r');
        } else if i == 5 {
            assert(line[2] == 'B' && line[8] == 's');
        } else if i == 6 {
            assert(line[2] == 'B' && line[8] == 'r');
        } else if i == 1 {
            assert(line[2] == '=');
        } else if i == 2 {
            assert(line[2] == 'S');
        }
        if confirmed.is_prefix_of(line) {
            assert(line[2] == confirmed[2]);
        }
        if lines_dropped.is_prefix_of(line) {
            assert(line[2] == lines_dropped[2] && line[8] == lines_dropped[8]);
        }
        if bytes_dropped.is_prefix_of(line) {
            assert(line[2] == bytes_dropped[2] && line[8] == bytes_dropped[8]);
        }
        if ok.is_prefix_of(line) {
            assert(line[2] == ok[2]);
        }
    }
    if short {
        assert(lines.len() == 11);
        assert(lines[7][2] == 'L' && lines[8][2] == 'B' && lines[9][2] == '=' && lines[10][3]
            == 'B');
        assert(lines_dropped =~= lines[7].take(lines_dropped.len() as int));
        assert(bytes_dropped =~= lines[8].take(bytes_dropped.len() as int));
        assert(lines_dropped.is_prefix_of(lines[7]));
        assert(bytes_dropped.is_prefix_of(lines[8]));
        assert(confirmed.is_prefix_of(lines[10]));
        assert forall|i: int| 0 <= i < lines.len() implies !ok.is_prefix_of(#[trigger] lines[i]) by {
            if ok.is_prefix_of(lines[i]) {
                assert(lines[i][2] == ok[2] && lines[i][3] == ok[3]);
            }
        }
    } else {
        assert(lines.len() == 9);
        assert(lines[7][2] == '=' && lines[8][2] == '[' && lines[8][3] == 'O');
        assert(ok =~= lines[8].take(ok.len() as int));
        assert(ok.is_prefix_of(lines[8]));
        assert(lines.last()[3] != confirmed[3]);
        assert forall|i: int| 0 <= i < lines.len() implies {
            &&& !confirmed.is_prefix_of(#[trigger] lines[i])
            &&& !lines_dropped.is_prefix_of(lines[i])
            &&& !bytes_dropped.is_prefix_of(lines[i])
        } by {
            let line = lines[i];
            if confirmed.is_prefix_of(line) {
                assert(line[2] == confirmed[2] && line[3] == confirmed[3]);
            }
            if lines_dropped.is_prefix_of(line) {
                assert(line[2] == lines_dropped[2]);
            }
            if bytes_dropped.is_prefix_of(line) {
                assert(line[2] == bytes_dropped[2]);
            }
        }
    }
}

/// Each number of an assessment stands behind its label, in the same order for every
/// assessment, and the percentage behind what was dropped.
pub proof fn results_show_each_number(found: Assessment, percent: Seq<char>)
    ensures
        ({
            let lines = results_text(found, percent);
            let short = found.bytes_received < found.bytes_sent;
            let rule = "============================================================"@;
            let share = " ("@ + percent + "%)"@;
            &&& lines.len() == if short {
                11int
            } else {
                9int
            }
            &&& lines[0] == ""@ && lines[1] == rule && lines[2] == "RESULTS"@
            &&& shows(lines[3], "  Lines sent     : "@, found.lines_sent, Seq::empty())
            &&& shows(lines[4], "  Lines received : ~"@, found.lines_received, Seq::empty())
            &&& shows(lines[5], "  Bytes sent     : "@, found.bytes_sent, Seq::empty())
            &&& shows(lines[6], "  Bytes received : "@, found.bytes_received, Seq::empty())
            &&& short ==> shows(lines[7], "  Lines dropped  : ~"@, found.lines_dropped, share)
            &&& short ==> shows(lines[8], "  Bytes dropped  : "@, found.bytes_dropped, share)
            &&& lines[lines.len() - 2] == rule
            &&& !short ==> shows(
                lines[8],
                "  [OK] All "@,
                found.bytes_received,
                " chars received. Bug not reproduced."@,
            )
        }),
{
    let lines = results_text(found, percent);
    let share = " ("@ + percent + "%)"@;
    lemma_shows_at_the_end("  Lines sent     : "@, found.lines_sent);
    lemma_shows_at_the_end("  Lines received : ~"@, found.lines_received);
    lemma_shows_at_the_end("  Bytes sent     : "@, found.bytes_sent);
    lemma_shows_at_the_end("  Bytes received : "@, found.bytes_received);
    lemma_shows("  Lines dropped  : ~"@, found.lines_dropped, share);
    lemma_shows("  Bytes dropped  : "@, found.bytes_dropped, share);
    lemma_shows(
        "  [OK] All "@,
        found.bytes_received,
        " chars received. Bug not reproduced."@,
    );
    assert("  Lines dropped  : ~"@ + decimal_text(found.lines_dropped as nat) + " ("@ + percent
        + "%)"@ =~= "  Lines dropped  : ~"@ + decimal_text(found.lines_dropped as nat) + share);
    assert("  Bytes dropped  : "@ + decimal_text(found.bytes_dropped as nat) + " ("@ + percent
        + "%)"@ =~= "  Bytes dropped  : "@ + decimal_text(found.bytes_dropped as nat) + share);
}

/// An assessment keeps what was sent and what arrived. The lines received are as many full
/// lines as the bytes received could hold, each of 200 letters and a newline, unless exactly
/// what was sent arrived; what is dropped is what is missing, of bytes and of lines alike.
pub proof fn assessment_of_a_count(lines_sent: usize, bytes_sent: usize, received: usize)
    ensures
        ({
            let found = assessment(lines_sent, bytes_sent, received);
            &&& found.lines_sent == lines_sent
            &&& found.bytes_sent == bytes_sent
            &&& found.bytes_received == received
            &&& received == bytes_sent ==> found.lines_received == lines_sent
            &&& received != bytes_sent ==> 201 * found.lines_received <= received < 201 * (
            found.lines_received + 1)
            &&& found.bytes_received <= bytes_sent ==> found.bytes_received + found.bytes_dropped
                == bytes_sent
            &&& found.bytes_received > bytes_sent ==> found.bytes_dropped == 0
            &&& found.lines_received <= lines_sent ==> found.lines_received + found.lines_dropped
                == lines_sent
            &&& found.lines_received > lines_sent ==> found.lines_dropped == 0
        }),
{
}

/// The more bytes arrive of what was sent, the fewer are found dropped, and no more lines.
pub proof fn more_received_is_less_dropped(
    lines_sent: usize,
    bytes_sent: usize,
    fewer: usize,
    more: usize,
)
    requires
        fewer < more < bytes_sent,
    ensures
        ({
            let less = assessment(lines_sent, bytes_sent, fewer);
            let greater = assessment(lines_sent, bytes_sent, more);
            &&& greater.bytes_dropped < less.bytes_dropped
            &&& greater.lines_dropped <= less.lines_dropped
            &&& greater.lines_received >= less.lines_received
        }),
{
}

/// The lines that announce a run show the sizes and the distribution that they are given, and
/// say so where the default one is meant.
pub proof fn banner_shows_its_arguments(
    content: usize,
    n_lines: usize,
    content_bytes: usize,
    distro: Option<Seq<char>>,
) -> (parts: (Seq<char>, Seq<char>, Seq<char>))
    ensures
        ({
            let lines = banner_text(content as nat, n_lines as nat, content_bytes as nat, distro);
            let rule = "============================================================"@;
            let (first, second, third) = parts;
            &&& lines.len() == 6
            &&& lines[0] == rule && lines[4] == rule && lines[5] == ""@
            &&& lines[1] == "WSL ConPTY stdin truncation repro"@
            &&& lines[2] == first + second + third
            &&& shows(first, "  Content : "@, content, " A-chars in "@)
            &&& shows(second, Seq::empty(), n_lines, " lines ("@)
            &&& shows(third, Seq::empty(), content_bytes, " bytes with newlines)"@)
            &&& "  Distro  : "@.is_prefix_of(lines[3])
            &&& lines[3].skip(12) == match distro {
                Some(name) => name,
                None => "(default)"@,
            }
        }),
{
    let lines = banner_text(content as nat, n_lines as nat, content_bytes as nat, distro);
    let none = Seq::<char>::empty();
    let first = "  Content : "@ + decimal_text(content as nat) + " A-chars in "@;
    let second = none + decimal_text(n_lines as nat) + " lines ("@;
    let third = none + decimal_text(content_bytes as nat) + " bytes with newlines)"@;
    lemma_shows("  Content : "@, content, " A-chars in "@);
    lemma_shows(none, n_lines, " lines ("@);
    lemma_shows(none, content_bytes, " bytes with newlines)"@);
    assert(lines[2] =~= first + second + third);
    reveal_strlit("  Distro  : ");
    let name = match distro {
        Some(name) => name,
        None => "(default)"@,
    };
    assert(lines[3] == "  Distro  : "@ + name);
    assert(lines[3].take(12) =~= "  Distro  : "@);
    assert(lines[3].skip(12) =~= name);
    (first, second, third)
}

/// The lines after the start of bash name its whole command line and its process number.
pub proof fn starting_shows_its_arguments(command: Seq<char>, pid: u32)
    ensures
        ({
            let lines = starting_text(command, pid as nat);
            &&& lines.len() == 2
            &&& shows(lines[0], "  Spawned: "@ + command + "  PID="@, pid as usize, Seq::empty())
            &&& lines[1] == "Waiting 3 s for bash to start\u{2026}"@
        }),
{
    lemma_shows_at_the_end("  Spawned: "@ + command + "  PID="@, pid as usize);
}

/// The line before the script is sent shows how long the script is.
pub proof fn sending_shows_its_argument(total: usize)
    ensures
        ({
            let lines = sending_text(total as nat);
            &&& lines.len() == 1
            &&& shows(lines[0], "Sending "@, total, " raw bytes via ConPTY stdin\u{2026}"@)
        }),
{
    lemma_shows("Sending "@, total, " raw bytes via ConPTY stdin\u{2026}"@);
}

/// The lines after the script was sent show how much of it was written, and how long it is,
/// in this order.
pub proof fn delivered_shows_its_arguments(written: usize, total: usize) -> (parts: (
    Seq<char>,
    Seq<char>,
))
    ensures
        ({
            let lines = delivered_text(written as nat, total as nat);
            &&& lines.len() == 3
            &&& lines[0] == parts.0 + parts.1
            &&& shows(parts.0, "Write done: "@, written, "/"@)
            &&& shows(parts.1, Seq::empty(), total, " raw bytes delivered."@)
            &&& lines[1] == ""@
            &&& lines[2] == "Waiting up to 30 s for bash to exit\u{2026}"@
        }),
{
    let lines = delivered_text(written as nat, total as nat);
    let none = Seq::<char>::empty();
    let first = "Write done: "@ + decimal_text(written as nat) + "/"@;
    let second = none + decimal_text(total as nat) + " raw bytes delivered."@;
    lemma_shows("Write done: "@, written, "/"@);
    lemma_shows(none, total, " raw bytes delivered."@);
    assert(lines[0] =~= first + second);
    (first, second)
}

/// A bash that never left is reported as the bug, and never as what the results report.
pub proof fn timeout_is_reported(found: Assessment, percent: Seq<char>)
    ensures
        ({
            let lines = timed_out_text();
            &&& lines.len() == 3
            &&& lines[0] == ""@
            &&& lines[1] == "  [BUG] bash timed out \u{2014} EOM was dropped."@
            &&& lines[2] == "  wsl.exe is not delivering all ConPTY stdin bytes."@
            &&& lines != results_text(found, percent)
        }),
{
    assert(results_text(found, percent).len() > 3);
}

/// The line for a write that failed shows where it did and ends in the error.
pub proof fn write_error_shows_its_arguments(at: usize, error: Seq<char>)
    ensures
        shows(write_error_text(at as nat, error), "  write error at "@, at, ": "@ + error),
{
    lemma_shows("  write error at "@, at, ": "@ + error);
    assert(write_error_text(at as nat, error) =~= "  write error at "@ + decimal_text(at as nat) + (
    ": "@ + error));
}

} // verus!
