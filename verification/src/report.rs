//! What the program prints, and the verdict that it comes to.

use crate::decimal::decimal;
use crate::decimal::decimal_text;
use crate::heredoc::line_count;
use crate::heredoc::LINE_BYTES;
use crate::heredoc::LINE_LEN;
use vstd::prelude::*;

verus! {

/// The texts of a list of lines.
pub open spec fn texts(lines: Seq<String>) -> Seq<Seq<char>> {
    lines.map_values(|line: String| line@)
}

/// The rule above and below each block.
pub const RULE: &'static str = "============================================================";

fn say(lines: &mut Vec<String>, line: String)
    ensures
        texts(final(lines)@) == texts(old(lines)@).push(line@),
{
    lines.push(line);
    assert(texts(lines@) =~= texts(old(lines)@).push(line@));
}

fn say_text(lines: &mut Vec<String>, line: &str)
    ensures
        texts(final(lines)@) == texts(old(lines)@).push(line@),
{
    say(lines, line.to_owned());
}

/// A label, a number and what follows it.
fn numbered(before: &str, n: usize, after: &str) -> (line: String)
    ensures
        line@ == before@ + decimal_text(n as nat) + after@,
{
    let mut line = before.to_owned();
    line.append(decimal(n).as_str());
    line.append(after);
    line
}

/// A label and a number.
fn labelled(label: &str, n: usize) -> (line: String)
    ensures
        line@ == label@ + decimal_text(n as nat),
{
    let mut line = label.to_owned();
    line.append(decimal(n).as_str());
    line
}

/// A label, a number and the percentage that it comes to.
fn shared(label: &str, n: usize, percent: &str) -> (line: String)
    ensures
        line@ == label@ + decimal_text(n as nat) + " ("@ + percent@ + "%)"@,
{
    let mut line = numbered(label, n, " (");
    line.append(percent);
    line.append("%)");
    line
}

/// The lines that announce a run.
pub open spec fn banner_text(
    content: nat,
    n_lines: nat,
    content_bytes: nat,
    distro: Option<Seq<char>>,
) -> Seq<Seq<char>> {
    seq![
        RULE@,
        "WSL ConPTY stdin truncation repro"@,
        "  Content : "@ + decimal_text(content) + " A-chars in "@ + decimal_text(n_lines)
            + " lines ("@ + decimal_text(content_bytes) + " bytes with newlines)"@,
        "  Distro  : "@ + (match distro {
            Some(name) => name,
            None => "(default)"@,
        }),
        RULE@,
        ""@,
    ]
}

/// Writes the lines that announce a run.
pub fn banner(content: usize, n_lines: usize, content_bytes: usize, distro: Option<&str>) -> (lines:
    Vec<String>)
    ensures
        texts(lines@) == banner_text(
            content as nat,
            n_lines as nat,
            content_bytes as nat,
            (match distro {
                Some(name) => Some(name@),
                None => None,
            }),
        ),
{
    let mut lines: Vec<String> = Vec::new();
    say_text(&mut lines, RULE);
    say_text(&mut lines, "WSL ConPTY stdin truncation repro");
    let mut sizes = numbered("  Content : ", content, " A-chars in ");
    sizes.append(decimal(n_lines).as_str());
    sizes.append(" lines (");
    sizes.append(decimal(content_bytes).as_str());
    sizes.append(" bytes with newlines)");
    say(&mut lines, sizes);
    let mut target = "  Distro  : ".to_owned();
    match distro {
        Some(name) => target.append(name),
        None => target.append("(default)"),
    }
    say(&mut lines, target);
    say_text(&mut lines, RULE);
    say_text(&mut lines, "");
    assert(texts(lines@) =~= banner_text(
        content as nat,
        n_lines as nat,
        content_bytes as nat,
        (match distro {
            Some(name) => Some(name@),
            None => None,
        }),
    ));
    lines
}

/// What arrived, held against what was sent.
#[derive(Clone, Copy, Debug, PartialEq, Eq, Structural)]
pub struct Assessment {
    pub lines_sent: usize,
    pub lines_received: usize,
    pub lines_dropped: usize,
    pub bytes_sent: usize,
    pub bytes_received: usize,
    pub bytes_dropped: usize,
}

/// A number less another, and no less than zero.
pub open spec fn monus(a: nat, b: nat) -> nat {
    if a < b {
        0
    } else {
        (a - b) as nat
    }
}

/// About how many lines `received` characters hold. A full line and its newline stand for
/// each; where exactly what was sent arrived, they are the lines that were sent, though the
/// last is shorter.
pub open spec fn lines_in(received: nat, lines_sent: nat, bytes_sent: nat) -> nat {
    if received == bytes_sent {
        lines_sent
    } else {
        received / LINE_BYTES as nat
    }
}

impl Assessment {
    /// Whether every byte arrived.
    pub open spec fn complete(self) -> bool {
        self.bytes_received >= self.bytes_sent
    }

    /// Whether every byte arrived.
    pub fn is_complete(&self) -> (yes: bool)
        ensures
            yes == self.complete(),
    {
        self.bytes_received >= self.bytes_sent
    }
}

/// The assessment of a count that bash reported.
pub open spec fn assessment(lines_sent: usize, bytes_sent: usize, received: usize) -> Assessment {
    let lines_received = lines_in(received as nat, lines_sent as nat, bytes_sent as nat);
    Assessment {
        lines_sent,
        lines_received: lines_received as usize,
        lines_dropped: monus(lines_sent as nat, lines_received) as usize,
        bytes_sent,
        bytes_received: received,
        bytes_dropped: monus(bytes_sent as nat, received as nat) as usize,
    }
}

/// Holds the count that bash reported against what was sent.
pub fn assess(lines_sent: usize, bytes_sent: usize, received: usize) -> (found: Assessment)
    ensures
        found == assessment(lines_sent, bytes_sent, received),
{
    let lines_received: usize = if received == bytes_sent {
        lines_sent
    } else {
        received / LINE_BYTES
    };
    Assessment {
        lines_sent,
        lines_received,
        lines_dropped: lines_sent.saturating_sub(lines_received),
        bytes_sent,
        bytes_received: received,
        bytes_dropped: bytes_sent.saturating_sub(received),
    }
}

/// Bytes are dropped exactly where not all arrived, and then what arrived and what was
/// dropped add up to what was sent.
pub proof fn dropped_bytes_add_up(lines_sent: usize, bytes_sent: usize, received: usize)
    ensures
        ({
            let found = assessment(lines_sent, bytes_sent, received);
            &&& found.complete() <==> found.bytes_dropped == 0
            &&& !found.complete() ==> found.bytes_received + found.bytes_dropped == found.bytes_sent
        }),
{
}

/// For the lines that the program sends, a line is dropped exactly where a byte is, unless
/// more bytes are counted than were sent and yet fewer than as many full lines hold. Where a
/// byte is dropped, the lines received and dropped add up to the lines sent.
pub proof fn dropped_lines_follow_bytes(content: nat, sent: usize, bytes: usize, received: usize)
    requires
        sent == line_count(content, LINE_LEN as nat),
        bytes == content + sent,
    ensures
        ({
            let found = assessment(sent, bytes, received);
            &&& !(bytes < received < sent * LINE_BYTES) ==> (found.complete() <==> found.lines_dropped
                == 0)
            &&& !found.complete() ==> found.lines_dropped > 0
            &&& !found.complete() ==> found.lines_received + found.lines_dropped == found.lines_sent
        }),
{
    let line_len = LINE_LEN as nat;
    assert(content <= sent * line_len) by (nonlinear_arith)
        requires
            line_len > 0,
            sent == (content + line_len - 1) / (line_len as int),
    ;
    assert(sent * line_len + sent == sent * (line_len + 1)) by (nonlinear_arith);
}

/// The lines that report what arrived. `percent` is the share of the bytes that was
/// dropped, as text.
pub open spec fn results_text(found: Assessment, percent: Seq<char>) -> Seq<Seq<char>> {
    let head = seq![
        ""@,
        RULE@,
        "RESULTS"@,
        "  Lines sent     : "@ + decimal_text(found.lines_sent as nat),
        "  Lines received : ~"@ + decimal_text(found.lines_received as nat),
        "  Bytes sent     : "@ + decimal_text(found.bytes_sent as nat),
        "  Bytes received : "@ + decimal_text(found.bytes_received as nat),
    ];
    if found.complete() {
        head + seq![
            RULE@,
            "  [OK] All "@ + decimal_text(found.bytes_received as nat)
                + " chars received. Bug not reproduced."@,
        ]
    } else {
        head + seq![
            "  Lines dropped  : ~"@ + decimal_text(found.lines_dropped as nat) + " ("@ + percent
                + "%)"@,
            "  Bytes dropped  : "@ + decimal_text(found.bytes_dropped as nat) + " ("@ + percent
                + "%)"@,
            RULE@,
            "  [BUG CONFIRMED]"@,
        ]
    }
}

/// Writes the lines that report what arrived.
pub fn results(found: &Assessment, percent: &str) -> (lines: Vec<String>)
    ensures
        texts(lines@) == results_text(*found, percent@),
{
    let mut lines: Vec<String> = Vec::new();
    say_text(&mut lines, "");
    say_text(&mut lines, RULE);
    say_text(&mut lines, "RESULTS");
    say(&mut lines, labelled("  Lines sent     : ", found.lines_sent));
    say(&mut lines, labelled("  Lines received : ~", found.lines_received));
    say(&mut lines, labelled("  Bytes sent     : ", found.bytes_sent));
    say(&mut lines, labelled("  Bytes received : ", found.bytes_received));
    if found.is_complete() {
        say_text(&mut lines, RULE);
        say(
            &mut lines,
            numbered("  [OK] All ", found.bytes_received, " chars received. Bug not reproduced."),
        );
    } else {
        say(&mut lines, shared("  Lines dropped  : ~", found.lines_dropped, percent));
        say(&mut lines, shared("  Bytes dropped  : ", found.bytes_dropped, percent));
        say_text(&mut lines, RULE);
        say_text(&mut lines, "  [BUG CONFIRMED]");
    }
    assert(texts(lines@) =~= results_text(*found, percent@));
    lines
}

/// The line that names a process that was started.
pub open spec fn spawned_text(command: Seq<char>, pid: nat) -> Seq<char> {
    "  Spawned: "@ + command + "  PID="@ + decimal_text(pid)
}

/// The lines between the start of bash and the pause that it gets to start up.
pub open spec fn starting_text(command: Seq<char>, pid: nat) -> Seq<Seq<char>> {
    seq![spawned_text(command, pid), "Waiting 3 s for bash to start\u{2026}"@]
}

/// Writes the lines between the start of bash and the pause.
pub fn starting(command: &str, pid: u32) -> (lines: Vec<String>)
    ensures
        texts(lines@) == starting_text(command@, pid as nat),
{
    let mut lines: Vec<String> = Vec::new();
    let mut spawned = "  Spawned: ".to_owned();
    spawned.append(command);
    spawned.append("  PID=");
    spawned.append(decimal(pid as usize).as_str());
    say(&mut lines, spawned);
    say_text(&mut lines, "Waiting 3 s for bash to start\u{2026}");
    assert(texts(lines@) =~= starting_text(command@, pid as nat));
    lines
}

/// The line before the script is sent.
pub open spec fn sending_text(total: nat) -> Seq<Seq<char>> {
    seq!["Sending "@ + decimal_text(total) + " raw bytes via ConPTY stdin\u{2026}"@]
}

/// Writes the line before the script is sent.
pub fn sending(total: usize) -> (lines: Vec<String>)
    ensures
        texts(lines@) == sending_text(total as nat),
{
    let mut lines: Vec<String> = Vec::new();
    say(&mut lines, numbered("Sending ", total, " raw bytes via ConPTY stdin\u{2026}"));
    assert(texts(lines@) =~= sending_text(total as nat));
    lines
}

/// The lines after the script was sent.
pub open spec fn delivered_text(written: nat, total: nat) -> Seq<Seq<char>> {
    seq![
        "Write done: "@ + decimal_text(written) + "/"@ + decimal_text(total)
            + " raw bytes delivered."@,
        ""@,
        "Waiting up to 30 s for bash to exit\u{2026}"@,
    ]
}

/// Writes the lines after the script was sent.
pub fn delivered(written: usize, total: usize) -> (lines: Vec<String>)
    ensures
        texts(lines@) == delivered_text(written as nat, total as nat),
{
    let mut lines: Vec<String> = Vec::new();
    let mut done = numbered("Write done: ", written, "/");
    done.append(decimal(total).as_str());
    done.append(" raw bytes delivered.");
    say(&mut lines, done);
    say_text(&mut lines, "");
    say_text(&mut lines, "Waiting up to 30 s for bash to exit\u{2026}");
    assert(texts(lines@) =~= delivered_text(written as nat, total as nat));
    lines
}

/// The lines for a bash that never left.
pub open spec fn timed_out_text() -> Seq<Seq<char>> {
    seq![
        ""@,
        "  [BUG] bash timed out \u{2014} EOM was dropped."@,
        "  wsl.exe is not delivering all ConPTY stdin bytes."@,
    ]
}

/// Writes the lines for a bash that never left.
pub fn timed_out() -> (lines: Vec<String>)
    ensures
        texts(lines@) == timed_out_text(),
{
    let mut lines: Vec<String> = Vec::new();
    say_text(&mut lines, "");
    say_text(&mut lines, "  [BUG] bash timed out \u{2014} EOM was dropped.");
    say_text(&mut lines, "  wsl.exe is not delivering all ConPTY stdin bytes.");
    assert(texts(lines@) =~= timed_out_text());
    lines
}

/// The line for a write that failed after `at` bytes.
pub open spec fn write_error_text(at: nat, error: Seq<char>) -> Seq<char> {
    "  write error at "@ + decimal_text(at) + ": "@ + error
}

/// Writes the line for a write that failed after `at` bytes.
pub fn write_error(at: usize, error: &str) -> (line: String)
    ensures
        line@ == write_error_text(at as nat, error@),
{
    let mut line = numbered("  write error at ", at, ": ");
    line.append(error);
    line
}

} // verus!
