//! What holds of the lines and the script, whatever they are built from, and what a bash that
//! receives the whole script does.

use crate::bash::after_line;
use crate::bash::bash_length;
use crate::bash::delimiter;
use crate::bash::first_line;
use crate::bash::here_lines;
use crate::bash::lemma_line_end;
use crate::bash::line_end;
use crate::bash::plain_line;
use crate::decimal::decimal_text;
use crate::heredoc::content_lines;
use crate::heredoc::joined;
use crate::heredoc::line_count;
use crate::heredoc::line_size;
use crate::heredoc::line_views;
use crate::heredoc::script;
use vstd::prelude::*;
use vstd::utf8::encode_scalar;
use vstd::utf8::encode_utf8;
use vstd::utf8::is_ascii_chars;

verus! {

/// The contents of a vector of lines are those of its lines, one for one.
pub proof fn line_views_are_the_lines(lines: Seq<Vec<u8>>)
    ensures
        line_views(lines).len() == lines.len(),
        forall|i: int| 0 <= i < lines.len() ==> #[trigger] line_views(lines)[i] == lines[i]@,
{
}

/// The lines hold exactly `content` bytes, all of them the letter `A`: every line but the last
/// is full, and the last holds what is left, which is never nothing.
pub proof fn lines_hold_the_content(content: nat, line_len: nat)
    requires
        line_len > 0,
    ensures
        ({
            let lines = content_lines(content, line_len);
            let n = lines.len();
            &&& n == 0 <==> content == 0
            &&& forall|i: int| 0 <= i < n - 1 ==> (#[trigger] lines[i]).len() == line_len
            &&& n > 0 ==> (n - 1) * line_len + lines[n - 1].len() == content
            &&& n > 0 ==> 0 < lines[n - 1].len() <= line_len
            &&& forall|i: int, j: int|
                0 <= i < n && 0 <= j < lines[i].len() ==> #[trigger] lines[i][j] == 'A' as u8
        }),
{
    let lines = content_lines(content, line_len);
    let n = line_count(content, line_len);
    assert(n == 0 <==> content == 0) by (nonlinear_arith)
        requires
            line_len > 0,
            n == (content + line_len - 1) / (line_len as int),
    ;
    if n > 0 {
        assert((n - 1) * line_len < content <= n * line_len) by (nonlinear_arith)
            requires
                n > 0,
                line_len > 0,
                n == (content + line_len - 1) / (line_len as int),
        ;
        assert(n * line_len == (n - 1) * line_len + line_len) by (nonlinear_arith);
        assert(lines[n - 1].len() == line_size(content, line_len, n - 1));
    }
    assert forall|i: int| 0 <= i < n - 1 implies (#[trigger] lines[i]).len() == line_len by {
        assert((i + 1) * line_len <= (n - 1) * line_len) by (nonlinear_arith)
            requires
                i + 1 <= n - 1,
                line_len > 0,
        ;
        assert((i + 1) * line_len == i * line_len + line_len) by (nonlinear_arith);
        assert(lines[i].len() == line_size(content, line_len, i));
    }
}

/// One line alone is joined to itself, and two runs of lines are joined by a newline.
pub proof fn newlines_stand_between_lines(a: Seq<Seq<u8>>, b: Seq<Seq<u8>>, line: Seq<u8>)
    ensures
        joined(Seq::<Seq<u8>>::empty()) == Seq::<u8>::empty(),
        joined(seq![line]) == line,
        a.len() > 0 && b.len() > 0 ==> joined(a + b) == joined(a).push('\n' as u8) + joined(b),
    decreases b.len(),
{
    if a.len() > 0 && b.len() > 0 {
        let all = a + b;
        assert(all.last() == b.last());
        if b.len() == 1 {
            assert(all.drop_last() =~= a);
            assert(b[0] == b.last());
            assert(joined(all) =~= joined(a).push(0x0a) + joined(b));
        } else {
            newlines_stand_between_lines(a, b.drop_last(), line);
            assert(all.drop_last() =~= a + b.drop_last());
            assert(joined(all) =~= joined(a).push(0x0a) + joined(b));
        }
    }
}

proof fn lemma_ascii(s: &str)
    requires
        is_ascii_chars(s@),
    ensures
        encode_utf8(s@).len() == s@.len(),
        forall|i: int| 0 <= i < s@.len() ==> #[trigger] encode_utf8(s@)[i] == s@[i] as u8,
{
    vstd::utf8::is_ascii_chars_encode_utf8(s@);
}

proof fn lemma_encode_two(a: Seq<char>, b: Seq<char>)
    ensures
        encode_utf8(a + b) == encode_utf8(a) + encode_utf8(b),
    decreases a.len(),
{
    if a.len() == 0 {
        assert(a + b =~= b);
        assert(encode_utf8(a) + encode_utf8(b) =~= encode_utf8(b));
    } else {
        lemma_encode_two(a.drop_first(), b);
        assert((a + b).drop_first() =~= a.drop_first() + b);
        assert((a + b)[0] == a[0]);
        assert(encode_utf8(a + b) =~= encode_utf8(a) + encode_utf8(b));
    }
}

/// Whatever the lines and the result file are, the script opens the here-document, holds the
/// lines, closes it, stores the length in the result file and then leaves, and nothing else.
pub proof fn script_stores_and_leaves(lines: Seq<Seq<u8>>, result: Seq<char>)
    ensures
        script(lines, result) == encode_utf8(" read -r -d '' VAR << 'EOM'\n"@) + joined(lines)
            + encode_utf8("\nEOM\n echo ${#VAR} > "@ + result + "\n exit\n"@),
{
    reveal_strlit("\nEOM\n");
    reveal_strlit(" echo ${#VAR} > ");
    reveal_strlit("\n");
    reveal_strlit(" exit\n");
    reveal_strlit("\nEOM\n echo ${#VAR} > ");
    reveal_strlit("\n exit\n");
    assert("\nEOM\n echo ${#VAR} > "@ =~= "\nEOM\n"@ + " echo ${#VAR} > "@);
    assert("\n exit\n"@ =~= "\n"@ + " exit\n"@);
    lemma_encode_two("\nEOM\n"@, " echo ${#VAR} > "@);
    lemma_encode_two("\n"@, " exit\n"@);
    lemma_encode_two("\nEOM\n echo ${#VAR} > "@, result);
    lemma_encode_two("\nEOM\n echo ${#VAR} > "@ + result, "\n exit\n"@);
    assert(script(lines, result) =~= encode_utf8(" read -r -d '' VAR << 'EOM'\n"@) + joined(lines)
        + encode_utf8("\nEOM\n echo ${#VAR} > "@ + result + "\n exit\n"@));
}

/// What follows a here-document: everything after the first line that is the delimiter.
pub open spec fn after_here(text: Seq<u8>) -> Seq<u8>
    decreases text.len(),
{
    proof {
        lemma_line_end(text);
    }
    if text.len() == 0 {
        Seq::empty()
    } else if first_line(text) == delimiter() {
        after_line(text)
    } else {
        after_here(after_line(text))
    }
}

/// The commands that bash runs of a text: its lines, up to the one that leaves.
pub open spec fn commands_run(text: Seq<u8>) -> Seq<Seq<u8>>
    decreases text.len(),
{
    proof {
        lemma_line_end(text);
    }
    if text.len() == 0 {
        Seq::empty()
    } else if first_line(text) == encode_utf8(" exit"@) {
        seq![first_line(text)]
    } else {
        seq![first_line(text)] + commands_run(after_line(text))
    }
}

/// The command that stores the length of the variable in a file.
pub open spec fn store_command(file: Seq<char>) -> Seq<u8> {
    encode_utf8(" echo ${#VAR} > "@ + file)
}

/// What a bash that receives the whole script leaves in a file: the length of what it read,
/// where it gets to store it there.
pub open spec fn stored(text: Seq<u8>, file: Seq<char>) -> Option<Seq<u8>> {
    if first_line(text) == encode_utf8(" read -r -d '' VAR << 'EOM'"@) && commands_run(
        after_here(after_line(text)),
    ).contains(store_command(file)) {
        Some(encode_utf8(decimal_text(bash_length(here_lines(after_line(text)))).push('\n')))
    } else {
        None
    }
}

proof fn lemma_number_of(c: char)
    ensures
        (c as u32) as int == c as int,
{
    assert(c as int <= 0x10ffff);
}

proof fn lemma_no_newline(s: Seq<char>)
    requires
        !s.contains('\n'),
    ensures
        !encode_utf8(s).contains(0x0a),
    decreases s.len(),
{
    if s.len() > 0 {
        let rest = s.drop_first();
        assert forall|i: int| 0 <= i < rest.len() implies rest[i] != '\n' by {
            assert(rest[i] == s[i + 1]);
        }
        lemma_no_newline(rest);
        let c = s[0] as u32;
        assert(s.contains(s[0]));
        lemma_number_of(s[0]);
        assert(c <= 0x7f && c != 0x0a ==> (c & 0x7f) as u8 != 0x0a) by (bit_vector);
        assert((0xC0u8 | ((c >> 6) & 0x1F) as u8) >= 0x80) by (bit_vector);
        assert((0xE0u8 | ((c >> 12) & 0x0F) as u8) >= 0x80) by (bit_vector);
        assert((0xF0u8 | ((c >> 18) & 0x7) as u8) >= 0x80) by (bit_vector);
        assert((0x80u8 | (c & 0x3F) as u8) >= 0x80) by (bit_vector);
        assert((0x80u8 | ((c >> 6) & 0x3F) as u8) >= 0x80) by (bit_vector);
        assert((0x80u8 | ((c >> 12) & 0x3F) as u8) >= 0x80) by (bit_vector);
        let head = encode_scalar(c);
        assert forall|i: int| 0 <= i < head.len() implies head[i] != 0x0a by {}
        let all = encode_utf8(s);
        assert(all == head + encode_utf8(rest));
        assert forall|i: int| 0 <= i < all.len() implies all[i] != 0x0a by {
            if i < head.len() {
                assert(all[i] == head[i]);
            } else {
                assert(all[i] == encode_utf8(rest)[i - head.len()]);
            }
        }
    }
}

proof fn lemma_cut_line(line: Seq<u8>, rest: Seq<u8>)
    requires
        !line.contains(0x0a),
    ensures
        first_line(line.push(0x0a) + rest) == line,
        after_line(line.push(0x0a) + rest) == rest,
{
    let text = line.push(0x0a) + rest;
    lemma_line_end(text);
    let end = line_end(text);
    if end < line.len() {
        assert(line[end] == 0x0a);
        assert(line.contains(0x0a));
    }
    if end > line.len() {
        assert(text[line.len() as int] == 0x0a);
    }
    assert(first_line(text) =~= line);
    assert(after_line(text) =~= rest);
}

proof fn lemma_after_here(lines: Seq<Seq<u8>>, rest: Seq<u8>)
    requires
        lines.len() > 0,
        forall|i: int| 0 <= i < lines.len() ==> plain_line(#[trigger] lines[i]),
    ensures
        after_here(joined(lines).push(0x0a) + delimiter().push(0x0a) + rest) == rest,
    decreases lines.len(),
{
    let end = delimiter().push(0x0a) + rest;
    let text = joined(lines).push(0x0a) + delimiter().push(0x0a) + rest;
    assert(plain_line(lines[0]));
    assert(!delimiter().contains(0x0a));
    if lines.len() == 1 {
        assert(text =~= lines[0].push(0x0a) + end);
        lemma_cut_line(lines[0], end);
        lemma_cut_line(delimiter(), rest);
        assert(after_here(end) == rest);
        assert(after_here(text) == after_here(end));
    } else {
        let others = lines.drop_first();
        assert(lines =~= seq![lines[0]] + others);
        newlines_stand_between_lines(seq![lines[0]], others, lines[0]);
        let tail = joined(others).push(0x0a) + delimiter().push(0x0a) + rest;
        assert(text =~= lines[0].push(0x0a) + tail);
        lemma_cut_line(lines[0], tail);
        assert forall|i: int| 0 <= i < others.len() implies plain_line(#[trigger] others[i]) by {
            assert(others[i] == lines[i + 1]);
        }
        lemma_after_here(others, rest);
        assert(after_here(text) == after_here(tail));
    }
}

/// Bash reads the here-document first. Then it runs the command that stores the length, and
/// then the one that leaves, and no other.
pub proof fn bash_stores_before_it_leaves(lines: Seq<Seq<u8>>, result: Seq<char>)
    requires
        lines.len() > 0,
        forall|i: int| 0 <= i < lines.len() ==> plain_line(#[trigger] lines[i]),
        !result.contains('\n'),
    ensures
        ({
            let text = script(lines, result);
            &&& first_line(text) == encode_utf8(" read -r -d '' VAR << 'EOM'"@)
            &&& here_lines(after_line(text)) == lines
            &&& commands_run(after_here(after_line(text))) == seq![
                store_command(result),
                encode_utf8(" exit"@),
            ]
        }),
{
    let text = script(lines, result);
    crate::bash::here_document_reads_back(lines, result);
    script_stores_and_leaves(lines, result);
    reveal_strlit(" read -r -d '' VAR << 'EOM'\n");
    reveal_strlit(" read -r -d '' VAR << 'EOM'");
    reveal_strlit("\nEOM\n echo ${#VAR} > ");
    reveal_strlit("\nEOM\n");
    reveal_strlit(" echo ${#VAR} > ");
    reveal_strlit("\n exit\n");
    reveal_strlit(" exit");
    reveal_strlit("\n");
    lemma_ascii("\n");
    lemma_ascii("\nEOM\n");
    lemma_ascii(" exit");
    lemma_ascii(" read -r -d '' VAR << 'EOM'");
    let newline = encode_utf8("\n"@);
    assert(newline =~= seq![0x0au8]);
    // The line that opens the here-document.
    let opening = encode_utf8(" read -r -d '' VAR << 'EOM'"@);
    assert(" read -r -d '' VAR << 'EOM'\n"@ =~= " read -r -d '' VAR << 'EOM'"@ + "\n"@);
    lemma_encode_two(" read -r -d '' VAR << 'EOM'"@, "\n"@);
    assert(!opening.contains(0x0a));
    // What follows the lines.
    let store = store_command(result);
    let leave = encode_utf8(" exit"@);
    let body = " echo ${#VAR} > "@ + result;
    assert("\nEOM\n echo ${#VAR} > "@ + result + "\n exit\n"@ =~= "\nEOM\n"@ + (body + ("\n"@ + (
    " exit"@ + "\n"@))));
    lemma_encode_two(" exit"@, "\n"@);
    lemma_encode_two("\n"@, " exit"@ + "\n"@);
    lemma_encode_two(body, "\n"@ + (" exit"@ + "\n"@));
    lemma_encode_two("\nEOM\n"@, body + ("\n"@ + (" exit"@ + "\n"@)));
    let last = leave.push(0x0a);
    let rest = store.push(0x0a) + last;
    assert(encode_utf8("\nEOM\n"@) =~= seq![0x0au8] + delimiter().push(0x0a));
    let inner = joined(lines).push(0x0a) + delimiter().push(0x0a) + rest;
    assert(text =~= opening.push(0x0a) + inner);
    lemma_cut_line(opening, inner);
    lemma_after_here(lines, rest);
    assert forall|i: int| 0 <= i < body.len() implies body[i] != '\n' by {
        let k = " echo ${#VAR} > "@.len();
        if i >= k {
            assert(body[i] == result[i - k]);
        }
    }
    lemma_no_newline(body);
    lemma_cut_line(store, last);
    assert(!leave.contains(0x0a));
    assert(last =~= leave.push(0x0a) + Seq::<u8>::empty());
    lemma_cut_line(leave, Seq::empty());
    assert(leave[1] == 'e' as u8 && leave.len() == 5);
    lemma_encode_two(" echo ${#VAR} > "@, result);
    lemma_ascii(" echo ${#VAR} > ");
    assert(store.len() >= 16);
    assert(commands_run(last) =~= seq![leave]);
    assert(commands_run(rest) =~= seq![store, leave]);
}

/// A bash that receives the whole script leaves in the result file the number of bytes of its
/// here-document, each line with its newline, as a line of its own.
pub proof fn bash_leaves_its_count(lines: Seq<Seq<u8>>, result: Seq<char>)
    requires
        lines.len() > 0,
        forall|i: int| 0 <= i < lines.len() ==> plain_line(#[trigger] lines[i]),
        !result.contains('\n'),
    ensures
        stored(script(lines, result), result) == Some(
            encode_utf8(decimal_text(bash_length(lines)).push('\n')),
        ),
        bash_length(lines) == joined(lines).len() + 1,
{
    bash_stores_before_it_leaves(lines, result);
    let commands = commands_run(after_here(after_line(script(lines, result))));
    assert(commands[0] == store_command(result));
    assert(commands.contains(store_command(result)));
    lemma_length_of_joined(lines);
}

proof fn lemma_length_of_joined(lines: Seq<Seq<u8>>)
    requires
        lines.len() > 0,
    ensures
        bash_length(lines) == joined(lines).len() + 1,
    decreases lines.len(),
{
    if lines.len() == 1 {
        assert(lines.drop_last() =~= Seq::<Seq<u8>>::empty());
        assert(bash_length(Seq::<Seq<u8>>::empty()) == 0);
    } else {
        lemma_length_of_joined(lines.drop_last());
    }
}

} // verus!
