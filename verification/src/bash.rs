//! What a bash that receives every byte makes of the script.

use crate::heredoc::closing;
use crate::heredoc::commands;
use crate::heredoc::content_lines;
use crate::heredoc::joined;
use crate::heredoc::letters;
use crate::heredoc::line_count;
use crate::heredoc::line_size;
use crate::heredoc::opening;
use crate::heredoc::script;
use vstd::prelude::*;
use vstd::utf8::encode_utf8;
use vstd::utf8::is_ascii_chars;

verus! {

/// Where the first line of a text ends: at its newline, or with the text.
pub open spec fn line_end(text: Seq<u8>) -> int
    decreases text.len(),
{
    if text.len() == 0 || text.first() == 0x0a {
        0
    } else {
        1 + line_end(text.drop_first())
    }
}

/// The first line of a text.
pub open spec fn first_line(text: Seq<u8>) -> Seq<u8> {
    text.take(line_end(text))
}

/// A text without its first line and the newline after it.
pub open spec fn after_line(text: Seq<u8>) -> Seq<u8> {
    if line_end(text) < text.len() {
        text.skip(line_end(text) + 1)
    } else {
        Seq::empty()
    }
}

/// The line that ends a here-document.
pub open spec fn delimiter() -> Seq<u8> {
    seq![0x45u8, 0x4fu8, 0x4du8]
}

/// The first line ends at the first newline, or with the text where it has none.
pub proof fn lemma_line_end(text: Seq<u8>)
    ensures
        0 <= line_end(text) <= text.len(),
        line_end(text) < text.len() ==> text[line_end(text)] == 0x0a,
        forall|i: int| 0 <= i < line_end(text) ==> text[i] != 0x0a,
    decreases text.len(),
{
    if text.len() > 0 && text.first() != 0x0a {
        let rest = text.drop_first();
        lemma_line_end(rest);
        assert forall|i: int| 0 <= i < line_end(text) implies text[i] != 0x0a by {
            if i > 0 {
                assert(text[i] == rest[i - 1]);
            }
        }
    }
}

/// The lines that bash takes for a here-document: all up to the first that is the
/// delimiter.
pub open spec fn here_lines(text: Seq<u8>) -> Seq<Seq<u8>>
    decreases text.len(),
{
    proof {
        lemma_line_end(text);
    }
    if text.len() == 0 || first_line(text) == delimiter() {
        Seq::empty()
    } else {
        seq![first_line(text)] + here_lines(after_line(text))
    }
}

/// How many characters the variable has that holds these lines: each line and its
/// newline.
pub open spec fn bash_length(lines: Seq<Seq<u8>>) -> nat
    decreases lines.len(),
{
    if lines.len() == 0 {
        0
    } else {
        bash_length(lines.drop_last()) + lines.last().len() + 1
    }
}

/// A line that can stand in a here-document and is not taken for its end.
pub open spec fn plain_line(line: Seq<u8>) -> bool {
    !line.contains(0x0a) && line != delimiter()
}

/// Lines with a newline after each of them.
spec fn ended(lines: Seq<Seq<u8>>) -> Seq<u8>
    decreases lines.len(),
{
    if lines.len() == 0 {
        Seq::empty()
    } else {
        lines.first().push(0x0a) + ended(lines.drop_first())
    }
}

proof fn lemma_ended_last(lines: Seq<Seq<u8>>)
    requires
        lines.len() > 0,
    ensures
        ended(lines) == ended(lines.drop_last()) + lines.last().push(0x0a),
    decreases lines.len(),
{
    if lines.len() == 1 {
        assert(ended(lines.drop_first()) =~= Seq::<u8>::empty());
        assert(ended(lines.drop_last()) =~= Seq::<u8>::empty());
        assert(ended(lines) =~= ended(lines.drop_last()) + lines.last().push(0x0a));
    } else {
        lemma_ended_last(lines.drop_first());
        assert(lines.drop_first().drop_last() =~= lines.drop_last().drop_first());
        assert(ended(lines) =~= ended(lines.drop_last()) + lines.last().push(0x0a));
    }
}

proof fn lemma_joined_ended(lines: Seq<Seq<u8>>)
    requires
        lines.len() > 0,
    ensures
        joined(lines).push(0x0a) == ended(lines),
    decreases lines.len(),
{
    lemma_ended_last(lines);
    if lines.len() == 1 {
        assert(ended(lines.drop_last()) =~= Seq::<u8>::empty());
        assert(joined(lines).push(0x0a) =~= ended(lines));
    } else {
        lemma_joined_ended(lines.drop_last());
        assert(joined(lines).push(0x0a) =~= ended(lines));
    }
}

proof fn lemma_first_line(line: Seq<u8>, rest: Seq<u8>)
    requires
        !line.contains(0x0a),
    ensures
        first_line(line.push(0x0a) + rest) == line,
        after_line(line.push(0x0a) + rest) == rest,
{
    let text = line.push(0x0a) + rest;
    lemma_line_end(text);
    let end = line_end(text);
    if end < line.len() {
        assert(line[end] == 0x0a);
        assert(line.contains(0x0a));
    }
    if end > line.len() {
        assert(text[line.len() as int] == 0x0a);
    }
    assert(first_line(text) =~= line);
    assert(after_line(text) =~= rest);
}

proof fn lemma_here_lines(lines: Seq<Seq<u8>>, rest: Seq<u8>)
    requires
        forall|i: int| 0 <= i < lines.len() ==> plain_line(#[trigger] lines[i]),
    ensures
        here_lines(ended(lines) + delimiter().push(0x0a) + rest) == lines,
    decreases lines.len(),
{
    let text = ended(lines) + delimiter().push(0x0a) + rest;
    if lines.len() == 0 {
        assert(text =~= delimiter().push(0x0a) + rest);
        lemma_first_line(delimiter(), rest);
        assert(here_lines(text) =~= lines);
    } else {
        let others = lines.drop_first();
        let tail = ended(others) + delimiter().push(0x0a) + rest;
        assert(text =~= lines.first().push(0x0a) + tail);
        assert(plain_line(lines[0]));
        lemma_first_line(lines.first(), tail);
        assert forall|i: int| 0 <= i < others.len() implies plain_line(#[trigger] others[i]) by {
            assert(others[i] == lines[i + 1]);
        }
        lemma_here_lines(others, rest);
        assert(here_lines(text) =~= lines);
    }
}

proof fn lemma_literals()
    ensures
        opening().len() == 28,
        forall|i: int| 0 <= i < 27 ==> opening()[i] != 0x0a,
        opening()[27] == 0x0a,
        closing() == seq![0x0au8] + delimiter().push(0x0a),
{
    reveal_strlit(" read -r -d '' VAR << 'EOM'\n");
    reveal_strlit("\nEOM\n");
    assert(is_ascii_chars(" read -r -d '' VAR << 'EOM'\n"@));
    assert(is_ascii_chars("\nEOM\n"@));
    vstd::utf8::is_ascii_chars_encode_utf8(" read -r -d '' VAR << 'EOM'\n"@);
    vstd::utf8::is_ascii_chars_encode_utf8("\nEOM\n"@);
    assert(closing() =~= seq![0x0au8] + delimiter().push(0x0a));
}

/// Bash reads from the script the lines that it was built from, no more and no less.
pub proof fn here_document_reads_back(lines: Seq<Seq<u8>>, result: Seq<char>)
    requires
        lines.len() > 0,
        forall|i: int| 0 <= i < lines.len() ==> plain_line(#[trigger] lines[i]),
    ensures
        here_lines(after_line(script(lines, result))) == lines,
{
    lemma_literals();
    lemma_joined_ended(lines);
    let command = opening().take(27);
    let rest = ended(lines) + delimiter().push(0x0a) + commands(result);
    assert(opening() =~= command.push(0x0a));
    assert(!command.contains(0x0a));
    assert(script(lines, result) =~= command.push(0x0a) + rest);
    lemma_first_line(command, rest);
    lemma_here_lines(lines, commands(result));
}

proof fn lemma_length_of_lines(content: nat, line_len: nat, k: nat)
    requires
        line_len > 0,
        k <= line_count(content, line_len),
    ensures
        bash_length(content_lines(content, line_len).take(k as int)) == k + (if k * line_len
            < content {
            k * line_len
        } else {
            content
        }),
    decreases k,
{
    let lines = content_lines(content, line_len);
    if k > 0 {
        let before = (k - 1) as nat;
        lemma_length_of_lines(content, line_len, before);
        assert(lines.take(k as int).drop_last() =~= lines.take(before as int));
        assert(before * line_len < content) by (nonlinear_arith)
            requires
                line_len > 0,
                before + 1 <= (content + line_len - 1) / (line_len as int),
        ;
        assert(k * line_len == before * line_len + line_len) by (nonlinear_arith)
            requires
                k == before + 1,
        ;
    } else {
        assert(0 * line_len == 0) by (nonlinear_arith);
    }
}

/// A bash that receives the whole script counts every letter and one newline for each
/// line.
pub proof fn full_delivery_counts_all(content: nat, line_len: nat, result: Seq<char>)
    requires
        content > 0,
        line_len > 0,
    ensures
        bash_length(
            here_lines(after_line(script(content_lines(content, line_len), result))),
        ) == content + line_count(content, line_len),
{
    let lines = content_lines(content, line_len);
    let n = line_count(content, line_len);
    assert(n > 0 && content <= n * line_len) by (nonlinear_arith)
        requires
            content > 0,
            line_len > 0,
            n == (content + line_len - 1) / (line_len as int),
    ;
    assert forall|i: int| 0 <= i < lines.len() implies plain_line(#[trigger] lines[i]) by {
        let size = line_size(content, line_len, i);
        assert(lines[i] == letters(size));
        if lines[i] == delimiter() {
            assert(delimiter()[0] == 0x45);
            assert(letters(size)[0] == 0x41);
        }
    }
    here_document_reads_back(lines, result);
    lemma_length_of_lines(content, line_len, n);
    assert(lines.take(n as int) =~= lines);
}

} // verus!
