//! The script that is written to bash: a here-document of known size, the command that
//! stores its length, and the command that ends the shell.

use vstd::prelude::*;
use vstd::utf8::encode_utf8;

verus! {

/// How many `A`s the here-document holds.
pub const CONTENT: usize = 81_920;

/// How many `A`s a full line holds.
pub const LINE_LEN: usize = 200;

/// How many bytes a full line takes with its newline.
pub const LINE_BYTES: usize = LINE_LEN + 1;

/// The file, inside the distribution, that bash writes the length to.
pub const RESULT: &'static str = "/tmp/wsl_repro.txt";

/// How many lines hold `content` characters, at most `line_len` to a line.
pub open spec fn line_count(content: nat, line_len: nat) -> nat {
    ((content + line_len - 1) / line_len as int) as nat
}

/// How many characters stand in line `i`: a full line, or what is left for the last.
pub open spec fn line_size(content: nat, line_len: nat, i: int) -> nat {
    if content - i * line_len < line_len {
        (content - i * line_len) as nat
    } else {
        line_len
    }
}

/// A run of `n` times the letter `A`.
pub open spec fn letters(n: nat) -> Seq<u8> {
    Seq::new(n, |i: int| 0x41u8)
}

/// The lines that hold `content` letters.
pub open spec fn content_lines(content: nat, line_len: nat) -> Seq<Seq<u8>> {
    Seq::new(line_count(content, line_len), |i: int| letters(line_size(content, line_len, i)))
}

/// The contents of a vector of lines.
pub open spec fn line_views(lines: Seq<Vec<u8>>) -> Seq<Seq<u8>> {
    lines.map_values(|line: Vec<u8>| line@)
}

proof fn lemma_line_count(content: nat, line_len: nat, k: nat)
    requires
        line_len > 0,
        content <= k * line_len,
        k > 0 ==> (k - 1) * line_len < content,
    ensures
        line_count(content, line_len) == k,
{
    let x = content + line_len - 1;
    if k == 0 {
        assert(x / (line_len as int) == 0) by (nonlinear_arith)
            requires
                x == line_len - 1,
                line_len > 0,
        ;
    } else {
        assert(x / (line_len as int) == k) by (nonlinear_arith)
            requires
                line_len > 0,
                x == content + line_len - 1,
                content <= k * line_len,
                (k - 1) * line_len < content,
        ;
    }
}

/// Builds the lines that hold `content` letters.
pub fn build_lines(content: usize, line_len: usize) -> (lines: Vec<Vec<u8>>)
    requires
        line_len > 0,
    ensures
        line_views(lines@) == content_lines(content as nat, line_len as nat),
{
    let mut lines: Vec<Vec<u8>> = Vec::new();
    let mut left: usize = content;
    assert(0 * line_len == 0) by (nonlinear_arith);
    while left > 0
        invariant
            line_len > 0,
            left <= content,
            left > 0 ==> left == content - lines@.len() * line_len,
            left == 0 ==> content <= lines@.len() * line_len,
            left == 0 && lines@.len() > 0 ==> (lines@.len() - 1) * line_len < content,
            forall|i: int|
                0 <= i < lines@.len() ==> (#[trigger] lines@[i])@ == letters(
                    line_size(content as nat, line_len as nat, i),
                ),
        decreases left,
    {
        let n: usize = if left < line_len {
            left
        } else {
            line_len
        };
        let line: Vec<u8> = vec![0x41u8; n];
        assert(line@ =~= letters(line_size(content as nat, line_len as nat, lines@.len() as int)));
        let ghost k = lines@.len();
        lines.push(line);
        left -= n;
        assert((k + 1) * line_len == k * line_len + line_len) by (nonlinear_arith);
    }
    proof {
        lemma_line_count(content as nat, line_len as nat, lines@.len());
        assert(line_views(lines@) =~= content_lines(content as nat, line_len as nat));
    }
    lines
}

/// Lines with a newline between each two of them.
pub open spec fn joined(lines: Seq<Seq<u8>>) -> Seq<u8>
    decreases lines.len(),
{
    if lines.len() == 0 {
        Seq::empty()
    } else if lines.len() == 1 {
        lines[0]
    } else {
        joined(lines.drop_last()).push(0x0a) + lines.last()
    }
}

/// The bytes of the command that opens the here-document.
pub open spec fn opening() -> Seq<u8> {
    encode_utf8(" read -r -d '' VAR << 'EOM'\n"@)
}

/// The bytes that close the here-document and the line before.
pub open spec fn closing() -> Seq<u8> {
    encode_utf8("\nEOM\n"@)
}

/// The bytes of the commands that follow the here-document.
pub open spec fn commands(result: Seq<char>) -> Seq<u8> {
    encode_utf8(" echo ${#VAR} > "@) + encode_utf8(result) + encode_utf8("\n"@) + encode_utf8(
        " exit\n"@,
    )
}

/// The script that reads `lines` into a variable, stores the variable's length in the
/// file `result` and leaves the shell.
pub open spec fn script(lines: Seq<Seq<u8>>, result: Seq<char>) -> Seq<u8> {
    opening() + joined(lines) + closing() + commands(result)
}

fn append(bytes: &mut Vec<u8>, more: &[u8])
    ensures
        final(bytes)@ == old(bytes)@ + more@,
{
    bytes.extend_from_slice(more);
    assert(bytes@ =~= old(bytes)@ + more@);
}

/// Builds the script for `lines`.
pub fn build_script(lines: &Vec<Vec<u8>>, result: &str) -> (bytes: Vec<u8>)
    ensures
        bytes@ == script(line_views(lines@), result@),
{
    let mut bytes: Vec<u8> = Vec::new();
    let ghost views = line_views(lines@);
    append(&mut bytes, " read -r -d '' VAR << 'EOM'\n".as_bytes());
    assert(bytes@ =~= opening());
    let mut i: usize = 0;
    let n_lines = lines.len();
    while i < n_lines
        invariant
            i <= n_lines == lines@.len(),
            views == line_views(lines@),
            i == n_lines ==> bytes@ == opening() + joined(views),
            i < n_lines ==> bytes@ == opening() + (if i == 0 {
                Seq::empty()
            } else {
                joined(views.take(i as int)).push(0x0a)
            }),
        decreases n_lines - i,
    {
        let ghost before = bytes@;
        assert(views.take(i + 1).drop_last() =~= views.take(i as int));
        assert(views.take(n_lines as int) =~= views);
        append(&mut bytes, lines[i].as_slice());
        assert(bytes@ =~= opening() + joined(views.take(i + 1)));
        if i + 1 < n_lines {
            bytes.push(0x0a);
        }
        i += 1;
        assert(i < n_lines ==> bytes@ =~= opening() + joined(views.take(i as int)).push(0x0a));
    }
    append(&mut bytes, "\nEOM\n".as_bytes());
    append(&mut bytes, " echo ${#VAR} > ".as_bytes());
    append(&mut bytes, result.as_bytes());
    append(&mut bytes, "\n".as_bytes());
    append(&mut bytes, " exit\n".as_bytes());
    assert(bytes@ =~= script(views, result@));
    bytes
}

} // verus!
