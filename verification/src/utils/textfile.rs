//! Removing the common indentation of a block of text.

use vstd::prelude::*;
use crate::utils::chars::{char_is_whitespace, chars_of, is_whitespace, string_of};

verus! {

/// The number of bytes that a character takes in UTF-8.
pub open spec fn spec_width(c: char) -> nat {
    if (c as u32) < 0x80 {
        1
    } else if (c as u32) < 0x800 {
        2
    } else if (c as u32) < 0x10000 {
        3
    } else {
        4
    }
}

/// The number of bytes that a text takes in UTF-8.
pub open spec fn spec_size(text: Seq<char>) -> nat
    decreases text.len(),
{
    if text.len() == 0 {
        0
    } else {
        spec_size(text.drop_last()) + spec_width(text.last())
    }
}

/// Where the first line of a text ends: at its first line feed, or at the
/// end of the text where it has none.
pub open spec fn spec_line_end(text: Seq<char>) -> nat
    decreases text.len(),
{
    if text.len() == 0 || text[0] == '\n' {
        0
    } else {
        1 + spec_line_end(text.drop_first())
    }
}

/// A line without the carriage return that stood before its line feed.
pub open spec fn spec_without_return(line: Seq<char>) -> Seq<char> {
    if line.len() > 0 && line.last() == '\r' {
        line.drop_last()
    } else {
        line
    }
}

/// The lines of a text. A line ends at a line feed, or at a carriage
/// return followed by one, neither of which belongs to it; the last line
/// ends with the text, and is no line if nothing stands in it.
pub open spec fn spec_lines(text: Seq<char>) -> Seq<Seq<char>>
    decreases text.len(),
{
    if text.len() == 0 {
        Seq::empty()
    } else {
        let end = spec_line_end(text) as int;
        if end >= text.len() {
            seq![text]
        } else {
            seq![spec_without_return(text.take(end))] + spec_lines(text.skip(end + 1))
        }
    }
}

/// The number of whitespace characters with which a line begins.
pub open spec fn spec_indent(line: Seq<char>) -> nat
    decreases line.len(),
{
    if line.len() == 0 || !char_is_whitespace(line[0]) {
        0
    } else {
        1 + spec_indent(line.drop_first())
    }
}

/// A line is blank when it holds nothing but whitespace.
pub open spec fn spec_blank(line: Seq<char>) -> bool {
    spec_indent(line) == line.len()
}

/// The least indentation among the lines that are not blank, if there is
/// such a line.
pub open spec fn spec_least_indent(lines: Seq<Seq<char>>) -> Option<nat>
    decreases lines.len(),
{
    if lines.len() == 0 {
        None
    } else {
        let before = spec_least_indent(lines.drop_last());
        let line = lines.last();
        if spec_blank(line) {
            before
        } else {
            match before {
                Some(least) if least <= spec_indent(line) => before,
                _ => Some(spec_indent(line)),
            }
        }
    }
}

/// The margin of a block of lines: the least indentation among the lines
/// that are not blank, and nothing where every line is blank.
pub open spec fn spec_margin(lines: Seq<Seq<char>>) -> nat {
    match spec_least_indent(lines) {
        Some(least) => least,
        None => 0,
    }
}

/// A line without its first `bytes` bytes. A line of fewer bytes is left
/// as it is. There is no such line where the bytes end inside a
/// character.
pub open spec fn spec_strip(line: Seq<char>, bytes: nat) -> Option<Seq<char>> {
    if spec_size(line) < bytes {
        Some(line)
    } else if exists|n: int| 0 <= n <= line.len() && #[trigger] spec_size(line.take(n)) == bytes {
        let n = choose|n: int| 0 <= n <= line.len() && #[trigger] spec_size(line.take(n)) == bytes;
        Some(line.skip(n))
    } else {
        None
    }
}

/// Lines put together with a line feed between each two.
pub open spec fn spec_join(lines: Seq<Seq<char>>) -> Seq<char>
    decreases lines.len(),
{
    if lines.len() == 0 {
        Seq::empty()
    } else if lines.len() == 1 {
        lines[0]
    } else {
        spec_join(lines.drop_last()) + seq!['\n'] + lines.last()
    }
}

/// The first `count` of the lines, each without its first `bytes` bytes.
pub open spec fn spec_stripped(lines: Seq<Seq<char>>, bytes: nat, count: nat) -> Seq<Seq<char>> {
    Seq::new(count, |k: int| spec_strip(lines[k], bytes).unwrap())
}

/// A text without its margin: its lines, each without as many bytes as the
/// margin counts characters, put together again with line feeds. The
/// margin is counted in characters and taken off in bytes, so there is no
/// such text where in some line that many bytes end inside a character;
/// this cannot happen in a text of ASCII characters.
pub open spec fn spec_dedent(text: Seq<char>) -> Option<Seq<char>> {
    let lines = spec_lines(text);
    let margin = spec_margin(lines);
    if forall|k: int| 0 <= k < lines.len() ==> (#[trigger] spec_strip(lines[k], margin)) is Some {
        Some(spec_join(spec_stripped(lines, margin, lines.len())))
    } else {
        None
    }
}

/// The lines held by a vector of vectors of characters.
pub open spec fn rows(lines: Seq<Vec<char>>) -> Seq<Seq<char>> {
    lines.map_values(|line: Vec<char>| line@)
}

/// One character more takes its bytes more.
proof fn lemma_size_step(text: Seq<char>, n: int)
    requires
        0 <= n < text.len(),
    ensures
        spec_size(text.take(n + 1)) == spec_size(text.take(n)) + spec_width(text[n]),
{
    assert(text.take(n + 1).drop_last() == text.take(n));
    assert(text.take(n + 1).last() == text[n]);
}

/// Every character takes a byte at least: a longer beginning of a text
/// takes more bytes.
proof fn lemma_size_grows(text: Seq<char>, shorter: int, longer: int)
    requires
        0 <= shorter <= longer <= text.len(),
    ensures
        spec_size(text.take(shorter)) + (longer - shorter) <= spec_size(text.take(longer)),
    decreases longer - shorter,
{
    if shorter < longer {
        lemma_size_grows(text, shorter, longer - 1);
        lemma_size_step(text, longer - 1);
    }
}

/// A text whose first `n` characters are no line feeds, and which ends
/// there or has a line feed there, has its first line end at `n`.
proof fn lemma_line_end(text: Seq<char>, n: int)
    requires
        0 <= n <= text.len(),
        forall|k: int| 0 <= k < n ==> text[k] != '\n',
        n == text.len() || text[n] == '\n',
    ensures
        spec_line_end(text) == n,
    decreases n,
{
    if n > 0 {
        lemma_line_end(text.drop_first(), n - 1);
    }
}

/// The lines of a text of ASCII characters are made of ASCII characters.
proof fn lemma_lines_of_ascii(text: Seq<char>, k: int)
    requires
        vstd::utf8::is_ascii_chars(text),
        0 <= k < spec_lines(text).len(),
    ensures
        vstd::utf8::is_ascii_chars(spec_lines(text)[k]),
    decreases text.len(),
{
    let end = spec_line_end(text) as int;
    if end < text.len() {
        if k > 0 {
            lemma_lines_of_ascii(text.skip(end + 1), k - 1);
        }
    }
}

/// A text of ASCII characters takes as many bytes as it has characters.
proof fn lemma_size_of_ascii(text: Seq<char>)
    requires
        vstd::utf8::is_ascii_chars(text),
    ensures
        spec_size(text) == text.len(),
    decreases text.len(),
{
    if text.len() > 0 {
        lemma_size_of_ascii(text.drop_last());
    }
}

/// Of a line of ASCII characters any number of bytes can be taken off.
proof fn lemma_strip_of_ascii(line: Seq<char>, bytes: nat)
    requires
        vstd::utf8::is_ascii_chars(line),
    ensures
        spec_strip(line, bytes) is Some,
{
    lemma_size_of_ascii(line);
    if spec_size(line) >= bytes {
        lemma_size_of_ascii(line.take(bytes as int));
    }
}

/// A text of ASCII characters can be dedented: in it no number of bytes
/// ends inside a character.
pub proof fn lemma_ascii_can_be_dedented(text: Seq<char>)
    requires
        vstd::utf8::is_ascii_chars(text),
    ensures
        spec_dedent(text) is Some,
{
    let lines = spec_lines(text);
    let margin = spec_margin(lines);
    assert forall|k: int| 0 <= k < lines.len() implies (#[trigger] spec_strip(lines[k], margin))
        is Some by {
        lemma_lines_of_ascii(text, k);
        lemma_strip_of_ascii(lines[k], margin);
    }
}

/// The number of bytes that a character takes in UTF-8.
fn width(c: char) -> (bytes: usize)
    ensures
        bytes == spec_width(c),
        1 <= bytes <= 4,
{
    let code: u32 = c as u32;
    if code < 0x80 {
        1
    } else if code < 0x800 {
        2
    } else if code < 0x10000 {
        3
    } else {
        4
    }
}

/// The number of whitespace characters with which a line begins.
fn indent(line: &Vec<char>) -> (count: usize)
    ensures
        count == spec_indent(line@),
        count <= line.len(),
{
    let mut count: usize = 0;
    proof {
        assert(line@.skip(0) == line@);
    }
    while count < line.len() && is_whitespace(line[count])
        invariant
            count <= line.len(),
            spec_indent(line@) == count + spec_indent(line@.skip(count as int)),
        decreases line.len() - count,
    {
        proof {
            assert(line@.skip(count as int).drop_first() == line@.skip(count as int + 1));
        }
        count += 1;
    }
    count
}

/// The margin of a block of lines.
fn margin(lines: &Vec<Vec<char>>) -> (least: usize)
    ensures
        least == spec_margin(rows(lines@)),
{
    let mut least: Option<usize> = None;
    let mut k: usize = 0;
    while k < lines.len()
        invariant
            k <= lines.len(),
            match least {
                Some(n) => spec_least_indent(rows(lines@).take(k as int)) == Some(n as nat),
                None => spec_least_indent(rows(lines@).take(k as int)) is None,
            },
        decreases lines.len() - k,
    {
        let count = indent(&lines[k]);
        proof {
            let upto = rows(lines@).take(k as int + 1);
            assert(upto.drop_last() == rows(lines@).take(k as int));
            assert(upto.last() == lines@[k as int]@);
        }
        if count < lines[k].len() {
            least =
            match least {
                Some(n) if n <= count => Some(n),
                _ => Some(count),
            };
        }
        k += 1;
    }
    proof {
        assert(rows(lines@).take(k as int) == rows(lines@));
    }
    match least {
        Some(n) => n,
        None => 0,
    }
}

/// After how many characters the first `bytes` bytes of a line end, where
/// they end between two characters; no characters at all for a line of
/// fewer bytes.
fn strip_point(line: &Vec<char>, bytes: usize) -> (point: Option<usize>)
    ensures
        match point {
            Some(n) => n <= line.len() && spec_strip(line@, bytes as nat) == Some(
                line@.skip(n as int),
            ),
            None => spec_strip(line@, bytes as nat) is None,
        },
{
    let mut n: usize = 0;
    let mut left: usize = bytes;
    while n < line.len() && left > 0
        invariant
            n <= line.len(),
            left <= bytes,
            spec_size(line@.take(n as int)) == bytes - left,
        decreases line.len() - n,
    {
        let bytes_here = width(line[n]);
        proof {
            lemma_size_step(line@, n as int);
        }
        if bytes_here > left {
            proof {
                lemma_size_grows(line@, n as int + 1, line@.len() as int);
                assert(line@.take(line@.len() as int) == line@);
                assert forall|m: int| 0 <= m <= line@.len() implies #[trigger] spec_size(
                    line@.take(m),
                ) != bytes by {
                    if m <= n {
                        lemma_size_grows(line@, m, n as int);
                    } else {
                        lemma_size_grows(line@, n as int + 1, m);
                    }
                }
            }
            return None;
        }
        left -= bytes_here;
        n += 1;
    }
    if left > 0 {
        proof {
            assert(line@.take(n as int) == line@);
            assert(line@.skip(0) == line@);
        }
        Some(0)
    } else {
        proof {
            lemma_size_grows(line@, n as int, line@.len() as int);
            assert(line@.take(line@.len() as int) == line@);
            let chosen = choose|m: int|
                0 <= m <= line@.len() && #[trigger] spec_size(line@.take(m)) == bytes;
            if chosen < n {
                lemma_size_grows(line@, chosen, n as int);
            } else if chosen > n {
                lemma_size_grows(line@, n as int, chosen);
            }
        }
        Some(n)
    }
}

/// The lines of a text.
fn split_lines(text: &Vec<char>) -> (lines: Vec<Vec<char>>)
    ensures
        rows(lines@) == spec_lines(text@),
{
    let mut lines: Vec<Vec<char>> = Vec::new();
    let mut start: usize = 0;
    proof {
        assert(text@.skip(0) == text@);
        assert(rows(lines@) + spec_lines(text@) == spec_lines(text@));
    }
    while start < text.len()
        invariant
            start <= text.len(),
            spec_lines(text@) == rows(lines@) + spec_lines(text@.skip(start as int)),
        decreases text.len() - start,
    {
        let mut line: Vec<char> = Vec::new();
        let mut end: usize = start;
        while end < text.len() && text[end] != '\n'
            invariant
                start <= end <= text.len(),
                line@ == text@.subrange(start as int, end as int),
                forall|k: int| start <= k < end ==> text@[k] != '\n',
            decreases text.len() - end,
        {
            line.push(text[end]);
            proof {
                assert(line@ == text@.subrange(start as int, end as int + 1));
            }
            end += 1;
        }
        let ghost rest = text@.skip(start as int);
        proof {
            lemma_line_end(rest, end - start);
            assert(rest.take(end - start) == text@.subrange(start as int, end as int));
        }
        let ended = end < text.len();
        if ended {
            let length = line.len();
            if length > 0 && line[length - 1] == '\r' {
                line.pop();
            }
            proof {
                assert(line@ == spec_without_return(rest.take(end - start)));
                assert(rest.skip(end - start + 1) == text@.skip(end as int + 1));
            }
        } else {
            proof {
                assert(line@ == rest);
                assert(spec_lines(text@.skip(text@.len() as int)) == Seq::<Seq<char>>::empty());
            }
        }
        let ghost before = rows(lines@);
        let ghost added = line@;
        lines.push(line);
        proof {
            assert(rows(lines@) == before + seq![added]);
            if ended {
                assert(spec_lines(rest) == seq![added] + spec_lines(text@.skip(end as int + 1)));
                assert(before + (seq![added] + spec_lines(text@.skip(end as int + 1))) == (before
                    + seq![added]) + spec_lines(text@.skip(end as int + 1)));
            } else {
                assert(spec_lines(rest) == seq![added]);
            }
        }
        start =
        if ended {
            end + 1
        } else {
            end
        };
    }
    proof {
        assert(rows(lines@) + Seq::<Seq<char>>::empty() == rows(lines@));
    }
    lines
}

/// Appends to `out` the characters of `line` from the one at `from` on.
fn append_from(out: &mut Vec<char>, line: &Vec<char>, from: usize)
    requires
        from <= line.len(),
    ensures
        final(out)@ == old(out)@ + line@.skip(from as int),
{
    let mut j: usize = from;
    while j < line.len()
        invariant
            from <= j <= line.len(),
            out@ == old(out)@ + line@.subrange(from as int, j as int),
        decreases line.len() - j,
    {
        out.push(line[j]);
        proof {
            assert(line@.subrange(from as int, j as int + 1) == line@.subrange(
                from as int,
                j as int,
            ).push(line@[j as int]));
        }
        j += 1;
    }
    proof {
        assert(line@.subrange(from as int, line@.len() as int) == line@.skip(from as int));
    }
}

/// Removes from every line of `s` the margin that its lines share, and
/// puts the lines together again with line feeds: see [`spec_dedent`].
/// Line endings with a carriage return come out as line feeds, and the
/// text loses the line feed it ended with.
///
/// The margin is the least number of whitespace characters with which a
/// line that is not blank begins. It is taken off every line in bytes;
/// where in some line that many bytes end inside a character there is no
/// result.
pub fn try_dedent(s: &str) -> (dedented: Option<String>)
    ensures
        match dedented {
            Some(text) => spec_dedent(s@) == Some(text@),
            None => spec_dedent(s@) is None,
        },
{
    let text = chars_of(s);
    let lines = split_lines(&text);
    let least = margin(&lines);
    let ghost all = spec_lines(s@);
    let mut out: Vec<char> = Vec::new();
    let mut k: usize = 0;
    while k < lines.len()
        invariant
            k <= lines.len(),
            all == rows(lines@),
            all == spec_lines(s@),
            least == spec_margin(all),
            forall|i: int| 0 <= i < k ==> (#[trigger] spec_strip(all[i], least as nat)) is Some,
            out@ == spec_join(spec_stripped(all, least as nat, k as nat)),
        decreases lines.len() - k,
    {
        let line = &lines[k];
        assert(all[k as int] == line@);
        let point = match strip_point(line, least) {
            Some(point) => point,
            None => {
                assert(spec_strip(all[k as int], least as nat) is None);
                return None;
            },
        };
        let ghost before = out@;
        if k > 0 {
            out.push('\n');
        }
        append_from(&mut out, line, point);
        proof {
            let kept = line@.skip(point as int);
            let upto = spec_stripped(all, least as nat, k as nat + 1);
            assert(upto.drop_last() == spec_stripped(all, least as nat, k as nat));
            assert(upto.last() == kept);
            if k > 0 {
                assert(out@ == before + seq!['\n'] + kept);
            } else {
                assert(out@ == kept);
            }
        }
        k += 1;
    }
    Some(string_of(&out))
}

/// Removes from every line of `s` the margin that its lines share: see
/// [`try_dedent`], of which this is the form for a text that has a
/// result. Every text of ASCII characters has one:
/// [`lemma_ascii_can_be_dedented`].
pub fn dedent(s: &str) -> (dedented: String)
    requires
        spec_dedent(s@) is Some,
    ensures
        dedented@ == spec_dedent(s@).unwrap(),
{
    match try_dedent(s) {
        Some(text) => text,
        None => vstd::pervasive::unreached(),
    }
}

} // verus!
