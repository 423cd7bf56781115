use vstd::prelude::*;
use crate::text::chars_of;
use crate::utils::{first_at_or_after, lemma_first_at_or_after, lemma_first_is, texts};

verus! {

/// A line as it is read from a text: what stands before its line feed,
/// without a carriage return that stands right before the line feed. The
/// last line of a text that has no line feed is taken as it is.
pub open spec fn without_return(raw: Seq<char>, terminated: bool) -> Seq<char> {
    if terminated && raw.len() > 0 && raw.last() == '\r' {
        raw.drop_last()
    } else {
        raw
    }
}

/// Where the first line of a text ends: at its first line feed, or at the
/// end of the text if it has none.
pub open spec fn line_end(text: Seq<char>) -> int {
    first_at_or_after(|i: int| text[i] == '\n', 0, text.len() as int)
}

/// The lines of a text. Each line feed ends a line; what follows the last
/// line feed is a line too unless it is empty. The empty text has no lines.
pub open spec fn lines_of(text: Seq<char>) -> Seq<Seq<char>>
    decreases text.len(),
    via lines_of_decreases
{
    if text.len() == 0 {
        Seq::empty()
    } else {
        let end = line_end(text);
        if end < text.len() {
            seq![without_return(text.subrange(0, end), true)] + lines_of(
                text.subrange(end + 1, text.len() as int),
            )
        } else {
            seq![text]
        }
    }
}

#[via_fn]
proof fn lines_of_decreases(text: Seq<char>) {
    lemma_first_at_or_after(|i: int| text[i] == '\n', 0, text.len() as int);
}

/// The lines of a text joined into one, a line feed between each two.
pub open spec fn joined(lines: Seq<Seq<char>>) -> Seq<char>
    decreases lines.len(),
{
    if lines.len() == 0 {
        Seq::empty()
    } else if lines.len() == 1 {
        lines[0]
    } else {
        joined(lines.drop_last()) + seq!['\n'] + lines.last()
    }
}

/// The string of the characters `from..to` of `chars`.
fn string_between(chars: &Vec<char>, from: usize, to: usize) -> (s: String)
    requires
        from <= to <= chars.len(),
    ensures
        s@ == chars@.subrange(from as int, to as int),
{
    let mut s = String::new();
    let mut i = from;
    while i < to
        invariant
            from <= i <= to <= chars.len(),
            s@ == chars@.subrange(from as int, i as int),
        decreases to - i,
    {
        s.push(chars[i]);
        i += 1;
        assert(s@ =~= chars@.subrange(from as int, i as int));
    }
    s
}

/// The lines of a file with the contents `contents`, as they are loaded
/// into a buffer: split at the line feeds, each line without the carriage
/// return that may stand before its line feed.
pub fn load_file(contents: &str) -> (rows: Vec<String>)
    ensures
        texts(rows@) == lines_of(contents@),
{
    let chars = chars_of(contents);
    let n = chars.len();
    let mut rows: Vec<String> = Vec::new();
    let mut start: usize = 0;
    let mut i: usize = 0;
    let ghost text = contents@;
    proof {
        assert(text.subrange(0, n as int) =~= text);
        assert(texts(rows@) + lines_of(text) =~= lines_of(text));
    }
    while i < n
        invariant
            start <= i <= n,
            n == chars.len(),
            chars@ == text,
            lines_of(text) == texts(rows@) + lines_of(text.subrange(start as int, n as int)),
            forall|k: int| start <= k < i ==> text[k] != '\n',
        decreases n - i,
    {
        if chars[i] == '\n' {
            let ghost rest = text.subrange(start as int, n as int);
            let ghost is_feed = |k: int| rest[k] == '\n';
            proof {
                assert(is_feed(i - start));
                assert forall|k: int| 0 <= k < i - start implies !#[trigger] is_feed(k) by {
                    assert(rest[k] == text[start + k]);
                }
                lemma_first_is(is_feed, 0, rest.len() as int, i - start);
                assert(rest.subrange(0, i - start) =~= text.subrange(start as int, i as int));
                assert(rest.subrange(i - start + 1, rest.len() as int) =~= text.subrange(
                    i + 1,
                    n as int,
                ));
            }
            let end = if i > start && chars[i - 1] == '\r' {
                i - 1
            } else {
                i
            };
            let line = string_between(&chars, start, end);
            proof {
                let raw = text.subrange(start as int, i as int);
                assert(line@ =~= without_return(raw, true));
                assert(texts(rows@.push(line)) =~= texts(rows@) + seq![line@]);
            }
            rows.push(line);
            start = i + 1;
        }
        i += 1;
    }
    if start < n {
        let line = string_between(&chars, start, n);
        proof {
            let rest = text.subrange(start as int, n as int);
            let is_feed = |k: int| rest[k] == '\n';
            assert forall|k: int| 0 <= k < rest.len() implies !#[trigger] is_feed(k) by {
                assert(rest[k] == text[start + k]);
            }
            lemma_first_is(is_feed, 0, rest.len() as int, rest.len() as int);
            assert(texts(rows@.push(line)) =~= texts(rows@) + seq![line@]);
        }
        rows.push(line);
    } else {
        assert(text.subrange(start as int, n as int) =~= Seq::<char>::empty());
        assert(texts(rows@) + Seq::<Seq<char>>::empty() =~= texts(rows@));
    }
    rows
}

/// The contents of the file that holds the lines `rows`: the lines, a line
/// feed between each two.
pub fn file_contents(rows: &Vec<String>) -> (contents: String)
    ensures
        contents@ == joined(texts(rows@)),
{
    let mut contents = String::new();
    let mut i: usize = 0;
    let n = rows.len();
    let ghost lines = texts(rows@);
    while i < n
        invariant
            i <= n,
            n == rows.len(),
            lines == texts(rows@),
            contents@ == joined(lines.take(i as int)),
        decreases n - i,
    {
        let ghost before = lines.take(i as int);
        let ghost now = lines.take(i + 1);
        assert(now.drop_last() =~= before);
        assert(now.last() == rows@[i as int]@);
        if i > 0 {
            contents.push('\n');
        }
        contents.append(rows[i].as_str());
        i += 1;
        assert(contents@ =~= joined(now)) by {
            if i == 1 {
                assert(before.len() == 0);
                assert(now[0] == now.last());
            }
        }
    }
    assert(lines.take(n as int) =~= lines);
    contents
}

} // verus!
