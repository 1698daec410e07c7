//! Talking to the downloader: the query it is given, and the framing of
//! what it prints, one record per line.

use vstd::prelude::*;
use crate::text::joined;

verus! {

/// How many results a search asks for.
pub const SEARCH_RESULTS: u64 = 5;

/// The argument that asks the downloader for the first five results of a
/// search for `query`.
pub fn search_argument(query: &str) -> (argument: String)
    ensures
        argument@ == "ytsearch5:"@ + query@,
{
    joined("ytsearch5:", query)
}

/// The index of the first line feed in `text`, or its length.
pub open spec fn line_end(text: Seq<u8>) -> int
    decreases text.len(),
{
    if text.len() == 0 || text[0] == 10 {
        0
    } else {
        1 + line_end(text.drop_first())
    }
}

/// A line without the carriage return before its line feed.
pub open spec fn without_return(line: Seq<u8>) -> Seq<u8> {
    if line.len() > 0 && line.last() == 13 {
        line.drop_last()
    } else {
        line
    }
}

/// The lines of `text`: it is cut at each line feed, and a carriage return
/// before a line feed goes with it. Text after the last line feed is a line
/// of its own, as it stands; no text after it is no line.
pub open spec fn lines(text: Seq<u8>) -> Seq<Seq<u8>>
    decreases text.len(),
{
    if text.len() == 0 {
        Seq::<Seq<u8>>::empty()
    } else {
        let end = line_end(text);
        if 0 <= end < text.len() {
            seq![without_return(text.take(end))] + lines(text.skip(end + 1))
        } else {
            seq![text]
        }
    }
}

/// The first line feed lies inside the text or at its end, and no byte
/// before it is a line feed.
proof fn lemma_line_end(text: Seq<u8>)
    ensures
        0 <= line_end(text) <= text.len(),
        line_end(text) < text.len() ==> text[line_end(text)] == 10,
        forall|i: int| 0 <= i < line_end(text) ==> text[i] != 10,
    decreases text.len(),
{
    if text.len() != 0 && text[0] != 10 {
        lemma_line_end(text.drop_first());
        assert forall|i: int| 0 <= i < line_end(text) implies text[i] != 10 by {
            if i > 0 {
                assert(text.drop_first()[i - 1] == text[i]);
            }
        }
    }
}

/// An index is the first line feed if it is one and none comes before it.
proof fn lemma_line_end_is(text: Seq<u8>, end: int)
    requires
        0 <= end <= text.len(),
        end < text.len() ==> text[end] == 10,
        forall|i: int| 0 <= i < end ==> text[i] != 10,
    ensures
        line_end(text) == end,
{
    lemma_line_end(text);
}

/// A copy of the bytes `from..to`.
fn copy_range(text: &[u8], from: usize, to: usize) -> (out: Vec<u8>)
    requires
        from <= to <= text@.len(),
    ensures
        out@ == text@.subrange(from as int, to as int),
{
    let mut out: Vec<u8> = Vec::new();
    let mut i: usize = from;
    while i < to
        invariant
            from <= i <= to <= text@.len(),
            out@ == text@.subrange(from as int, i as int),
        decreases to - i,
    {
        out.push(text[i]);
        i += 1;
    }
    out
}

/// The contents of a list of byte strings.
pub open spec fn contents(found: Seq<Vec<u8>>) -> Seq<Seq<u8>> {
    Seq::new(found.len(), |i: int| found[i]@)
}

/// Cuts what the downloader printed into lines.
pub fn split_lines(text: &[u8]) -> (found: Vec<Vec<u8>>)
    ensures
        contents(found@) == lines(text@),
{
    let len: usize = text.len();
    let mut found: Vec<Vec<u8>> = Vec::new();
    let mut start: usize = 0;
    let mut i: usize = 0;
    assert(text@.skip(0) =~= text@);
    while i < len
        invariant
            start <= i <= len == text@.len(),
            forall|k: int| start <= k < i ==> text@[k] != 10,
            lines(text@) == contents(found@) + lines(text@.skip(start as int)),
        decreases len - i,
    {
        if text[i] == 10 {
            let end: usize = if i > start && text[i - 1] == 13 {
                i - 1
            } else {
                i
            };
            let line = copy_range(text, start, end);
            proof {
                let rest = text@.skip(start as int);
                lemma_line_end_is(rest, i - start);
                assert(without_return(rest.take(i - start)) =~= line@);
                assert(rest.skip(i - start + 1) =~= text@.skip(i + 1));
                assert(contents(found@).push(line@) + lines(text@.skip(i + 1))
                    =~= contents(found@) + lines(rest));
            }
            found.push(line);
            start = i + 1;
        }
        i += 1;
    }
    if start < len {
        let line = copy_range(text, start, len);
        proof {
            let rest = text@.skip(start as int);
            lemma_line_end_is(rest, len - start);
        }
        found.push(line);
    }
    found
}

} // verus!
