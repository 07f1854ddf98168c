//! The wire format of the serial device: one record per line, fields separated
//! by a tab.
use vstd::prelude::*;

verus! {

/// The field separator of a line.
pub const SEPARATOR: char = '\t';

/// The characters that Unicode classes as white space.
pub open spec fn is_white_space(c: char) -> bool {
    ('\t' <= c && c <= '\r') || c == ' ' || c == '\u{85}' || c == '\u{A0}' || c == '\u{1680}'
        || ('\u{2000}' <= c && c <= '\u{200A}') || c == '\u{2028}' || c == '\u{2029}'
        || c == '\u{202F}' || c == '\u{205F}' || c == '\u{3000}'
}

/// A line without its trailing white space.
pub open spec fn trim_end(s: Seq<char>) -> Seq<char>
    decreases s.len(),
{
    if s.len() > 0 && is_white_space(s.last()) {
        trim_end(s.drop_last())
    } else {
        s
    }
}

/// The pieces of a text between separators, in order; a text without a
/// separator is one piece.
pub open spec fn split_fields(s: Seq<char>) -> Seq<Seq<char>>
    decreases s.len(),
{
    if s.len() == 0 {
        seq![Seq::empty()]
    } else {
        let prev = split_fields(s.drop_last());
        if s.last() == SEPARATOR {
            prev.push(Seq::empty())
        } else {
            prev.update(prev.len() - 1, prev.last().push(s.last()))
        }
    }
}

/// The record that a line carries, if it holds anything but white space.
pub open spec fn parse_record(line: Seq<char>) -> Option<Seq<Seq<char>>> {
    let body = trim_end(line);
    if body.len() == 0 {
        None
    } else {
        Some(split_fields(body))
    }
}

pub open spec fn texts(fields: Seq<String>) -> Seq<Seq<char>> {
    fields.map_values(|f: String| f@)
}

fn is_white_space_char(c: char) -> (r: bool)
    ensures
        r == is_white_space(c),
{
    ('\t' <= c && c <= '\r') || c == ' ' || c == '\u{85}' || c == '\u{A0}' || c == '\u{1680}'
        || ('\u{2000}' <= c && c <= '\u{200A}') || c == '\u{2028}' || c == '\u{2029}'
        || c == '\u{202F}' || c == '\u{205F}' || c == '\u{3000}'
}

/// The number of characters that remain once trailing white space is dropped.
fn trimmed_len(line: &str) -> (k: usize)
    ensures
        k <= line@.len(),
        line@.subrange(0, k as int) == trim_end(line@),
{
    let mut k = line.unicode_len();
    assert(line@.subrange(0, k as int) =~= line@);
    while k > 0 && is_white_space_char(line.get_char(k - 1))
        invariant
            k <= line@.len(),
            trim_end(line@.subrange(0, k as int)) == trim_end(line@),
        decreases k,
    {
        assert(line@.subrange(0, k as int).drop_last() =~= line@.subrange(0, k - 1));
        k = k - 1;
    }
    k
}

/// Splits `line[..end]` at each separator.
fn split_prefix(line: &str, end: usize) -> (r: Vec<String>)
    requires
        end <= line@.len(),
    ensures
        texts(r@) == split_fields(line@.subrange(0, end as int)),
{
    let mut fields: Vec<String> = Vec::new();
    let mut start: usize = 0;
    let mut i: usize = 0;
    assert(line@.subrange(0, 0) =~= Seq::<char>::empty());
    assert(texts(fields@).push(line@.subrange(0, 0)) =~= split_fields(line@.subrange(0, 0)));
    while i < end
        invariant
            start <= i <= end,
            end <= line@.len(),
            texts(fields@).push(line@.subrange(start as int, i as int)) == split_fields(
                line@.subrange(0, i as int),
            ),
        decreases end - i,
    {
        let c = line.get_char(i);
        let ghost whole = line@.subrange(0, i + 1);
        assert(whole.drop_last() =~= line@.subrange(0, i as int));
        assert(whole.last() == c);
        let ghost before = texts(fields@);
        if c == SEPARATOR {
            let piece = String::from_str(line.substring_char(start, i));
            fields.push(piece);
            assert(texts(fields@) =~= before.push(line@.subrange(start as int, i as int)));
            start = i + 1;
            assert(line@.subrange(start as int, i + 1) =~= Seq::<char>::empty());
            assert(texts(fields@).push(line@.subrange(start as int, i + 1)) =~= split_fields(whole));
        } else {
            assert(line@.subrange(start as int, i as int).push(c) =~= line@.subrange(
                start as int,
                i + 1,
            ));
            assert(before.push(line@.subrange(start as int, i + 1)) =~= split_fields(whole));
        }
        i = i + 1;
    }
    let last = String::from_str(line.substring_char(start, end));
    let ghost before = texts(fields@);
    fields.push(last);
    assert(texts(fields@) =~= before.push(line@.subrange(start as int, end as int)));
    fields
}

/// The record that a line read from the device carries: its trailing white
/// space (the line end among it) dropped, then split at each tab. A line of
/// white space alone carries none.
pub fn parse_line(line: &str) -> (r: Option<Vec<String>>)
    ensures
        r is None <==> parse_record(line@) is None,
        r matches Some(fields) ==> parse_record(line@) == Some(texts(fields@)),
{
    let k = trimmed_len(line);
    if k == 0 {
        return None;
    }
    Some(split_prefix(line, k))
}

} // verus!
