//! The text model: how a block of text falls into lines, what it means for a
//! line to hold a query, and ASCII lower-casing; with the std calls that
//! compute each of them.
use vstd::prelude::*;

verus! {

/// Index of the first `'\n'` in `s` at or after `from`, or `s.len()` if none.
pub open spec fn next_newline(s: Seq<char>, from: int) -> int
    decreases s.len() - from,
{
    if from < 0 || from >= s.len() {
        s.len() as int
    } else if s[from] == '\n' {
        from
    } else {
        next_newline(s, from + 1)
    }
}

/// A line that was ended by `'\n'` loses one `'\r'` just before it.
pub open spec fn strip_cr(t: Seq<char>) -> Seq<char> {
    if t.len() > 0 && t.last() == '\r' {
        t.drop_last()
    } else {
        t
    }
}

/// The lines of `s`: split at each `'\n'`, with `"\r\n"` as a line ending too.
/// The final line ending is optional, so text that ends with one has no empty
/// line after it; empty text has no lines at all.
pub open spec fn lines_of(s: Seq<char>) -> Seq<Seq<char>>
    decreases s.len(),
{
    if s.len() == 0 {
        Seq::empty()
    } else {
        let e = next_newline(s, 0);
        if !(0 <= e < s.len()) {
            seq![s]
        } else {
            seq![strip_cr(s.subrange(0, e))] + lines_of(s.subrange(e + 1, s.len() as int))
        }
    }
}

/// `q` stands in `t` as a contiguous run of characters.
pub open spec fn holds(t: Seq<char>, q: Seq<char>) -> bool {
    exists|i: int| 0 <= i && i + q.len() <= t.len() && #[trigger] t.subrange(i, i + q.len()) == q
}

/// ASCII `'A'..='Z'` become `'a'..='z'`; every other character stays.
pub open spec fn ascii_lower(c: char) -> char {
    if 'A' <= c && c <= 'Z' {
        ((c as u8) + 32) as u8 as char
    } else {
        c
    }
}

/// `s` with each character passed through `ascii_lower`.
pub open spec fn lower_seq(s: Seq<char>) -> Seq<char> {
    s.map_values(|c: char| ascii_lower(c))
}

/// The characters of each string in `v`, in order.
pub open spec fn views_of(v: Seq<&str>) -> Seq<Seq<char>> {
    v.map_values(|l: &str| l@)
}

/// Relies on `str::lines`: the lines of `s`, split at `"\n"` or `"\r\n"`,
/// without their endings and without an empty line after a final ending.
#[verifier::external_body]
pub(crate) fn split_lines<'a>(s: &'a str) -> (r: Vec<&'a str>)
    ensures
        views_of(r@) == lines_of(s@),
{
    s.lines().collect()
}

/// Relies on `str::contains` with a `&str` pattern: whether `needle` occurs in
/// `hay` as a substring.
#[verifier::external_body]
pub(crate) fn contains_str(hay: &str, needle: &str) -> (r: bool)
    ensures
        r == holds(hay@, needle@),
{
    hay.contains(needle)
}

/// Relies on `str::to_ascii_lowercase`: a copy of `s` with ASCII letters
/// mapped to lower case and every other character unchanged.
#[verifier::external_body]
pub(crate) fn to_ascii_lower(s: &str) -> (r: String)
    ensures
        r@ == lower_seq(s@),
{
    s.to_ascii_lowercase()
}

} // verus!
