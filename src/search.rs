//! The line filter: keep, in order, each line of the contents that holds the
//! query, matched exactly or with ASCII letters folded to lower case.
use vstd::prelude::*;

use crate::text::{
    contains_str, holds, lines_of, lower_seq, split_lines, to_ascii_lower, views_of,
};

verus! {

/// Whether `line` is kept for `query`: exact containment, or containment
/// after both sides are lower-cased on their own when `ignore_case` is set.
pub open spec fn line_matches(line: Seq<char>, query: Seq<char>, ignore_case: bool) -> bool {
    if ignore_case {
        holds(lower_seq(line), lower_seq(query))
    } else {
        holds(line, query)
    }
}

/// The lines of `contents` that match `query`, in their original order.
pub open spec fn matching_lines(query: Seq<char>, contents: Seq<char>, ignore_case: bool) -> Seq<
    Seq<char>,
> {
    lines_of(contents).filter(|line: Seq<char>| line_matches(line, query, ignore_case))
}

/// The lines of `contents` that hold `query` exactly, in their original order.
pub fn search_case_sensitive<'a>(query: &str, contents: &'a str) -> (r: Vec<&'a str>)
    ensures
        views_of(r@) == matching_lines(query@, contents@, false),
        forall|k: int| 0 <= k < r@.len() ==> holds(#[trigger] r@[k]@, query@),
{
    let lines = split_lines(contents);
    let ghost all = views_of(lines@);
    let ghost pred = |line: Seq<char>| line_matches(line, query@, false);
    let mut out: Vec<&'a str> = Vec::new();
    for i in 0..lines.len()
        invariant
            all == views_of(lines@),
            all == lines_of(contents@),
            pred == (|line: Seq<char>| line_matches(line, query@, false)),
            views_of(out@) == all.subrange(0, i as int).filter(pred),
            forall|k: int| 0 <= k < out@.len() ==> holds(#[trigger] out@[k]@, query@),
    {
        let line = lines[i];
        proof {
            reveal(Seq::filter);
        }
        assert(all.subrange(0, i + 1).drop_last() =~= all.subrange(0, i as int));
        assert(all.subrange(0, i + 1).last() == line@);
        if contains_str(line, query) {
            assert(pred(line@));
            let ghost before = out@;
            out.push(line);
            assert(views_of(out@) =~= views_of(before).push(line@));
        } else {
            assert(!pred(line@));
        }
    }
    assert(all.subrange(0, lines@.len() as int) =~= all);
    out
}

/// The lines of `contents` that hold `query` once both are lower-cased (ASCII
/// letters only), in their original order.
pub fn search<'a>(query: &str, contents: &'a str) -> (r: Vec<&'a str>)
    ensures
        views_of(r@) == matching_lines(query@, contents@, true),
        forall|k: int|
            0 <= k < r@.len() ==> holds(lower_seq(#[trigger] r@[k]@), lower_seq(query@)),
{
    let lowered_query = to_ascii_lower(query);
    let lines = split_lines(contents);
    let ghost all = views_of(lines@);
    let ghost pred = |line: Seq<char>| line_matches(line, query@, true);
    let mut out: Vec<&'a str> = Vec::new();
    for i in 0..lines.len()
        invariant
            all == views_of(lines@),
            all == lines_of(contents@),
            lowered_query@ == lower_seq(query@),
            pred == (|line: Seq<char>| line_matches(line, query@, true)),
            views_of(out@) == all.subrange(0, i as int).filter(pred),
            forall|k: int|
                0 <= k < out@.len() ==> holds(lower_seq(#[trigger] out@[k]@), lower_seq(query@)),
    {
        let line = lines[i];
        proof {
            reveal(Seq::filter);
        }
        assert(all.subrange(0, i + 1).drop_last() =~= all.subrange(0, i as int));
        assert(all.subrange(0, i + 1).last() == line@);
        let lowered = to_ascii_lower(line);
        if contains_str(lowered.as_str(), lowered_query.as_str()) {
            assert(pred(line@));
            let ghost before = out@;
            out.push(line);
            assert(views_of(out@) =~= views_of(before).push(line@));
        } else {
            assert(!pred(line@));
        }
    }
    assert(all.subrange(0, lines@.len() as int) =~= all);
    out
}

} // verus!
