//! Facts about the line filter that relate its modes and inputs, proved over
//! `matching_lines`, the model both search functions are held to.
use vstd::prelude::*;

use crate::search::{line_matches, matching_lines};
use crate::text::{holds, lines_of, lower_seq};

verus! {

/// `idx` places each element of `a` at a distinct, increasing position of `b`
/// that holds the same element.
pub open spec fn is_embedding<A>(idx: Seq<int>, a: Seq<A>, b: Seq<A>) -> bool {
    &&& idx.len() == a.len()
    &&& forall|k: int| 0 <= k < idx.len() ==> 0 <= #[trigger] idx[k] < b.len() && a[k] == b[idx[k]]
    &&& forall|j: int, k: int| 0 <= j < k < idx.len() ==> #[trigger] idx[j] < #[trigger] idx[k]
}

/// `a` is `b` with some elements left out and the rest in their order.
pub open spec fn is_subsequence<A>(a: Seq<A>, b: Seq<A>) -> bool {
    exists|idx: Seq<int>| is_embedding(idx, a, b)
}

/// Filtering by a weaker predicate keeps everything a stronger one keeps, in
/// the same order.
proof fn lemma_filter_weaker<A>(s: Seq<A>, p1: spec_fn(A) -> bool, p2: spec_fn(A) -> bool) -> (idx:
    Seq<int>)
    requires
        forall|x: A| #[trigger] p1(x) ==> p2(x),
    ensures
        is_embedding(idx, s.filter(p1), s.filter(p2)),
    decreases s.len(),
{
    reveal(Seq::filter);
    if s.len() == 0 {
        Seq::empty()
    } else {
        let t = s.drop_last();
        let x = s.last();
        let idx0 = lemma_filter_weaker(t, p1, p2);
        let f2 = t.filter(p2);
        if p1(x) {
            let idx = idx0.push(f2.len() as int);
            assert(is_embedding(idx, s.filter(p1), s.filter(p2)));
            idx
        } else {
            assert(is_embedding(idx0, s.filter(p1), s.filter(p2)));
            idx0
        }
    }
}

/// Filtering by a predicate that holds everywhere keeps the sequence whole.
proof fn lemma_filter_everything<A>(s: Seq<A>, p: spec_fn(A) -> bool)
    requires
        forall|x: A| #[trigger] p(x),
    ensures
        s.filter(p) == s,
    decreases s.len(),
{
    reveal(Seq::filter);
    if s.len() > 0 {
        lemma_filter_everything(s.drop_last(), p);
        assert(s.drop_last().push(s.last()) =~= s);
    }
}

/// Every text holds the empty query.
proof fn lemma_holds_empty(t: Seq<char>)
    ensures
        holds(t, Seq::empty()),
{
    let q = Seq::<char>::empty();
    assert(t.subrange(0int, 0int + q.len()) =~= q);
    assert(holds(t, q));
}

/// Lower-casing both sides keeps an exact occurrence.
pub proof fn lower_keeps_occurrence(t: Seq<char>, q: Seq<char>)
    requires
        holds(t, q),
    ensures
        holds(lower_seq(t), lower_seq(q)),
{
    let i = choose|i: int| 0 <= i && i + q.len() <= t.len() && #[trigger] t.subrange(i, i + q.len()) == q;
    assert(lower_seq(t).subrange(i, i + q.len()) =~= lower_seq(q));
}

/// The matches are lines of the contents, kept in their original order: the
/// filter only leaves lines out, it never reorders, splits or alters them.
pub proof fn matches_are_lines_in_order(query: Seq<char>, contents: Seq<char>, ignore_case: bool)
    ensures
        is_subsequence(matching_lines(query, contents, ignore_case), lines_of(contents)),
{
    let lines = lines_of(contents);
    let pred = |line: Seq<char>| line_matches(line, query, ignore_case);
    let all = |line: Seq<char>| true;
    let idx = lemma_filter_weaker(lines, pred, all);
    lemma_filter_everything(lines, all);
    assert(is_embedding(idx, matching_lines(query, contents, ignore_case), lines));
}

/// An empty query matches every line, in either mode.
pub proof fn empty_query_keeps_every_line(contents: Seq<char>, ignore_case: bool)
    ensures
        matching_lines(Seq::empty(), contents, ignore_case) == lines_of(contents),
{
    let pred = |line: Seq<char>| line_matches(line, Seq::empty(), ignore_case);
    assert(lower_seq(Seq::empty()) =~= Seq::<char>::empty());
    assert forall|line: Seq<char>| #[trigger] pred(line) by {
        lemma_holds_empty(line);
        lemma_holds_empty(lower_seq(line));
    }
    lemma_filter_everything(lines_of(contents), pred);
}

/// Empty contents have no lines, so nothing matches, whatever the query.
pub proof fn empty_contents_has_no_matches(query: Seq<char>, ignore_case: bool)
    ensures
        matching_lines(query, Seq::empty(), ignore_case) == Seq::<Seq<char>>::empty(),
{
    reveal(Seq::filter);
}

/// Ignoring case only adds matches: each line that holds the query exactly
/// also matches with case ignored, so the exact matches are a subsequence of
/// the case-ignoring ones.
pub proof fn ignoring_case_keeps_exact_matches(query: Seq<char>, contents: Seq<char>)
    ensures
        forall|line: Seq<char>|
            #[trigger] line_matches(line, query, false) ==> line_matches(line, query, true),
        is_subsequence(matching_lines(query, contents, false), matching_lines(query, contents, true)),
{
    let exact = |line: Seq<char>| line_matches(line, query, false);
    let folded = |line: Seq<char>| line_matches(line, query, true);
    assert forall|line: Seq<char>| #[trigger] exact(line) implies folded(line) by {
        lower_keeps_occurrence(line, query);
    }
    assert forall|line: Seq<char>|
        #[trigger] line_matches(line, query, false) implies line_matches(line, query, true) by {
        assert(exact(line));
    }
    let idx = lemma_filter_weaker(lines_of(contents), exact, folded);
    assert(is_embedding(
        idx,
        matching_lines(query, contents, false),
        matching_lines(query, contents, true),
    ));
}

} // verus!
