//! The search engine: given a query and a body of text, the ordered sequence
//! of lines that contain the query, either exactly or under case folding.
//!
//! The engine is a pure function of its inputs: its result is pinned to
//! [`search_spec`], so two calls on the same inputs return the same lines,
//! in the order in which they stand in the text.

use vstd::prelude::*;

use crate::lines::{lines_spec, split_lines};
use crate::text::{contains_substring, lemma_empty_needle_contained, str_contains};

verus! {

/// The case folding of a text, as `str::to_lowercase` computes it.
pub uninterp spec fn lower_of(s: Seq<char>) -> Seq<char>;

/// Relies on str::to_lowercase: a lowercase copy of the string, a function
/// of the characters alone.
#[verifier::external_body]
fn lowercase(s: &str) -> (r: String)
    ensures
        r@ == lower_of(s@),
{
    s.to_lowercase()
}

/// A line matches a query exactly when it contains it; under case folding,
/// when the folded line contains the folded query.
pub open spec fn line_matches(query: Seq<char>, line: Seq<char>, case_sensitive: bool) -> bool {
    if case_sensitive {
        contains_substring(line, query)
    } else {
        contains_substring(lower_of(line), lower_of(query))
    }
}

/// The lines of `contents` that match `query`, in their order of appearance.
pub open spec fn search_spec(query: Seq<char>, contents: Seq<char>, case_sensitive: bool) -> Seq<
    Seq<char>,
> {
    lines_spec(contents).filter(|l: Seq<char>| line_matches(query, l, case_sensitive))
}

/// The matching lines under the given case rule. Every line returned is a
/// view into `contents`; nothing is copied out of it.
pub fn search_with_case<'a>(query: &str, contents: &'a str, case_sensitive: bool) -> (res: Vec<
    &'a str,
>)
    ensures
        res.deep_view() == search_spec(query@, contents@, case_sensitive),
{
    let ghost pred = |l: Seq<char>| line_matches(query@, l, case_sensitive);
    let lines = split_lines(contents);
    let folded_query = if case_sensitive {
        String::new()
    } else {
        lowercase(query)
    };
    let mut res: Vec<&'a str> = Vec::new();
    let mut i: usize = 0;
    proof {
        assert(lines.deep_view().subrange(0, 0) =~= Seq::empty());
        assert(res.deep_view() =~= Seq::<Seq<char>>::empty().filter(pred));
    }
    while i < lines.len()
        invariant
            lines.deep_view() == lines_spec(contents@),
            i <= lines@.len(),
            lines@.len() == lines.deep_view().len(),
            pred == (|l: Seq<char>| line_matches(query@, l, case_sensitive)),
            !case_sensitive ==> folded_query@ == lower_of(query@),
            res.deep_view() == lines.deep_view().subrange(0, i as int).filter(pred),
        decreases lines@.len() - i,
    {
        let line = lines[i];
        let matched = if case_sensitive {
            str_contains(line, query)
        } else {
            let folded_line = lowercase(line);
            str_contains(folded_line.as_str(), folded_query.as_str())
        };
        proof {
            assert(lines.deep_view()[i as int] == line@);
            assert(matched == pred(line@));
            assert(lines.deep_view().subrange(0, i + 1) =~= lines.deep_view().subrange(
                0,
                i as int,
            ).push(line@));
            lines.deep_view().subrange(0, i as int).lemma_filter_push(line@, pred);
        }
        if matched {
            let ghost old_res = res.deep_view();
            res.push(line);
            proof {
                assert(res.deep_view() =~= old_res.push(line@));
            }
        }
        i += 1;
    }
    proof {
        assert(lines.deep_view().subrange(0, i as int) =~= lines.deep_view());
    }
    res
}

/// The lines of `contents` that contain `query`, character for character.
pub fn search<'a>(query: &str, contents: &'a str) -> (res: Vec<&'a str>)
    ensures
        res.deep_view() == search_spec(query@, contents@, true),
{
    search_with_case(query, contents, true)
}

/// The lines of `contents` whose case folding contains the case folding of
/// `query`. The lines come back as they stand in `contents`, unfolded.
pub fn search_case_insensitive<'a>(query: &str, contents: &'a str) -> (res: Vec<&'a str>)
    ensures
        res.deep_view() == search_spec(query@, contents@, false),
{
    search_with_case(query, contents, false)
}

/// A filter by a predicate that every element satisfies keeps the sequence
/// as it is.
proof fn lemma_filter_all_true(s: Seq<Seq<char>>, pred: spec_fn(Seq<char>) -> bool)
    requires
        forall|i: int| 0 <= i < s.len() ==> pred(#[trigger] s[i]),
    ensures
        s.filter(pred) == s,
    decreases s.len(),
{
    reveal(Seq::filter);
    if s.len() != 0 {
        lemma_filter_all_true(s.drop_last(), pred);
        assert(s.filter(pred) =~= s);
    }
}

/// The empty query matches every line: an exact search for it returns the
/// lines of the text themselves.
pub proof fn lemma_empty_query_matches_every_line(contents: Seq<char>)
    ensures
        search_spec(Seq::empty(), contents, true) == lines_spec(contents),
{
    let pred = |l: Seq<char>| line_matches(Seq::empty(), l, true);
    assert forall|i: int| 0 <= i < lines_spec(contents).len() implies pred(
        #[trigger] lines_spec(contents)[i],
    ) by {
        lemma_empty_needle_contained(lines_spec(contents)[i]);
    }
    lemma_filter_all_true(lines_spec(contents), pred);
}

/// When no line matches, the search returns the empty sequence; it has no
/// failing outcome.
pub proof fn lemma_no_match_yields_empty(query: Seq<char>, contents: Seq<char>, case_sensitive: bool)
    requires
        forall|i: int|
            0 <= i < lines_spec(contents).len() ==> !line_matches(
                query,
                #[trigger] lines_spec(contents)[i],
                case_sensitive,
            ),
    ensures
        search_spec(query, contents, case_sensitive).len() == 0,
{
    let pred = |l: Seq<char>| line_matches(query, l, case_sensitive);
    assert(lines_spec(contents).all(|l: Seq<char>| !pred(l)));
    lines_spec(contents).lemma_all_neg_filter_empty(pred);
}

/// The search is deterministic: any two results that the searching functions
/// may return for the same query, text and case rule are equal, since each is
/// pinned to `search_spec` of those inputs.
pub proof fn lemma_search_deterministic(
    query: Seq<char>,
    contents: Seq<char>,
    case_sensitive: bool,
    r1: Seq<Seq<char>>,
    r2: Seq<Seq<char>>,
)
    requires
        r1 == search_spec(query, contents, case_sensitive),
        r2 == search_spec(query, contents, case_sensitive),
    ensures
        r1 == r2,
{
}

/// Every line the search returns is a line of the text that matches the
/// query; the search invents nothing.
pub proof fn lemma_search_sound(
    query: Seq<char>,
    contents: Seq<char>,
    case_sensitive: bool,
    i: int,
)
    requires
        0 <= i < search_spec(query, contents, case_sensitive).len(),
    ensures
        line_matches(query, search_spec(query, contents, case_sensitive)[i], case_sensitive),
        lines_spec(contents).contains(search_spec(query, contents, case_sensitive)[i]),
{
    let pred = |l: Seq<char>| line_matches(query, l, case_sensitive);
    broadcast use Seq::lemma_filter_pred;

    let found = lines_spec(contents).filter(pred);
    assert(found.contains(found[i]));
    lines_spec(contents).lemma_filter_contains_rev(pred, found[i]);
}

/// Every matching line of the text is among the results: the search drops
/// nothing that matches.
pub proof fn lemma_search_complete(
    query: Seq<char>,
    contents: Seq<char>,
    case_sensitive: bool,
    i: int,
)
    requires
        0 <= i < lines_spec(contents).len(),
        line_matches(query, lines_spec(contents)[i], case_sensitive),
    ensures
        search_spec(query, contents, case_sensitive).contains(lines_spec(contents)[i]),
{
    let pred = |l: Seq<char>| line_matches(query, l, case_sensitive);
    lines_spec(contents).lemma_filter_contains(pred, i);
}

} // verus!
