//! Search orchestrator: selects the single best match out of a ranked result
//! set and formats the reply text. The external search engine runs outside
//! this crate and hands its ranked results in as plain values, best first.

use vstd::prelude::*;

verus! {

/// One candidate match from the search engine: the matched title, its stable
/// external identifier, and an optional rating in tenths (a rating of 7.4 is
/// carried as 74).
#[derive(Debug)]
pub struct SearchHit {
    pub title: String,
    pub id: String,
    pub rating_tenths: Option<u32>,
}

/// Either the single best match of a search, or no results at all. An empty
/// result set is a normal outcome, never a failure.
#[derive(Debug)]
pub enum SearchOutcome {
    Best(SearchHit),
    NoResults,
}

/// Picks the best match out of a ranked result set: its first element, or
/// `NoResults` when the set is empty.
pub fn select_best(results: Vec<SearchHit>) -> (o: SearchOutcome)
    ensures
        results@.len() == 0 ==> o is NoResults,
        results@.len() > 0 ==> (o matches SearchOutcome::Best(h) && h == results@[0]),
{
    let mut results = results;
    if results.len() == 0 {
        SearchOutcome::NoResults
    } else {
        SearchOutcome::Best(results.remove(0))
    }
}

/// The base of the canonical reference URL for a matched title.
pub open spec fn reference_url_base() -> Seq<char> {
    "https://www.imdb.com/title/"@
}

/// The reply text for a search outcome: the matched title with its canonical
/// reference URL, or a fixed no-results notice.
pub open spec fn response_text(o: SearchOutcome) -> Seq<char> {
    match o {
        SearchOutcome::Best(h) => "Found: "@ + h.title@ + " "@ + reference_url_base() + h.id@,
        SearchOutcome::NoResults => "No results found"@,
    }
}

/// Formats the reply for a search outcome.
pub fn format_response(outcome: &SearchOutcome) -> (r: String)
    ensures
        r@ == response_text(*outcome),
{
    match outcome {
        SearchOutcome::Best(h) => {
            let mut r = String::from_str("Found: ");
            r.append(h.title.as_str());
            r.append(" ");
            r.append("https://www.imdb.com/title/");
            r.append(h.id.as_str());
            r
        },
        SearchOutcome::NoResults => String::from_str("No results found"),
    }
}

/// The whole reply for a ranked result set: the best match formatted, or the
/// no-results notice for an empty set.
pub open spec fn response_for_results(results: Seq<SearchHit>) -> Seq<char> {
    if results.len() == 0 {
        response_text(SearchOutcome::NoResults)
    } else {
        response_text(SearchOutcome::Best(results[0]))
    }
}

/// Builds the reply for a ranked result set. Total: an empty set yields the
/// no-results reply, never a failure, so no result set can take the message
/// loop down.
pub fn search_response(results: Vec<SearchHit>) -> (r: String)
    ensures
        r@ == response_for_results(results@),
{
    let ghost gresults = results@;
    let outcome = select_best(results);
    format_response(&outcome)
}

} // verus!
