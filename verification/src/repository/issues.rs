//! Counting the entries of an issue listing.
//!
//! The platform lists pull requests among the issues. An entry is a pull
//! request where it has a member `pull_request`, whatever that member holds,
//! and a plain issue where it has none. An entry is open where its `state` is
//! the string `open`, and closed otherwise.

use vstd::prelude::*;
use vstd::string::StringExecFns;

use crate::error::{Error, Failure};
use crate::json::Json;
use crate::response::Response;

verus! {

/// Whether a listing entry is open.
pub open spec fn is_open(entry: Json) -> bool {
    entry.spec_text("state"@) == Ok::<Seq<char>, Failure>("open"@)
}

/// Whether a listing entry carries the marker of a pull request.
pub open spec fn is_pull_request(entry: Json) -> bool {
    entry.spec_field("pull_request"@) is Some
}

/// The entries that are open or not, as `open` says, and pull requests or
/// not, as `pull_request` says.
pub open spec fn in_class(open: bool, pull_request: bool) -> spec_fn(Json) -> bool {
    |entry: Json| is_open(entry) == open && is_pull_request(entry) == pull_request
}

/// The entries that are pull requests or not, as `pull_request` says.
pub open spec fn of_kind(pull_request: bool) -> spec_fn(Json) -> bool {
    |entry: Json| is_pull_request(entry) == pull_request
}

/// How many of `entries` are in the class that `open` and `pull_request` name.
pub open spec fn tally(entries: Seq<Json>, open: bool, pull_request: bool) -> nat {
    entries.filter(in_class(open, pull_request)).len()
}

/// The failure of the first of `entries` whose `state` cannot be read as a
/// string, if there is such an entry.
pub open spec fn first_unreadable(entries: Seq<Json>) -> Option<Failure>
    decreases entries.len(),
{
    if entries.len() == 0 {
        None
    } else {
        match entries[0].spec_text("state"@) {
            Err(e) => Some(e),
            Ok(_) => first_unreadable(entries.drop_first()),
        }
    }
}

/// The four counts of a listing, in the order open issues, closed issues,
/// open pull requests, closed pull requests.
pub open spec fn tallies(entries: Seq<Json>) -> (nat, nat, nat, nat) {
    (
        tally(entries, true, false),
        tally(entries, false, false),
        tally(entries, true, true),
        tally(entries, false, true),
    )
}

/// What counting the answer of `endpoint` gives: the failure of an answer
/// without a document, a decode failure for a document that is no list, the
/// failure of the first entry without a readable `state`, else the counts.
pub open spec fn spec_issue_stats(response: Response, endpoint: Seq<char>) -> Result<
    (nat, nat, nat, nat),
    Failure,
> {
    match response.spec_document(endpoint) {
        Err(e) => Err(e),
        Ok(Json::List(entries)) => match first_unreadable(entries@) {
            Some(e) => Err(e),
            None => Ok(tallies(entries@)),
        },
        Ok(_) => Err(Failure::DecodeFailure(endpoint)),
    }
}

/// The four classes divide a listing: the open and the closed issues are the
/// entries without the marker, the open and the closed pull requests are the
/// entries with it, and the four counts add up to the length of the listing.
pub proof fn lemma_tallies_partition(entries: Seq<Json>)
    ensures
        tally(entries, true, false) + tally(entries, false, false) == entries.filter(
            of_kind(false),
        ).len(),
        tally(entries, true, true) + tally(entries, false, true) == entries.filter(
            of_kind(true),
        ).len(),
        tally(entries, true, false) + tally(entries, false, false) + tally(entries, true, true)
            + tally(entries, false, true) == entries.len(),
    decreases entries.len(),
{
    reveal(Seq::filter);
    if entries.len() > 0 {
        lemma_tallies_partition(entries.drop_last());
    }
}

/// Counts the entries of the issue listing that `endpoint` answered with.
///
/// Only the entries of this one answer are counted: a listing that the
/// platform spreads over several pages is not followed.
pub fn issue_stats(endpoint: &str, response: &Response) -> (r: Result<(u64, u64, u64, u64), Error>)
    ensures
        match r {
            Ok(counts) => spec_issue_stats(*response, endpoint@) == Ok::<
                (nat, nat, nat, nat),
                Failure,
            >((counts.0 as nat, counts.1 as nat, counts.2 as nat, counts.3 as nat)),
            Err(e) => spec_issue_stats(*response, endpoint@) == Err::<
                (nat, nat, nat, nat),
                Failure,
            >(e@),
        },
        r matches Ok(counts) ==> response matches Response::Document(Json::List(entries)) && {
            &&& counts.0 + counts.1 == entries@.filter(of_kind(false)).len()
            &&& counts.2 + counts.3 == entries@.filter(of_kind(true)).len()
            &&& counts.0 + counts.1 + counts.2 + counts.3 == entries@.len()
        },
{
    let entries = match response.document(endpoint) {
        Err(e) => { return Err(e); },
        Ok(Json::List(entries)) => entries,
        Ok(_) => { return Err(Error::DecodeFailure { endpoint: String::from_str(endpoint) }); },
    };
    let open_state = String::from_str("open");
    let mut open_issues: u64 = 0;
    let mut closed_issues: u64 = 0;
    let mut open_pull_requests: u64 = 0;
    let mut closed_pull_requests: u64 = 0;
    let mut i: usize = 0;
    assert(entries@.skip(0) =~= entries@);
    assert(entries@.take(0) =~= Seq::<Json>::empty());
    proof {
        reveal(Seq::filter);
    }
    while i < entries.len()
        invariant
            i <= entries.len(),
            open_state@ == "open"@,
            response.spec_document(endpoint@) == Ok::<Json, Failure>(Json::List(*entries)),
            first_unreadable(entries@) == first_unreadable(entries@.skip(i as int)),
            open_issues == tally(entries@.take(i as int), true, false),
            closed_issues == tally(entries@.take(i as int), false, false),
            open_pull_requests == tally(entries@.take(i as int), true, true),
            closed_pull_requests == tally(entries@.take(i as int), false, true),
            open_issues + closed_issues + open_pull_requests + closed_pull_requests == i,
        decreases entries.len() - i,
    {
        proof {
            reveal(Seq::filter);
            assert(entries@.skip(i as int)[0] == entries@[i as int]);
            assert(entries@.skip(i as int).drop_first() =~= entries@.skip(i + 1));
            assert(entries@.take(i + 1).drop_last() =~= entries@.take(i as int));
            assert(entries@.take(i + 1).last() == entries@[i as int]);
        }
        let state = match entries[i].text("state") {
            Err(e) => { return Err(e); },
            Ok(state) => state,
        };
        let open = state == open_state;
        let pull_request = entries[i].field("pull_request").is_some();
        if pull_request {
            if open {
                open_pull_requests += 1;
            } else {
                closed_pull_requests += 1;
            }
        } else {
            if open {
                open_issues += 1;
            } else {
                closed_issues += 1;
            }
        }
        i += 1;
    }
    proof {
        assert(entries@.take(entries@.len() as int) =~= entries@);
        assert(entries@.skip(entries@.len() as int) =~= Seq::<Json>::empty());
        lemma_tallies_partition(entries@);
    }
    Ok((open_issues, closed_issues, open_pull_requests, closed_pull_requests))
}

} // verus!
