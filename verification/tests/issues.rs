use github_stats::repository::issues::issue_stats;
use github_stats::{Error, Json, Kind, Member, Number, Response};

const ISSUES_ENDPOINT: &str = "https://api.github.com/repos/rust-lang/rust/issues?state=all";

fn issue_member(name: &str, value: Json) -> Member {
    Member { name: String::from(name), value }
}

fn issue(state: &str) -> Json {
    Json::Object(vec![
        issue_member("number", Json::Number(Number::Unsigned(1))),
        issue_member("state", Json::Text(String::from(state))),
    ])
}

fn pull_request(state: &str) -> Json {
    Json::Object(vec![
        issue_member("state", Json::Text(String::from(state))),
        issue_member("pull_request", Json::Object(vec![])),
    ])
}

#[test]
fn empty_listing_counts_nothing() {
    let listing = Response::Document(Json::List(vec![]));
    assert_eq!(Ok((0, 0, 0, 0)), issue_stats(ISSUES_ENDPOINT, &listing));
}

#[test]
fn entries_are_counted_by_state_and_marker() {
    let listing = Response::Document(Json::List(vec![
        issue("open"),
        pull_request("closed"),
        issue("closed"),
        issue("open"),
        pull_request("open"),
        issue("open"),
        pull_request("closed"),
        pull_request("closed"),
        pull_request("closed"),
    ]));
    assert_eq!(Ok((3, 1, 1, 4)), issue_stats(ISSUES_ENDPOINT, &listing));
}

#[test]
fn the_four_counts_divide_the_listing() {
    let entries = vec![
        issue("open"),
        issue("closed"),
        pull_request("open"),
        issue("closed"),
        pull_request("open"),
        pull_request("closed"),
        issue("open"),
    ];
    let without_marker =
        entries.iter().filter(|entry| entry.field("pull_request").is_none()).count() as u64;
    let with_marker =
        entries.iter().filter(|entry| entry.field("pull_request").is_some()).count() as u64;
    let total = entries.len() as u64;
    let (open_issues, closed_issues, open_pull_requests, closed_pull_requests) =
        issue_stats(ISSUES_ENDPOINT, &Response::Document(Json::List(entries))).unwrap();
    assert_eq!(without_marker, open_issues + closed_issues);
    assert_eq!(with_marker, open_pull_requests + closed_pull_requests);
    assert_eq!(
        total,
        open_issues + closed_issues + open_pull_requests + closed_pull_requests
    );
    assert_eq!((2, 2, 2, 1), (open_issues, closed_issues, open_pull_requests, closed_pull_requests));
}

#[test]
fn the_marker_counts_whatever_it_holds() {
    let entry = Json::Object(vec![
        issue_member("pull_request", Json::Null),
        issue_member("state", Json::Text(String::from("open"))),
    ]);
    let listing = Response::Document(Json::List(vec![entry]));
    assert_eq!(Ok((0, 0, 1, 0)), issue_stats(ISSUES_ENDPOINT, &listing));
}

#[test]
fn a_state_other_than_open_counts_as_closed() {
    let listing = Response::Document(Json::List(vec![issue("Open"), pull_request("merged")]));
    assert_eq!(Ok((0, 1, 0, 1)), issue_stats(ISSUES_ENDPOINT, &listing));
}

#[test]
fn an_entry_without_a_state_fails_the_count() {
    let listing = Response::Document(Json::List(vec![
        issue("open"),
        Json::Object(vec![issue_member("pull_request", Json::Object(vec![]))]),
        issue("closed"),
    ]));
    assert_eq!(
        Err(Error::FieldMissing { field: String::from("state"), expected: Kind::Text }),
        issue_stats(ISSUES_ENDPOINT, &listing)
    );
}

#[test]
fn an_entry_with_a_state_that_is_no_string_fails_the_count() {
    let listing = Response::Document(Json::List(vec![
        Json::Object(vec![issue_member("state", Json::Null)]),
        Json::Null,
    ]));
    assert_eq!(
        Err(Error::FieldTypeMismatch { field: String::from("state"), expected: Kind::Text }),
        issue_stats(ISSUES_ENDPOINT, &listing)
    );
}

#[test]
fn an_entry_that_is_no_object_has_no_state() {
    let listing = Response::Document(Json::List(vec![issue("open"), Json::Boolean(true)]));
    assert_eq!(
        Err(Error::FieldMissing { field: String::from("state"), expected: Kind::Text }),
        issue_stats(ISSUES_ENDPOINT, &listing)
    );
}

#[test]
fn a_listing_that_is_no_list_is_a_decode_failure() {
    let listing = Response::Document(Json::Object(vec![issue_member(
        "message",
        Json::Text(String::from("rate limited")),
    )]));
    assert_eq!(
        Err(Error::DecodeFailure { endpoint: String::from(ISSUES_ENDPOINT) }),
        issue_stats(ISSUES_ENDPOINT, &listing)
    );
}

#[test]
fn a_listing_that_did_not_arrive_fails_with_its_endpoint() {
    assert_eq!(
        Err(Error::TransportFailure { endpoint: String::from(ISSUES_ENDPOINT) }),
        issue_stats(ISSUES_ENDPOINT, &Response::Unreachable)
    );
    assert_eq!(
        Err(Error::DecodeFailure { endpoint: String::from(ISSUES_ENDPOINT) }),
        issue_stats(ISSUES_ENDPOINT, &Response::Undecodable)
    );
    assert_eq!(
        Err(Error::NotFound { endpoint: String::from(ISSUES_ENDPOINT) }),
        issue_stats(ISSUES_ENDPOINT, &Response::NotFound)
    );
}
