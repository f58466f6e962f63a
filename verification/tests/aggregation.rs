use github_stats::repository::aggregation::{Aggregation, Step};
use github_stats::{Error, Json, Kind, Member, Number, Repo, Response};

fn step_member(name: &str, value: Json) -> Member {
    Member { name: String::from(name), value }
}

fn step_text(value: &str) -> Json {
    Json::Text(String::from(value))
}

fn step_base() -> Response {
    Response::Document(Json::Object(vec![
        step_member("name", step_text("cargo")),
        step_member("created_at", step_text("2014-03-04T23:20:36Z")),
        step_member("updated_at", step_text("2024-01-05T11:12:13Z")),
        step_member("language", step_text("Rust")),
        step_member("homepage", step_text("")),
        step_member("size", Json::Number(Number::Unsigned(52))),
        step_member("stargazers_count", Json::Number(Number::Unsigned(11))),
        step_member("forks", Json::Number(Number::Unsigned(3))),
        step_member("fork", Json::Boolean(true)),
        step_member("languages_url", step_text("https://mirror.test/cargo/langs")),
    ]))
}

fn step_languages() -> Response {
    Response::Document(Json::Object(vec![step_member(
        "Rust",
        Json::Number(Number::Unsigned(5)),
    )]))
}

fn step_issues() -> Response {
    Response::Document(Json::List(vec![
        Json::Object(vec![step_member("state", step_text("open"))]),
        Json::Object(vec![
            step_member("state", step_text("closed")),
            step_member("pull_request", Json::Null),
        ]),
    ]))
}

fn step_release() -> Response {
    Response::Document(Json::Object(vec![
        step_member("tag_name", step_text("0.76.0")),
        step_member("published_at", step_text("2024-01-01T00:00:00Z")),
    ]))
}

fn next_request(step: Step) -> Aggregation {
    match step {
        Step::Request(next) => next,
        Step::Finished(_) => panic!("finished early"),
        Step::Failed(e) => panic!("failed: {:?}", e),
    }
}

fn failure(step: Step) -> Error {
    match step {
        Step::Failed(e) => e,
        _ => panic!("did not fail"),
    }
}

#[test]
fn the_four_requests_come_in_order() {
    let state = Aggregation::new("rust-lang", "cargo");
    assert_eq!("https://api.github.com/repos/rust-lang/cargo", state.endpoint());
    let state = next_request(state.advance(&step_base()));
    assert_eq!("https://mirror.test/cargo/langs", state.endpoint());
    let state = next_request(state.advance(&step_languages()));
    assert_eq!(
        "https://api.github.com/repos/rust-lang/cargo/issues?state=all",
        state.endpoint()
    );
    let state = next_request(state.advance(&step_issues()));
    assert_eq!(
        "https://api.github.com/repos/rust-lang/cargo/releases/latest",
        state.endpoint()
    );
    let record = match state.advance(&step_release()) {
        Step::Finished(record) => record,
        _ => panic!("not finished"),
    };
    assert_eq!("cargo", record.name());
    assert_eq!("rust-lang/cargo", record.full_name());
    assert_eq!(&None, record.homepage());
    assert_eq!(Some(5), record.languages().get("Rust"));
    assert_eq!(
        (1, 0, 0, 1),
        (
            record.open_issues(),
            record.closed_issues(),
            record.open_pull_requests(),
            record.closed_pull_requests()
        )
    );
    assert!(record.is_fork());
    assert_eq!(
        Some("0.76.0"),
        record.latest_release().as_ref().map(|release| release.tag_name())
    );
}

#[test]
fn stepping_gives_the_record_that_the_four_answers_give_at_once() {
    let state = Aggregation::new("rust-lang", "cargo");
    let state = next_request(state.advance(&step_base()));
    let state = next_request(state.advance(&step_languages()));
    let state = next_request(state.advance(&step_issues()));
    let stepped = match state.advance(&step_release()) {
        Step::Finished(record) => record,
        _ => panic!("not finished"),
    };
    let at_once = Repo::new(
        "rust-lang",
        "cargo",
        &step_base(),
        &step_languages(),
        &step_issues(),
        &step_release(),
    )
    .unwrap();
    assert_eq!(format!("{:?}", at_once), format!("{:?}", stepped));
}

#[test]
fn a_failure_at_any_request_ends_the_work() {
    let state = Aggregation::new("rust-lang", "cargo");
    assert_eq!(
        Error::NotFound { endpoint: String::from("https://api.github.com/repos/rust-lang/cargo") },
        failure(state.advance(&Response::NotFound))
    );
    let state = Aggregation::new("rust-lang", "cargo");
    assert_eq!(
        Error::FieldMissing { field: String::from("name"), expected: Kind::Text },
        failure(state.advance(&Response::Document(Json::Object(vec![]))))
    );
    let state = next_request(Aggregation::new("rust-lang", "cargo").advance(&step_base()));
    assert_eq!(
        Error::TransportFailure { endpoint: String::from("https://mirror.test/cargo/langs") },
        failure(state.advance(&Response::Unreachable))
    );
    let state = next_request(Aggregation::new("rust-lang", "cargo").advance(&step_base()));
    let state = next_request(state.advance(&step_languages()));
    assert_eq!(
        Error::DecodeFailure {
            endpoint: String::from("https://api.github.com/repos/rust-lang/cargo/issues?state=all")
        },
        failure(state.advance(&Response::Document(Json::Null)))
    );
    let state = next_request(Aggregation::new("rust-lang", "cargo").advance(&step_base()));
    let state = next_request(state.advance(&step_languages()));
    let state = next_request(state.advance(&step_issues()));
    assert_eq!(
        Error::DecodeFailure {
            endpoint: String::from("https://api.github.com/repos/rust-lang/cargo/releases/latest")
        },
        failure(state.advance(&Response::Undecodable))
    );
}

#[test]
fn the_last_request_finishes_without_a_release() {
    let state = next_request(Aggregation::new("rust-lang", "cargo").advance(&step_base()));
    let state = next_request(state.advance(&step_languages()));
    let state = next_request(state.advance(&step_issues()));
    match state.advance(&Response::NotFound) {
        Step::Finished(record) => assert_eq!(&None, record.latest_release()),
        _ => panic!("not finished"),
    }
}
