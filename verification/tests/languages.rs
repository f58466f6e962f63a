use github_stats::repository::languages::from_api_url;
use github_stats::{Error, Json, Member, Number, Response};

const LANGUAGES_ENDPOINT: &str = "https://api.github.com/repos/rust-lang/rust/languages";

fn language(name: &str, bytes: u64) -> Member {
    Member { name: String::from(name), value: Json::Number(Number::Unsigned(bytes)) }
}

#[test]
fn languages_are_read_from_a_flat_object() {
    let response = Response::Document(Json::Object(vec![
        language("Rust", 98_765_432),
        language("Python", 1_234),
        language("Shell", 0),
    ]));
    let languages = from_api_url(LANGUAGES_ENDPOINT, &response).unwrap();
    assert_eq!(3, languages.len());
    assert!(!languages.is_empty());
    assert_eq!(Some(98_765_432), languages.get("Rust"));
    assert_eq!(Some(1_234), languages.get("Python"));
    assert_eq!(Some(0), languages.get("Shell"));
    assert_eq!(None, languages.get("rust"));
    assert_eq!(None, languages.get(""));
    let mut names = languages.names();
    names.sort();
    assert_eq!(vec![String::from("Python"), String::from("Rust"), String::from("Shell")], names);
}

#[test]
fn an_empty_object_gives_an_empty_map() {
    let response = Response::Document(Json::Object(vec![]));
    let languages = from_api_url(LANGUAGES_ENDPOINT, &response).unwrap();
    assert!(languages.is_empty());
    assert_eq!(0, languages.len());
    assert_eq!(None, languages.get("Rust"));
    assert!(languages.names().is_empty());
}

#[test]
fn a_name_that_occurs_twice_is_held_once_with_its_first_count() {
    let response = Response::Document(Json::Object(vec![
        language("Rust", 10),
        language("C", 20),
        language("Rust", 30),
    ]));
    let languages = from_api_url(LANGUAGES_ENDPOINT, &response).unwrap();
    assert_eq!(2, languages.len());
    assert_eq!(Some(10), languages.get("Rust"));
    assert_eq!(Some(20), languages.get("C"));
}

#[test]
fn the_largest_count_is_kept_as_it_is() {
    let response = Response::Document(Json::Object(vec![language("Rust", u64::MAX)]));
    let languages = from_api_url(LANGUAGES_ENDPOINT, &response).unwrap();
    assert_eq!(Some(u64::MAX), languages.get("Rust"));
}

#[test]
fn a_count_that_is_no_unsigned_integer_is_a_decode_failure() {
    let failure = Err(Error::DecodeFailure { endpoint: String::from(LANGUAGES_ENDPOINT) });
    let negative = Response::Document(Json::Object(vec![
        language("Rust", 10),
        Member { name: String::from("C"), value: Json::Number(Number::Negative(-1)) },
    ]));
    assert_eq!(failure, from_api_url(LANGUAGES_ENDPOINT, &negative).map(|m| m.len()));
    let fraction = Response::Document(Json::Object(vec![Member {
        name: String::from("C"),
        value: Json::Number(Number::Real(0x3FF8_0000_0000_0000)),
    }]));
    assert_eq!(failure, from_api_url(LANGUAGES_ENDPOINT, &fraction).map(|m| m.len()));
    let text = Response::Document(Json::Object(vec![Member {
        name: String::from("C"),
        value: Json::Text(String::from("12")),
    }]));
    assert_eq!(failure, from_api_url(LANGUAGES_ENDPOINT, &text).map(|m| m.len()));
    let shadowed = Response::Document(Json::Object(vec![
        language("C", 1),
        Member { name: String::from("C"), value: Json::Null },
    ]));
    assert_eq!(failure, from_api_url(LANGUAGES_ENDPOINT, &shadowed).map(|m| m.len()));
}

#[test]
fn a_document_that_is_no_object_is_a_decode_failure() {
    let failure = Err(Error::DecodeFailure { endpoint: String::from(LANGUAGES_ENDPOINT) });
    let list = Response::Document(Json::List(vec![]));
    assert_eq!(failure, from_api_url(LANGUAGES_ENDPOINT, &list).map(|m| m.len()));
    let null = Response::Document(Json::Null);
    assert_eq!(failure, from_api_url(LANGUAGES_ENDPOINT, &null).map(|m| m.len()));
}

#[test]
fn languages_that_did_not_arrive_fail_with_the_endpoint() {
    assert_eq!(
        Err(Error::TransportFailure { endpoint: String::from(LANGUAGES_ENDPOINT) }),
        from_api_url(LANGUAGES_ENDPOINT, &Response::Unreachable).map(|m| m.len())
    );
    assert_eq!(
        Err(Error::DecodeFailure { endpoint: String::from(LANGUAGES_ENDPOINT) }),
        from_api_url(LANGUAGES_ENDPOINT, &Response::Undecodable).map(|m| m.len())
    );
    assert_eq!(
        Err(Error::NotFound { endpoint: String::from(LANGUAGES_ENDPOINT) }),
        from_api_url(LANGUAGES_ENDPOINT, &Response::NotFound).map(|m| m.len())
    );
}
