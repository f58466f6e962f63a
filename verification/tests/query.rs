use github_stats::search::query::Query;
use github_stats::{Json, Member, Number, Repo, Response};

fn query_member(name: &str, value: Json) -> Member {
    Member { name: String::from(name), value }
}

fn query_text(value: &str) -> Json {
    Json::Text(String::from(value))
}

fn query_record(user: &str, name: &str) -> Repo {
    let base = Response::Document(Json::Object(vec![
        query_member("name", query_text(name)),
        query_member("created_at", query_text("2010-06-16T20:39:03Z")),
        query_member("updated_at", query_text("2024-01-01T00:00:00Z")),
        query_member("language", query_text("Rust")),
        query_member("size", Json::Number(Number::Unsigned(7))),
        query_member("stargazers_count", Json::Number(Number::Unsigned(1))),
        query_member("forks", Json::Number(Number::Unsigned(2))),
        query_member("fork", Json::Boolean(false)),
        query_member("languages_url", query_text("https://example.test/languages")),
    ]));
    let languages = Response::Document(Json::Object(vec![]));
    let issues = Response::Document(Json::List(vec![]));
    Repo::new(user, name, &base, &languages, &issues, &Response::NotFound).unwrap()
}

#[test]
fn built_query() {
    let query = Query::new()
        .repo("rust-lang", "rust")
        .type_("pr")
        .is("merged")
        .to_string();

    assert_eq!("q=repo:rust-lang/rust+is:merged+type:pr", query);
}

#[test]
fn empty_query_renders_the_prefix_alone() {
    assert_eq!("q=", Query::new().to_string());
    assert_eq!("q=", Query::default().to_string());
}

#[test]
fn single_term_has_no_separator() {
    assert_eq!("q=is:open", Query::new().is("open").to_string());
    assert_eq!("q=type:issue", Query::new().type_("issue").to_string());
    assert_eq!("q=repo:a/b", Query::new().repo("a", "b").to_string());
}

#[test]
fn categories_render_in_fixed_order_whatever_the_call_order() {
    let first = Query::new().is("merged").type_("pr").repo("rust-lang", "rust").to_string();
    let second = Query::new().type_("pr").repo("rust-lang", "rust").is("merged").to_string();
    assert_eq!("q=repo:rust-lang/rust+is:merged+type:pr", first);
    assert_eq!(first, second);
}

#[test]
fn terms_of_one_category_keep_insertion_order() {
    let query = Query::new()
        .is("merged")
        .repo("b", "two")
        .is("closed")
        .repo("a", "one")
        .to_string();
    assert_eq!("q=repo:b/two+repo:a/one+is:merged+is:closed", query);
}

#[test]
fn duplicate_terms_are_kept() {
    let query = Query::new().is("open").is("open").type_("pr").type_("pr").to_string();
    assert_eq!("q=is:open+is:open+type:pr+type:pr", query);
}

#[test]
fn terms_are_not_escaped() {
    let query = Query::new().repo("a b", "c+d").is("x:y").is("").to_string();
    assert_eq!("q=repo:a b/c+d+is:x:y+is:", query);
}

#[test]
fn rendering_leaves_the_query_usable() {
    let query = Query::new().is("open");
    assert_eq!("q=is:open", query.to_string());
    assert_eq!("q=is:open", query.to_string());
    let query = query.type_("issue");
    assert_eq!("q=is:open+type:issue", query.to_string());
}

#[test]
fn from_repo_seeds_the_full_name() {
    let record = query_record("rust-lang", "rust");
    assert_eq!("rust-lang/rust", record.full_name());
    let query = Query::from_repo(record);
    assert_eq!("q=repo:rust-lang/rust", query.to_string());
    assert_eq!("q=repo:rust-lang/rust+is:merged", query.is("merged").to_string());
}
