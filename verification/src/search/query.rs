//! A search query, built up term by term and rendered as one string.

use vstd::prelude::*;
use vstd::string::StringExecFns;

use crate::repository::Repo;

verus! {

/// The filters of a search, each kind in the order in which its terms were
/// added. Nothing is ever removed, and a term added twice is kept twice.
pub struct Query {
    repos: Vec<String>,
    is_terms: Vec<String>,
    types: Vec<String>,
    states: Vec<String>,
}

/// The mathematical value of a [`Query`]: its four sequences of terms.
pub struct QueryView {
    pub repo: Seq<Seq<char>>,
    pub is: Seq<Seq<char>>,
    pub kind: Seq<Seq<char>>,
    pub state: Seq<Seq<char>>,
}

/// The strings of `items` as sequences of characters.
pub open spec fn texts(items: Seq<String>) -> Seq<Seq<char>> {
    Seq::new(items.len(), |i: int| items[i]@)
}

/// Each of `terms` with `prefix` put before it.
pub open spec fn prefixed(prefix: Seq<char>, terms: Seq<Seq<char>>) -> Seq<Seq<char>> {
    Seq::new(terms.len(), |i: int| prefix + terms[i])
}

/// The `parts` in order, with `separator` between each two neighbours.
pub open spec fn joined(parts: Seq<Seq<char>>, separator: Seq<char>) -> Seq<char>
    decreases parts.len(),
{
    if parts.len() == 0 {
        Seq::empty()
    } else if parts.len() == 1 {
        parts[0]
    } else {
        joined(parts.drop_last(), separator) + separator + parts.last()
    }
}

impl QueryView {
    /// Every term with the prefix of its kind, the kinds in the fixed order
    /// `repo`, `is`, `type`, `state`.
    pub open spec fn terms(self) -> Seq<Seq<char>> {
        prefixed("repo:"@, self.repo) + prefixed("is:"@, self.is) + prefixed("type:"@, self.kind)
            + prefixed("state:"@, self.state)
    }

    /// The query string: `q=`, then the terms joined by `+`. The terms are
    /// written as they were given: nothing is escaped or URL-encoded.
    pub open spec fn rendered(self) -> Seq<char> {
        "q="@ + joined(self.terms(), "+"@)
    }
}

impl View for Query {
    type V = QueryView;

    closed spec fn view(&self) -> QueryView {
        QueryView {
            repo: texts(self.repos@),
            is: texts(self.is_terms@),
            kind: texts(self.types@),
            state: texts(self.states@),
        }
    }
}

/// Appends each of `terms`, with `prefix` before it, to `out`.
fn push_prefixed(out: &mut Vec<String>, prefix: &str, terms: &Vec<String>)
    ensures
        texts(final(out)@) == texts(old(out)@) + prefixed(prefix@, texts(terms@)),
{
    let mut i: usize = 0;
    while i < terms.len()
        invariant
            i <= terms.len(),
            texts(out@) == texts(old(out)@) + prefixed(prefix@, texts(terms@)).take(i as int),
        decreases terms.len() - i,
    {
        let ghost before = out@;
        let term = String::from_str(prefix).concat(terms[i].as_str());
        out.push(term);
        assert(texts(out@) =~= texts(before).push(prefix@ + terms@[i as int]@));
        assert(prefixed(prefix@, texts(terms@)).take(i + 1) =~= prefixed(
            prefix@,
            texts(terms@),
        ).take(i as int).push(prefix@ + terms@[i as int]@));
        i += 1;
    }
    assert(prefixed(prefix@, texts(terms@)).take(terms@.len() as int) =~= prefixed(
        prefix@,
        texts(terms@),
    ));
}

/// Joins `parts` with `separator` between them.
fn join(parts: &Vec<String>, separator: &str) -> (r: String)
    ensures
        r@ == joined(texts(parts@), separator@),
{
    let mut out = String::new();
    let mut i: usize = 0;
    while i < parts.len()
        invariant
            i <= parts.len(),
            out@ == joined(texts(parts@).take(i as int), separator@),
        decreases parts.len() - i,
    {
        let ghost done = texts(parts@).take(i as int);
        let ghost next = texts(parts@).take(i + 1);
        assert(next.drop_last() =~= done);
        assert(next.last() == parts@[i as int]@);
        if i > 0 {
            out.append(separator);
        }
        out.append(parts[i].as_str());
        assert(out@ =~= joined(next, separator@));
        i += 1;
    }
    assert(texts(parts@).take(parts@.len() as int) =~= texts(parts@));
    out
}

impl Query {
    /// A query with no terms.
    pub fn new() -> (r: Self)
        ensures
            r@ == (QueryView {
                repo: Seq::empty(),
                is: Seq::empty(),
                kind: Seq::empty(),
                state: Seq::empty(),
            }),
    {
        let r = Query {
            repos: Vec::new(),
            is_terms: Vec::new(),
            types: Vec::new(),
            states: Vec::new(),
        };
        assert(texts(r.repos@) =~= Seq::empty());
        assert(texts(r.is_terms@) =~= Seq::empty());
        assert(texts(r.types@) =~= Seq::empty());
        assert(texts(r.states@) =~= Seq::empty());
        r
    }

    /// A query for one repository whose record is at hand: its only term is
    /// the repository's full name, `owner/name`.
    pub fn from_repo(repo: Repo) -> (r: Self)
        ensures
            r@ == (QueryView {
                repo: seq![repo@.owner + "/"@ + repo@.name],
                is: Seq::empty(),
                kind: Seq::empty(),
                state: Seq::empty(),
            }),
    {
        let mut query = Query::new();
        query.repos.push(repo.full_name());
        assert(texts(query.repos@) =~= seq![repo@.owner + "/"@ + repo@.name]);
        query
    }

    /// Adds a repository to the query: the term `user/repo`, rendered as
    /// `repo:user/repo`.
    pub fn repo(self, user: &str, repo: &str) -> (r: Self)
        ensures
            r@ == (QueryView { repo: self@.repo.push(user@ + "/"@ + repo@), ..self@ }),
    {
        let mut query = self;
        let term = String::from_str(user).concat("/").concat(repo);
        query.repos.push(term);
        assert(texts(query.repos@) =~= texts(self.repos@).push(user@ + "/"@ + repo@));
        query
    }

    /// Adds an `is` statement to the query, rendered as `is:statement`.
    pub fn is(self, statement: &str) -> (r: Self)
        ensures
            r@ == (QueryView { is: self@.is.push(statement@), ..self@ }),
    {
        let mut query = self;
        query.is_terms.push(String::from_str(statement));
        assert(texts(query.is_terms@) =~= texts(self.is_terms@).push(statement@));
        query
    }

    /// Adds a `type` statement to the query, rendered as `type:statement`.
    pub fn type_(self, statement: &str) -> (r: Self)
        ensures
            r@ == (QueryView { kind: self@.kind.push(statement@), ..self@ }),
    {
        let mut query = self;
        query.types.push(String::from_str(statement));
        assert(texts(query.types@) =~= texts(self.types@).push(statement@));
        query
    }

    /// Renders the query. The query itself stays as it is and can be rendered
    /// or extended again.
    pub fn to_string(&self) -> (r: String)
        ensures
            r@ == self@.rendered(),
    {
        let mut queries: Vec<String> = Vec::new();
        assert(texts(queries@) =~= Seq::empty());
        push_prefixed(&mut queries, "repo:", &self.repos);
        push_prefixed(&mut queries, "is:", &self.is_terms);
        push_prefixed(&mut queries, "type:", &self.types);
        push_prefixed(&mut queries, "state:", &self.states);
        assert(texts(queries@) =~= self@.terms());
        let queries = join(&queries, "+");
        String::from_str("q=").concat(queries.as_str())
    }
}

impl Default for Query {
    /// A query with no terms.
    fn default() -> (r: Self)
        ensures
            r@ == (QueryView {
                repo: Seq::empty(),
                is: Seq::empty(),
                kind: Seq::empty(),
                state: Seq::empty(),
            }),
    {
        Query::new()
    }
}

} // verus!
