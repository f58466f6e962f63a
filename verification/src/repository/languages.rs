//! The languages of a repository and how many bytes of code each has.

use vstd::prelude::*;
use vstd::string::StringExecFns;

use crate::error::{Error, Failure};
use crate::json::{find, Json, Member, Number};
use crate::response::Response;

verus! {

/// One language and its byte count.
#[derive(Debug)]
struct Language {
    name: String,
    bytes: u64,
}

/// A mapping from language name to byte count. No name occurs twice.
#[derive(Debug)]
pub struct LanguageMap {
    entries: Vec<Language>,
}

/// No two of `entries` have the same name.
spec fn distinct(entries: Seq<Language>) -> bool {
    forall|i: int, j: int|
        0 <= i < j < entries.len() ==> (#[trigger] entries[i]).name@ != (#[trigger] entries[j]).name@
}

/// Whether `entries` holds an entry called `name` at `i`.
spec fn names_at(entries: Seq<Language>, name: Seq<char>, i: int) -> bool {
    0 <= i < entries.len() && entries[i].name@ == name
}

/// The mapping that `entries` stand for.
spec fn mapping(entries: Seq<Language>) -> Map<Seq<char>, u64> {
    Map::new(
        |name: Seq<char>| exists|i: int| names_at(entries, name, i),
        |name: Seq<char>| entries[choose|i: int| names_at(entries, name, i)].bytes,
    )
}

/// Every member holds an unsigned integer.
pub open spec fn unsigned_members(members: Seq<Member>) -> bool {
    forall|i: int|
        0 <= i < members.len() ==> (#[trigger] members[i]).value matches Json::Number(
            Number::Unsigned(_),
        )
}

/// The mapping that the members of an object spell out: each name that
/// occurs, with the count that its first member holds.
pub open spec fn language_map(members: Seq<Member>) -> Map<Seq<char>, u64> {
    Map::new(
        |name: Seq<char>| find(members, name) is Some,
        |name: Seq<char>|
            match find(members, name) {
                Some(Json::Number(Number::Unsigned(bytes))) => bytes,
                _ => 0,
            },
    )
}

/// What decoding the answer of `endpoint` gives: the failure of an answer
/// without a document, a decode failure for a document that is no object of
/// unsigned integers, else the mapping of its members.
pub open spec fn spec_languages(response: Response, endpoint: Seq<char>) -> Result<
    Map<Seq<char>, u64>,
    Failure,
> {
    match response.spec_document(endpoint) {
        Err(e) => Err(e),
        Ok(Json::Object(members)) => if unsigned_members(members@) {
            Ok(language_map(members@))
        } else {
            Err(Failure::DecodeFailure(endpoint))
        },
        Ok(_) => Err(Failure::DecodeFailure(endpoint)),
    }
}

/// Looking a name up after one more member was added at the end: an earlier
/// member of that name still wins.
pub proof fn lemma_find_push(members: Seq<Member>, member: Member, name: Seq<char>)
    ensures
        find(members.push(member), name) == if find(members, name) is Some {
            find(members, name)
        } else if member.name@ == name {
            Some(member.value)
        } else {
            None
        },
    decreases members.len(),
{
    if members.len() == 0 {
        assert(members.push(member).drop_first() =~= members);
    } else {
        assert(members.push(member).drop_first() =~= members.drop_first().push(member));
        lemma_find_push(members.drop_first(), member, name);
    }
}

/// An object without members spells out the empty mapping.
pub proof fn lemma_no_members_no_languages(members: Seq<Member>)
    requires
        members.len() == 0,
    ensures
        unsigned_members(members),
        language_map(members) == Map::<Seq<char>, u64>::empty(),
{
    assert(language_map(members) =~= Map::<Seq<char>, u64>::empty());
}

/// Entries with distinct names stand for a finite mapping of as many names.
proof fn lemma_mapping_len(entries: Seq<Language>)
    requires
        distinct(entries),
    ensures
        mapping(entries).dom().finite(),
        mapping(entries).dom().len() == entries.len(),
    decreases entries.len(),
{
    if entries.len() == 0 {
        assert(mapping(entries).dom() =~= Set::<Seq<char>>::empty());
    } else {
        let front = entries.drop_last();
        let last = entries.last();
        lemma_mapping_len(front);
        assert forall|name: Seq<char>|
            mapping(entries).dom().contains(name) <==> mapping(front).dom().insert(
                last.name@,
            ).contains(name) by {
            if mapping(entries).dom().contains(name) {
                let i = choose|i: int| names_at(entries, name, i);
                if i < front.len() {
                    assert(names_at(front, name, i));
                }
            }
            if mapping(front).dom().contains(name) {
                let i = choose|i: int| names_at(front, name, i);
                assert(names_at(entries, name, i));
            }
            if name == last.name@ {
                assert(names_at(entries, name, entries.len() - 1));
            }
        }
        assert(mapping(entries).dom() =~= mapping(front).dom().insert(last.name@));
        if mapping(front).dom().contains(last.name@) {
            let i = choose|i: int| names_at(front, last.name@, i);
            assert(entries[i].name@ != entries[entries.len() - 1].name@);
        }
    }
}

/// Where in `entries` the language called `name` stands.
fn position(entries: &Vec<Language>, name: &String) -> (r: Option<usize>)
    ensures
        match r {
            Some(i) => names_at(entries@, name@, i as int),
            None => forall|i: int| !names_at(entries@, name@, i),
        },
{
    let mut i: usize = 0;
    while i < entries.len()
        invariant
            i <= entries.len(),
            forall|j: int| 0 <= j < i ==> !names_at(entries@, name@, j),
        decreases entries.len() - i,
    {
        if entries[i].name == *name {
            return Some(i);
        }
        i += 1;
    }
    None
}

impl View for LanguageMap {
    type V = Map<Seq<char>, u64>;

    closed spec fn view(&self) -> Map<Seq<char>, u64> {
        mapping(self.entries@)
    }
}

impl LanguageMap {
    #[verifier::type_invariant]
    spec fn well_formed(self) -> bool {
        distinct(self.entries@)
    }

    /// The byte count of the language called `name`, if the repository has
    /// code in it.
    pub fn get(&self, name: &str) -> (r: Option<u64>)
        ensures
            r == if self@.contains_key(name@) {
                Some(self@[name@])
            } else {
                None
            },
    {
        proof {
            use_type_invariant(self);
        }
        let key = String::from_str(name);
        match position(&self.entries, &key) {
            Some(i) => {
                proof {
                    let chosen = choose|j: int| names_at(self.entries@, name@, j);
                    assert(names_at(self.entries@, name@, i as int));
                    assert(chosen == i) by {
                        if chosen < i {
                            assert(self.entries@[chosen].name@ != self.entries@[i as int].name@);
                        } else if i < chosen {
                            assert(self.entries@[i as int].name@ != self.entries@[chosen].name@);
                        }
                    }
                }
                Some(self.entries[i].bytes)
            },
            None => None,
        }
    }

    /// The number of languages.
    pub fn len(&self) -> (r: usize)
        ensures
            self@.dom().finite(),
            r == self@.dom().len(),
    {
        proof {
            use_type_invariant(self);
            lemma_mapping_len(self.entries@);
        }
        self.entries.len()
    }

    /// The names of the languages, each once.
    pub fn names(&self) -> (r: Vec<String>)
        ensures
            r@.len() == self@.dom().len(),
            forall|i: int| 0 <= i < r@.len() ==> self@.contains_key(#[trigger] r@[i]@),
            forall|i: int, j: int| 0 <= i < j < r@.len() ==> r@[i]@ != r@[j]@,
            forall|name: Seq<char>| #[trigger]
                self@.contains_key(name) ==> exists|i: int| 0 <= i < r@.len() && r@[i]@ == name,
    {
        proof {
            use_type_invariant(self);
            lemma_mapping_len(self.entries@);
        }
        let mut names: Vec<String> = Vec::new();
        let mut i: usize = 0;
        while i < self.entries.len()
            invariant
                i <= self.entries.len(),
                names@.len() == i,
                forall|k: int| 0 <= k < i ==> (#[trigger] names@[k])@ == self.entries@[k].name@,
            decreases self.entries.len() - i,
        {
            names.push(self.entries[i].name.clone());
            i += 1;
        }
        proof {
            assert forall|k: int| 0 <= k < names@.len() implies self@.contains_key(
                #[trigger] names@[k]@,
            ) by {
                assert(names_at(self.entries@, names@[k]@, k));
            }
            assert forall|k: int, j: int| 0 <= k < j < names@.len() implies names@[k]@
                != names@[j]@ by {
                assert(self.entries@[k].name@ != self.entries@[j].name@);
            }
            assert forall|name: Seq<char>| #[trigger]
                self@.contains_key(name) implies exists|k: int|
                0 <= k < names@.len() && names@[k]@ == name by {
                let k = choose|k: int| names_at(self.entries@, name, k);
                assert(names@[k]@ == name);
            }
        }
        names
    }

    /// Whether the repository has no language at all.
    pub fn is_empty(&self) -> (r: bool)
        ensures
            r == (self@ == Map::<Seq<char>, u64>::empty()),
    {
        let r = self.entries.len() == 0;
        proof {
            if r {
                assert(self@ =~= Map::<Seq<char>, u64>::empty());
            } else {
                assert(names_at(self.entries@, self.entries@[0].name@, 0));
                assert(self@.contains_key(self.entries@[0].name@));
            }
        }
        r
    }
}

/// Decodes the answer that the languages address `url` gave: a flat object
/// from language name to byte count. An empty object gives an empty mapping.
pub fn from_api_url(url: &str, response: &Response) -> (r: Result<LanguageMap, Error>)
    ensures
        match r {
            Ok(languages) => spec_languages(*response, url@) == Ok::<
                Map<Seq<char>, u64>,
                Failure,
            >(languages@),
            Err(e) => spec_languages(*response, url@) == Err::<Map<Seq<char>, u64>, Failure>(e@),
        },
{
    let members = match response.document(url) {
        Err(e) => { return Err(e); },
        Ok(Json::Object(members)) => members,
        Ok(_) => { return Err(Error::DecodeFailure { endpoint: String::from_str(url) }); },
    };
    let mut entries: Vec<Language> = Vec::new();
    let mut i: usize = 0;
    while i < members.len()
        invariant
            i <= members.len(),
            response.spec_document(url@) == Ok::<Json, Failure>(Json::Object(*members)),
            distinct(entries@),
            unsigned_members(members@.take(i as int)),
            forall|k: int|
                0 <= k < entries.len() ==> find(
                    members@.take(i as int),
                    (#[trigger] entries@[k]).name@,
                ) == Some(Json::Number(Number::Unsigned(entries@[k].bytes))),
            forall|name: Seq<char>| #[trigger]
                find(members@.take(i as int), name) is Some ==> exists|k: int|
                    names_at(entries@, name, k),
        decreases members.len() - i,
    {
        let ghost before = members@.take(i as int);
        let ghost after = members@.take(i + 1);
        let ghost held = entries@;
        proof {
            assert(after =~= before.push(members@[i as int]));
            assert forall|name: Seq<char>|
                find(after, name) == if find(before, name) is Some {
                    find(before, name)
                } else if members@[i as int].name@ == name {
                    Some(members@[i as int].value)
                } else {
                    None
                } by {
                lemma_find_push(before, members@[i as int], name);
            }
        }
        let bytes = match &members[i].value {
            Json::Number(Number::Unsigned(bytes)) => *bytes,
            _ => {
                assert(!unsigned_members(members@));
                return Err(Error::DecodeFailure { endpoint: String::from_str(url) });
            },
        };
        if position(&entries, &members[i].name).is_none() {
            entries.push(Language { name: members[i].name.clone(), bytes });
            proof {
                assert(find(before, members@[i as int].name@) is None);
                assert forall|name: Seq<char>| #[trigger]
                    find(after, name) is Some implies exists|k: int|
                    names_at(entries@, name, k) by {
                    if find(before, name) is Some {
                        let k = choose|k: int| names_at(held, name, k);
                        assert(names_at(entries@, name, k));
                    } else {
                        assert(names_at(entries@, name, held.len() as int));
                    }
                }
            }
        } else {
            proof {
                assert forall|name: Seq<char>| #[trigger]
                    find(after, name) is Some implies exists|k: int|
                    names_at(entries@, name, k) by {
                    if find(before, name) is Some {
                    } else {
                        let k = choose|k: int| names_at(held, members@[i as int].name@, k);
                        assert(names_at(entries@, name, k));
                    }
                }
            }
        }
        i += 1;
    }
    let languages = LanguageMap { entries };
    proof {
        assert(members@.take(members@.len() as int) =~= members@);
        assert forall|name: Seq<char>|
            languages@.contains_key(name) implies language_map(members@).contains_key(name)
            && languages@[name] == language_map(members@)[name] by {
            let k = choose|k: int| names_at(languages.entries@, name, k);
            assert(languages.entries@[k].name@ == name);
        }
        assert(languages@ =~= language_map(members@));
    }
    Ok(languages)
}

} // verus!
