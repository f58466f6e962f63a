//! A decoded JSON document and the reading of its fields.

use vstd::prelude::*;
use vstd::string::StringExecFns;

use crate::error::{Error, Failure, Kind};

verus! {

/// A JSON number, kept as the document wrote it.
#[derive(Clone, Copy, Debug, PartialEq, Eq)]
pub enum Number {
    /// A whole number from zero to `u64::MAX`.
    Unsigned(u64),
    /// A whole number below zero.
    Negative(i64),
    /// Any other number, as the 64 bits of its binary floating-point form.
    Real(u64),
}

/// A decoded JSON value.
#[derive(Debug, PartialEq, Eq)]
pub enum Json {
    Null,
    Boolean(bool),
    Number(Number),
    Text(String),
    List(Vec<Json>),
    /// The members in document order. Where a name occurs more than once, the
    /// first occurrence is the one that is read.
    Object(Vec<Member>),
}

/// One member of a JSON object.
#[derive(Debug, PartialEq, Eq)]
pub struct Member {
    pub name: String,
    pub value: Json,
}

/// The value of the first member called `name`, if there is one.
pub open spec fn find(members: Seq<Member>, name: Seq<char>) -> Option<Json>
    decreases members.len(),
{
    if members.len() == 0 {
        None
    } else if members[0].name@ == name {
        Some(members[0].value)
    } else {
        find(members.drop_first(), name)
    }
}

impl Json {
    /// The member called `name` of an object; nothing for any other value.
    pub open spec fn spec_field(self, name: Seq<char>) -> Option<Json> {
        match self {
            Json::Object(members) => find(members@, name),
            _ => None,
        }
    }

    /// Looks up the member called `name`.
    pub fn field(&self, name: &str) -> (r: Option<&Json>)
        ensures
            match r {
                Some(value) => self.spec_field(name@) == Some(*value),
                None => self.spec_field(name@) is None,
            },
    {
        match self {
            Json::Object(members) => {
                let key = String::from_str(name);
                let mut i: usize = 0;
                assert(members@.skip(0) =~= members@);
                while i < members.len()
                    invariant
                        i <= members.len(),
                        key@ == name@,
                        self.spec_field(name@) == find(members@, name@),
                        find(members@, name@) == find(members@.skip(i as int), name@),
                    decreases members.len() - i,
                {
                    assert(members@.skip(i as int)[0] == members@[i as int]);
                    if members[i].name == key {
                        return Some(&members[i].value);
                    }
                    assert(members@.skip(i as int).drop_first() =~= members@.skip(i + 1));
                    i += 1;
                }
                None
            },
            _ => None,
        }
    }

    /// What reading the member called `name` as a string gives.
    pub open spec fn spec_text(self, name: Seq<char>) -> Result<Seq<char>, Failure> {
        match self.spec_field(name) {
            None => Err(Failure::FieldMissing(name, Kind::Text)),
            Some(Json::Text(text)) => Ok(text@),
            Some(_) => Err(Failure::FieldTypeMismatch(name, Kind::Text)),
        }
    }

    /// What reading the member called `name` as an unsigned integer gives.
    pub open spec fn spec_unsigned(self, name: Seq<char>) -> Result<u64, Failure> {
        match self.spec_field(name) {
            None => Err(Failure::FieldMissing(name, Kind::Unsigned)),
            Some(Json::Number(Number::Unsigned(n))) => Ok(n),
            Some(_) => Err(Failure::FieldTypeMismatch(name, Kind::Unsigned)),
        }
    }

    /// What reading the member called `name` as a number of any form gives.
    pub open spec fn spec_number(self, name: Seq<char>) -> Result<Number, Failure> {
        match self.spec_field(name) {
            None => Err(Failure::FieldMissing(name, Kind::Number)),
            Some(Json::Number(n)) => Ok(n),
            Some(_) => Err(Failure::FieldTypeMismatch(name, Kind::Number)),
        }
    }

    /// What reading the member called `name` as a boolean gives.
    pub open spec fn spec_boolean(self, name: Seq<char>) -> Result<bool, Failure> {
        match self.spec_field(name) {
            None => Err(Failure::FieldMissing(name, Kind::Boolean)),
            Some(Json::Boolean(b)) => Ok(b),
            Some(_) => Err(Failure::FieldTypeMismatch(name, Kind::Boolean)),
        }
    }

    /// What reading the member called `name` as a string that may be unset
    /// gives: the string where the member holds one that is not empty.
    pub open spec fn spec_optional_text(self, name: Seq<char>) -> Option<Seq<char>> {
        match self.spec_field(name) {
            Some(Json::Text(text)) => if text@.len() == 0 {
                None
            } else {
                Some(text@)
            },
            _ => None,
        }
    }

    /// Reads the member called `name` as a string. `null` is no string.
    pub fn text(&self, name: &str) -> (r: Result<String, Error>)
        ensures
            match r {
                Ok(text) => self.spec_text(name@) == Ok::<Seq<char>, Failure>(text@),
                Err(e) => self.spec_text(name@) == Err::<Seq<char>, Failure>(e@),
            },
    {
        match self.field(name) {
            None => Err(Error::FieldMissing { field: String::from_str(name), expected: Kind::Text }),
            Some(Json::Text(text)) => Ok(text.clone()),
            Some(_) => Err(
                Error::FieldTypeMismatch { field: String::from_str(name), expected: Kind::Text },
            ),
        }
    }

    /// Reads the member called `name` as an unsigned integer. A negative
    /// number, or one written with a fraction or an exponent, is none.
    pub fn unsigned(&self, name: &str) -> (r: Result<u64, Error>)
        ensures
            match r {
                Ok(n) => self.spec_unsigned(name@) == Ok::<u64, Failure>(n),
                Err(e) => self.spec_unsigned(name@) == Err::<u64, Failure>(e@),
            },
    {
        match self.field(name) {
            None => Err(
                Error::FieldMissing { field: String::from_str(name), expected: Kind::Unsigned },
            ),
            Some(Json::Number(Number::Unsigned(n))) => Ok(*n),
            Some(_) => Err(
                Error::FieldTypeMismatch {
                    field: String::from_str(name),
                    expected: Kind::Unsigned,
                },
            ),
        }
    }

    /// Reads the member called `name` as a number, whole or not.
    pub fn number(&self, name: &str) -> (r: Result<Number, Error>)
        ensures
            match r {
                Ok(n) => self.spec_number(name@) == Ok::<Number, Failure>(n),
                Err(e) => self.spec_number(name@) == Err::<Number, Failure>(e@),
            },
    {
        match self.field(name) {
            None => Err(Error::FieldMissing { field: String::from_str(name), expected: Kind::Number }),
            Some(Json::Number(n)) => Ok(*n),
            Some(_) => Err(
                Error::FieldTypeMismatch { field: String::from_str(name), expected: Kind::Number },
            ),
        }
    }

    /// Reads the member called `name` as a boolean.
    pub fn boolean(&self, name: &str) -> (r: Result<bool, Error>)
        ensures
            match r {
                Ok(b) => self.spec_boolean(name@) == Ok::<bool, Failure>(b),
                Err(e) => self.spec_boolean(name@) == Err::<bool, Failure>(e@),
            },
    {
        match self.field(name) {
            None => Err(
                Error::FieldMissing { field: String::from_str(name), expected: Kind::Boolean },
            ),
            Some(Json::Boolean(b)) => Ok(*b),
            Some(_) => Err(
                Error::FieldTypeMismatch { field: String::from_str(name), expected: Kind::Boolean },
            ),
        }
    }

    /// Reads the member called `name` as a string that may be unset. A missing
    /// member, one that holds no string, and an empty string all read as unset.
    pub fn optional_text(&self, name: &str) -> (r: Option<String>)
        ensures
            match r {
                Some(text) => self.spec_optional_text(name@) == Some(text@),
                None => self.spec_optional_text(name@) is None,
            },
    {
        match self.field(name) {
            Some(Json::Text(text)) => {
                if text.as_str().is_empty() {
                    None
                } else {
                    Some(text.clone())
                }
            },
            _ => None,
        }
    }
}

} // verus!
