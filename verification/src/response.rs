//! What came back from one request to the platform.

use vstd::prelude::*;
use vstd::string::StringExecFns;

use crate::error::{Error, Failure};
use crate::json::Json;

verus! {

/// The outcome of one `GET`, as the caller that performed it reports it.
#[derive(Debug, PartialEq, Eq)]
pub enum Response {
    /// The request failed on the way: no answer came.
    Unreachable,
    /// The platform answered that there is nothing at the address.
    NotFound,
    /// An answer came, but its body is not valid JSON.
    Undecodable,
    /// The decoded body of the answer.
    Document(Json),
}

impl Response {
    /// The document that `endpoint` answered with, or the failure that an
    /// answer without one stands for.
    pub open spec fn spec_document(self, endpoint: Seq<char>) -> Result<Json, Failure> {
        match self {
            Response::Unreachable => Err(Failure::TransportFailure(endpoint)),
            Response::NotFound => Err(Failure::NotFound(endpoint)),
            Response::Undecodable => Err(Failure::DecodeFailure(endpoint)),
            Response::Document(document) => Ok(document),
        }
    }

    /// Gives the document of a response to a request to `endpoint`; where
    /// there is none, the error that names `endpoint`.
    pub fn document(&self, endpoint: &str) -> (r: Result<&Json, Error>)
        ensures
            match r {
                Ok(document) => self.spec_document(endpoint@) == Ok::<Json, Failure>(*document),
                Err(e) => self.spec_document(endpoint@) == Err::<Json, Failure>(e@),
            },
    {
        match self {
            Response::Unreachable => Err(
                Error::TransportFailure { endpoint: String::from_str(endpoint) },
            ),
            Response::NotFound => Err(Error::NotFound { endpoint: String::from_str(endpoint) }),
            Response::Undecodable => Err(
                Error::DecodeFailure { endpoint: String::from_str(endpoint) },
            ),
            Response::Document(document) => Ok(document),
        }
    }
}

} // verus!
