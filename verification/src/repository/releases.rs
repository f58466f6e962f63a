//! A repository's latest release.

use vstd::prelude::*;

use crate::error::{Error, Failure};
use crate::json::Json;
use crate::response::Response;

verus! {

/// A published release of a repository.
#[derive(Clone, Debug, PartialEq, Eq)]
pub struct Release {
    tag_name: String,
    published_at: String,
    name: Option<String>,
    body: Option<String>,
}

/// The mathematical value of a [`Release`].
pub struct ReleaseView {
    pub tag_name: Seq<char>,
    pub published_at: Seq<char>,
    pub name: Option<Seq<char>>,
    pub body: Option<Seq<char>>,
}

impl View for Release {
    type V = ReleaseView;

    closed spec fn view(&self) -> ReleaseView {
        ReleaseView {
            tag_name: self.tag_name@,
            published_at: self.published_at@,
            name: self.name.deep_view(),
            body: self.body.deep_view(),
        }
    }
}

/// The release that `document` describes. `tag_name` and `published_at` must
/// be strings; `name` and `body` may be unset.
pub open spec fn spec_release(document: Json) -> Result<ReleaseView, Failure> {
    match document.spec_text("tag_name"@) {
        Err(e) => Err(e),
        Ok(tag_name) => match document.spec_text("published_at"@) {
            Err(e) => Err(e),
            Ok(published_at) => Ok(
                ReleaseView {
                    tag_name,
                    published_at,
                    name: document.spec_optional_text("name"@),
                    body: document.spec_optional_text("body"@),
                },
            ),
        },
    }
}

/// The latest release as `endpoint` answered: none where the platform found
/// none, else the release of the document, or the failure.
pub open spec fn spec_latest(response: Response, endpoint: Seq<char>) -> Result<
    Option<ReleaseView>,
    Failure,
> {
    match response {
        Response::NotFound => Ok(None),
        _ => match response.spec_document(endpoint) {
            Err(e) => Err(e),
            Ok(document) => match spec_release(document) {
                Err(e) => Err(e),
                Ok(release) => Ok(Some(release)),
            },
        },
    }
}

impl Release {
    /// Reads a release from the document that describes it.
    pub fn from_document(document: &Json) -> (r: Result<Release, Error>)
        ensures
            match r {
                Ok(release) => spec_release(*document) == Ok::<ReleaseView, Failure>(release@),
                Err(e) => spec_release(*document) == Err::<ReleaseView, Failure>(e@),
            },
    {
        let tag_name = match document.text("tag_name") {
            Err(e) => { return Err(e); },
            Ok(tag_name) => tag_name,
        };
        let published_at = match document.text("published_at") {
            Err(e) => { return Err(e); },
            Ok(published_at) => published_at,
        };
        let name = document.optional_text("name");
        let body = document.optional_text("body");
        Ok(Release { tag_name, published_at, name, body })
    }

    /// Reads the answer of the latest-release `endpoint`. A repository that
    /// never published a release has none: that is no error.
    pub fn latest(endpoint: &str, response: &Response) -> (r: Result<Option<Release>, Error>)
        ensures
            match r {
                Ok(release) => spec_latest(*response, endpoint@) == Ok::<
                    Option<ReleaseView>,
                    Failure,
                >(release.deep_view()),
                Err(e) => spec_latest(*response, endpoint@) == Err::<Option<ReleaseView>, Failure>(
                    e@,
                ),
            },
    {
        match response {
            Response::NotFound => Ok(None),
            _ => match response.document(endpoint) {
                Err(e) => Err(e),
                Ok(document) => match Release::from_document(document) {
                    Err(e) => Err(e),
                    Ok(release) => Ok(Some(release)),
                },
            },
        }
    }

    /// The tag that the release was made from.
    pub fn tag_name(&self) -> (r: &str)
        ensures
            r@ == self@.tag_name,
    {
        self.tag_name.as_str()
    }

    /// When the release was published, as the platform wrote it.
    pub fn published_at(&self) -> (r: &str)
        ensures
            r@ == self@.published_at,
    {
        self.published_at.as_str()
    }

    /// The title of the release, if it has one.
    pub fn name(&self) -> (r: &Option<String>)
        ensures
            r.deep_view() == self@.name,
    {
        &self.name
    }

    /// The description of the release, if it has one.
    pub fn body(&self) -> (r: &Option<String>)
        ensures
            r.deep_view() == self@.body,
    {
        &self.body
    }
}

impl DeepView for Release {
    type V = ReleaseView;

    open spec fn deep_view(&self) -> ReleaseView {
        self@
    }
}

} // verus!
