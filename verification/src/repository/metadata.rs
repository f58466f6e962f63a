//! What a repository's own document says of it.

use vstd::prelude::*;

use crate::error::{Error, Failure};
use crate::json::{Json, Number};

verus! {

/// The fields of a repository's own document that a record is made of.
#[derive(Debug, PartialEq, Eq)]
pub struct Metadata {
    /// `name`.
    pub name: String,
    /// `created_at`.
    pub created: String,
    /// `updated_at`.
    pub updated: String,
    /// `language`.
    pub primary_language: String,
    /// `homepage`; unset where the document has none or an empty one.
    pub homepage: Option<String>,
    /// `size`, in kilobytes.
    pub size: Number,
    /// `stargazers_count`.
    pub stars: u64,
    /// `forks`.
    pub forks: u64,
    /// `fork`.
    pub is_fork: bool,
    /// `languages_url`: where the platform serves the repository's languages.
    pub languages_url: String,
}

/// The mathematical value of a [`Metadata`].
pub struct MetadataView {
    pub name: Seq<char>,
    pub created: Seq<char>,
    pub updated: Seq<char>,
    pub primary_language: Seq<char>,
    pub homepage: Option<Seq<char>>,
    pub size: Number,
    pub stars: u64,
    pub forks: u64,
    pub is_fork: bool,
    pub languages_url: Seq<char>,
}

impl View for Metadata {
    type V = MetadataView;

    open spec fn view(&self) -> MetadataView {
        MetadataView {
            name: self.name@,
            created: self.created@,
            updated: self.updated@,
            primary_language: self.primary_language@,
            homepage: self.homepage.deep_view(),
            size: self.size,
            stars: self.stars,
            forks: self.forks,
            is_fork: self.is_fork,
            languages_url: self.languages_url@,
        }
    }
}

/// The failure of the first field that cannot be read, in the order `name`,
/// `created_at`, `updated_at`, `language`, `size`, `stargazers_count`,
/// `forks`, `fork`, `languages_url`; nothing where all of them can.
/// `homepage` never fails.
pub open spec fn first_failure(document: Json) -> Option<Failure> {
    if document.spec_text("name"@) is Err {
        Some(document.spec_text("name"@)->Err_0)
    } else if document.spec_text("created_at"@) is Err {
        Some(document.spec_text("created_at"@)->Err_0)
    } else if document.spec_text("updated_at"@) is Err {
        Some(document.spec_text("updated_at"@)->Err_0)
    } else if document.spec_text("language"@) is Err {
        Some(document.spec_text("language"@)->Err_0)
    } else if document.spec_number("size"@) is Err {
        Some(document.spec_number("size"@)->Err_0)
    } else if document.spec_unsigned("stargazers_count"@) is Err {
        Some(document.spec_unsigned("stargazers_count"@)->Err_0)
    } else if document.spec_unsigned("forks"@) is Err {
        Some(document.spec_unsigned("forks"@)->Err_0)
    } else if document.spec_boolean("fork"@) is Err {
        Some(document.spec_boolean("fork"@)->Err_0)
    } else if document.spec_text("languages_url"@) is Err {
        Some(document.spec_text("languages_url"@)->Err_0)
    } else {
        None
    }
}

/// The metadata that `document` holds: every field as it reads, or the first
/// failure. Nothing is made up for a field that cannot be read.
pub open spec fn spec_metadata(document: Json) -> Result<MetadataView, Failure> {
    match first_failure(document) {
        Some(e) => Err(e),
        None => Ok(
            MetadataView {
                name: document.spec_text("name"@)->Ok_0,
                created: document.spec_text("created_at"@)->Ok_0,
                updated: document.spec_text("updated_at"@)->Ok_0,
                primary_language: document.spec_text("language"@)->Ok_0,
                homepage: document.spec_optional_text("homepage"@),
                size: document.spec_number("size"@)->Ok_0,
                stars: document.spec_unsigned("stargazers_count"@)->Ok_0,
                forks: document.spec_unsigned("forks"@)->Ok_0,
                is_fork: document.spec_boolean("fork"@)->Ok_0,
                languages_url: document.spec_text("languages_url"@)->Ok_0,
            },
        ),
    }
}

impl Metadata {
    /// Reads the metadata from a repository's own document.
    pub fn from_document(document: &Json) -> (r: Result<Metadata, Error>)
        ensures
            match r {
                Ok(metadata) => spec_metadata(*document) == Ok::<MetadataView, Failure>(metadata@),
                Err(e) => spec_metadata(*document) == Err::<MetadataView, Failure>(e@),
            },
    {
        let name = match document.text("name") {
            Err(e) => { return Err(e); },
            Ok(name) => name,
        };
        let created = match document.text("created_at") {
            Err(e) => { return Err(e); },
            Ok(created) => created,
        };
        let updated = match document.text("updated_at") {
            Err(e) => { return Err(e); },
            Ok(updated) => updated,
        };
        let primary_language = match document.text("language") {
            Err(e) => { return Err(e); },
            Ok(primary_language) => primary_language,
        };
        let homepage = document.optional_text("homepage");
        let size = match document.number("size") {
            Err(e) => { return Err(e); },
            Ok(size) => size,
        };
        let stars = match document.unsigned("stargazers_count") {
            Err(e) => { return Err(e); },
            Ok(stars) => stars,
        };
        let forks = match document.unsigned("forks") {
            Err(e) => { return Err(e); },
            Ok(forks) => forks,
        };
        let is_fork = match document.boolean("fork") {
            Err(e) => { return Err(e); },
            Ok(is_fork) => is_fork,
        };
        let languages_url = match document.text("languages_url") {
            Err(e) => { return Err(e); },
            Ok(languages_url) => languages_url,
        };
        Ok(
            Metadata {
                name,
                created,
                updated,
                primary_language,
                homepage,
                size,
                stars,
                forks,
                is_fork,
                languages_url,
            },
        )
    }
}

} // verus!
