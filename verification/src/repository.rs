//! A repository's statistics, assembled from four answers of the platform.
//!
//! The record is put together in four steps, each of which reads the answer
//! to one request: the repository's own metadata, its languages, its issue
//! listing and its latest release. The first step that fails ends the work:
//! a record is either complete or not there at all.

use big_bytes::BigByte;
use vstd::prelude::*;
use vstd::string::StringExecFns;

use crate::error::{Error, Failure, Kind};
use crate::json::{Json, Member, Number};
use crate::response::Response;
use issues::{issue_stats, lemma_tallies_partition, of_kind, spec_issue_stats};
use languages::{from_api_url, lemma_no_members_no_languages, spec_languages, LanguageMap};
use metadata::{spec_metadata, Metadata, MetadataView};
use releases::{spec_latest, spec_release, Release, ReleaseView};

pub mod aggregation;
pub mod issues;
pub mod languages;
pub mod metadata;
pub mod releases;

verus! {

/// The address under which the platform serves repository data. A
/// repository's own address is this, `/`, the owner, `/` and the name.
pub const GITHUB_API_REPO_URL: &'static str = "https://api.github.com/repos";

/// The address of the repository `repo` of `user`.
pub open spec fn spec_repo_api_url(user: Seq<char>, repo: Seq<char>) -> Seq<char> {
    GITHUB_API_REPO_URL@ + "/"@ + user + "/"@ + repo
}

/// The address of the issue listing of a repository, closed entries included.
pub open spec fn spec_issues_url(user: Seq<char>, repo: Seq<char>) -> Seq<char> {
    spec_repo_api_url(user, repo) + "/issues?state=all"@
}

/// The address of the latest release of a repository.
pub open spec fn spec_latest_release_url(user: Seq<char>, repo: Seq<char>) -> Seq<char> {
    spec_repo_api_url(user, repo) + "/releases/latest"@
}

/// Makes the address of the repository `repo` of `user`. Neither name is
/// checked or escaped.
pub fn repo_api_url(user: &str, repo: &str) -> (r: String)
    ensures
        r@ == spec_repo_api_url(user@, repo@),
{
    String::from_str(GITHUB_API_REPO_URL).concat("/").concat(user).concat("/").concat(repo)
}

/// Makes the address of the issue listing of the repository `repo` of `user`.
pub fn issues_url(user: &str, repo: &str) -> (r: String)
    ensures
        r@ == spec_issues_url(user@, repo@),
{
    repo_api_url(user, repo).concat("/issues?state=all")
}

/// Makes the address of the latest release of the repository `repo` of `user`.
pub fn latest_release_url(user: &str, repo: &str) -> (r: String)
    ensures
        r@ == spec_latest_release_url(user@, repo@),
{
    repo_api_url(user, repo).concat("/releases/latest")
}

/// The text that the crate `big_bytes` writes for a count of bytes with
/// `precision` decimal places, such as `2.46 GiB`.
pub uninterp spec fn big_byte_text(bytes: u128, precision: usize) -> Seq<char>;

/// Calls `BigByte::big_byte` of the crate `big_bytes` on a `u128`.
///
/// Taken on trust: the call returns, and what it returns is the same text
/// whenever the two arguments are the same. `big_byte` turns the count into a
/// float, divides it by 1024 until it is below 1024 or the largest unit is
/// reached, and formats what is left with `precision` decimal places and the
/// unit. The formatter of the standard library panics on a precision above
/// `u16::MAX`, so such a precision is not accepted here.
#[verifier::external_body]
fn big_byte(bytes: u128, precision: usize) -> (r: String)
    requires
        precision <= u16::MAX,
    ensures
        r@ == big_byte_text(bytes, precision),
{
    bytes.big_byte(precision)
}

/// The statistics of one repository. A record is assembled once and never
/// changed afterwards.
#[derive(Debug)]
pub struct Repo {
    owner: String,
    name: String,
    created: String,
    updated: String,
    primary_language: String,
    languages: LanguageMap,
    homepage: Option<String>,
    size: Number,
    stars: u64,
    forks: u64,
    open_issues: u64,
    closed_issues: u64,
    open_pull_requests: u64,
    closed_pull_requests: u64,
    latest_release: Option<Release>,
    is_fork: bool,
}

/// The mathematical value of a [`Repo`].
pub struct RepoView {
    /// The owner that the record was asked for.
    pub owner: Seq<char>,
    pub name: Seq<char>,
    pub created: Seq<char>,
    pub updated: Seq<char>,
    pub primary_language: Seq<char>,
    pub languages: Map<Seq<char>, u64>,
    pub homepage: Option<Seq<char>>,
    /// The size in kilobytes.
    pub size: Number,
    pub stars: u64,
    pub forks: u64,
    pub open_issues: nat,
    pub closed_issues: nat,
    pub open_pull_requests: nat,
    pub closed_pull_requests: nat,
    pub latest_release: Option<ReleaseView>,
    pub is_fork: bool,
}

impl View for Repo {
    type V = RepoView;

    closed spec fn view(&self) -> RepoView {
        RepoView {
            owner: self.owner@,
            name: self.name@,
            created: self.created@,
            updated: self.updated@,
            primary_language: self.primary_language@,
            languages: self.languages@,
            homepage: self.homepage.deep_view(),
            size: self.size,
            stars: self.stars,
            forks: self.forks,
            open_issues: self.open_issues as nat,
            closed_issues: self.closed_issues as nat,
            open_pull_requests: self.open_pull_requests as nat,
            closed_pull_requests: self.closed_pull_requests as nat,
            latest_release: self.latest_release.deep_view(),
            is_fork: self.is_fork,
        }
    }
}

/// The record made of the four parts, for the repository of `owner`. The
/// counts come in the order open issues, closed issues, open pull requests,
/// closed pull requests.
pub open spec fn spec_assemble(
    owner: Seq<char>,
    metadata: MetadataView,
    languages: Map<Seq<char>, u64>,
    counts: (nat, nat, nat, nat),
    latest_release: Option<ReleaseView>,
) -> RepoView {
    RepoView {
        owner,
        name: metadata.name,
        created: metadata.created,
        updated: metadata.updated,
        primary_language: metadata.primary_language,
        languages,
        homepage: metadata.homepage,
        size: metadata.size,
        stars: metadata.stars,
        forks: metadata.forks,
        open_issues: counts.0,
        closed_issues: counts.1,
        open_pull_requests: counts.2,
        closed_pull_requests: counts.3,
        latest_release,
        is_fork: metadata.is_fork,
    }
}

/// The record that the four answers give for the repository `repo` of
/// `user`, or the failure of the first step that fails. The steps, in order:
/// the repository's own document and its fields, the languages, answered from
/// the address that the document names, the issue listing, the latest
/// release.
pub open spec fn spec_aggregate(
    user: Seq<char>,
    repo: Seq<char>,
    base: Response,
    languages: Response,
    issues: Response,
    release: Response,
) -> Result<RepoView, Failure> {
    match base.spec_document(spec_repo_api_url(user, repo)) {
        Err(e) => Err(e),
        Ok(document) => match spec_metadata(document) {
            Err(e) => Err(e),
            Ok(metadata) => match spec_languages(languages, metadata.languages_url) {
                Err(e) => Err(e),
                Ok(language_map) => match spec_issue_stats(issues, spec_issues_url(user, repo)) {
                    Err(e) => Err(e),
                    Ok(counts) => match spec_latest(release, spec_latest_release_url(user, repo)) {
                        Err(e) => Err(e),
                        Ok(latest_release) => Ok(
                            spec_assemble(user, metadata, language_map, counts, latest_release),
                        ),
                    },
                },
            },
        },
    }
}

impl Repo {
    /// Puts a record together from its four parts.
    pub(crate) fn assemble(
        owner: &str,
        metadata: Metadata,
        languages: LanguageMap,
        counts: (u64, u64, u64, u64),
        latest_release: Option<Release>,
    ) -> (r: Repo)
        ensures
            r@ == spec_assemble(
                owner@,
                metadata@,
                languages@,
                (counts.0 as nat, counts.1 as nat, counts.2 as nat, counts.3 as nat),
                latest_release.deep_view(),
            ),
    {
        Repo {
            owner: String::from_str(owner),
            name: metadata.name,
            created: metadata.created,
            updated: metadata.updated,
            primary_language: metadata.primary_language,
            languages,
            homepage: metadata.homepage,
            size: metadata.size,
            stars: metadata.stars,
            forks: metadata.forks,
            open_issues: counts.0,
            closed_issues: counts.1,
            open_pull_requests: counts.2,
            closed_pull_requests: counts.3,
            latest_release,
            is_fork: metadata.is_fork,
        }
    }

    /// Assembles the record of the repository `repo` of `user` from the four
    /// answers of the platform: `base` to the repository's own address,
    /// `languages` to the address that `base` names as `languages_url`,
    /// `issues` to the issue listing and `release` to the latest release.
    ///
    /// The answers are read in that order and the first failure is returned
    /// as it is. No field is ever filled in with a default, but `homepage`,
    /// which is unset where the document has none or an empty one.
    pub fn new(
        user: &str,
        repo: &str,
        base: &Response,
        languages: &Response,
        issues: &Response,
        release: &Response,
    ) -> (r: Result<Repo, Error>)
        ensures
            match r {
                Ok(record) => spec_aggregate(
                    user@,
                    repo@,
                    *base,
                    *languages,
                    *issues,
                    *release,
                ) == Ok::<RepoView, Failure>(record@),
                Err(e) => spec_aggregate(user@, repo@, *base, *languages, *issues, *release)
                    == Err::<RepoView, Failure>(e@),
            },
    {
        let base_url = repo_api_url(user, repo);
        let document = match base.document(base_url.as_str()) {
            Err(e) => { return Err(e); },
            Ok(document) => document,
        };
        let metadata = match Metadata::from_document(document) {
            Err(e) => { return Err(e); },
            Ok(metadata) => metadata,
        };
        let language_map = match from_api_url(metadata.languages_url.as_str(), languages) {
            Err(e) => { return Err(e); },
            Ok(language_map) => language_map,
        };
        let issues_url = issues_url(user, repo);
        let counts = match issue_stats(issues_url.as_str(), issues) {
            Err(e) => { return Err(e); },
            Ok(counts) => counts,
        };
        let release_url = latest_release_url(user, repo);
        let latest_release = match Release::latest(release_url.as_str(), release) {
            Err(e) => { return Err(e); },
            Ok(latest_release) => latest_release,
        };
        Ok(Repo::assemble(user, metadata, language_map, counts, latest_release))
    }

    /// The repository's name.
    pub fn name(&self) -> (r: &str)
        ensures
            r@ == self@.name,
    {
        self.name.as_str()
    }

    /// The owner and the name, as `owner/name`.
    pub fn full_name(&self) -> (r: String)
        ensures
            r@ == self@.owner + "/"@ + self@.name,
    {
        self.owner.clone().concat("/").concat(self.name.as_str())
    }

    /// When the repository was created, as the platform wrote it.
    pub fn created(&self) -> (r: &str)
        ensures
            r@ == self@.created,
    {
        self.created.as_str()
    }

    /// When the repository was last updated, as the platform wrote it.
    pub fn updated(&self) -> (r: &str)
        ensures
            r@ == self@.updated,
    {
        self.updated.as_str()
    }

    /// The repository's primary language.
    pub fn primary_language(&self) -> (r: &str)
        ensures
            r@ == self@.primary_language,
    {
        self.primary_language.as_str()
    }

    /// All languages of the repository, each with its number of bytes of code.
    pub fn languages(&self) -> (r: &LanguageMap)
        ensures
            r@ == self@.languages,
    {
        &self.languages
    }

    /// The repository's homepage, if it has one.
    pub fn homepage(&self) -> (r: &Option<String>)
        ensures
            r.deep_view() == self@.homepage,
    {
        &self.homepage
    }

    /// The repository's size in kilobytes, as the number that the platform
    /// wrote.
    pub fn size(&self) -> (r: Number)
        ensures
            r == self@.size,
    {
        self.size
    }

    /// The repository's size in bytes, for a reader: the largest unit of 1024
    /// that fits and `precision` decimal places, as `big_bytes` writes it.
    ///
    /// This is for a size that is a whole number of kilobytes. For one that
    /// was written with a sign, a fraction or an exponent there is no text.
    pub fn human_size(&self, precision: usize) -> (r: Option<String>)
        requires
            precision <= u16::MAX,
        ensures
            r.deep_view() == match self@.size {
                Number::Unsigned(kilobytes) => Some(
                    big_byte_text((kilobytes * 1024) as u128, precision),
                ),
                _ => None,
            },
    {
        match self.size {
            Number::Unsigned(kilobytes) => {
                let kilobytes: u128 = kilobytes as u128;
                Some(big_byte(kilobytes * 1024, precision))
            },
            _ => None,
        }
    }

    /// The number of stars.
    pub fn stars(&self) -> (r: u64)
        ensures
            r == self@.stars,
    {
        self.stars
    }

    /// The number of forks.
    pub fn forks(&self) -> (r: u64)
        ensures
            r == self@.forks,
    {
        self.forks
    }

    /// The number of open issues that are no pull requests.
    pub fn open_issues(&self) -> (r: u64)
        ensures
            r == self@.open_issues,
    {
        self.open_issues
    }

    /// The number of closed issues that are no pull requests.
    pub fn closed_issues(&self) -> (r: u64)
        ensures
            r == self@.closed_issues,
    {
        self.closed_issues
    }

    /// The number of open pull requests.
    pub fn open_pull_requests(&self) -> (r: u64)
        ensures
            r == self@.open_pull_requests,
    {
        self.open_pull_requests
    }

    /// The number of closed pull requests.
    pub fn closed_pull_requests(&self) -> (r: u64)
        ensures
            r == self@.closed_pull_requests,
    {
        self.closed_pull_requests
    }

    /// The latest release, if the repository ever published one.
    pub fn latest_release(&self) -> (r: &Option<Release>)
        ensures
            r.deep_view() == self@.latest_release,
    {
        &self.latest_release
    }

    /// Whether the repository is a fork of another.
    pub fn is_fork(&self) -> (r: bool)
        ensures
            r == self@.is_fork,
    {
        self.is_fork
    }
}

/// The platform knows the repository `repo` of `user`: its own document, its
/// languages and its issue listing can all be read.
pub open spec fn known_repository(
    user: Seq<char>,
    repo: Seq<char>,
    base: Response,
    languages: Response,
    issues: Response,
) -> bool {
    &&& base.spec_document(spec_repo_api_url(user, repo)) matches Ok(document)
        && spec_metadata(document) matches Ok(metadata) && spec_languages(
        languages,
        metadata.languages_url,
    ) is Ok
    &&& spec_issue_stats(issues, spec_issues_url(user, repo)) is Ok
}

/// A repository that has a release has it in its record: where the platform
/// knows the repository and answers with a release, the record is there, its
/// latest release is set, and the tag of that release is the tag that the
/// platform reported.
pub proof fn lemma_release_is_reported(
    user: Seq<char>,
    repo: Seq<char>,
    base: Response,
    languages: Response,
    issues: Response,
    release: Json,
)
    requires
        known_repository(user, repo, base, languages, issues),
        spec_release(release) is Ok,
    ensures
        spec_aggregate(user, repo, base, languages, issues, Response::Document(release))
            matches Ok(record) && record.latest_release matches Some(latest) && release.spec_text(
            "tag_name"@,
        ) == Ok::<Seq<char>, Failure>(latest.tag_name),
{
}

/// A repository without a release has a record all the same: where the
/// platform knows the repository and finds no latest release, the record is
/// there and its latest release is unset.
pub proof fn lemma_no_release_is_no_failure(
    user: Seq<char>,
    repo: Seq<char>,
    base: Response,
    languages: Response,
    issues: Response,
)
    requires
        known_repository(user, repo, base, languages, issues),
    ensures
        spec_aggregate(user, repo, base, languages, issues, Response::NotFound) matches Ok(record)
            && record.latest_release is None,
{
}

/// The four counts of a record divide the issue listing that it was made
/// from: the issues are the entries without the marker of a pull request, the
/// pull requests are the entries with it, and together they are all entries.
pub proof fn lemma_counts_divide_listing(
    user: Seq<char>,
    repo: Seq<char>,
    base: Response,
    languages: Response,
    issues: Response,
    release: Response,
)
    requires
        spec_aggregate(user, repo, base, languages, issues, release) is Ok,
    ensures
        ({
            let record = spec_aggregate(user, repo, base, languages, issues, release)->Ok_0;
            issues matches Response::Document(Json::List(entries)) && {
                &&& record.open_issues + record.closed_issues == entries@.filter(
                    of_kind(false),
                ).len()
                &&& record.open_pull_requests + record.closed_pull_requests == entries@.filter(
                    of_kind(true),
                ).len()
                &&& record.open_issues + record.closed_issues + record.open_pull_requests
                    + record.closed_pull_requests == entries@.len()
            }
        }),
{
    match issues {
        Response::Document(Json::List(entries)) => {
            lemma_tallies_partition(entries@);
        },
        _ => {},
    }
}

/// A document without `stargazers_count` gives no record, whatever else it
/// and the other answers hold.
pub proof fn lemma_no_record_without_stars(
    user: Seq<char>,
    repo: Seq<char>,
    document: Json,
    languages: Response,
    issues: Response,
    release: Response,
)
    requires
        document.spec_field("stargazers_count"@) is None,
    ensures
        spec_aggregate(user, repo, Response::Document(document), languages, issues, release) is Err,
{
}

/// A document that lacks `stargazers_count`, and whose fields before it can
/// be read, fails with exactly that: the field is missing, and it is named.
pub proof fn lemma_missing_stars_is_named(
    user: Seq<char>,
    repo: Seq<char>,
    document: Json,
    languages: Response,
    issues: Response,
    release: Response,
)
    requires
        document.spec_field("stargazers_count"@) is None,
        document.spec_text("name"@) is Ok,
        document.spec_text("created_at"@) is Ok,
        document.spec_text("updated_at"@) is Ok,
        document.spec_text("language"@) is Ok,
        document.spec_number("size"@) is Ok,
    ensures
        spec_aggregate(user, repo, Response::Document(document), languages, issues, release)
            == Err::<RepoView, Failure>(
            Failure::FieldMissing("stargazers_count"@, Kind::Unsigned),
        ),
{
}

/// A repository without any language has a record all the same: where the
/// languages are answered with an empty object and the other answers can be
/// read, the record is there and its languages are the empty mapping.
pub proof fn lemma_no_languages_is_no_failure(
    user: Seq<char>,
    repo: Seq<char>,
    base: Response,
    members: Vec<Member>,
    issues: Response,
    release: Response,
)
    requires
        members@.len() == 0,
        base.spec_document(spec_repo_api_url(user, repo)) matches Ok(document) && spec_metadata(
            document,
        ) is Ok,
        spec_issue_stats(issues, spec_issues_url(user, repo)) is Ok,
        spec_latest(release, spec_latest_release_url(user, repo)) is Ok,
    ensures
        spec_aggregate(
            user,
            repo,
            base,
            Response::Document(Json::Object(members)),
            issues,
            release,
        ) matches Ok(record) && record.languages == Map::<Seq<char>, u64>::empty(),
{
    lemma_no_members_no_languages(members@);
}

} // verus!
