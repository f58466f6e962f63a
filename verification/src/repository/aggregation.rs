//! The assembly of a record as a sequence of requests, for a caller that
//! performs them.
//!
//! The caller asks an [`Aggregation`] for the address of its next request,
//! performs the request, and hands the answer to [`Aggregation::advance`],
//! until that gives a record or a failure. The second address is only known
//! once the first answer is read, so the addresses cannot be had in advance.

use vstd::prelude::*;
use vstd::string::StringExecFns;

use crate::error::{Error, Failure};
use crate::repository::issues::{issue_stats, spec_issue_stats};
use crate::repository::languages::{from_api_url, spec_languages, LanguageMap};
use crate::repository::metadata::{spec_metadata, Metadata, MetadataView};
use crate::repository::releases::{spec_latest, Release};
use crate::repository::{
    issues_url, latest_release_url, repo_api_url, spec_aggregate, spec_assemble, spec_issues_url,
    spec_latest_release_url, spec_repo_api_url, Repo, RepoView,
};
use crate::response::Response;

verus! {

/// Which answer is awaited, with the parts that were read so far.
#[derive(Debug)]
enum Stage {
    Base,
    Languages(Metadata),
    Issues(Metadata, LanguageMap),
    Release(Metadata, LanguageMap, (u64, u64, u64, u64)),
}

/// A record in the making: the repository it is for and how far it has come.
#[derive(Debug)]
pub struct Aggregation {
    user: String,
    repo: String,
    stage: Stage,
}

/// What an answer leads to.
#[derive(Debug)]
pub enum Step {
    /// Another request is to be made.
    Request(Aggregation),
    /// The record is complete.
    Finished(Repo),
    /// The work has failed; there is no record.
    Failed(Error),
}

/// The mathematical value of the stage of an [`Aggregation`].
pub enum StageView {
    /// The repository's own document is awaited.
    Base,
    /// The languages are awaited.
    Languages(MetadataView),
    /// The issue listing is awaited.
    Issues(MetadataView, Map<Seq<char>, u64>),
    /// The latest release is awaited.
    Release(MetadataView, Map<Seq<char>, u64>, (nat, nat, nat, nat)),
}

/// The mathematical value of an [`Aggregation`].
pub struct AggregationView {
    pub user: Seq<char>,
    pub repo: Seq<char>,
    pub stage: StageView,
}

/// The mathematical value of a [`Step`].
pub enum StepView {
    Request(AggregationView),
    Finished(RepoView),
    Failed(Failure),
}

impl View for Stage {
    type V = StageView;

    closed spec fn view(&self) -> StageView {
        match self {
            Stage::Base => StageView::Base,
            Stage::Languages(metadata) => StageView::Languages(metadata@),
            Stage::Issues(metadata, languages) => StageView::Issues(metadata@, languages@),
            Stage::Release(metadata, languages, counts) => StageView::Release(
                metadata@,
                languages@,
                (counts.0 as nat, counts.1 as nat, counts.2 as nat, counts.3 as nat),
            ),
        }
    }
}

impl View for Aggregation {
    type V = AggregationView;

    closed spec fn view(&self) -> AggregationView {
        AggregationView { user: self.user@, repo: self.repo@, stage: self.stage@ }
    }
}

impl View for Step {
    type V = StepView;

    open spec fn view(&self) -> StepView {
        match self {
            Step::Request(next) => StepView::Request(next@),
            Step::Finished(record) => StepView::Finished(record@),
            Step::Failed(e) => StepView::Failed(e@),
        }
    }
}

impl AggregationView {
    /// The state in which nothing was asked yet.
    pub open spec fn start(user: Seq<char>, repo: Seq<char>) -> AggregationView {
        AggregationView { user, repo, stage: StageView::Base }
    }

    /// The address of the request whose answer is awaited.
    pub open spec fn endpoint(self) -> Seq<char> {
        match self.stage {
            StageView::Base => spec_repo_api_url(self.user, self.repo),
            StageView::Languages(metadata) => metadata.languages_url,
            StageView::Issues(_, _) => spec_issues_url(self.user, self.repo),
            StageView::Release(_, _, _) => spec_latest_release_url(self.user, self.repo),
        }
    }

    /// What the awaited answer leads to: the next request, the record after
    /// the last one, or the failure that the answer stands for.
    pub open spec fn advance(self, response: Response) -> StepView {
        match self.stage {
            StageView::Base => match response.spec_document(self.endpoint()) {
                Err(e) => StepView::Failed(e),
                Ok(document) => match spec_metadata(document) {
                    Err(e) => StepView::Failed(e),
                    Ok(metadata) => StepView::Request(
                        AggregationView { stage: StageView::Languages(metadata), ..self },
                    ),
                },
            },
            StageView::Languages(metadata) => match spec_languages(response, self.endpoint()) {
                Err(e) => StepView::Failed(e),
                Ok(languages) => StepView::Request(
                    AggregationView { stage: StageView::Issues(metadata, languages), ..self },
                ),
            },
            StageView::Issues(metadata, languages) => match spec_issue_stats(
                response,
                self.endpoint(),
            ) {
                Err(e) => StepView::Failed(e),
                Ok(counts) => StepView::Request(
                    AggregationView {
                        stage: StageView::Release(metadata, languages, counts),
                        ..self
                    },
                ),
            },
            StageView::Release(metadata, languages, counts) => match spec_latest(
                response,
                self.endpoint(),
            ) {
                Err(e) => StepView::Failed(e),
                Ok(latest_release) => StepView::Finished(
                    spec_assemble(self.user, metadata, languages, counts, latest_release),
                ),
            },
        }
    }

    /// Where the state comes to when the `responses` are handed in one after
    /// the other, as long as another request is to be made.
    pub open spec fn run(self, responses: Seq<Response>) -> StepView
        decreases responses.len(),
    {
        if responses.len() == 0 {
            StepView::Request(self)
        } else {
            match self.advance(responses[0]) {
                StepView::Request(next) => next.run(responses.drop_first()),
                end => end,
            }
        }
    }
}

/// Handing in the four answers one after the other, from the start, gives
/// what the assembly of the four at once gives: the same record or the same
/// failure.
pub proof fn lemma_four_answers(
    user: Seq<char>,
    repo: Seq<char>,
    base: Response,
    languages: Response,
    issues: Response,
    release: Response,
)
    ensures
        AggregationView::start(user, repo).run(seq![base, languages, issues, release])
            == match spec_aggregate(user, repo, base, languages, issues, release) {
            Ok(record) => StepView::Finished(record),
            Err(e) => StepView::Failed(e),
        },
{
    let all = seq![base, languages, issues, release];
    let after_base = all.drop_first();
    let after_languages = after_base.drop_first();
    let after_issues = after_languages.drop_first();
    assert(after_issues.drop_first().len() == 0);
    reveal_with_fuel(AggregationView::run, 6);
}

impl Aggregation {
    /// Begins the assembly of the record of the repository `repo` of `user`.
    pub fn new(user: &str, repo: &str) -> (r: Aggregation)
        ensures
            r@ == AggregationView::start(user@, repo@),
    {
        Aggregation {
            user: String::from_str(user),
            repo: String::from_str(repo),
            stage: Stage::Base,
        }
    }

    /// The address to `GET` next.
    pub fn endpoint(&self) -> (r: String)
        ensures
            r@ == self@.endpoint(),
    {
        match &self.stage {
            Stage::Base => repo_api_url(self.user.as_str(), self.repo.as_str()),
            Stage::Languages(metadata) => metadata.languages_url.clone(),
            Stage::Issues(_, _) => issues_url(self.user.as_str(), self.repo.as_str()),
            Stage::Release(_, _, _) => latest_release_url(self.user.as_str(), self.repo.as_str()),
        }
    }

    /// Takes the answer to the request to [`Aggregation::endpoint`].
    pub fn advance(self, response: &Response) -> (r: Step)
        ensures
            r@ == self@.advance(*response),
    {
        let endpoint = self.endpoint();
        let Aggregation { user, repo, stage } = self;
        match stage {
            Stage::Base => {
                let document = match response.document(endpoint.as_str()) {
                    Err(e) => { return Step::Failed(e); },
                    Ok(document) => document,
                };
                match Metadata::from_document(document) {
                    Err(e) => Step::Failed(e),
                    Ok(metadata) => Step::Request(
                        Aggregation { user, repo, stage: Stage::Languages(metadata) },
                    ),
                }
            },
            Stage::Languages(metadata) => match from_api_url(endpoint.as_str(), response) {
                Err(e) => Step::Failed(e),
                Ok(languages) => Step::Request(
                    Aggregation { user, repo, stage: Stage::Issues(metadata, languages) },
                ),
            },
            Stage::Issues(metadata, languages) => match issue_stats(endpoint.as_str(), response) {
                Err(e) => Step::Failed(e),
                Ok(counts) => Step::Request(
                    Aggregation { user, repo, stage: Stage::Release(metadata, languages, counts) },
                ),
            },
            Stage::Release(metadata, languages, counts) => match Release::latest(
                endpoint.as_str(),
                response,
            ) {
                Err(e) => Step::Failed(e),
                Ok(latest_release) => Step::Finished(
                    Repo::assemble(user.as_str(), metadata, languages, counts, latest_release),
                ),
            },
        }
    }
}

} // verus!
