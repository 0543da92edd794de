//! One badge request: a server, a pattern for jobsets and a pattern for jobs.
//!
//! A request names what to fetch and decides on what comes back. The caller
//! fetches: the project list from `projects_url`, the evaluation history of
//! each jobset of `jobsets` from `evaluations_url`, and, as the walk of
//! `crate::resolver` asks for them, the builds of an evaluation from
//! `build_url`. The verdicts of the jobsets make the badge in `respond`.

use crate::aggregate::{
    all_passing, badge, badge_view, lemma_one_not_passing_fails_all, overall, select_jobsets,
    selected_jobsets,
};
use crate::model::{Build, BuildView, Jobset, Project};
use crate::pattern::{compiles, Matcher};
use crate::remote::{
    build_path_view, build_url, evaluations_path_view, evaluations_url, joins_to, parse_base,
    url_parse_text,
};
use crate::resolver::{
    check_jobset_evaluation, checked_status, consulted, lemma_all_queued_is_undetermined,
    lemma_verdict_rests_on_consulted, resolution, resolve, walk_reaches, Verdict,
};
use crate::response::{EndpointError, EndpointResponse, ResponseView};
use vstd::prelude::*;

verus! {

/// How many project lists a caller remembers at most.
pub const PROJECTS_CAPACITY: u64 = 100;

/// How many evaluation histories a caller remembers at most.
pub const EVALUATIONS_CAPACITY: u64 = 100;

/// How many builds a caller remembers at most.
pub const BUILDS_CAPACITY: u64 = 1000;

/// A badge request, with its base URL in normal form and its two patterns
/// compiled.
pub struct Request {
    pub base_url: String,
    pub jobsets: Matcher,
    pub jobs: Matcher,
}

/// The verdicts of the jobsets with these histories, under the job pattern.
pub open spec fn verdicts_of(jobs: Seq<char>, histories: Seq<Seq<Seq<BuildView>>>) -> Seq<Verdict> {
    histories.map_values(|history: Seq<Seq<BuildView>>| resolution(jobs, history))
}

/// The badge of a request whose selected jobsets have these histories.
pub open spec fn outcome(jobsets: Seq<char>, jobs: Seq<char>, histories: Seq<Seq<Seq<BuildView>>>) -> ResponseView {
    badge_view(jobsets, jobs, all_passing(verdicts_of(jobs, histories)))
}

impl Request {
    /// Reads the base URL and compiles the two patterns. Fails with
    /// [`EndpointError::UrlParse`] exactly when the base URL is no URL, and
    /// else with [`EndpointError::Pattern`] exactly when one of the patterns
    /// does not compile.
    pub fn new(base_url: &str, jobsets: &str, jobs: &str) -> (made: Result<Request, EndpointError>)
        ensures
            match made {
                Ok(request) => {
                    &&& url_parse_text(base_url@) == Some(request.base_url@)
                    &&& compiles(jobsets@)
                    &&& compiles(jobs@)
                    &&& request.jobsets@ == jobsets@
                    &&& request.jobs@ == jobs@
                },
                Err(error) => if url_parse_text(base_url@) is None {
                    error is UrlParse
                } else {
                    error is Pattern && !(compiles(jobsets@) && compiles(jobs@))
                },
            },
    {
        let base_url = match parse_base(base_url) {
            Ok(url) => url,
            Err(error) => {
                return Err(error);
            },
        };
        let jobsets = match Matcher::compile(jobsets) {
            Ok(matcher) => matcher,
            Err(error) => {
                return Err(error);
            },
        };
        let jobs = match Matcher::compile(jobs) {
            Ok(matcher) => matcher,
            Err(error) => {
                return Err(error);
            },
        };
        Ok(Request { base_url, jobsets, jobs })
    }

    /// The URL of the project list: the base URL itself.
    pub fn projects_url(&self) -> (url: &str)
        ensures
            url@ == self.base_url@,
    {
        self.base_url.as_str()
    }

    /// The URL of a jobset's evaluation history.
    pub fn evaluations_url(&self, jobset: &Jobset) -> (url: Result<String, EndpointError>)
        ensures
            joins_to(self.base_url@, evaluations_path_view(jobset.deep_view()), url),
    {
        evaluations_url(self.base_url.as_str(), jobset)
    }

    /// The URL of a build.
    pub fn build_url(&self, build: i32) -> (url: Result<String, EndpointError>)
        ensures
            joins_to(self.base_url@, build_path_view(build as int), url),
    {
        build_url(self.base_url.as_str(), build)
    }

    /// The key under which the project list is remembered: the base URL.
    pub fn projects_key(&self) -> (key: String)
        ensures
            key@ == self.base_url@,
    {
        self.base_url.clone()
    }

    /// The key under which a jobset's evaluation history is remembered: the
    /// base URL with the jobset, so that two servers never share an entry.
    pub fn evaluations_key(&self, jobset: &Jobset) -> (key: (String, Jobset))
        ensures
            key.0@ == self.base_url@,
            key.1.deep_view() == jobset.deep_view(),
    {
        (
            self.base_url.clone(),
            Jobset { project: jobset.project.clone(), name: jobset.name.clone() },
        )
    }

    /// The key under which a build is remembered: the base URL with the
    /// build's id, so that two servers never share an entry.
    pub fn build_key(&self, build: i32) -> (key: (String, i32))
        ensures
            key.0@ == self.base_url@,
            key.1 == build,
    {
        (self.base_url.clone(), build)
    }

    /// The jobsets that the request selects from the project list.
    pub fn jobsets(&self, projects: &Vec<Project>) -> (selected: Vec<Jobset>)
        ensures
            selected.deep_view() == selected_jobsets(self.jobsets@, projects.deep_view()),
    {
        select_jobsets(&self.jobsets, projects)
    }

    /// The status `(queued, failure)` of an evaluation, from the fetches of
    /// its builds. One failed fetch ends the request with its error.
    pub fn check_jobset_evaluation(&self, fetched: Vec<Result<Build, EndpointError>>) -> (checked: Result<
        (bool, bool),
        EndpointError,
    >)
        ensures
            checked == checked_status(self.jobs@, fetched@),
    {
        check_jobset_evaluation(&self.jobs, fetched)
    }

    /// The badge for the verdicts of the selected jobsets.
    pub fn respond(&self, verdicts: &Vec<Verdict>) -> (response: EndpointResponse)
        ensures
            response.deep_view() == badge_view(self.jobsets@, self.jobs@, all_passing(verdicts@)),
    {
        badge(self.jobsets.glob(), self.jobs.glob(), overall(verdicts))
    }

    /// The badge of the request where the builds of every selected jobset
    /// are all at hand: one history for each jobset, and in it one list of
    /// builds for each evaluation, the most recent evaluation first.
    pub fn outcome(&self, histories: &Vec<Vec<Vec<Build>>>) -> (response: EndpointResponse)
        ensures
            response.deep_view() == outcome(self.jobsets@, self.jobs@, histories.deep_view()),
    {
        let ghost all = histories.deep_view();
        let mut verdicts: Vec<Verdict> = Vec::new();
        let mut i: usize = 0;
        while i < histories.len()
            invariant
                i <= histories.len(),
                all == histories.deep_view(),
                verdicts@ == verdicts_of(self.jobs@, all).take(i as int),
            decreases histories.len() - i,
        {
            let verdict = resolve(&self.jobs, &histories[i]);
            assert(all[i as int] == histories[i as int].deep_view());
            verdicts.push(verdict);
            assert(verdicts@ =~= verdicts_of(self.jobs@, all).take(i + 1));
            i += 1;
        }
        assert(verdicts@ =~= verdicts_of(self.jobs@, all));
        self.respond(&verdicts)
    }
}

/// A jobset without a settled evaluation fails the request. Where every
/// evaluation of one jobset is queued, or the jobset has none, the jobset is
/// `Undetermined`, and the badge is the failing one whatever the other
/// jobsets resolve to.
pub proof fn lemma_unsettled_jobset_fails_request(
    jobsets: Seq<char>,
    jobs: Seq<char>,
    histories: Seq<Seq<Seq<BuildView>>>,
    index: int,
)
    requires
        0 <= index < histories.len(),
        walk_reaches(jobs, histories[index], histories[index].len() as int),
    ensures
        resolution(jobs, histories[index]) == Verdict::Undetermined,
        outcome(jobsets, jobs, histories) == badge_view(jobsets, jobs, false),
        outcome(jobsets, jobs, histories).is_error,
{
    lemma_all_queued_is_undetermined(jobs, histories[index]);
    assert(verdicts_of(jobs, histories)[index] == Verdict::Undetermined);
    lemma_one_not_passing_fails_all(verdicts_of(jobs, histories), index);
}

/// Asking again gives the same badge. Two requests with the same patterns,
/// to which the server shows the same builds in the evaluations that the
/// walks look at, end with the same badge: it makes no difference where the
/// builds were taken from, nor what stands in evaluations that no walk
/// comes to.
pub proof fn lemma_same_builds_same_badge(
    jobsets: Seq<char>,
    jobs: Seq<char>,
    first: Seq<Seq<Seq<BuildView>>>,
    second: Seq<Seq<Seq<BuildView>>>,
)
    requires
        first.len() == second.len(),
        forall|j: int| 0 <= j < first.len() ==> (#[trigger] first[j]).len() == second[j].len(),
        forall|j: int, e: int|
            0 <= j < first.len() && 0 <= e < consulted(jobs, first[j]) ==> (#[trigger] first[j][e])
                == second[j][e],
    ensures
        outcome(jobsets, jobs, first) == outcome(jobsets, jobs, second),
{
    assert(verdicts_of(jobs, first) =~= verdicts_of(jobs, second)) by {
        assert forall|j: int| 0 <= j < first.len() implies resolution(jobs, first[j]) == resolution(
            jobs,
            second[j],
        ) by {
            assert(forall|e: int| 0 <= e < consulted(jobs, first[j]) ==> first[j][e] == second[j][e]);
            lemma_verdict_rests_on_consulted(jobs, first[j], second[j]);
        }
    }
}

} // verus!
