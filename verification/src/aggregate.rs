//! From the project list to the jobsets of a request, and from the jobsets'
//! verdicts to the badge.

use crate::model::{Jobset, JobsetView, Project, ProjectView};
use crate::pattern::{glob_matches, Matcher};
use crate::resolver::Verdict;
use crate::response::{EndpointResponse, ResponseView};
use vstd::prelude::*;
use vstd::string::StringExecFns;

verus! {

/// The jobsets of one project, in the order in which the project lists them.
pub open spec fn jobsets_of(project: ProjectView) -> Seq<JobsetView> {
    project.jobsets.map_values(|name: Seq<char>| JobsetView { project: project.name, name })
}

/// The jobsets of all projects: those of the first project, then those of the
/// second, and so on.
pub open spec fn all_jobsets(projects: Seq<ProjectView>) -> Seq<JobsetView> {
    projects.map_values(|project: ProjectView| jobsets_of(project)).flatten()
}

/// The test that keeps the jobsets whose text `project:name` the glob
/// `pattern` matches.
pub open spec fn jobset_matches(pattern: Seq<char>) -> spec_fn(JobsetView) -> bool {
    |jobset: JobsetView| glob_matches(pattern, jobset.identity())
}

/// The jobsets of all projects that the glob `pattern` selects, in order.
pub open spec fn selected_jobsets(pattern: Seq<char>, projects: Seq<ProjectView>) -> Seq<JobsetView> {
    all_jobsets(projects).filter(jobset_matches(pattern))
}

/// Whether every verdict is `Passing`. `Failing` and `Undetermined` both
/// count against it.
pub open spec fn all_passing(verdicts: Seq<Verdict>) -> bool {
    forall|i: int| 0 <= i < verdicts.len() ==> #[trigger] verdicts[i] == Verdict::Passing
}

/// The label of a badge: the two patterns, joined by a colon.
pub open spec fn badge_label(jobsets: Seq<char>, jobs: Seq<char>) -> Seq<char> {
    jobsets + seq![':'] + jobs
}

/// The badge for the overall verdict.
pub open spec fn badge_view(jobsets: Seq<char>, jobs: Seq<char>, passing: bool) -> ResponseView {
    ResponseView {
        schema_version: 1,
        label: badge_label(jobsets, jobs),
        message: if passing {
            "passing"@
        } else {
            "one or more jobs failing"@
        },
        is_error: !passing,
    }
}

/// The jobsets of one project.
fn jobsets_of_project(project: &Project) -> (jobsets: Vec<Jobset>)
    ensures
        jobsets.deep_view() == jobsets_of(project.deep_view()),
{
    let mut jobsets: Vec<Jobset> = Vec::new();
    let mut i: usize = 0;
    while i < project.jobsets.len()
        invariant
            i <= project.jobsets.len(),
            jobsets.deep_view() == jobsets_of(project.deep_view()).take(i as int),
        decreases project.jobsets.len() - i,
    {
        let ghost before = jobsets.deep_view();
        let jobset = Jobset { project: project.name.clone(), name: project.jobsets[i].clone() };
        jobsets.push(jobset);
        assert(jobsets.deep_view() =~= before.push(jobset.deep_view()));
        assert(jobsets.deep_view() =~= jobsets_of(project.deep_view()).take(i + 1));
        i += 1;
    }
    assert(jobsets.deep_view() =~= jobsets_of(project.deep_view()));
    jobsets
}

/// Every jobset of every project, in the order of the project list.
pub fn candidate_jobsets(projects: &Vec<Project>) -> (jobsets: Vec<Jobset>)
    ensures
        jobsets.deep_view() == all_jobsets(projects.deep_view()),
{
    let ghost all = projects.deep_view();
    let ghost per_project = all.map_values(|project: ProjectView| jobsets_of(project));
    let mut jobsets: Vec<Jobset> = Vec::new();
    let mut i: usize = 0;
    assert(jobsets.deep_view() =~= per_project.take(0).flatten());
    while i < projects.len()
        invariant
            i <= projects.len(),
            all == projects.deep_view(),
            per_project == all.map_values(|project: ProjectView| jobsets_of(project)),
            jobsets.deep_view() == per_project.take(i as int).flatten(),
        decreases projects.len() - i,
    {
        let ghost before = jobsets.deep_view();
        let mut more = jobsets_of_project(&projects[i]);
        let ghost added = more.deep_view();
        jobsets.append(&mut more);
        proof {
            assert(jobsets.deep_view() =~= before + added);
            assert(per_project[i as int] == added);
            assert(per_project.take(i + 1) =~= per_project.take(i as int).push(added));
            per_project.take(i as int).lemma_flatten_push(added);
        }
        i += 1;
    }
    assert(per_project.take(projects.len() as int) =~= per_project);
    jobsets
}

/// Keeps the jobsets whose text `project:name` the matcher's pattern matches.
pub fn matching_jobsets(matcher: &Matcher, jobsets: Vec<Jobset>) -> (kept: Vec<Jobset>)
    ensures
        kept.deep_view() == jobsets.deep_view().filter(jobset_matches(matcher@)),
{
    let ghost all = jobsets.deep_view();
    let ghost test = jobset_matches(matcher@);
    let mut kept: Vec<Jobset> = Vec::new();
    let mut i: usize = 0;
    proof {
        reveal(Seq::filter);
        assert(all.take(0) =~= Seq::<JobsetView>::empty());
        assert(kept.deep_view() =~= all.take(0).filter(test));
    }
    while i < jobsets.len()
        invariant
            i <= jobsets.len(),
            all == jobsets.deep_view(),
            test == jobset_matches(matcher@),
            kept.deep_view() == all.take(i as int).filter(test),
        decreases jobsets.len() - i,
    {
        let jobset = &jobsets[i];
        let identity = jobset.to_string();
        let hit = matcher.is_match(identity.as_str());
        proof {
            assert(all.take(i + 1) =~= all.take(i as int).push(jobset.deep_view()));
            all.take(i as int).lemma_filter_push(jobset.deep_view(), test);
            assert(hit == test(jobset.deep_view()));
        }
        if hit {
            let ghost before = kept.deep_view();
            kept.push(Jobset { project: jobset.project.clone(), name: jobset.name.clone() });
            assert(kept.deep_view() =~= before.push(jobset.deep_view()));
        }
        i += 1;
    }
    assert(all.take(jobsets.len() as int) =~= all);
    kept
}

/// The jobsets of a request: of every jobset of every project, those whose
/// text `project:name` the matcher's pattern matches, in the order of the
/// project list.
pub fn select_jobsets(matcher: &Matcher, projects: &Vec<Project>) -> (jobsets: Vec<Jobset>)
    ensures
        jobsets.deep_view() == selected_jobsets(matcher@, projects.deep_view()),
{
    matching_jobsets(matcher, candidate_jobsets(projects))
}

/// Whether the request as a whole is passing: exactly when every jobset
/// is. With no jobset at all it is passing.
pub fn overall(verdicts: &Vec<Verdict>) -> (passing: bool)
    ensures
        passing == all_passing(verdicts@),
{
    let mut i: usize = 0;
    while i < verdicts.len()
        invariant
            i <= verdicts.len(),
            all_passing(verdicts@.take(i as int)),
        decreases verdicts.len() - i,
    {
        if verdicts[i] != Verdict::Passing {
            return false;
        }
        assert forall|j: int| 0 <= j < i + 1 implies #[trigger] verdicts@.take(i + 1)[j]
            == Verdict::Passing by {
            if j < i {
                assert(verdicts@.take(i as int)[j] == Verdict::Passing);
            }
        }
        i += 1;
    }
    assert(verdicts@.take(verdicts.len() as int) =~= verdicts@);
    true
}

/// The badge for the overall verdict. Its label is the two patterns joined
/// by a colon. A passing verdict reads `passing`; any other reads
/// `one or more jobs failing` and sets the error flag.
pub fn badge(jobsets: &str, jobs: &str, passing: bool) -> (response: EndpointResponse)
    ensures
        response.deep_view() == badge_view(jobsets@, jobs@, passing),
{
    proof {
        reveal_strlit(":");
    }
    let mut label = String::from_str(jobsets);
    label.append(":");
    label.append(jobs);
    assert(label@ =~= badge_label(jobsets@, jobs@));
    if passing {
        EndpointResponse {
            schema_version: 1,
            label,
            message: String::from_str("passing"),
            is_error: false,
        }
    } else {
        EndpointResponse {
            schema_version: 1,
            label,
            message: String::from_str("one or more jobs failing"),
            is_error: true,
        }
    }
}

/// A jobset that is not `Passing`, be it `Failing` or `Undetermined`, makes
/// the overall verdict fail.
pub proof fn lemma_one_not_passing_fails_all(verdicts: Seq<Verdict>, index: int)
    requires
        0 <= index < verdicts.len(),
        verdicts[index] != Verdict::Passing,
    ensures
        !all_passing(verdicts),
{
}

} // verus!
