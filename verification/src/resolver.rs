//! From the builds of a jobset's evaluations to the jobset's verdict.
//!
//! An evaluation is reduced to a status, a pair `(queued, failure)`, over the
//! builds whose job the job pattern matches. The history is walked from the
//! most recent evaluation on: a queued evaluation defers to the next older
//! one, and the first evaluation that is not queued decides.

use crate::fetched::{gather, round_outcome};
use crate::model::{Build, BuildView, JobsetEvalList};
use crate::pattern::{glob_matches, Matcher};
use crate::response::EndpointError;
use vstd::prelude::*;

verus! {

/// What a jobset's history resolves to.
#[derive(Clone, Copy, Debug, PartialEq, Eq, Structural)]
pub enum Verdict {
    /// The most recent settled evaluation succeeded.
    Passing,
    /// The most recent settled evaluation failed, or holds no matching build.
    Failing,
    /// No evaluation has settled: all are queued, or there is none.
    Undetermined,
}

/// What the walk over a history does next.
#[derive(Clone, Copy, Debug, PartialEq, Eq, Structural)]
pub enum Step {
    /// The builds of the evaluation at this index are needed.
    Fetch(usize),
    /// The walk has ended with this verdict.
    Done(Verdict),
}

/// The test that keeps the builds whose job the glob `pattern` matches.
pub open spec fn job_matches(pattern: Seq<char>) -> spec_fn(BuildView) -> bool {
    |build: BuildView| glob_matches(pattern, build.job)
}

/// The builds whose job the glob `pattern` matches, in their order.
pub open spec fn matched(pattern: Seq<char>, builds: Seq<BuildView>) -> Seq<BuildView> {
    builds.filter(job_matches(pattern))
}

/// Whether some build has not finished.
pub open spec fn any_unfinished(builds: Seq<BuildView>) -> bool {
    exists|i: int| 0 <= i < builds.len() && (#[trigger] builds[i]).finished != 1
}

/// Whether some build has a status other than success.
pub open spec fn any_failed(builds: Seq<BuildView>) -> bool {
    exists|i: int| 0 <= i < builds.len() && (#[trigger] builds[i]).buildstatus != 0
}

/// The status `(queued, failure)` of an evaluation whose matching builds are
/// `kept`. Without a matching build the evaluation counts as settled and
/// failed.
pub open spec fn status_of(kept: Seq<BuildView>) -> (bool, bool) {
    if kept.len() == 0 {
        (false, true)
    } else {
        (any_unfinished(kept), any_failed(kept))
    }
}

/// The status `(queued, failure)` of an evaluation with these builds.
pub open spec fn evaluation_status(pattern: Seq<char>, builds: Seq<BuildView>) -> (bool, bool) {
    status_of(matched(pattern, builds))
}

/// The verdict of an evaluation that is not queued.
pub open spec fn settled_verdict(status: (bool, bool)) -> Verdict {
    if status.1 {
        Verdict::Failing
    } else {
        Verdict::Passing
    }
}

/// The verdict of the walk that starts at the evaluation `from`.
pub open spec fn verdict_from(pattern: Seq<char>, history: Seq<Seq<BuildView>>, from: int) -> Verdict
    decreases history.len() - from,
{
    if from < 0 || from >= history.len() {
        Verdict::Undetermined
    } else {
        let status = evaluation_status(pattern, history[from]);
        if status.0 {
            verdict_from(pattern, history, from + 1)
        } else {
            settled_verdict(status)
        }
    }
}

/// The verdict of a history: that of its most recent evaluation that is not
/// queued, and `Undetermined` where there is none.
pub open spec fn resolution(pattern: Seq<char>, history: Seq<Seq<BuildView>>) -> Verdict {
    verdict_from(pattern, history, 0)
}

/// How many evaluations the walk that starts at `from` looks at.
pub open spec fn consulted_from(pattern: Seq<char>, history: Seq<Seq<BuildView>>, from: int) -> nat
    decreases history.len() - from,
{
    if from < 0 || from >= history.len() {
        0
    } else if evaluation_status(pattern, history[from]).0 {
        1 + consulted_from(pattern, history, from + 1)
    } else {
        1
    }
}

/// How many evaluations of a history the walk looks at, counted from the most
/// recent one.
pub open spec fn consulted(pattern: Seq<char>, history: Seq<Seq<BuildView>>) -> nat {
    consulted_from(pattern, history, 0)
}

/// The first step of the walk over a history of `evaluations` evaluations.
pub open spec fn first_step(evaluations: int) -> Step {
    if evaluations <= 0 {
        Step::Done(Verdict::Undetermined)
    } else {
        Step::Fetch(0)
    }
}

/// The step that follows once the evaluation at `index` has shown `status`.
pub open spec fn step_after(evaluations: int, index: int, status: (bool, bool)) -> Step {
    if !status.0 {
        Step::Done(settled_verdict(status))
    } else if 0 <= index && index + 1 < evaluations {
        Step::Fetch((index + 1) as usize)
    } else {
        Step::Done(Verdict::Undetermined)
    }
}

/// The verdict that a step stands for: its own if the walk has ended, else
/// that of the walk from the evaluation that it asks for.
pub open spec fn step_verdict(pattern: Seq<char>, history: Seq<Seq<BuildView>>, step: Step) -> Verdict {
    match step {
        Step::Done(verdict) => verdict,
        Step::Fetch(index) => verdict_from(pattern, history, index as int),
    }
}

/// Keeps the builds whose job the matcher's pattern matches, in their order.
pub fn matching_builds(matcher: &Matcher, builds: &Vec<Build>) -> (kept: Vec<Build>)
    ensures
        kept.deep_view() == matched(matcher@, builds.deep_view()),
{
    let ghost all = builds.deep_view();
    let ghost test = job_matches(matcher@);
    let mut kept: Vec<Build> = Vec::new();
    let mut i: usize = 0;
    proof {
        reveal(Seq::filter);
        assert(all.take(0) =~= Seq::<BuildView>::empty());
        assert(kept.deep_view() =~= all.take(0).filter(test));
    }
    while i < builds.len()
        invariant
            i <= builds.len(),
            all == builds.deep_view(),
            test == job_matches(matcher@),
            kept.deep_view() == all.take(i as int).filter(test),
        decreases builds.len() - i,
    {
        let build = &builds[i];
        let hit = matcher.is_match(build.job.as_str());
        proof {
            assert(all.take(i + 1) =~= all.take(i as int).push(build.deep_view()));
            all.take(i as int).lemma_filter_push(build.deep_view(), test);
            assert(hit == test(build.deep_view()));
        }
        if hit {
            let ghost before = kept.deep_view();
            kept.push(Build { job: build.job.clone(), finished: build.finished, buildstatus: build.buildstatus });
            assert(kept.deep_view() =~= before.push(build.deep_view()));
        }
        i += 1;
    }
    assert(all.take(builds.len() as int) =~= all);
    kept
}

/// The status `(queued, failure)` of an evaluation, from its matching builds.
/// Without a matching build it is `(false, true)`: settled and failed. Else
/// the evaluation is queued where a build has `finished != 1`, and has failed
/// where a build has `buildstatus != 0`.
pub fn settle(kept: &Vec<Build>) -> (status: (bool, bool))
    ensures
        status == status_of(kept.deep_view()),
{
    if kept.len() == 0 {
        return (false, true);
    }
    let ghost all = kept.deep_view();
    let mut queued = false;
    let mut failure = false;
    let mut i: usize = 0;
    while i < kept.len()
        invariant
            i <= kept.len(),
            all == kept.deep_view(),
            queued == any_unfinished(all.take(i as int)),
            failure == any_failed(all.take(i as int)),
        decreases kept.len() - i,
    {
        let build = &kept[i];
        proof {
            let earlier = all.take(i as int);
            let now = all.take(i + 1);
            assert(now[i as int] == build.deep_view());
            assert(forall|j: int| 0 <= j < i ==> earlier[j] == now[j]);
        }
        if build.finished != 1 {
            queued = true;
        }
        if build.buildstatus != 0 {
            failure = true;
        }
        i += 1;
    }
    assert(all.take(kept.len() as int) =~= all);
    (queued, failure)
}

/// The status `(queued, failure)` of an evaluation, from all of its builds:
/// that of the builds whose job the matcher's pattern matches.
pub fn builds_status(matcher: &Matcher, builds: &Vec<Build>) -> (status: (bool, bool))
    ensures
        status == evaluation_status(matcher@, builds.deep_view()),
{
    let kept = matching_builds(matcher, builds);
    settle(&kept)
}

/// The views of builds.
pub open spec fn build_views(builds: Seq<Build>) -> Seq<BuildView> {
    builds.map_values(|build: Build| build.deep_view())
}

/// What the fetches of an evaluation's builds come to: the status of the
/// evaluation where every build was fetched, and else the error of the first
/// fetch that failed.
pub open spec fn checked_status(pattern: Seq<char>, fetched: Seq<Result<Build, EndpointError>>) -> Result<
    (bool, bool),
    EndpointError,
> {
    match round_outcome(fetched) {
        Ok(builds) => Ok(evaluation_status(pattern, build_views(builds))),
        Err(error) => Err(error),
    }
}

/// The status `(queued, failure)` of an evaluation, from the fetches of its
/// builds. One failed fetch ends the resolution with its error.
pub fn check_jobset_evaluation(matcher: &Matcher, fetched: Vec<Result<Build, EndpointError>>) -> (checked: Result<
    (bool, bool),
    EndpointError,
>)
    ensures
        checked == checked_status(matcher@, fetched@),
{
    match gather(fetched) {
        Ok(builds) => {
            assert(builds.deep_view() =~= build_views(builds@));
            Ok(builds_status(matcher, &builds))
        },
        Err(error) => Err(error),
    }
}

/// The first step of the walk over `evaluations` evaluations.
fn begin(evaluations: usize) -> (step: Step)
    ensures
        step == first_step(evaluations as int),
{
    if evaluations == 0 {
        Step::Done(Verdict::Undetermined)
    } else {
        Step::Fetch(0)
    }
}

/// The step that follows the evaluation at `index` of `evaluations`.
fn proceed(evaluations: usize, index: usize, status: (bool, bool)) -> (step: Step)
    ensures
        step == step_after(evaluations as int, index as int, status),
        step matches Step::Fetch(next) ==> next == index + 1 && next < evaluations,
{
    if !status.0 {
        if status.1 {
            Step::Done(Verdict::Failing)
        } else {
            Step::Done(Verdict::Passing)
        }
    } else if evaluations > 0 && index < evaluations - 1 {
        Step::Fetch(index + 1)
    } else {
        Step::Done(Verdict::Undetermined)
    }
}

/// Begins the walk over a jobset's history: asks for the builds of the most
/// recent evaluation, or ends at once where the history is empty.
pub fn start(list: &JobsetEvalList) -> (step: Step)
    ensures
        step == first_step(list.evals.len() as int),
{
    begin(list.evals.len())
}

/// Continues the walk once the evaluation at `index` has shown `status`. An
/// evaluation that is not queued ends the walk: `Failing` where it has
/// failed, else `Passing`. A queued one sends the walk to the next older
/// evaluation, and ends it as `Undetermined` where there is none.
pub fn advance(list: &JobsetEvalList, index: usize, status: (bool, bool)) -> (step: Step)
    ensures
        step == step_after(list.evals.len() as int, index as int, status),
        step matches Step::Fetch(next) ==> next == index + 1 && next < list.evals.len(),
{
    proceed(list.evals.len(), index, status)
}

/// One step of the walk keeps what the walk ends with: the walk from an
/// evaluation ends as the step does that follows that evaluation's status.
/// The history is one whose length a `usize` holds, as a step names an
/// evaluation by one.
pub proof fn lemma_step_keeps_verdict(pattern: Seq<char>, history: Seq<Seq<BuildView>>, index: int)
    requires
        0 <= index < history.len() <= usize::MAX,
    ensures
        verdict_from(pattern, history, index) == step_verdict(
            pattern,
            history,
            step_after(history.len() as int, index, evaluation_status(pattern, history[index])),
        ),
{
    let status = evaluation_status(pattern, history[index]);
    if status.0 && index + 1 >= history.len() {
        assert(verdict_from(pattern, history, index + 1) == Verdict::Undetermined);
    }
}

/// How many evaluations lie between a step and the end of the history.
pub open spec fn steps_left(evaluations: nat, step: Step) -> nat {
    match step {
        Step::Fetch(index) => if index < evaluations {
            (evaluations - index) as nat
        } else {
            0
        },
        Step::Done(_) => 0,
    }
}

/// The walk as its caller runs it: from `step` on, the builds of the
/// evaluation that the step asks for are fetched, their status gives the next
/// step, and so on until a step ends the walk. This is the list of the
/// evaluations that are fetched, in the order of the fetches.
pub open spec fn walk_fetches(pattern: Seq<char>, history: Seq<Seq<BuildView>>, step: Step) -> Seq<int>
    decreases steps_left(history.len(), step),
{
    match step {
        Step::Done(_) => Seq::empty(),
        Step::Fetch(index) => if index < history.len() <= usize::MAX {
            seq![index as int] + walk_fetches(
                pattern,
                history,
                step_after(
                    history.len() as int,
                    index as int,
                    evaluation_status(pattern, history[index as int]),
                ),
            )
        } else {
            Seq::empty()
        },
    }
}

/// The verdict with which the walk, run from `step` on, ends.
pub open spec fn walk_verdict(pattern: Seq<char>, history: Seq<Seq<BuildView>>, step: Step) -> Verdict
    decreases steps_left(history.len(), step),
{
    match step {
        Step::Done(verdict) => verdict,
        Step::Fetch(index) => if index < history.len() <= usize::MAX {
            walk_verdict(
                pattern,
                history,
                step_after(
                    history.len() as int,
                    index as int,
                    evaluation_status(pattern, history[index as int]),
                ),
            )
        } else {
            Verdict::Undetermined
        },
    }
}

/// The walk from the evaluation `from` fetches that evaluation and the ones
/// after it one by one, as many as the history's resolution looks at, and
/// ends with the verdict of the history from there.
proof fn lemma_walk_from(pattern: Seq<char>, history: Seq<Seq<BuildView>>, from: int)
    requires
        0 <= from < history.len() <= usize::MAX,
    ensures
        walk_verdict(pattern, history, Step::Fetch(from as usize)) == verdict_from(pattern, history, from),
        walk_fetches(pattern, history, Step::Fetch(from as usize)) == Seq::new(
            consulted_from(pattern, history, from),
            |i: int| from + i,
        ),
    decreases history.len() - from,
{
    let status = evaluation_status(pattern, history[from]);
    let next = step_after(history.len() as int, from, status);
    let fetched = walk_fetches(pattern, history, Step::Fetch(from as usize));
    let counted = Seq::new(consulted_from(pattern, history, from), |i: int| from + i);
    assert(walk_verdict(pattern, history, Step::Fetch(from as usize)) == walk_verdict(
        pattern,
        history,
        next,
    ));
    if status.0 && from + 1 < history.len() {
        lemma_walk_from(pattern, history, from + 1);
        assert(fetched =~= counted);
    } else {
        assert(next is Done);
        assert(walk_verdict(pattern, history, next) == next->Done_0);
        assert(walk_fetches(pattern, history, next) =~= Seq::<int>::empty());
        if status.0 {
            assert(consulted_from(pattern, history, from + 1) == 0);
            assert(verdict_from(pattern, history, from + 1) == Verdict::Undetermined);
        }
        assert(fetched =~= counted);
    }
}

/// A caller that runs the walk, and hands it the status of each evaluation
/// that it asks for, fetches the evaluations in the order of the history,
/// from the most recent one on and none twice, as many as `consulted` counts,
/// and ends with the history's `resolution`.
pub proof fn lemma_walk_follows_history(pattern: Seq<char>, history: Seq<Seq<BuildView>>)
    requires
        history.len() <= usize::MAX,
    ensures
        walk_verdict(pattern, history, first_step(history.len() as int)) == resolution(pattern, history),
        walk_fetches(pattern, history, first_step(history.len() as int)) == Seq::new(
            consulted(pattern, history),
            |i: int| i,
        ),
{
    if history.len() > 0 {
        lemma_walk_from(pattern, history, 0);
        assert(Seq::new(consulted_from(pattern, history, 0), |i: int| 0 + i) =~= Seq::new(
            consulted(pattern, history),
            |i: int| i,
        ));
    } else {
        assert(walk_fetches(pattern, history, first_step(0)) =~= Seq::new(0, |i: int| i));
    }
}

/// Whether every matching build of an evaluation has finished and succeeded.
pub open spec fn all_succeeded(pattern: Seq<char>, builds: Seq<BuildView>) -> bool {
    forall|b: int|
        0 <= b < matched(pattern, builds).len() ==> {
            let build = #[trigger] matched(pattern, builds)[b];
            build.finished == 1 && build.buildstatus == 0
        }
}

/// Whether the evaluations before `index` are all queued, so that the walk
/// comes to the evaluation at `index`.
pub open spec fn walk_reaches(pattern: Seq<char>, history: Seq<Seq<BuildView>>, index: int) -> bool {
    forall|e: int| 0 <= e < index ==> evaluation_status(pattern, #[trigger] history[e]).0
}

/// A walk that passes queued evaluations only, up to `index`, ends as the
/// walk from `index` does, and has looked at `index` evaluations more.
proof fn lemma_queued_prefix(pattern: Seq<char>, history: Seq<Seq<BuildView>>, index: int)
    requires
        0 <= index <= history.len(),
        walk_reaches(pattern, history, index),
    ensures
        resolution(pattern, history) == verdict_from(pattern, history, index),
        consulted(pattern, history) == index + consulted_from(pattern, history, index),
    decreases index,
{
    if index > 0 {
        lemma_queued_prefix(pattern, history, index - 1);
        assert(evaluation_status(pattern, history[index - 1]).0);
    }
}

/// Where the most recent evaluation holds a matching build, and every
/// matching build of every evaluation has finished and succeeded, the
/// history resolves to `Passing`, and the walk looks at the most recent
/// evaluation only: the older ones could be anything.
pub proof fn lemma_all_succeeded_passes(pattern: Seq<char>, history: Seq<Seq<BuildView>>)
    requires
        history.len() > 0,
        matched(pattern, history[0]).len() > 0,
        forall|e: int| 0 <= e < history.len() ==> all_succeeded(pattern, #[trigger] history[e]),
    ensures
        resolution(pattern, history) == Verdict::Passing,
        consulted(pattern, history) == 1,
        forall|older: Seq<Seq<BuildView>>|
            #[trigger] resolution(pattern, seq![history[0]] + older) == Verdict::Passing,
{
    assert(all_succeeded(pattern, history[0]));
    assert(evaluation_status(pattern, history[0]) == (false, false));
    assert forall|older: Seq<Seq<BuildView>>|
        #[trigger] resolution(pattern, seq![history[0]] + older) == Verdict::Passing by {
        assert((seq![history[0]] + older)[0] == history[0]);
    }
}

/// Queued evaluations are passed over, and the first evaluation that is not
/// queued decides: where the walk comes to such an evaluation, the history
/// resolves as that evaluation does on its own, and the walk ends there.
pub proof fn lemma_first_settled_decides(pattern: Seq<char>, history: Seq<Seq<BuildView>>, index: int)
    requires
        0 <= index < history.len(),
        walk_reaches(pattern, history, index),
        !evaluation_status(pattern, history[index]).0,
    ensures
        resolution(pattern, history) == settled_verdict(evaluation_status(pattern, history[index])),
        resolution(pattern, history) == resolution(pattern, seq![history[index]]),
        consulted(pattern, history) == index + 1,
{
    lemma_queued_prefix(pattern, history, index);
    assert(seq![history[index]][0] == history[index]);
}

/// Where the most recent evaluation is queued and the one before it is not,
/// the history resolves as that older evaluation does on its own, and the
/// walk looks at these two only.
pub proof fn lemma_queued_head_defers(pattern: Seq<char>, history: Seq<Seq<BuildView>>)
    requires
        history.len() >= 2,
        evaluation_status(pattern, history[0]).0,
        !evaluation_status(pattern, history[1]).0,
    ensures
        resolution(pattern, history) == settled_verdict(evaluation_status(pattern, history[1])),
        resolution(pattern, history) == resolution(pattern, seq![history[1]]),
        consulted(pattern, history) == 2,
{
    lemma_first_settled_decides(pattern, history, 1);
}

/// A history whose evaluations are all queued resolves to `Undetermined`,
/// after the walk has looked at each of them. The empty history is one.
pub proof fn lemma_all_queued_is_undetermined(pattern: Seq<char>, history: Seq<Seq<BuildView>>)
    requires
        walk_reaches(pattern, history, history.len() as int),
    ensures
        resolution(pattern, history) == Verdict::Undetermined,
        consulted(pattern, history) == history.len(),
{
    lemma_queued_prefix(pattern, history, history.len() as int);
}

/// Where the walk comes to an evaluation that holds no matching build, the
/// history resolves to `Failing` there: the walk looks at no older
/// evaluation, and whatever the older evaluations hold, the verdict stays.
pub proof fn lemma_unmatched_evaluation_fails(
    pattern: Seq<char>,
    history: Seq<Seq<BuildView>>,
    index: int,
)
    requires
        0 <= index < history.len(),
        walk_reaches(pattern, history, index),
        matched(pattern, history[index]).len() == 0,
    ensures
        resolution(pattern, history) == Verdict::Failing,
        consulted(pattern, history) == index + 1,
        forall|older: Seq<Seq<BuildView>>|
            #[trigger] resolution(pattern, history.take(index + 1) + older) == Verdict::Failing,
{
    lemma_queued_prefix(pattern, history, index);
    assert forall|older: Seq<Seq<BuildView>>|
        #[trigger] resolution(pattern, history.take(index + 1) + older) == Verdict::Failing by {
        let other = history.take(index + 1) + older;
        assert(forall|e: int| 0 <= e <= index ==> other[e] == history[e]);
        assert(walk_reaches(pattern, other, index)) by {
            assert forall|e: int| 0 <= e < index implies evaluation_status(
                pattern,
                #[trigger] other[e],
            ).0 by {
                assert(other[e] == history[e]);
            }
        }
        lemma_queued_prefix(pattern, other, index);
    }
}

/// The verdict rests on the evaluations that the walk looks at, and on
/// nothing else: two histories of one length that hold the same builds in
/// those evaluations resolve alike, after the same number of evaluations.
pub proof fn lemma_verdict_rests_on_consulted(
    pattern: Seq<char>,
    first: Seq<Seq<BuildView>>,
    second: Seq<Seq<BuildView>>,
)
    requires
        first.len() == second.len(),
        forall|e: int| 0 <= e < consulted(pattern, first) ==> first[e] == second[e],
    ensures
        resolution(pattern, first) == resolution(pattern, second),
        consulted(pattern, first) == consulted(pattern, second),
{
    lemma_agreeing_walks(pattern, first, second, 0);
}

/// The walks from `from` over two histories of one length end alike where
/// the histories agree on what the first walk looks at.
proof fn lemma_agreeing_walks(
    pattern: Seq<char>,
    first: Seq<Seq<BuildView>>,
    second: Seq<Seq<BuildView>>,
    from: int,
)
    requires
        0 <= from,
        first.len() == second.len(),
        forall|e: int| from <= e < from + consulted_from(pattern, first, from) ==> first[e] == second[e],
    ensures
        verdict_from(pattern, first, from) == verdict_from(pattern, second, from),
        consulted_from(pattern, first, from) == consulted_from(pattern, second, from),
    decreases first.len() - from,
{
    if from < first.len() {
        assert(first[from] == second[from]);
        if evaluation_status(pattern, first[from]).0 {
            lemma_agreeing_walks(pattern, first, second, from + 1);
        }
    }
}

/// The verdict of a history whose builds are all at hand, one list of builds
/// for each evaluation, the most recent evaluation first.
pub fn resolve(matcher: &Matcher, history: &Vec<Vec<Build>>) -> (verdict: Verdict)
    ensures
        verdict == resolution(matcher@, history.deep_view()),
{
    let ghost all = history.deep_view();
    let mut step = begin(history.len());
    loop
        invariant
            all == history.deep_view(),
            step matches Step::Fetch(index) ==> index < history.len(),
            step_verdict(matcher@, all, step) == resolution(matcher@, all),
        decreases
            match step {
                Step::Fetch(index) => history.len() - index,
                Step::Done(_) => 0,
            },
    {
        match step {
            Step::Done(verdict) => {
                return verdict;
            },
            Step::Fetch(index) => {
                let status = builds_status(matcher, &history[index]);
                proof {
                    assert(all[index as int] == history[index as int].deep_view());
                    lemma_step_keeps_verdict(matcher@, all, index as int);
                }
                step = proceed(history.len(), index, status);
            },
        }
    }
}

/// Whether a history resolves to `Passing`.
pub fn check_list_passing(matcher: &Matcher, history: &Vec<Vec<Build>>) -> (passing: bool)
    ensures
        passing == (resolution(matcher@, history.deep_view()) == Verdict::Passing),
{
    resolve(matcher, history) == Verdict::Passing
}

} // verus!
