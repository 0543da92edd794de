use hydra_shields_endpoint::model::{Build, JobsetEvalList, JobsetEvaluation};
use hydra_shields_endpoint::pattern::Matcher;
use hydra_shields_endpoint::resolver::{
    advance, builds_status, check_jobset_evaluation, check_list_passing, matching_builds, resolve,
    settle, start, Step, Verdict,
};
use hydra_shields_endpoint::response::EndpointError;

fn build(job: &str, finished: i32, buildstatus: i32) -> Build {
    Build { job: job.to_string(), finished, buildstatus }
}

fn jobs(pattern: &str) -> Matcher {
    Matcher::compile(pattern).unwrap()
}

/// A history of `evaluations` evaluations, the build ids of which do not
/// matter here.
fn list(evaluations: usize) -> JobsetEvalList {
    JobsetEvalList { evals: vec![JobsetEvaluation { builds: vec![] }; evaluations] }
}

/// Walks a history the way a caller does that fetches on demand, and counts
/// the evaluations whose builds were asked for.
fn walk(matcher: &Matcher, history: &Vec<Vec<Build>>) -> (Verdict, usize) {
    let list = list(history.len());
    let mut fetched = 0;
    let mut step = start(&list);
    loop {
        match step {
            Step::Done(verdict) => return (verdict, fetched),
            Step::Fetch(index) => {
                assert_eq!(index, fetched);
                fetched += 1;
                let status = builds_status(matcher, &history[index]);
                step = advance(&list, index, status);
            }
        }
    }
}

#[test]
fn matching_builds_keeps_matches_in_order() {
    let builds = vec![
        build("build", 1, 0),
        build("docs", 1, 1),
        build("build-arm", 0, 0),
        build("test", 1, 0),
    ];
    let kept = matching_builds(&jobs("build*"), &builds);
    assert_eq!(kept, vec![build("build", 1, 0), build("build-arm", 0, 0)]);
}

#[test]
fn matching_builds_compares_text_as_it_stands() {
    let builds = vec![build("Build", 1, 0), build(" build", 1, 0), build("build", 1, 0)];
    let kept = matching_builds(&jobs("build"), &builds);
    assert_eq!(kept, vec![build("build", 1, 0)]);
}

#[test]
fn settle_without_builds_is_settled_failure() {
    assert_eq!(settle(&vec![]), (false, true));
}

#[test]
fn settle_all_finished_and_successful() {
    assert_eq!(settle(&vec![build("a", 1, 0), build("b", 1, 0)]), (false, false));
}

#[test]
fn settle_one_unfinished_is_queued() {
    assert_eq!(settle(&vec![build("a", 1, 0), build("b", 0, 0)]), (true, false));
}

#[test]
fn settle_one_nonzero_status_is_failure() {
    assert_eq!(settle(&vec![build("a", 1, 3), build("b", 1, 0)]), (false, true));
}

#[test]
fn settle_unfinished_and_failed() {
    assert_eq!(settle(&vec![build("a", 2, 0), build("b", 1, -1)]), (true, true));
}

#[test]
fn settle_reads_only_the_sentinel_values() {
    assert_eq!(settle(&vec![build("a", -1, 0)]), (true, false));
    assert_eq!(settle(&vec![build("a", 1, i32::MIN)]), (false, true));
}

#[test]
fn evaluation_status_ignores_builds_of_other_jobs() {
    let builds = vec![build("docs", 0, 7), build("build", 1, 0)];
    assert_eq!(builds_status(&jobs("build"), &builds), (false, false));
}

#[test]
fn evaluation_without_matching_build_is_settled_failure() {
    let builds = vec![build("docs", 1, 0), build("test", 1, 0)];
    assert_eq!(builds_status(&jobs("build"), &builds), (false, true));
}

#[test]
fn checked_evaluation_with_all_builds_fetched() {
    let fetched = vec![Ok(build("build", 1, 0)), Ok(build("docs", 0, 1)), Ok(build("build", 0, 0))];
    assert_eq!(check_jobset_evaluation(&jobs("build"), fetched), Ok((true, false)));
    assert_eq!(check_jobset_evaluation(&jobs("build"), vec![]), Ok((false, true)));
}

#[test]
fn checked_evaluation_with_failed_fetch_is_the_first_error() {
    let fetched = vec![
        Ok(build("build", 1, 0)),
        Err(EndpointError::Transport("timed out".to_string())),
        Ok(build("build", 1, 0)),
        Err(EndpointError::Decode("no job".to_string())),
    ];
    assert_eq!(
        check_jobset_evaluation(&jobs("build"), fetched),
        Err(EndpointError::Transport("timed out".to_string()))
    );
}

#[test]
fn failed_fetch_of_a_build_of_another_job_still_ends_the_check() {
    let fetched = vec![Ok(build("build", 1, 0)), Err(EndpointError::Decode("bad".to_string()))];
    assert_eq!(
        check_jobset_evaluation(&jobs("build"), fetched),
        Err(EndpointError::Decode("bad".to_string()))
    );
}

#[test]
fn start_asks_for_the_most_recent_evaluation() {
    assert_eq!(start(&list(3)), Step::Fetch(0));
    assert_eq!(start(&list(1)), Step::Fetch(0));
}

#[test]
fn start_on_empty_history_is_undetermined() {
    assert_eq!(start(&list(0)), Step::Done(Verdict::Undetermined));
}

#[test]
fn advance_settled_success_passes() {
    assert_eq!(advance(&list(3), 0, (false, false)), Step::Done(Verdict::Passing));
}

#[test]
fn advance_settled_failure_fails() {
    assert_eq!(advance(&list(3), 1, (false, true)), Step::Done(Verdict::Failing));
}

#[test]
fn advance_queued_moves_to_next_older() {
    assert_eq!(advance(&list(3), 0, (true, false)), Step::Fetch(1));
    assert_eq!(advance(&list(3), 1, (true, true)), Step::Fetch(2));
}

#[test]
fn advance_queued_at_the_end_is_undetermined() {
    assert_eq!(advance(&list(3), 2, (true, false)), Step::Done(Verdict::Undetermined));
    assert_eq!(advance(&list(0), 0, (true, false)), Step::Done(Verdict::Undetermined));
    assert_eq!(advance(&list(2), usize::MAX, (true, true)), Step::Done(Verdict::Undetermined));
}

#[test]
fn all_successful_history_passes_on_first_evaluation_only() {
    let history = vec![
        vec![build("build", 1, 0), build("docs", 0, 1)],
        vec![build("build", 1, 0)],
        vec![build("build", 1, 0)],
    ];
    let matcher = jobs("build");
    assert_eq!(resolve(&matcher, &history), Verdict::Passing);
    assert_eq!(walk(&matcher, &history), (Verdict::Passing, 1));
    assert!(check_list_passing(&matcher, &history));
}

#[test]
fn queued_head_defers_to_settled_passing_successor() {
    let history = vec![
        vec![build("build", 0, 0)],
        vec![build("build", 1, 0)],
        vec![build("build", 1, 1)],
    ];
    let matcher = jobs("build");
    assert_eq!(resolve(&matcher, &history), Verdict::Passing);
    assert_eq!(walk(&matcher, &history), (Verdict::Passing, 2));
}

#[test]
fn queued_head_defers_to_settled_failing_successor() {
    let history = vec![
        vec![build("build", 0, 0)],
        vec![build("build", 1, 2)],
        vec![build("build", 1, 0)],
    ];
    let matcher = jobs("build");
    assert_eq!(resolve(&matcher, &history), Verdict::Failing);
    assert_eq!(walk(&matcher, &history), (Verdict::Failing, 2));
    assert!(!check_list_passing(&matcher, &history));
}

#[test]
fn all_queued_history_is_undetermined() {
    let history = vec![
        vec![build("build", 0, 0)],
        vec![build("build", 0, 1), build("build", 1, 0)],
    ];
    let matcher = jobs("build");
    assert_eq!(resolve(&matcher, &history), Verdict::Undetermined);
    assert_eq!(walk(&matcher, &history), (Verdict::Undetermined, 2));
    assert!(!check_list_passing(&matcher, &history));
}

#[test]
fn empty_history_is_undetermined() {
    let history: Vec<Vec<Build>> = vec![];
    let matcher = jobs("build");
    assert_eq!(resolve(&matcher, &history), Verdict::Undetermined);
    assert_eq!(walk(&matcher, &history), (Verdict::Undetermined, 0));
    assert!(!check_list_passing(&matcher, &history));
}

#[test]
fn evaluation_without_match_fails_and_stops_the_walk() {
    let history = vec![
        vec![build("docs", 1, 0)],
        vec![build("build", 1, 0)],
    ];
    let matcher = jobs("build");
    assert_eq!(resolve(&matcher, &history), Verdict::Failing);
    assert_eq!(walk(&matcher, &history), (Verdict::Failing, 1));
    assert!(!check_list_passing(&matcher, &history));
}

#[test]
fn evaluation_without_any_build_fails_and_stops_the_walk() {
    let history = vec![vec![], vec![build("build", 1, 0)]];
    let matcher = jobs("build");
    assert_eq!(walk(&matcher, &history), (Verdict::Failing, 1));
}

#[test]
fn evaluation_without_match_after_queued_one_fails_there() {
    let history = vec![
        vec![build("build", 0, 0)],
        vec![build("docs", 1, 0)],
        vec![build("build", 1, 0)],
    ];
    let matcher = jobs("build");
    assert_eq!(walk(&matcher, &history), (Verdict::Failing, 2));
}

#[test]
fn settled_passing_head_hides_older_evaluation_without_match() {
    let history = vec![vec![build("build", 1, 0)], vec![build("docs", 1, 0)]];
    let matcher = jobs("build");
    assert_eq!(walk(&matcher, &history), (Verdict::Passing, 1));
}

#[test]
fn verdict_does_not_change_with_evaluations_behind_the_deciding_one() {
    let matcher = jobs("build");
    let first = vec![
        vec![build("build", 0, 0)],
        vec![build("build", 1, 0)],
        vec![build("build", 1, 1)],
    ];
    let second = vec![
        vec![build("build", 0, 0)],
        vec![build("build", 1, 0)],
        vec![build("docs", 0, 0)],
    ];
    assert_eq!(resolve(&matcher, &first), resolve(&matcher, &second));
}

#[test]
fn resolve_agrees_with_the_step_by_step_walk() {
    let matcher = jobs("b*");
    let histories = vec![
        vec![],
        vec![vec![build("b1", 0, 0)], vec![build("b2", 1, 1)]],
        vec![vec![build("b1", 0, 0)], vec![build("c", 1, 1)]],
        vec![vec![build("b1", 1, 0), build("b2", 1, 0)]],
        vec![vec![build("b1", 0, 1)], vec![build("b2", 0, 0)]],
    ];
    for history in &histories {
        assert_eq!(resolve(&matcher, history), walk(&matcher, history).0);
    }
}
