//! The records that a Hydra server returns, and their mathematical views.

use vstd::prelude::*;
use vstd::string::StringExecFns;

verus! {

/// A project with the names of its jobsets, as listed at the server's root.
#[derive(Clone, Debug, PartialEq, Eq)]
pub struct Project {
    pub name: String,
    pub jobsets: Vec<String>,
}

/// The view of a [`Project`].
pub struct ProjectView {
    pub name: Seq<char>,
    pub jobsets: Seq<Seq<char>>,
}

impl DeepView for Project {
    type V = ProjectView;

    open spec fn deep_view(&self) -> ProjectView {
        ProjectView { name: self.name@, jobsets: self.jobsets.deep_view() }
    }
}

/// A jobset, identified by its project and its own name.
#[derive(Clone, Debug, PartialEq, Eq, Hash)]
pub struct Jobset {
    pub project: String,
    pub name: String,
}

/// The view of a [`Jobset`].
pub struct JobsetView {
    pub project: Seq<char>,
    pub name: Seq<char>,
}

impl JobsetView {
    /// The text `project:name`, under which a jobset is shown and matched.
    pub open spec fn identity(self) -> Seq<char> {
        self.project + seq![':'] + self.name
    }
}

impl DeepView for Jobset {
    type V = JobsetView;

    open spec fn deep_view(&self) -> JobsetView {
        JobsetView { project: self.project@, name: self.name@ }
    }
}

impl Jobset {
    /// The text `project:name`.
    pub fn to_string(&self) -> (text: String)
        ensures
            text@ == self.deep_view().identity(),
    {
        proof {
            reveal_strlit(":");
        }
        let mut text = self.project.clone();
        text.append(":");
        text.append(self.name.as_str());
        assert(text@ =~= self.deep_view().identity());
        text
    }
}

/// One evaluation of a jobset: the ids of its builds.
#[derive(Clone, Debug, PartialEq, Eq)]
pub struct JobsetEvaluation {
    pub builds: Vec<i32>,
}

impl DeepView for JobsetEvaluation {
    type V = Seq<i32>;

    open spec fn deep_view(&self) -> Seq<i32> {
        self.builds@
    }
}

/// The evaluation history of a jobset. Index 0 is the most recent evaluation.
#[derive(Clone, Debug, PartialEq, Eq)]
pub struct JobsetEvalList {
    pub evals: Vec<JobsetEvaluation>,
}

impl DeepView for JobsetEvalList {
    type V = Seq<Seq<i32>>;

    open spec fn deep_view(&self) -> Seq<Seq<i32>> {
        self.evals.deep_view()
    }
}

/// One build. `finished == 1` means that it has settled, `buildstatus == 0`
/// that it succeeded; every other value means unsettled and failed.
#[derive(Clone, Debug, PartialEq, Eq)]
pub struct Build {
    pub job: String,
    pub finished: i32,
    pub buildstatus: i32,
}

/// The view of a [`Build`].
pub struct BuildView {
    pub job: Seq<char>,
    pub finished: int,
    pub buildstatus: int,
}

impl DeepView for Build {
    type V = BuildView;

    open spec fn deep_view(&self) -> BuildView {
        BuildView {
            job: self.job@,
            finished: self.finished as int,
            buildstatus: self.buildstatus as int,
        }
    }
}

} // verus!
