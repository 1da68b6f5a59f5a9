use vstd::prelude::*;

verus! {

/// How a pipeline's jobs are containerised. Informational for now: the runner
/// does not yet select an execution sandbox from it.
#[derive(Clone, Copy, Debug, PartialEq, Eq, Structural)]
pub enum ContainerMethod {
    Docker,
}

/// A named, ordered sequence of shell commands sharing one workspace checkout.
/// The `image` field is informational, like `ContainerMethod`.
#[derive(Debug, Clone, PartialEq, Eq)]
pub struct Job {
    pub name: String,
    pub image: String,
    pub steps: Vec<String>,
}

/// A pipeline definition: the branches that trigger it and its jobs.
/// Jobs run in declaration order, which is the order of this vector; that
/// order is the single deterministic iteration order used everywhere.
#[derive(Debug, Clone, PartialEq, Eq)]
pub struct Pipeline {
    pub trigger_branches: Vec<String>,
    pub container_method: ContainerMethod,
    pub jobs: Vec<Job>,
}

/// The terminal status of one build. Computed once per build.
#[derive(Debug, Clone, PartialEq, Eq)]
pub enum PipelineStatus {
    Passed,
    Failed(String),
    Cancelled,
}

impl Pipeline {
    /// True iff `current_branch` is one of the pipeline's trigger branches.
    /// Case-sensitive; the empty string matches only a listed empty string.
    pub fn should_trigger(&self, current_branch: &str) -> (triggered: bool)
        ensures
            triggered == self.trigger_branches.deep_view().contains(current_branch@),
    {
        let branch: String = current_branch.to_owned();
        let n = self.trigger_branches.len();
        let mut i: usize = 0;
        while i < n
            invariant
                n == self.trigger_branches.len(),
                i <= n,
                branch@ == current_branch@,
                forall|j: int| 0 <= j < i ==> self.trigger_branches.deep_view()[j] != current_branch@,
            decreases n - i,
        {
            if self.trigger_branches[i] == branch {
                proof {
                    assert(self.trigger_branches.deep_view()[i as int] == current_branch@);
                }
                return true;
            }
            i += 1;
        }
        false
    }
}

} // verus!
