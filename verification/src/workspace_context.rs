use vstd::prelude::*;

verus! {

/// Everything one build needs to know about its checked-out workspace.
/// Immutable once constructed; owned by that build's run for its lifetime.
#[derive(Debug, Clone)]
pub struct WorkspaceContext {
    /// The build identifier: generated at intake, unique, never reused.
    pub id: String,
    pub commit_id: String,
    pub repo_url: String,
    pub repo_dir: String,
}

} // verus!
