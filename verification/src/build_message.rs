use crate::pipeline::Pipeline;
use crate::workspace_context::WorkspaceContext;
use vstd::prelude::*;

verus! {

/// Request to run a pipeline against a freshly prepared workspace.
pub struct NewBuildMessage {
    pub context: WorkspaceContext,
    pub pipeline: Pipeline,
}

/// Request to cancel the build with this identifier.
pub struct CancelBuildMessage(pub String);

/// One message of the dispatch actor's inbound stream.
pub enum BuildMessage {
    NewBuild(NewBuildMessage),
    CancelBuild(CancelBuildMessage),
}

} // verus!
