use crate::runner::failure_message;
use vstd::prelude::*;
use vstd::string::StringExecFns;

verus! {

/// Errors of the build engine that are reported to callers.
#[derive(Debug)]
pub enum MerelError {
    /// A step's command could not be executed: the command and what the
    /// attempt produced.
    CommandFailed(String, String),
    /// No pipeline definition could be retrieved from this repository
    /// directory.
    PipelineRetrieveError(String),
}

impl MerelError {
    /// The human-readable description of the error.
    pub fn message(&self) -> (m: String)
        ensures
            self matches MerelError::CommandFailed(command, detail) ==> m@ == failure_message(
                command@,
                detail@,
            ),
            self matches MerelError::PipelineRetrieveError(dir) ==> m@
                == "Could not retrieve a pipeline from "@ + dir@,
    {
        match self {
            MerelError::CommandFailed(command, detail) => {
                let mut m: String = "Could not execute command ".to_owned();
                m.append(command.as_str());
                m.append(", got ");
                m.append(detail.as_str());
                m
            },
            MerelError::PipelineRetrieveError(dir) => {
                let mut m: String = "Could not retrieve a pipeline from ".to_owned();
                m.append(dir.as_str());
                m
            },
        }
    }
}

} // verus!
