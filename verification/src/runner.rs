use crate::pipeline::{Job, Pipeline, PipelineStatus};
use vstd::prelude::*;
use vstd::string::StringExecFns;

verus! {

/// What happened to one spawned step process, as observed by the driver.
#[derive(Debug)]
pub enum StepOutcome {
    /// The process ran to completion with this exit code; `output` is its
    /// captured standard output, decoded as text.
    Exited { code: i32, output: String },
    /// The process could not be spawned; `message` says why.
    SpawnFailed { message: String },
    /// The process completed but its output could not be decoded as text.
    OutputInvalid { message: String },
}

/// The next thing the driver of a run must do.
#[derive(Debug)]
pub enum RunnerAction {
    /// Spawn this shell command in the build's workspace, then report what
    /// happened through `complete_step`. `log_line` announces the step and
    /// belongs in the build's log.
    RunStep { command: String, log_line: String },
    /// The run has reached its terminal status; `log_line` is the final
    /// summary line for the build's log.
    Finished { status: PipelineStatus, log_line: String },
}

/// True for the one step outcome that lets the pipeline continue:
/// a process that ran to completion and exited with code zero.
pub open spec fn outcome_ok(o: StepOutcome) -> bool {
    match o {
        StepOutcome::Exited { code, .. } => code == 0,
        _ => false,
    }
}

/// The text carried by a step outcome: the captured output of a completed
/// process, or the message describing why there is none.
pub open spec fn outcome_detail(o: StepOutcome) -> Seq<char> {
    match o {
        StepOutcome::Exited { output, .. } => output@,
        StepOutcome::SpawnFailed { message } => message@,
        StepOutcome::OutputInvalid { message } => message@,
    }
}

/// The log line that reports a failed step, built from the step's command
/// and the outcome's detail text.
pub open spec fn failure_message(cmd: Seq<char>, detail: Seq<char>) -> Seq<char> {
    "Could not execute command "@ + cmd + ", got "@ + detail
}

/// The job index reached after skipping exhausted jobs, starting from job
/// `j` with `s` of its steps already done.
pub open spec fn norm_job(jobs: Seq<Job>, j: int, s: int) -> int
    decreases jobs.len() - j,
{
    if 0 <= j < jobs.len() && s >= jobs[j].steps@.len() {
        norm_job(jobs, j + 1, 0)
    } else {
        j
    }
}

/// The step index that goes with `norm_job`.
pub open spec fn norm_step(jobs: Seq<Job>, j: int, s: int) -> int
    decreases jobs.len() - j,
{
    if 0 <= j < jobs.len() && s >= jobs[j].steps@.len() {
        norm_step(jobs, j + 1, 0)
    } else {
        s
    }
}

/// One build's execution of a pipeline, advanced step by step by a driver
/// that spawns the processes. Jobs run in declaration order; cancellation
/// is observed only at job boundaries; the first failing step ends the run.
pub struct PipelineRun {
    pub pipeline: Pipeline,
    pub job_idx: usize,
    pub step_idx: usize,
    pub status: Option<PipelineStatus>,
}

/// The state a run starts in: positioned on the first step of the first
/// job that has any, no terminal status yet.
pub open spec fn spec_start(pipeline: Pipeline) -> PipelineRun {
    PipelineRun {
        job_idx: norm_job(pipeline.jobs@, 0, 0) as usize,
        step_idx: norm_step(pipeline.jobs@, 0, 0) as usize,
        status: None,
        pipeline,
    }
}

impl PipelineRun {
    /// While the run is live, its position points at a real step, or just
    /// past the last job with no step of a job half-skipped.
    pub open spec fn wf(self) -> bool {
        self.status is None ==> {
            &&& self.job_idx <= self.pipeline.jobs@.len()
            &&& self.job_idx < self.pipeline.jobs@.len() ==> self.step_idx
                < self.pipeline.jobs@[self.job_idx as int].steps@.len()
            &&& self.job_idx == self.pipeline.jobs@.len() ==> self.step_idx == 0
        }
    }

    /// The command of the step the run is positioned on.
    pub open spec fn cur_command(self) -> Seq<char> {
        self.pipeline.jobs@[self.job_idx as int].steps@[self.step_idx as int]@
    }

    pub fn new(pipeline: Pipeline) -> (run: Self)
        ensures
            run == spec_start(pipeline),
            run.wf(),
    {
        let mut run = PipelineRun { pipeline, job_idx: 0, step_idx: 0, status: None };
        run.normalize();
        run
    }

    pub fn is_finished(&self) -> (b: bool)
        ensures
            b == (self.status is Some),
    {
        self.status.is_some()
    }

    /// Decides what the driver must do next, reading the cancellation flag
    /// at this moment. Cancellation takes effect only when the run stands
    /// at a job boundary; a started job's remaining steps still run.
    pub fn next(&mut self, cancel_requested: bool) -> (action: RunnerAction)
        requires
            old(self).wf(),
            old(self).status is None,
        ensures
            final(self).pipeline == old(self).pipeline,
            final(self).job_idx == old(self).job_idx,
            final(self).step_idx == old(self).step_idx,
            final(self).wf(),
            old(self).job_idx == old(self).pipeline.jobs@.len() ==> {
                &&& final(self).status == Some(PipelineStatus::Passed)
                &&& action matches RunnerAction::Finished {
                    status: PipelineStatus::Passed,
                    log_line,
                } && log_line@ == "Pipeline passed"@
            },
            old(self).job_idx < old(self).pipeline.jobs@.len() && old(self).step_idx == 0
                && cancel_requested ==> {
                &&& final(self).status == Some(PipelineStatus::Cancelled)
                &&& action matches RunnerAction::Finished {
                    status: PipelineStatus::Cancelled,
                    log_line,
                } && log_line@ == "Pipeline was cancelled"@
            },
            old(self).job_idx < old(self).pipeline.jobs@.len() && !(old(self).step_idx == 0
                && cancel_requested) ==> {
                &&& final(self).status is None
                &&& action matches RunnerAction::RunStep { command, log_line }
                    && command@ == old(self).cur_command()
                    && log_line@ == "run: "@ + old(self).cur_command()
            },
    {
        if self.job_idx == self.pipeline.jobs.len() {
            self.status = Some(PipelineStatus::Passed);
            RunnerAction::Finished {
                status: PipelineStatus::Passed,
                log_line: "Pipeline passed".to_owned(),
            }
        } else if self.step_idx == 0 && cancel_requested {
            self.status = Some(PipelineStatus::Cancelled);
            RunnerAction::Finished {
                status: PipelineStatus::Cancelled,
                log_line: "Pipeline was cancelled".to_owned(),
            }
        } else {
            let command = self.pipeline.jobs[self.job_idx].steps[self.step_idx].clone();
            let mut log_line: String = "run: ".to_owned();
            log_line.append(command.as_str());
            RunnerAction::RunStep { command, log_line }
        }
    }

    /// Folds one step's outcome into the run: a zero exit code advances the
    /// position (skipping any jobs left with no step), anything else ends
    /// the run as `Failed`. Returns the log lines the outcome produced:
    /// the step's output if there is any, or the failure message.
    pub fn complete_step(&mut self, outcome: StepOutcome) -> (lines: Vec<String>)
        requires
            old(self).wf(),
            old(self).status is None,
            old(self).job_idx < old(self).pipeline.jobs@.len(),
        ensures
            final(self).pipeline == old(self).pipeline,
            final(self).wf(),
            outcome_ok(outcome) ==> {
                &&& final(self).status is None
                &&& final(self).job_idx == norm_job(
                    old(self).pipeline.jobs@,
                    old(self).job_idx as int,
                    old(self).step_idx + 1,
                )
                &&& final(self).step_idx == norm_step(
                    old(self).pipeline.jobs@,
                    old(self).job_idx as int,
                    old(self).step_idx + 1,
                )
                &&& lines.deep_view() == if outcome_detail(outcome).len() == 0 {
                    Seq::<Seq<char>>::empty()
                } else {
                    seq![outcome_detail(outcome)]
                }
            },
            !outcome_ok(outcome) ==> {
                &&& final(self).status matches Some(PipelineStatus::Failed(reason))
                    && reason@ == failure_message(old(self).cur_command(), outcome_detail(outcome))
                &&& final(self).job_idx == old(self).job_idx
                &&& final(self).step_idx == old(self).step_idx
                &&& lines.deep_view() == seq![
                    failure_message(old(self).cur_command(), outcome_detail(outcome)),
                ]
            },
    {
        let mut lines: Vec<String> = Vec::new();
        match outcome {
            StepOutcome::Exited { code, output } => {
                if code == 0 {
                    if !output.as_str().is_empty() {
                        lines.push(output);
                        proof {
                            assert(lines.deep_view() =~= seq![outcome_detail(outcome)]);
                        }
                    } else {
                        proof {
                            assert(lines.deep_view() =~= Seq::<Seq<char>>::empty());
                        }
                    }
                    let nsteps = self.pipeline.jobs[self.job_idx].steps.len();
                    proof {
                        assert(self.step_idx < nsteps);
                    }
                    self.step_idx += 1;
                    self.normalize();
                } else {
                    let line = self.fail(&output);
                    lines.push(line);
                    proof {
                        assert(lines.deep_view() =~= seq![
                            failure_message(old(self).cur_command(), outcome_detail(outcome)),
                        ]);
                    }
                }
            },
            StepOutcome::SpawnFailed { message } => {
                let line = self.fail(&message);
                lines.push(line);
                proof {
                    assert(lines.deep_view() =~= seq![
                        failure_message(old(self).cur_command(), outcome_detail(outcome)),
                    ]);
                }
            },
            StepOutcome::OutputInvalid { message } => {
                let line = self.fail(&message);
                lines.push(line);
                proof {
                    assert(lines.deep_view() =~= seq![
                        failure_message(old(self).cur_command(), outcome_detail(outcome)),
                    ]);
                }
            },
        }
        lines
    }

    /// Ends the run as `Failed` over the given detail text, returning the
    /// failure log line.
    fn fail(&mut self, detail: &String) -> (line: String)
        requires
            old(self).wf(),
            old(self).status is None,
            old(self).job_idx < old(self).pipeline.jobs@.len(),
        ensures
            final(self).pipeline == old(self).pipeline,
            final(self).job_idx == old(self).job_idx,
            final(self).step_idx == old(self).step_idx,
            final(self).wf(),
            final(self).status matches Some(PipelineStatus::Failed(reason)) && reason@
                == failure_message(old(self).cur_command(), detail@),
            line@ == failure_message(old(self).cur_command(), detail@),
    {
        let command = &self.pipeline.jobs[self.job_idx].steps[self.step_idx];
        let mut line: String = "Could not execute command ".to_owned();
        line.append(command.as_str());
        line.append(", got ");
        line.append(detail.as_str());
        let reason = line.clone();
        self.status = Some(PipelineStatus::Failed(reason));
        line
    }

    /// Moves the position past any jobs whose steps are exhausted, so that
    /// a live run always points at a real step or at the end.
    fn normalize(&mut self)
        requires
            old(self).status is None,
            old(self).job_idx <= old(self).pipeline.jobs@.len(),
            old(self).job_idx < old(self).pipeline.jobs@.len() ==> old(self).step_idx <= old(
                self,
            ).pipeline.jobs@[old(self).job_idx as int].steps@.len(),
            old(self).job_idx == old(self).pipeline.jobs@.len() ==> old(self).step_idx == 0,
        ensures
            final(self).pipeline == old(self).pipeline,
            final(self).status == old(self).status,
            final(self).job_idx == norm_job(
                old(self).pipeline.jobs@,
                old(self).job_idx as int,
                old(self).step_idx as int,
            ),
            final(self).step_idx == norm_step(
                old(self).pipeline.jobs@,
                old(self).job_idx as int,
                old(self).step_idx as int,
            ),
            final(self).wf(),
    {
        let n = self.pipeline.jobs.len();
        while self.job_idx < n && self.step_idx == self.pipeline.jobs[self.job_idx].steps.len()
            invariant
                self.pipeline == old(self).pipeline,
                self.status == old(self).status,
                n == self.pipeline.jobs@.len(),
                self.job_idx <= n,
                self.job_idx < n ==> self.step_idx <= self.pipeline.jobs@[self.job_idx as int].steps@.len(),
                self.job_idx == n ==> self.step_idx == 0,
                norm_job(self.pipeline.jobs@, self.job_idx as int, self.step_idx as int)
                    == norm_job(
                    old(self).pipeline.jobs@,
                    old(self).job_idx as int,
                    old(self).step_idx as int,
                ),
                norm_step(self.pipeline.jobs@, self.job_idx as int, self.step_idx as int)
                    == norm_step(
                    old(self).pipeline.jobs@,
                    old(self).job_idx as int,
                    old(self).step_idx as int,
                ),
            decreases n - self.job_idx,
        {
            self.job_idx += 1;
            self.step_idx = 0;
        }
    }
}

} // verus!
