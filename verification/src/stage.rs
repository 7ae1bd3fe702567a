//! The linear pipeline of one dispatcher run.
//!
//! A run walks a fixed sequence of steps: acquire a device, compile the
//! shader source, look the kernel up, build the pipeline, then submit and
//! wait. The first four can fail; each failure is fatal and carries that
//! step's own error. The submit-and-wait step has no failure path: the
//! wait has no deadline and ends only when the GPU signals completion.

use vstd::prelude::*;

verus! {

use crate::errors::DispatchError;

/// Where a run stands: one stage per pipeline step, then a terminal
/// success or failure.
#[derive(Clone, Copy, Debug, PartialEq, Eq, Structural)]
pub enum Stage {
    /// About to acquire a GPU device.
    AcquireDevice,
    /// About to compile the shader source into a library.
    CompileShader,
    /// About to look the kernel name up in the compiled library.
    LookupKernel,
    /// About to build a compute pipeline from the kernel function.
    BuildPipeline,
    /// About to submit the recorded work and wait for it.
    Execute,
    /// The run succeeded.
    Complete,
    /// The run failed at some step and ended at once.
    Failed(DispatchError),
}

impl Stage {
    /// Whether a run at this stage is over.
    pub open spec fn is_terminal(self) -> bool {
        match self {
            Stage::Complete => true,
            Stage::Failed(_) => true,
            _ => false,
        }
    }

    /// Steps still ahead of this stage before the run is over.
    pub open spec fn steps_left(self) -> nat {
        match self {
            Stage::AcquireDevice => 5,
            Stage::CompileShader => 4,
            Stage::LookupKernel => 3,
            Stage::BuildPipeline => 2,
            Stage::Execute => 1,
            Stage::Complete => 0,
            Stage::Failed(_) => 0,
        }
    }
}

/// The stage a run moves to when the step at `stage` reports `ok`. A
/// failed step ends the run with that step's own error; submit-and-wait
/// cannot fail; a run that is over stays where it ended.
pub open spec fn spec_advance(stage: Stage, ok: bool) -> Stage {
    match stage {
        Stage::AcquireDevice => if ok {
            Stage::CompileShader
        } else {
            Stage::Failed(DispatchError::DeviceUnavailable)
        },
        Stage::CompileShader => if ok {
            Stage::LookupKernel
        } else {
            Stage::Failed(DispatchError::ShaderCompileFailure)
        },
        Stage::LookupKernel => if ok {
            Stage::BuildPipeline
        } else {
            Stage::Failed(DispatchError::KernelNotFound)
        },
        Stage::BuildPipeline => if ok {
            Stage::Execute
        } else {
            Stage::Failed(DispatchError::PipelineCreationFailure)
        },
        Stage::Execute => Stage::Complete,
        Stage::Complete => Stage::Complete,
        Stage::Failed(e) => Stage::Failed(e),
    }
}

/// Moves a run one step on, as `spec_advance` says.
pub fn advance(stage: Stage, ok: bool) -> (r: Stage)
    ensures
        r == spec_advance(stage, ok),
{
    match stage {
        Stage::AcquireDevice => if ok {
            Stage::CompileShader
        } else {
            Stage::Failed(DispatchError::DeviceUnavailable)
        },
        Stage::CompileShader => if ok {
            Stage::LookupKernel
        } else {
            Stage::Failed(DispatchError::ShaderCompileFailure)
        },
        Stage::LookupKernel => if ok {
            Stage::BuildPipeline
        } else {
            Stage::Failed(DispatchError::KernelNotFound)
        },
        Stage::BuildPipeline => if ok {
            Stage::Execute
        } else {
            Stage::Failed(DispatchError::PipelineCreationFailure)
        },
        Stage::Execute => Stage::Complete,
        Stage::Complete => Stage::Complete,
        Stage::Failed(e) => Stage::Failed(e),
    }
}

/// The stage reached from `stage` after its steps report the outcomes in
/// `events`, first outcome first.
pub open spec fn run_stages(stage: Stage, events: Seq<bool>) -> Stage
    decreases events.len(),
{
    if events.len() == 0 {
        stage
    } else {
        run_stages(spec_advance(stage, events[0]), events.drop_first())
    }
}

/// Failure is fatal: a run that has failed stays failed with the same
/// error, whatever outcomes later steps would report. No error is caught,
/// retried, or turned into a result.
pub proof fn lemma_failure_is_fatal(e: DispatchError, events: Seq<bool>)
    ensures
        run_stages(Stage::Failed(e), events) == Stage::Failed(e),
    decreases events.len(),
{
    if events.len() > 0 {
        lemma_failure_is_fatal(e, events.drop_first());
    }
}

/// Every run ends: after as many outcomes as there are steps left, the run
/// stands at a terminal stage, completed or failed.
pub proof fn lemma_run_terminates(stage: Stage, events: Seq<bool>)
    requires
        events.len() >= stage.steps_left(),
    ensures
        run_stages(stage, events).is_terminal(),
    decreases events.len(),
{
    if events.len() > 0 {
        lemma_run_terminates(spec_advance(stage, events[0]), events.drop_first());
    }
}

/// A whole run is fail-fast: from the first stage, five outcomes decide it
/// completely. It completes exactly when every fallible step succeeds, and
/// otherwise ends with the error of the first step that failed.
pub proof fn lemma_run_fail_fast(events: Seq<bool>)
    requires
        events.len() == 5,
    ensures
        run_stages(Stage::AcquireDevice, events) == if !events[0] {
            Stage::Failed(DispatchError::DeviceUnavailable)
        } else if !events[1] {
            Stage::Failed(DispatchError::ShaderCompileFailure)
        } else if !events[2] {
            Stage::Failed(DispatchError::KernelNotFound)
        } else if !events[3] {
            Stage::Failed(DispatchError::PipelineCreationFailure)
        } else {
            Stage::Complete
        },
{
    let e1 = events.drop_first();
    let e2 = e1.drop_first();
    let e3 = e2.drop_first();
    let e4 = e3.drop_first();
    let e5 = e4.drop_first();
    let s1 = spec_advance(Stage::AcquireDevice, events[0]);
    let s2 = spec_advance(s1, e1[0]);
    let s3 = spec_advance(s2, e2[0]);
    let s4 = spec_advance(s3, e3[0]);
    let s5 = spec_advance(s4, e4[0]);
    assert(e1[0] == events[1] && e2[0] == events[2] && e3[0] == events[3] && e4[0] == events[4]);
    assert(e5.len() == 0);
    assert(run_stages(Stage::AcquireDevice, events) == run_stages(s1, e1));
    assert(run_stages(s1, e1) == run_stages(s2, e2));
    assert(run_stages(s2, e2) == run_stages(s3, e3));
    assert(run_stages(s3, e3) == run_stages(s4, e4));
    assert(run_stages(s4, e4) == run_stages(s5, e5));
    assert(run_stages(s5, e5) == s5);
}

} // verus!
