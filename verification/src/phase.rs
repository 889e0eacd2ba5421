//! The readiness state machine: which phase the pipeline is in, and how a tick advances it.

use crate::kernel::{CompileFailure, KernelRegistry, PipelineShape, RegistryView};
use vstd::prelude::*;

verus! {

/// The phase of the pipeline. A session starts in `Loading` and never returns to it.
#[derive(Clone, Copy, Debug, PartialEq, Eq, Hash, Structural)]
pub enum PipelinePhase {
    /// The first kernel is not compiled yet.
    Loading,
    /// Two-stage shape only: the initialising kernel is compiled, the updating one not yet.
    Ready,
    /// All kernels that the phase machine waits for are compiled. The number is the parity:
    /// the index, 0 or 1, of the binding set from which the dispatches of a tick are counted.
    Running(usize),
}

/// The other index of a pair of binding sets.
pub open spec fn toggled(index: int) -> int {
    1 - index
}

/// Returns the other index of a pair of binding sets.
pub fn toggle(index: usize) -> (other: usize)
    requires
        index < 2,
    ensures
        other == toggled(index as int),
        other < 2,
        other != index,
{
    if index == 0 {
        1
    } else {
        0
    }
}

impl PipelinePhase {
    /// A parity is 0 or 1, and only the two-stage shape has the phase `Ready`.
    pub open spec fn well_formed(self, shape: PipelineShape) -> bool {
        match self {
            PipelinePhase::Loading => true,
            PipelinePhase::Ready => shape == PipelineShape::TwoStage,
            PipelinePhase::Running(parity) => parity < 2,
        }
    }

    /// The stage whose compile status a tick polls before it leaves this phase: the first
    /// stage while loading, the second while the first is all there is to dispatch.
    pub open spec fn polled_stage(self) -> Option<int> {
        match self {
            PipelinePhase::Loading => Some(0),
            PipelinePhase::Ready => Some(1),
            PipelinePhase::Running(_) => None,
        }
    }

    /// The polled stage, where its kernel failed to compile.
    pub open spec fn poll_failure(self, kernels: RegistryView) -> Option<int> {
        match self.polled_stage() {
            Some(stage) => if kernels.statuses[stage] is Failed {
                Some(stage)
            } else {
                None
            },
            None => None,
        }
    }

    /// The phase after one tick, where the polled kernel has not failed.
    ///
    /// While loading, the pipeline waits for the first kernel; once that is compiled, the
    /// two-stage shape goes on to `Ready`, the multi-stage shape to `Running(0)`. From `Ready`
    /// the pipeline moves to `Running(1)` once the second kernel is compiled. A running
    /// two-stage pipeline toggles its parity every tick; a running multi-stage pipeline keeps
    /// its phase.
    pub open spec fn advanced(self, kernels: RegistryView) -> PipelinePhase {
        match self {
            PipelinePhase::Loading => if kernels.statuses[0] is Ready {
                match kernels.shape {
                    PipelineShape::TwoStage => PipelinePhase::Ready,
                    PipelineShape::MultiStage => PipelinePhase::Running(0),
                }
            } else {
                PipelinePhase::Loading
            },
            PipelinePhase::Ready => if kernels.statuses[1] is Ready {
                PipelinePhase::Running(1)
            } else {
                PipelinePhase::Ready
            },
            PipelinePhase::Running(parity) => match kernels.shape {
                PipelineShape::TwoStage => PipelinePhase::Running(toggled(parity as int) as usize),
                PipelineShape::MultiStage => PipelinePhase::Running(parity),
            },
        }
    }

    /// Tells whether this phase can occur in a pipeline of `shape`.
    pub fn is_well_formed(self, shape: PipelineShape) -> (valid: bool)
        ensures
            valid == self.well_formed(shape),
    {
        match self {
            PipelinePhase::Loading => true,
            PipelinePhase::Ready => match shape {
                PipelineShape::TwoStage => true,
                PipelineShape::MultiStage => false,
            },
            PipelinePhase::Running(parity) => parity < 2,
        }
    }

    /// Polls the kernel this phase waits for and returns the phase after the tick. A polled
    /// kernel that failed to compile is fatal: the failure comes back in place of a phase.
    pub fn poll_and_advance(self, kernels: &KernelRegistry) -> (next: Result<
        PipelinePhase,
        CompileFailure,
    >)
        requires
            self.well_formed(kernels@.shape),
        ensures
            next is Err <==> self.poll_failure(kernels@) is Some,
            next matches Ok(phase) ==> phase == self.advanced(kernels@) && phase.well_formed(
                kernels@.shape,
            ),
            next matches Err(failure) ==> self.poll_failure(kernels@) == Some(failure@.stage)
                && failure@ == kernels@.failure(failure@.stage),
    {
        proof {
            use_type_invariant(kernels);
            kernels.lemma_view_well_formed();
        }
        match self {
            PipelinePhase::Loading => {
                if let Some(failure) = kernels.failure_of(0) {
                    return Err(failure);
                }
                if kernels.is_ready(0) {
                    match kernels.shape() {
                        PipelineShape::TwoStage => Ok(PipelinePhase::Ready),
                        PipelineShape::MultiStage => Ok(PipelinePhase::Running(0)),
                    }
                } else {
                    Ok(PipelinePhase::Loading)
                }
            },
            PipelinePhase::Ready => {
                if let Some(failure) = kernels.failure_of(1) {
                    return Err(failure);
                }
                if kernels.is_ready(1) {
                    Ok(PipelinePhase::Running(1))
                } else {
                    Ok(PipelinePhase::Ready)
                }
            },
            PipelinePhase::Running(parity) => match kernels.shape() {
                PipelineShape::TwoStage => Ok(PipelinePhase::Running(toggle(parity))),
                PipelineShape::MultiStage => Ok(PipelinePhase::Running(parity)),
            },
        }
    }
}

/// A pipeline never returns to `Loading`, and leaves `Ready` only for `Running`.
pub proof fn lemma_phases_one_way(phase: PipelinePhase, kernels: RegistryView)
    requires
        kernels.well_formed(),
        phase.well_formed(kernels.shape),
    ensures
        phase != PipelinePhase::Loading ==> phase.advanced(kernels) != PipelinePhase::Loading,
        phase is Running ==> phase.advanced(kernels) is Running,
        phase.advanced(kernels).well_formed(kernels.shape),
{
}

/// In the two-stage shape the parity alternates exactly once per tick: a running pipeline has
/// the other parity after one tick and its own again after two.
pub proof fn lemma_two_stage_parity_alternates(
    parity: usize,
    now: RegistryView,
    later: RegistryView,
)
    requires
        parity < 2,
        now.shape == PipelineShape::TwoStage,
        later.shape == PipelineShape::TwoStage,
    ensures
        PipelinePhase::Running(parity).advanced(now) == PipelinePhase::Running(
            toggled(parity as int) as usize,
        ),
        PipelinePhase::Running(parity).advanced(now) != PipelinePhase::Running(parity),
        PipelinePhase::Running(parity).advanced(now).advanced(later) == PipelinePhase::Running(
            parity,
        ),
{
}

} // verus!
