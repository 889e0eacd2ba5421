//! The tick driver: the state of one simulation session and what each tick does to it.

use crate::binding::{
    binding_set, layout_access, lemma_no_self_aliasing, read_generation, write_generation, Access,
    BindingSetPair, LAYOUT_SLOTS,
};
use crate::dispatch::{
    first_failure, in_range, index_after, issued, last_written, lemma_all_ready_all_issued,
    lemma_first_failure, lemma_index_after, lemma_issued_are_ready, lemma_none_ready_none_issued,
    lemma_schedule_in_range, plan_dispatches, schedule, Dispatch,
};
use crate::grid::{ComputeTerrainImages, Grid, GridError, Workgroups};
use crate::kernel::{CompileFailure, CompileStatus, KernelRegistry, PipelineShape, RegistryView};
use crate::phase::{toggled, PipelinePhase};
use vstd::prelude::*;

verus! {

/// What a session consists of.
pub struct SessionView {
    /// The stages and their compile statuses.
    pub kernels: RegistryView,
    /// The workgroups every dispatch launches.
    pub workgroups: Workgroups,
    /// Whether a multi-stage pipeline carries its parity from one tick to the next.
    pub persist_parity: bool,
    pub phase: PipelinePhase,
    /// The images the binding set pair was built over, once it is built.
    pub bind_groups: Option<ComputeTerrainImages>,
}

impl SessionView {
    /// The registry is well formed, its stages can be counted in a machine word, and the
    /// phase is one that a pipeline of its shape can be in.
    pub open spec fn well_formed(self) -> bool {
        &&& self.kernels.well_formed()
        &&& self.kernels.len() <= usize::MAX
        &&& self.phase.well_formed(self.kernels.shape)
    }

    /// The session with the binding set pair built over `images`, unless a pair exists or
    /// there are no images yet: then the session stays as it is.
    pub open spec fn prepared(self, images: Option<ComputeTerrainImages>) -> SessionView {
        if self.bind_groups is None && images is Some {
            SessionView { bind_groups: images, ..self }
        } else {
            self
        }
    }

    /// The session after the phase machine has advanced.
    pub open spec fn advanced(self) -> SessionView {
        SessionView { phase: self.phase.advanced(self.kernels), ..self }
    }

    /// What the current phase schedules: nothing while the binding set pair is missing.
    pub open spec fn scheduled(self) -> Seq<Dispatch> {
        if self.bind_groups is None {
            Seq::empty()
        } else {
            schedule(self.phase, self.kernels.shape, self.kernels.len(), self.workgroups)
        }
    }

    /// The stage whose failure ends the dispatch of the current phase, if there is one.
    pub open spec fn dispatch_failure(self) -> Option<int> {
        first_failure(self.scheduled(), self.kernels.statuses)
    }

    /// The dispatches of the current phase.
    pub open spec fn dispatches(self) -> Seq<Dispatch> {
        issued(self.scheduled(), self.kernels.statuses)
    }

    /// The session after the dispatch sequence of the current phase. Only a multi-stage
    /// pipeline that persists its parity changes: its parity becomes the index of the last
    /// binding set of the chain.
    pub open spec fn carried(self) -> SessionView {
        match self.phase {
            PipelinePhase::Running(parity) => if self.persist_parity && self.kernels.shape
                == PipelineShape::MultiStage && self.bind_groups is Some {
                SessionView {
                    phase: PipelinePhase::Running(
                        index_after(parity as int, self.kernels.len()) as usize,
                    ),
                    ..self
                }
            } else {
                self
            },
            _ => self,
        }
    }

    /// The stage whose failure ends the session in this tick, if there is one: the stage
    /// polled by the phase machine, or else the first failed stage of the dispatch sequence.
    pub open spec fn tick_failure(self) -> Option<int> {
        match self.phase.poll_failure(self.kernels) {
            Some(stage) => Some(stage),
            None => self.advanced().dispatch_failure(),
        }
    }

    /// The dispatches of one tick: those of the phase the tick advances to.
    pub open spec fn tick_dispatches(self) -> Seq<Dispatch> {
        self.advanced().dispatches()
    }

    /// The session after one tick. A tick that ends the session leaves it as it was.
    pub open spec fn after_tick(self) -> SessionView {
        if self.tick_failure() is Some {
            self
        } else {
            self.advanced().carried()
        }
    }
}

/// The orchestrator of one simulation session: the kernel registry, the binding set pair
/// once it is built, and the phase of the pipeline.
pub struct TerrainCompute {
    kernels: KernelRegistry,
    workgroups: Workgroups,
    persist_parity: bool,
    phase: PipelinePhase,
    bind_groups: Option<BindingSetPair>,
}

impl View for TerrainCompute {
    type V = SessionView;

    closed spec fn view(&self) -> SessionView {
        SessionView {
            kernels: self.kernels@,
            workgroups: self.workgroups,
            persist_parity: self.persist_parity,
            phase: self.phase,
            bind_groups: match self.bind_groups {
                Some(pair) => Some(pair.images()),
                None => None,
            },
        }
    }
}

impl TerrainCompute {
    #[verifier::type_invariant]
    pub closed spec fn well_formed(&self) -> bool {
        self.phase.well_formed(self.kernels@.shape)
    }

    /// Starts a session over `kernels` on `grid`: the pipeline is loading and no binding set
    /// pair exists. A workgroup size that does not tile the grid is a configuration error.
    pub fn new(
        kernels: KernelRegistry,
        grid: Grid,
        workgroup_size: u32,
        persist_parity: bool,
    ) -> (session: Result<TerrainCompute, GridError>)
        ensures
            session is Ok <==> grid.tiled_by(workgroup_size),
            session matches Ok(s) ==> s@ == (SessionView {
                kernels: kernels@,
                workgroups: grid.workgroups_for(workgroup_size),
                persist_parity,
                phase: PipelinePhase::Loading,
                bind_groups: None,
            }) && s@.well_formed(),
            session matches Err(e) ==> grid.tiling(workgroup_size) == Err::<Workgroups, GridError>(
                e,
            ),
    {
        match grid.workgroups(workgroup_size) {
            Ok(workgroups) => {
                proof {
                    use_type_invariant(&kernels);
                    kernels.lemma_view_well_formed();
                }
                Ok(
                    TerrainCompute {
                        kernels,
                        workgroups,
                        persist_parity,
                        phase: PipelinePhase::Loading,
                        bind_groups: None,
                    },
                )
            },
            Err(e) => Err(e),
        }
    }

    /// Returns the phase of the pipeline.
    pub fn phase(&self) -> (phase: PipelinePhase)
        ensures
            phase == self@.phase,
            self@.well_formed(),
    {
        proof {
            use_type_invariant(self);
            use_type_invariant(&self.kernels);
            self.kernels.lemma_view_well_formed();
        }
        self.phase
    }

    /// Returns the kernel registry.
    pub fn kernels(&self) -> (kernels: &KernelRegistry)
        ensures
            kernels@ == self@.kernels,
    {
        &self.kernels
    }

    /// Returns the workgroups every dispatch launches.
    pub fn workgroups(&self) -> (workgroups: Workgroups)
        ensures
            workgroups == self@.workgroups,
    {
        self.workgroups
    }

    /// Tells whether a multi-stage pipeline carries its parity from one tick to the next.
    pub fn persists_parity(&self) -> (persist: bool)
        ensures
            persist == self@.persist_parity,
    {
        self.persist_parity
    }

    /// Returns the binding set pair, once it is built.
    pub fn bind_groups(&self) -> (pair: Option<BindingSetPair>)
        ensures
            pair is Some <==> self@.bind_groups is Some,
            pair matches Some(p) ==> Some(p.images()) == self@.bind_groups,
    {
        self.bind_groups
    }

    /// Records what the compiler reported for `stage`, and tells whether the registry took
    /// it.
    pub fn report(&mut self, stage: usize, status: CompileStatus) -> (taken: bool)
        ensures
            final(self)@ == (SessionView {
                kernels: old(self)@.kernels.reported(stage as int, status@),
                ..old(self)@
            }),
            taken <==> stage < old(self)@.kernels.len() && old(self)@.kernels.statuses[stage as int]
                is Pending,
    {
        proof {
            use_type_invariant(&*self);
        }
        self.kernels.report(stage, status)
    }

    /// Builds the binding set pair over `images` if the session has none yet and the images
    /// exist, and tells whether it did. Where a pair exists the session stays as it is.
    pub fn prepare_bind_group(&mut self, images: Option<&ComputeTerrainImages>) -> (built: bool)
        ensures
            final(self)@ == old(self)@.prepared(
                match images {
                    Some(i) => Some(*i),
                    None => None,
                },
            ),
            built <==> old(self)@.bind_groups is None && images is Some,
            old(self)@.bind_groups is Some ==> final(self)@ == old(self)@,
    {
        proof {
            use_type_invariant(&*self);
        }
        if self.bind_groups.is_some() {
            return false;
        }
        match images {
            Some(images) => {
                self.bind_groups = Some(BindingSetPair::build(images));
                true
            },
            None => false,
        }
    }

    /// Advances the phase machine by one tick. A polled kernel that failed to compile is
    /// fatal: the failure comes back and the session stays as it was.
    pub fn poll_and_advance(&mut self) -> (outcome: Result<(), CompileFailure>)
        ensures
            outcome is Err <==> old(self)@.phase.poll_failure(old(self)@.kernels) is Some,
            outcome is Ok ==> final(self)@ == old(self)@.advanced(),
            outcome matches Err(failure) ==> final(self)@ == old(self)@ && old(
                self,
            )@.phase.poll_failure(old(self)@.kernels) == Some(failure@.stage) && failure@ == old(
                self,
            )@.kernels.failure(failure@.stage),
    {
        proof {
            use_type_invariant(&*self);
        }
        match self.phase.poll_and_advance(&self.kernels) {
            Ok(next) => {
                self.phase = next;
                Ok(())
            },
            Err(failure) => Err(failure),
        }
    }

    /// Plans the dispatches of the current phase: none while the binding set pair is
    /// missing, else what the phase schedules without the dispatches whose kernel is still
    /// pending. A scheduled kernel that failed to compile is fatal.
    pub fn dispatch_current_phase(&self) -> (plan: Result<Vec<Dispatch>, CompileFailure>)
        ensures
            plan is Err <==> self@.dispatch_failure() is Some,
            plan matches Ok(dispatches) ==> dispatches@ == self@.dispatches() && in_range(
                dispatches@,
                self@.kernels.len(),
                self@.workgroups,
            ),
            plan matches Err(failure) ==> self@.dispatch_failure() == Some(failure@.stage)
                && failure@ == self@.kernels.failure(failure@.stage),
    {
        proof {
            use_type_invariant(self);
        }
        if self.bind_groups.is_none() {
            proof {
                lemma_none_ready_none_issued(Seq::empty(), self@.kernels.statuses);
            }
            return Ok(Vec::new());
        }
        plan_dispatches(self.phase, &self.kernels, self.workgroups)
    }

    /// Runs one tick: advances the phase machine, then plans the dispatches of the phase
    /// reached. A kernel that failed to compile, polled or scheduled, is fatal: its failure
    /// comes back in place of a plan and the session stays as it was.
    pub fn run_tick(&mut self) -> (plan: Result<Vec<Dispatch>, CompileFailure>)
        ensures
            plan is Err <==> old(self)@.tick_failure() is Some,
            final(self)@ == old(self)@.after_tick(),
            plan matches Ok(dispatches) ==> dispatches@ == old(self)@.tick_dispatches()
                && in_range(dispatches@, old(self)@.kernels.len(), old(self)@.workgroups),
            plan matches Err(failure) ==> old(self)@.tick_failure() == Some(failure@.stage)
                && failure@ == old(self)@.kernels.failure(failure@.stage),
    {
        proof {
            use_type_invariant(&*self);
        }
        let next = match self.phase.poll_and_advance(&self.kernels) {
            Ok(next) => next,
            Err(failure) => {
                return Err(failure);
            },
        };
        if self.bind_groups.is_none() {
            self.phase = next;
            proof {
                lemma_none_ready_none_issued(Seq::empty(), self@.kernels.statuses);
            }
            return Ok(Vec::new());
        }
        let dispatches = match plan_dispatches(next, &self.kernels, self.workgroups) {
            Ok(dispatches) => dispatches,
            Err(failure) => {
                return Err(failure);
            },
        };
        self.phase = self.carry_parity(next);
        Ok(dispatches)
    }

    /// The phase after the dispatch sequence of `phase`, the binding set pair being built.
    fn carry_parity(&self, phase: PipelinePhase) -> (carried: PipelinePhase)
        requires
            phase.well_formed(self@.kernels.shape),
            self@.bind_groups is Some,
        ensures
            carried == (SessionView { phase, ..self@ }).carried().phase,
            carried.well_formed(self@.kernels.shape),
    {
        match phase {
            PipelinePhase::Running(parity) => {
                if self.persist_parity {
                    match self.kernels.shape() {
                        PipelineShape::MultiStage => {
                            let stages = self.kernels.stage_count();
                            proof {
                                lemma_index_after(parity as int, stages as nat);
                            }
                            PipelinePhase::Running((parity + stages % 2) % 2)
                        },
                        PipelineShape::TwoStage => phase,
                    }
                } else {
                    phase
                }
            },
            _ => phase,
        }
    }
}

/// A tick keeps a session well formed, and touches nothing but its phase.
pub proof fn lemma_tick_preserves(session: SessionView)
    requires
        session.well_formed(),
    ensures
        session.after_tick().well_formed(),
        session.after_tick() == (SessionView { phase: session.after_tick().phase, ..session }),
        session.phase != PipelinePhase::Loading ==> session.after_tick().phase
            != PipelinePhase::Loading,
{
    if let PipelinePhase::Running(parity) = session.advanced().phase {
        lemma_index_after(parity as int, session.kernels.len());
    }
}

/// Building the binding set pair is idempotent: once a pair exists, a second call changes
/// nothing, whatever images it is given.
pub proof fn lemma_prepare_is_idempotent(
    session: SessionView,
    first: ComputeTerrainImages,
    second: Option<ComputeTerrainImages>,
)
    ensures
        session.prepared(Some(first)).bind_groups is Some,
        session.prepared(Some(first)).prepared(second) == session.prepared(Some(first)),
        session.bind_groups is Some ==> session.prepared(second) == session,
{
}

/// In the two-stage shape, with the updating kernel compiled and the binding set pair
/// built, every tick of a running pipeline issues exactly one dispatch of the updating
/// stage, against the binding set of the parity the tick toggles to; the next tick reads the
/// generation this one wrote, and two ticks bring the parity back.
pub proof fn lemma_two_stage_ticks_alternate(session: SessionView, parity: usize)
    requires
        session.well_formed(),
        session.kernels.shape == PipelineShape::TwoStage,
        session.phase == PipelinePhase::Running(parity),
        session.bind_groups is Some,
        session.kernels.statuses[1] is Ready,
    ensures
        session.tick_failure() is None,
        session.after_tick().tick_failure() is None,
        session.tick_dispatches() == seq![
            Dispatch {
                stage: 1,
                bind_group: toggled(parity as int) as usize,
                workgroups: session.workgroups,
            },
        ],
        session.after_tick().tick_dispatches() == seq![
            Dispatch { stage: 1, bind_group: parity, workgroups: session.workgroups },
        ],
        write_generation(session.tick_dispatches()[0].bind_group as int) == read_generation(
            session.after_tick().tick_dispatches()[0].bind_group as int,
        ),
        session.after_tick().phase == PipelinePhase::Running(toggled(parity as int) as usize),
        session.after_tick().after_tick().phase == session.phase,
{
    let statuses = session.kernels.statuses;
    let first = session.advanced().scheduled();
    lemma_first_failure(first, statuses);
    lemma_all_ready_all_issued(first, statuses);
    let second = session.after_tick().advanced().scheduled();
    lemma_first_failure(second, statuses);
    lemma_all_ready_all_issued(second, statuses);
}

/// Every dispatch a tick issues runs against one of the two binding sets of the session, and
/// that set binds no generation both for reading and for writing: its read-only slots hold
/// the images of one generation, its write-only slots those of the other.
pub proof fn lemma_dispatches_never_alias(session: SessionView, i: int, r: int, w: int)
    requires
        session.well_formed(),
        session.bind_groups is Some,
        0 <= i < session.tick_dispatches().len(),
        0 <= r < LAYOUT_SLOTS,
        0 <= w < LAYOUT_SLOTS,
        layout_access(r) == Access::ReadOnly,
        layout_access(w) == Access::WriteOnly,
    ensures
        ({
            let index = session.tick_dispatches()[i].bind_group as int;
            let set = binding_set(index, session.bind_groups->Some_0);
            &&& 0 <= index < 2
            &&& set[r].access == Access::ReadOnly
            &&& set[w].access == Access::WriteOnly
            &&& set[r].generation == read_generation(index)
            &&& set[w].generation == write_generation(index)
            &&& set[r].generation != set[w].generation
            &&& session.bind_groups->Some_0.generations_disjoint() ==> set[r].image != set[w].image
        }),
{
    let scheduled = session.advanced().scheduled();
    let statuses = session.kernels.statuses;
    lemma_issued_are_ready(scheduled, statuses, i);
    let dispatch = session.tick_dispatches()[i];
    let k = choose|k: int| 0 <= k < scheduled.len() && scheduled[k] == dispatch;
    lemma_schedule_in_range(session.advanced().phase, session.kernels, session.workgroups, k);
    lemma_no_self_aliasing(dispatch.bind_group as int, session.bind_groups->Some_0, r, w);
}

/// No tick issues a dispatch against a kernel that is not compiled, and a tick that polls or
/// schedules a stage whose kernel failed to compile ends the session with the failure of a
/// failed stage.
pub proof fn lemma_fatal_on_compile_failure(session: SessionView)
    requires
        session.well_formed(),
    ensures
        forall|i: int|
            0 <= i < session.tick_dispatches().len() ==> session.kernels.statuses[(
            #[trigger] session.tick_dispatches()[i]).stage as int] is Ready,
        session.tick_failure() matches Some(stage) ==> 0 <= stage < session.kernels.len()
            && session.kernels.statuses[stage] is Failed,
        session.tick_failure() is None ==> session.phase.poll_failure(session.kernels) is None
            && forall|i: int|
            0 <= i < session.advanced().scheduled().len() ==> !(session.kernels.statuses[(
            #[trigger] session.advanced().scheduled()[i]).stage as int] is Failed),
{
    let statuses = session.kernels.statuses;
    let scheduled = session.advanced().scheduled();
    assert forall|i: int| 0 <= i < session.tick_dispatches().len() implies statuses[(
    #[trigger] session.tick_dispatches()[i]).stage as int] is Ready by {
        lemma_issued_are_ready(scheduled, statuses, i);
    }
    lemma_first_failure(scheduled, statuses);
    if session.phase.poll_failure(session.kernels) is None {
        if let Some(stage) = session.tick_failure() {
            let i = choose|i: int|
                0 <= i < scheduled.len() && #[trigger] scheduled[i].stage == stage;
            lemma_schedule_in_range(
                session.advanced().phase,
                session.kernels,
                session.workgroups,
                i,
            );
        }
    }
}

/// A running multi-stage pipeline with its binding set pair built schedules every stage in
/// every tick: a compile failure of any stage ends the session in the next tick.
pub proof fn lemma_multi_stage_failure_is_fatal(session: SessionView, stage: int)
    requires
        session.well_formed(),
        session.kernels.shape == PipelineShape::MultiStage,
        session.phase is Running,
        session.bind_groups is Some,
        0 <= stage < session.kernels.len(),
        session.kernels.statuses[stage] is Failed,
    ensures
        session.tick_failure() is Some,
        session.after_tick() == session,
{
    let scheduled = session.advanced().scheduled();
    lemma_first_failure(scheduled, session.kernels.statuses);
    assert(scheduled[stage].stage == stage);
}

/// A two-stage pipeline polls or schedules each of its kernels in the phase that needs it: a
/// failure of the initialising kernel ends the session while it is loading, a failure of the
/// updating kernel once the pipeline waits for it or dispatches it.
pub proof fn lemma_two_stage_failure_is_fatal(session: SessionView)
    requires
        session.well_formed(),
        session.kernels.shape == PipelineShape::TwoStage,
        ({
            ||| session.phase is Loading && session.kernels.statuses[0] is Failed
            ||| session.phase is Ready && session.kernels.statuses[1] is Failed
            ||| session.phase is Running && session.bind_groups is Some
                && session.kernels.statuses[1] is Failed
        }),
    ensures
        session.tick_failure() is Some,
        session.after_tick() == session,
{
    if session.phase is Running {
        let scheduled = session.advanced().scheduled();
        lemma_first_failure(scheduled, session.kernels.statuses);
        assert(scheduled[0].stage == 1);
    }
}

/// A multi-stage pipeline that persists its parity chains its ticks: with every kernel
/// compiled, the first dispatch of a tick reads the generation that the last dispatch of
/// the tick before wrote.
pub proof fn lemma_persisted_parity_chains_ticks(session: SessionView, parity: usize)
    requires
        session.well_formed(),
        session.kernels.shape == PipelineShape::MultiStage,
        session.phase == PipelinePhase::Running(parity),
        session.persist_parity,
        session.bind_groups is Some,
        forall|stage: int|
            0 <= stage < session.kernels.len() ==> session.kernels.statuses[stage] is Ready,
    ensures
        session.tick_failure() is None,
        session.after_tick().tick_failure() is None,
        session.tick_dispatches().len() == session.kernels.len(),
        session.after_tick().tick_dispatches().len() == session.kernels.len(),
        last_written(session.tick_dispatches()) == Some(
            read_generation(session.after_tick().tick_dispatches()[0].bind_group as int),
        ),
{
    let statuses = session.kernels.statuses;
    let stages = session.kernels.len();
    let first = session.advanced().scheduled();
    lemma_first_failure(first, statuses);
    lemma_all_ready_all_issued(first, statuses);
    lemma_index_after(parity as int, stages);
    let next = session.after_tick();
    let carried = index_after(parity as int, stages);
    let second = next.advanced().scheduled();
    lemma_first_failure(second, statuses);
    lemma_all_ready_all_issued(second, statuses);
    lemma_index_after(carried, 1);
}

} // verus!
