//! The dispatch sequence of one tick: which kernels run, in what order, against which
//! binding set.

use crate::binding::{generation_written, read_generation, write_generation};
use crate::grid::{Generation, Workgroups};
use crate::kernel::{CompileFailure, KernelRegistry, PipelineShape, RegistryView, StatusView};
use crate::phase::{toggle, toggled, PipelinePhase};
use vstd::prelude::*;

verus! {

/// One kernel launch over the whole grid.
#[derive(Clone, Copy, Debug, PartialEq, Eq, Hash, Structural)]
pub struct Dispatch {
    /// The position of the stage in the stage list.
    pub stage: usize,
    /// The index, 0 or 1, of the binding set the kernel runs against.
    pub bind_group: usize,
    pub workgroups: Workgroups,
}

/// The index reached from `parity` by toggling `flips` times.
pub open spec fn index_after(parity: int, flips: nat) -> int
    decreases flips,
{
    if flips == 0 {
        parity
    } else {
        toggled(index_after(parity, (flips - 1) as nat))
    }
}

/// The dispatch at position `stage` of a multi-stage chain that starts from `parity`: the
/// index is toggled once before every dispatch, that of `stage` included.
pub open spec fn chained(parity: int, stage: int, workgroups: Workgroups) -> Dispatch {
    Dispatch {
        stage: stage as usize,
        bind_group: index_after(parity, (stage + 1) as nat) as usize,
        workgroups,
    }
}

/// What a phase schedules for one tick, before it is known which kernels are compiled.
///
/// Loading schedules nothing. `Ready` schedules the first stage against binding set 0. A
/// running two-stage pipeline schedules the second stage against the binding set of its
/// parity; a running multi-stage pipeline schedules every stage, in order, toggling the
/// binding set before each.
pub open spec fn schedule(
    phase: PipelinePhase,
    shape: PipelineShape,
    stages: nat,
    workgroups: Workgroups,
) -> Seq<Dispatch> {
    match phase {
        PipelinePhase::Loading => Seq::empty(),
        PipelinePhase::Ready => seq![Dispatch { stage: 0, bind_group: 0, workgroups }],
        PipelinePhase::Running(parity) => match shape {
            PipelineShape::TwoStage => seq![Dispatch { stage: 1, bind_group: parity, workgroups }],
            PipelineShape::MultiStage => Seq::new(
                stages,
                |stage: int| chained(parity as int, stage, workgroups),
            ),
        },
    }
}

/// Whether the kernel of a dispatch is compiled.
pub open spec fn is_ready(statuses: Seq<StatusView>) -> spec_fn(Dispatch) -> bool {
    |d: Dispatch| statuses[d.stage as int] is Ready
}

/// The dispatches of `scheduled` that are issued: those whose kernel is compiled. The others
/// are dropped for this tick.
pub open spec fn issued(scheduled: Seq<Dispatch>, statuses: Seq<StatusView>) -> Seq<Dispatch> {
    scheduled.filter(is_ready(statuses))
}

/// The stage of the first dispatch of `scheduled` whose kernel failed to compile.
pub open spec fn first_failure(scheduled: Seq<Dispatch>, statuses: Seq<StatusView>) -> Option<int>
    decreases scheduled.len(),
{
    if scheduled.len() == 0 {
        None
    } else if statuses[scheduled[0].stage as int] is Failed {
        Some(scheduled[0].stage as int)
    } else {
        first_failure(scheduled.drop_first(), statuses)
    }
}

/// Toggling `flips` times from a parity of 0 or 1 arrives at `(parity + flips) mod 2`.
pub proof fn lemma_index_after(parity: int, flips: nat)
    requires
        0 <= parity < 2,
    ensures
        index_after(parity, flips) == (parity + flips) % 2,
        0 <= index_after(parity, flips) < 2,
    decreases flips,
{
    if flips > 0 {
        lemma_index_after(parity, (flips - 1) as nat);
    }
}

/// Every scheduled dispatch names a stage of the pipeline and one of the two binding sets.
pub proof fn lemma_schedule_in_range(
    phase: PipelinePhase,
    kernels: RegistryView,
    workgroups: Workgroups,
    i: int,
)
    requires
        kernels.well_formed(),
        kernels.len() <= usize::MAX,
        phase.well_formed(kernels.shape),
        0 <= i < schedule(phase, kernels.shape, kernels.len(), workgroups).len(),
    ensures
        schedule(phase, kernels.shape, kernels.len(), workgroups)[i].stage < kernels.len(),
        schedule(phase, kernels.shape, kernels.len(), workgroups)[i].bind_group < 2,
        schedule(phase, kernels.shape, kernels.len(), workgroups)[i].workgroups == workgroups,
{
    if let PipelinePhase::Running(parity) = phase {
        lemma_index_after(parity as int, (i + 1) as nat);
    }
}

/// No failure among the dispatches scheduled means that none of their kernels failed.
pub proof fn lemma_first_failure(scheduled: Seq<Dispatch>, statuses: Seq<StatusView>)
    ensures
        first_failure(scheduled, statuses) is None <==> forall|i: int|
            0 <= i < scheduled.len() ==> !(statuses[#[trigger] scheduled[i].stage as int]
                is Failed),
        first_failure(scheduled, statuses) matches Some(stage) ==> statuses[stage] is Failed
            && exists|i: int|
            0 <= i < scheduled.len() && #[trigger] scheduled[i].stage == stage && forall|j: int|
                0 <= j < i ==> !(statuses[#[trigger] scheduled[j].stage as int] is Failed),
    decreases scheduled.len(),
{
    if scheduled.len() > 0 {
        let rest = scheduled.drop_first();
        lemma_first_failure(rest, statuses);
        if statuses[scheduled[0].stage as int] is Failed {
            assert(scheduled[0].stage == scheduled[0].stage);
        } else {
            if first_failure(rest, statuses) is None {
                assert forall|i: int| 0 <= i < scheduled.len() implies !(statuses[
                    #[trigger] scheduled[i].stage as int] is Failed) by {
                    if i > 0 {
                        assert(rest[i - 1] == scheduled[i]);
                    }
                }
            } else {
                let stage = first_failure(rest, statuses)->Some_0;
                let k = choose|i: int|
                    0 <= i < rest.len() && #[trigger] rest[i].stage == stage && forall|j: int|
                        0 <= j < i ==> !(statuses[#[trigger] rest[j].stage as int] is Failed);
                assert(scheduled[k + 1] == rest[k]);
                assert forall|j: int| 0 <= j < k + 1 implies !(statuses[
                    #[trigger] scheduled[j].stage as int] is Failed) by {
                    if j > 0 {
                        assert(rest[j - 1] == scheduled[j]);
                    }
                }
                assert(statuses[scheduled[k + 1].stage as int] is Failed);
            }
        }
    }
}

/// Lists what `phase` schedules for one tick of a pipeline of `stages` stages.
pub fn scheduled_dispatches(
    phase: PipelinePhase,
    shape: PipelineShape,
    stages: usize,
    workgroups: Workgroups,
) -> (scheduled: Vec<Dispatch>)
    requires
        phase.well_formed(shape),
    ensures
        scheduled@ == schedule(phase, shape, stages as nat, workgroups),
{
    let mut scheduled: Vec<Dispatch> = Vec::new();
    match phase {
        PipelinePhase::Loading => {},
        PipelinePhase::Ready => {
            scheduled.push(Dispatch { stage: 0, bind_group: 0, workgroups });
        },
        PipelinePhase::Running(parity) => match shape {
            PipelineShape::TwoStage => {
                scheduled.push(Dispatch { stage: 1, bind_group: parity, workgroups });
            },
            PipelineShape::MultiStage => {
                let mut index: usize = parity;
                let mut stage: usize = 0;
                while stage < stages
                    invariant
                        stage <= stages,
                        parity < 2,
                        index < 2,
                        index == index_after(parity as int, stage as nat),
                        scheduled@ == Seq::new(
                            stage as nat,
                            |k: int| chained(parity as int, k, workgroups),
                        ),
                    decreases stages - stage,
                {
                    index = toggle(index);
                    scheduled.push(Dispatch { stage, bind_group: index, workgroups });
                    stage += 1;
                }
            },
        },
    }
    scheduled
}

/// Keeps the scheduled dispatches whose kernel is compiled, unless one of the kernels has
/// failed.
fn guard_dispatches(scheduled: &Vec<Dispatch>, kernels: &KernelRegistry) -> (plan: Result<
    Vec<Dispatch>,
    CompileFailure,
>)
    requires
        forall|i: int|
            0 <= i < scheduled@.len() ==> (#[trigger] scheduled@[i]).stage < kernels@.len(),
    ensures
        plan is Err <==> first_failure(scheduled@, kernels@.statuses) is Some,
        plan matches Ok(dispatches) ==> dispatches@ == issued(scheduled@, kernels@.statuses),
        plan matches Err(failure) ==> first_failure(scheduled@, kernels@.statuses) == Some(
            failure@.stage,
        ) && failure@ == kernels@.failure(failure@.stage),
{
    let ghost statuses = kernels@.statuses;
    let mut dispatches: Vec<Dispatch> = Vec::new();
    let mut i: usize = 0;
    assert(scheduled@.skip(0) =~= scheduled@);
    assert(scheduled@.take(0).filter(is_ready(statuses)) =~= Seq::<Dispatch>::empty()) by {
        reveal(Seq::filter);
    }
    while i < scheduled.len()
        invariant
            i <= scheduled@.len(),
            statuses == kernels@.statuses,
            forall|k: int|
                0 <= k < scheduled@.len() ==> (#[trigger] scheduled@[k]).stage < kernels@.len(),
            first_failure(scheduled@, statuses) == first_failure(
                scheduled@.skip(i as int),
                statuses,
            ),
            dispatches@ == scheduled@.take(i as int).filter(is_ready(statuses)),
        decreases scheduled@.len() - i,
    {
        let dispatch = scheduled[i];
        proof {
            let rest = scheduled@.skip(i as int);
            assert(rest[0] == scheduled@[i as int]);
            assert(rest.drop_first() =~= scheduled@.skip(i + 1));
            assert(scheduled@.take(i + 1) =~= scheduled@.take(i as int).push(dispatch));
            scheduled@.take(i as int).lemma_filter_push(dispatch, is_ready(statuses));
        }
        if let Some(failure) = kernels.failure_of(dispatch.stage) {
            return Err(failure);
        }
        if kernels.is_ready(dispatch.stage) {
            dispatches.push(dispatch);
        }
        i += 1;
    }
    assert(scheduled@.take(i as int) =~= scheduled@);
    Ok(dispatches)
}

/// Whether every dispatch of `plan` names one of `stages` stages and one of the two binding
/// sets, and launches `workgroups`.
pub open spec fn in_range(plan: Seq<Dispatch>, stages: nat, workgroups: Workgroups) -> bool {
    forall|i: int|
        0 <= i < plan.len() ==> (#[trigger] plan[i]).stage < stages && plan[i].bind_group < 2
            && plan[i].workgroups == workgroups
}

/// The dispatches issued in a tick name stages of the pipeline and binding sets of the pair.
pub proof fn lemma_issued_in_range(
    phase: PipelinePhase,
    kernels: RegistryView,
    workgroups: Workgroups,
)
    requires
        kernels.well_formed(),
        kernels.len() <= usize::MAX,
        phase.well_formed(kernels.shape),
    ensures
        in_range(
            issued(schedule(phase, kernels.shape, kernels.len(), workgroups), kernels.statuses),
            kernels.len(),
            workgroups,
        ),
{
    let scheduled = schedule(phase, kernels.shape, kernels.len(), workgroups);
    let plan = issued(scheduled, kernels.statuses);
    assert forall|i: int| 0 <= i < plan.len() implies (#[trigger] plan[i]).stage < kernels.len()
        && plan[i].bind_group < 2 && plan[i].workgroups == workgroups by {
        lemma_issued_are_ready(scheduled, kernels.statuses, i);
        let k = choose|k: int| 0 <= k < scheduled.len() && scheduled[k] == plan[i];
        lemma_schedule_in_range(phase, kernels, workgroups, k);
    }
}

/// Plans the dispatches `phase` issues in one tick: what the phase schedules, without the
/// dispatches whose kernel is still pending. A scheduled kernel that failed to compile is
/// fatal: the failure of the first such stage comes back in place of a plan.
pub fn plan_dispatches(
    phase: PipelinePhase,
    kernels: &KernelRegistry,
    workgroups: Workgroups,
) -> (plan: Result<Vec<Dispatch>, CompileFailure>)
    requires
        phase.well_formed(kernels@.shape),
    ensures
        plan is Err <==> first_failure(
            schedule(phase, kernels@.shape, kernels@.len(), workgroups),
            kernels@.statuses,
        ) is Some,
        plan matches Ok(dispatches) ==> dispatches@ == issued(
            schedule(phase, kernels@.shape, kernels@.len(), workgroups),
            kernels@.statuses,
        ) && in_range(dispatches@, kernels@.len(), workgroups),
        plan matches Err(failure) ==> first_failure(
            schedule(phase, kernels@.shape, kernels@.len(), workgroups),
            kernels@.statuses,
        ) == Some(failure@.stage) && failure@ == kernels@.failure(failure@.stage),
{
    let stages = kernels.stage_count();
    proof {
        lemma_issued_in_range(phase, kernels@, workgroups);
    }
    let scheduled = scheduled_dispatches(phase, kernels.shape(), stages, workgroups);
    proof {
        assert forall|i: int| 0 <= i < scheduled@.len() implies (#[trigger] scheduled@[i]).stage
            < kernels@.len() by {
            lemma_schedule_in_range(phase, kernels@, workgroups, i);
        }
    }
    guard_dispatches(&scheduled, kernels)
}

/// The generation that holds the newest state after the dispatches of `plan`: the one the
/// last dispatch wrote to. A plan without a dispatch writes to none.
pub open spec fn last_written(plan: Seq<Dispatch>) -> Option<Generation> {
    if plan.len() == 0 {
        None
    } else {
        Some(write_generation(plan.last().bind_group as int))
    }
}

/// Returns the generation that the last dispatch of `plan` writes to.
pub fn generation_last_written(plan: &Vec<Dispatch>) -> (generation: Option<Generation>)
    ensures
        generation == last_written(plan@),
{
    if plan.len() == 0 {
        None
    } else {
        Some(generation_written(plan[plan.len() - 1].bind_group))
    }
}

/// Every dispatch issued was scheduled, and its kernel is compiled: no dispatch is ever
/// issued against a kernel that is pending or has failed.
pub proof fn lemma_issued_are_ready(scheduled: Seq<Dispatch>, statuses: Seq<StatusView>, i: int)
    requires
        0 <= i < issued(scheduled, statuses).len(),
    ensures
        statuses[issued(scheduled, statuses)[i].stage as int] is Ready,
        !(statuses[issued(scheduled, statuses)[i].stage as int] is Failed),
        scheduled.contains(issued(scheduled, statuses)[i]),
{
    let plan = issued(scheduled, statuses);
    scheduled.lemma_filter_pred(is_ready(statuses), i);
    assert(plan.contains(plan[i]));
    scheduled.lemma_filter_contains_rev(is_ready(statuses), plan[i]);
}

/// Where every scheduled kernel is compiled, everything scheduled is issued.
pub proof fn lemma_all_ready_all_issued(scheduled: Seq<Dispatch>, statuses: Seq<StatusView>)
    requires
        forall|i: int|
            0 <= i < scheduled.len() ==> statuses[(#[trigger] scheduled[i]).stage as int] is Ready,
    ensures
        issued(scheduled, statuses) == scheduled,
    decreases scheduled.len(),
{
    reveal(Seq::filter);
    if scheduled.len() > 0 {
        let front = scheduled.drop_last();
        assert forall|i: int| 0 <= i < front.len() implies statuses[(
        #[trigger] front[i]).stage as int] is Ready by {
            assert(front[i] == scheduled[i]);
        }
        lemma_all_ready_all_issued(front, statuses);
        assert(statuses[scheduled[scheduled.len() - 1].stage as int] is Ready);
        assert(front.push(scheduled.last()) =~= scheduled);
    }
}

/// Where no scheduled kernel is compiled, nothing is issued.
pub proof fn lemma_none_ready_none_issued(scheduled: Seq<Dispatch>, statuses: Seq<StatusView>)
    requires
        forall|i: int|
            0 <= i < scheduled.len() ==> !(statuses[(#[trigger] scheduled[i]).stage as int]
                is Ready),
    ensures
        issued(scheduled, statuses) == Seq::<Dispatch>::empty(),
    decreases scheduled.len(),
{
    reveal(Seq::filter);
    if scheduled.len() > 0 {
        let front = scheduled.drop_last();
        assert forall|i: int| 0 <= i < front.len() implies !(statuses[(
        #[trigger] front[i]).stage as int] is Ready) by {
            assert(front[i] == scheduled[i]);
        }
        lemma_none_ready_none_issued(front, statuses);
        assert(!(statuses[scheduled[scheduled.len() - 1].stage as int] is Ready));
    }
}

/// In a multi-stage chain every stage reads the generation that the stage before it writes,
/// and writes the generation that stage read: two generations carry any number of stages.
pub proof fn lemma_chain_links(parity: usize, stages: nat, workgroups: Workgroups, stage: int)
    requires
        parity < 2,
        0 <= stage,
        stage + 1 < stages,
    ensures
        ({
            let chain = schedule(
                PipelinePhase::Running(parity),
                PipelineShape::MultiStage,
                stages,
                workgroups,
            );
            &&& read_generation(chain[stage + 1].bind_group as int) == write_generation(
                chain[stage].bind_group as int,
            )
            &&& write_generation(chain[stage + 1].bind_group as int) == read_generation(
                chain[stage].bind_group as int,
            )
        }),
{
    lemma_index_after(parity as int, (stage + 1) as nat);
    lemma_index_after(parity as int, (stage + 2) as nat);
}

/// A chain of `stages` stages that starts from `parity`, with every kernel compiled, issues
/// `stages` dispatches and last writes generation A if `(parity + stages) mod 2` is 1, and
/// generation B otherwise.
pub proof fn lemma_chain_ends(
    parity: usize,
    stages: nat,
    workgroups: Workgroups,
    statuses: Seq<StatusView>,
)
    requires
        parity < 2,
        1 <= stages <= usize::MAX,
        statuses.len() == stages,
        forall|stage: int| 0 <= stage < stages ==> statuses[stage] is Ready,
    ensures
        ({
            let plan = issued(
                schedule(
                    PipelinePhase::Running(parity),
                    PipelineShape::MultiStage,
                    stages,
                    workgroups,
                ),
                statuses,
            );
            &&& plan.len() == stages
            &&& plan.last().bind_group == (parity + stages) % 2
            &&& last_written(plan) == Some(
                if (parity + stages) % 2 == 1 {
                    Generation::A
                } else {
                    Generation::B
                },
            )
        }),
{
    let chain = schedule(
        PipelinePhase::Running(parity),
        PipelineShape::MultiStage,
        stages,
        workgroups,
    );
    lemma_all_ready_all_issued(chain, statuses);
    lemma_index_after(parity as int, stages);
}

} // verus!
