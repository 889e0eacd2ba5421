//! What the dispatches of a plan do to the two generations: a record of which kernels have
//! run, in what order, to produce the contents each generation holds.

use crate::binding::{generation_read, generation_written, read_generation, write_generation};
use crate::dispatch::{is_ready, issued, lemma_none_ready_none_issued, Dispatch};
use crate::grid::Generation;
use crate::kernel::{PipelineShape, StatusView};
use crate::tick::SessionView;
use vstd::prelude::*;

verus! {

/// For each generation, the stages whose kernels produced its contents from the seed values,
/// oldest first.
pub struct Lineage {
    pub a: Seq<usize>,
    pub b: Seq<usize>,
}

impl Lineage {
    /// The lineage of `generation`.
    pub open spec fn of(self, generation: Generation) -> Seq<usize> {
        match generation {
            Generation::A => self.a,
            Generation::B => self.b,
        }
    }

    /// The lineage with that of `generation` replaced.
    pub open spec fn with(self, generation: Generation, stages: Seq<usize>) -> Lineage {
        match generation {
            Generation::A => Lineage { a: stages, ..self },
            Generation::B => Lineage { b: stages, ..self },
        }
    }

    /// The lineage after one dispatch: the generation written holds what the kernel made of
    /// the generation read; the generation read is as it was.
    pub open spec fn applied(self, dispatch: Dispatch) -> Lineage {
        self.with(
            write_generation(dispatch.bind_group as int),
            self.of(read_generation(dispatch.bind_group as int)).push(dispatch.stage),
        )
    }

    /// The lineage after the dispatches of `plan`, in order.
    pub open spec fn replayed(self, plan: Seq<Dispatch>) -> Lineage
        decreases plan.len(),
    {
        if plan.len() == 0 {
            self
        } else {
            self.replayed(plan.drop_last()).applied(plan.last())
        }
    }
}

/// A record of the kernels that have run on the two generations of a grid.
#[derive(Debug, PartialEq, Eq)]
pub struct GridLineage {
    a: Vec<usize>,
    b: Vec<usize>,
}

impl View for GridLineage {
    type V = Lineage;

    closed spec fn view(&self) -> Lineage {
        Lineage { a: self.a@, b: self.b@ }
    }
}

impl GridLineage {
    /// The record of a grid that holds its seed values: no kernel has run.
    pub fn seeded() -> (lineage: GridLineage)
        ensures
            lineage@ == (Lineage { a: Seq::empty(), b: Seq::empty() }),
    {
        GridLineage { a: Vec::new(), b: Vec::new() }
    }

    /// Returns the stages whose kernels produced the contents of `generation`, oldest first.
    pub fn stages(&self, generation: Generation) -> (stages: Vec<usize>)
        ensures
            stages@ == self@.of(generation),
    {
        match generation {
            Generation::A => self.a.clone(),
            Generation::B => self.b.clone(),
        }
    }

    /// Records one dispatch.
    pub fn apply(&mut self, dispatch: &Dispatch)
        ensures
            final(self)@ == old(self)@.applied(*dispatch),
    {
        let mut stages = self.stages(generation_read(dispatch.bind_group));
        stages.push(dispatch.stage);
        match generation_written(dispatch.bind_group) {
            Generation::A => {
                self.a = stages;
            },
            Generation::B => {
                self.b = stages;
            },
        }
    }

    /// Records the dispatches of a plan, in order.
    pub fn replay(&mut self, plan: &Vec<Dispatch>)
        ensures
            final(self)@ == old(self)@.replayed(plan@),
    {
        let mut i: usize = 0;
        while i < plan.len()
            invariant
                i <= plan@.len(),
                self@ == old(self)@.replayed(plan@.take(i as int)),
            decreases plan@.len() - i,
        {
            assert(plan@.take(i + 1).drop_last() =~= plan@.take(i as int));
            self.apply(&plan[i]);
            i += 1;
        }
        assert(plan@.take(i as int) =~= plan@);
    }
}

/// A generation that no dispatch of a plan writes to holds after the plan what it held
/// before.
pub proof fn lemma_unwritten_generation_keeps_contents(
    contents: Lineage,
    plan: Seq<Dispatch>,
    generation: Generation,
)
    requires
        forall|i: int|
            0 <= i < plan.len() ==> write_generation((#[trigger] plan[i]).bind_group as int)
                != generation,
    ensures
        contents.replayed(plan).of(generation) == contents.of(generation),
    decreases plan.len(),
{
    if plan.len() > 0 {
        let front = plan.drop_last();
        assert forall|i: int| 0 <= i < front.len() implies write_generation(
            (#[trigger] front[i]).bind_group as int,
        ) != generation by {
            assert(front[i] == plan[i]);
        }
        lemma_unwritten_generation_keeps_contents(contents, front, generation);
        assert(write_generation(plan[plan.len() - 1].bind_group as int) != generation);
    }
}

/// A stage whose kernel is not compiled is not dispatched. So a generation keeps its contents
/// over a tick in which none of the scheduled stages that would write to it is compiled.
pub proof fn lemma_skip_on_not_ready(
    contents: Lineage,
    scheduled: Seq<Dispatch>,
    statuses: Seq<StatusView>,
    generation: Generation,
)
    requires
        forall|i: int|
            0 <= i < scheduled.len() && write_generation(
                (#[trigger] scheduled[i]).bind_group as int,
            ) == generation ==> !(statuses[scheduled[i].stage as int] is Ready),
    ensures
        contents.replayed(issued(scheduled, statuses)).of(generation) == contents.of(generation),
{
    let plan = issued(scheduled, statuses);
    assert forall|i: int| 0 <= i < plan.len() implies write_generation(
        (#[trigger] plan[i]).bind_group as int,
    ) != generation by {
        scheduled.lemma_filter_pred(is_ready(statuses), i);
        assert(plan.contains(plan[i]));
        scheduled.lemma_filter_contains_rev(is_ready(statuses), plan[i]);
        let k = choose|k: int| 0 <= k < scheduled.len() && scheduled[k] == plan[i];
        assert(scheduled[k] == plan[i]);
    }
    lemma_unwritten_generation_keeps_contents(contents, plan, generation);
}

/// Over one tick of a session, a generation keeps its contents if none of the stages the
/// tick schedules to write to it has a compiled kernel.
pub proof fn lemma_tick_skips_unready_stages(
    session: SessionView,
    contents: Lineage,
    generation: Generation,
)
    requires
        forall|i: int|
            #![trigger session.advanced().scheduled()[i]]
            0 <= i < session.advanced().scheduled().len() && write_generation(
                session.advanced().scheduled()[i].bind_group as int,
            ) == generation ==> {
                let stage = session.advanced().scheduled()[i].stage;
                !(session.kernels.statuses[stage as int] is Ready)
            },
    ensures
        contents.replayed(session.tick_dispatches()).of(generation) == contents.of(generation),
{
    lemma_skip_on_not_ready(
        contents,
        session.advanced().scheduled(),
        session.kernels.statuses,
        generation,
    );
}

/// In the two-stage shape a tick schedules at most one stage. If the kernel of that stage is
/// pending, the tick issues nothing and both generations keep their contents.
pub proof fn lemma_pending_two_stage_tick_changes_nothing(session: SessionView, contents: Lineage)
    requires
        session.well_formed(),
        session.kernels.shape == PipelineShape::TwoStage,
        forall|i: int|
            0 <= i < session.advanced().scheduled().len() ==> session.kernels.statuses[(
            #[trigger] session.advanced().scheduled()[i]).stage as int] is Pending,
    ensures
        session.advanced().scheduled().len() <= 1,
        session.tick_dispatches() == Seq::<Dispatch>::empty(),
        contents.replayed(session.tick_dispatches()) == contents,
{
    lemma_none_ready_none_issued(session.advanced().scheduled(), session.kernels.statuses);
}

} // verus!
