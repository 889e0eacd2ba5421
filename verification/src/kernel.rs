//! The kernel registry: the named stages of the pipeline and how far each has compiled.

use vstd::prelude::*;

verus! {

/// How far the compilation of one kernel has come.
#[derive(Debug, PartialEq, Eq)]
pub enum CompileStatus {
    /// Compilation was requested and has not ended.
    Pending,
    /// The kernel is compiled and may be dispatched.
    Ready,
    /// Compilation ended without a kernel; the text is the compiler's message.
    Failed(String),
}

/// A compile status with the compiler's message as a sequence of characters.
pub enum StatusView {
    Pending,
    Ready,
    Failed(Seq<char>),
}

impl View for CompileStatus {
    type V = StatusView;

    open spec fn view(&self) -> StatusView {
        match self {
            CompileStatus::Pending => StatusView::Pending,
            CompileStatus::Ready => StatusView::Ready,
            CompileStatus::Failed(detail) => StatusView::Failed(detail@),
        }
    }
}

impl Clone for CompileStatus {
    fn clone(&self) -> (copy: CompileStatus)
        ensures
            copy@ == self@,
    {
        match self {
            CompileStatus::Pending => CompileStatus::Pending,
            CompileStatus::Ready => CompileStatus::Ready,
            CompileStatus::Failed(detail) => CompileStatus::Failed(detail.clone()),
        }
    }
}

/// The stage list a pipeline is built from.
#[derive(Clone, Copy, Debug, PartialEq, Eq, Hash, Structural)]
pub enum PipelineShape {
    /// Two stages: one that initialises the grid, one that updates it once per tick.
    TwoStage,
    /// One or more stages that are all dispatched, in order, within every tick.
    MultiStage,
}

/// A kernel that failed to compile. It ends the session.
#[derive(Debug, PartialEq, Eq)]
pub struct CompileFailure {
    /// The position of the stage in the stage list.
    pub stage: usize,
    /// The entry point of the stage.
    pub entry_point: String,
    /// The compiler's message.
    pub detail: String,
}

/// A compile failure with its texts as sequences of characters.
pub struct FailureView {
    pub stage: int,
    pub entry_point: Seq<char>,
    pub detail: Seq<char>,
}

impl View for CompileFailure {
    type V = FailureView;

    open spec fn view(&self) -> FailureView {
        FailureView {
            stage: self.stage as int,
            entry_point: self.entry_point@,
            detail: self.detail@,
        }
    }
}

/// One stage of the pipeline: its entry point in the kernel source and its compile status.
struct Kernel {
    entry_point: String,
    status: CompileStatus,
}

/// What a kernel registry holds: the shape, and for each stage, in order, its entry point and
/// its compile status.
pub struct RegistryView {
    pub shape: PipelineShape,
    pub entry_points: Seq<Seq<char>>,
    pub statuses: Seq<StatusView>,
}

impl RegistryView {
    /// Every stage has an entry point and a status, there is at least one stage, and the
    /// two-stage shape has exactly two.
    pub open spec fn well_formed(self) -> bool {
        &&& self.entry_points.len() == self.statuses.len()
        &&& self.statuses.len() >= 1
        &&& self.shape == PipelineShape::TwoStage ==> self.statuses.len() == 2
    }

    /// The number of stages.
    pub open spec fn len(self) -> nat {
        self.statuses.len()
    }

    /// The failure that stage `stage` stands for; meaningful where its status is `Failed`.
    pub open spec fn failure(self, stage: int) -> FailureView {
        FailureView {
            stage,
            entry_point: self.entry_points[stage],
            detail: self.statuses[stage]->Failed_0,
        }
    }

    /// The registry after the compiler reported `status` for `stage`. A kernel that is
    /// compiled, or has failed, stays as it is; so does the registry where there is no such
    /// stage.
    pub open spec fn reported(self, stage: int, status: StatusView) -> RegistryView {
        if 0 <= stage < self.statuses.len() && self.statuses[stage] is Pending {
            RegistryView { statuses: self.statuses.update(stage, status), ..self }
        } else {
            self
        }
    }
}

/// The named stages of one pipeline, each with the compile status last reported for it.
pub struct KernelRegistry {
    shape: PipelineShape,
    kernels: Vec<Kernel>,
}

impl View for KernelRegistry {
    type V = RegistryView;

    closed spec fn view(&self) -> RegistryView {
        RegistryView {
            shape: self.shape,
            entry_points: Seq::new(self.kernels@.len(), |i: int| self.kernels@[i].entry_point@),
            statuses: Seq::new(self.kernels@.len(), |i: int| self.kernels@[i].status@),
        }
    }
}

impl KernelRegistry {
    #[verifier::type_invariant]
    pub closed spec fn well_formed(&self) -> bool {
        &&& self.kernels@.len() >= 1
        &&& self.shape == PipelineShape::TwoStage ==> self.kernels@.len() == 2
    }

    /// A registry that satisfies its invariant has a well-formed view, with a number of
    /// stages that a machine word holds.
    pub proof fn lemma_view_well_formed(&self)
        requires
            self.well_formed(),
        ensures
            self@.well_formed(),
            self@.len() <= usize::MAX,
    {
        assert(self.kernels.len() == self.kernels@.len());
    }

    /// A registry of the two-stage shape; nothing is compiled yet.
    pub fn two_stage(init: String, update: String) -> (registry: KernelRegistry)
        ensures
            registry@.shape == PipelineShape::TwoStage,
            registry@.entry_points == seq![init@, update@],
            registry@.statuses == seq![StatusView::Pending, StatusView::Pending],
    {
        let mut kernels: Vec<Kernel> = Vec::new();
        kernels.push(Kernel { entry_point: init, status: CompileStatus::Pending });
        kernels.push(Kernel { entry_point: update, status: CompileStatus::Pending });
        let registry = KernelRegistry { shape: PipelineShape::TwoStage, kernels };
        assert(registry@.entry_points =~= seq![init@, update@]);
        assert(registry@.statuses =~= seq![StatusView::Pending, StatusView::Pending]);
        registry
    }

    /// A registry of the multi-stage shape with one stage per entry point, in the order given;
    /// nothing is compiled yet. There is no pipeline without a stage.
    pub fn multi_stage(entry_points: Vec<String>) -> (registry: Option<KernelRegistry>)
        ensures
            registry is Some <==> entry_points@.len() >= 1,
            registry matches Some(r) ==> {
                &&& r@.shape == PipelineShape::MultiStage
                &&& r@.entry_points == Seq::new(entry_points@.len(), |i: int| entry_points@[i]@)
                &&& r@.statuses == Seq::new(entry_points@.len(), |i: int| StatusView::Pending)
            },
    {
        if entry_points.len() == 0 {
            return None;
        }
        let mut kernels: Vec<Kernel> = Vec::new();
        let mut i: usize = 0;
        while i < entry_points.len()
            invariant
                i <= entry_points@.len(),
                kernels@.len() == i,
                forall|j: int|
                    0 <= j < i ==> (#[trigger] kernels@[j]).entry_point@ == entry_points@[j]@
                        && kernels@[j].status@ == StatusView::Pending,
            decreases entry_points@.len() - i,
        {
            kernels.push(
                Kernel { entry_point: entry_points[i].clone(), status: CompileStatus::Pending },
            );
            i += 1;
        }
        let registry = KernelRegistry { shape: PipelineShape::MultiStage, kernels };
        assert(registry@.entry_points =~= Seq::new(
            entry_points@.len(),
            |i: int| entry_points@[i]@,
        ));
        assert(registry@.statuses =~= Seq::new(
            entry_points@.len(),
            |i: int| StatusView::Pending,
        ));
        Some(registry)
    }

    /// Returns the shape of the pipeline.
    pub fn shape(&self) -> (shape: PipelineShape)
        ensures
            shape == self@.shape,
    {
        self.shape
    }

    /// Returns the number of stages.
    pub fn stage_count(&self) -> (n: usize)
        ensures
            n == self@.len(),
            self@.well_formed(),
    {
        proof {
            use_type_invariant(self);
        }
        self.kernels.len()
    }

    /// Returns the entry point of `stage`, if there is such a stage.
    pub fn entry_point(&self, stage: usize) -> (name: Option<String>)
        ensures
            name is Some <==> stage < self@.len(),
            name matches Some(n) ==> n@ == self@.entry_points[stage as int],
    {
        if stage < self.kernels.len() {
            Some(self.kernels[stage].entry_point.clone())
        } else {
            None
        }
    }

    /// Returns the compile status last reported for `stage`, if there is such a stage.
    pub fn compile_status(&self, stage: usize) -> (status: Option<CompileStatus>)
        ensures
            status is Some <==> stage < self@.len(),
            status matches Some(s) ==> s@ == self@.statuses[stage as int],
    {
        if stage < self.kernels.len() {
            Some(self.kernels[stage].status.clone())
        } else {
            None
        }
    }

    /// Tells whether `stage` exists and its kernel is compiled.
    pub fn is_ready(&self, stage: usize) -> (ready: bool)
        ensures
            ready <==> stage < self@.len() && self@.statuses[stage as int] is Ready,
    {
        if stage < self.kernels.len() {
            match self.kernels[stage].status {
                CompileStatus::Ready => true,
                _ => false,
            }
        } else {
            false
        }
    }

    /// Returns the failure of `stage`, if there is such a stage and its kernel failed to
    /// compile.
    pub fn failure_of(&self, stage: usize) -> (failure: Option<CompileFailure>)
        ensures
            failure is Some <==> stage < self@.len() && self@.statuses[stage as int] is Failed,
            failure matches Some(f) ==> f@ == self@.failure(stage as int),
    {
        if stage < self.kernels.len() {
            match &self.kernels[stage].status {
                CompileStatus::Failed(detail) => Some(
                    CompileFailure {
                        stage,
                        entry_point: self.kernels[stage].entry_point.clone(),
                        detail: detail.clone(),
                    },
                ),
                _ => None,
            }
        } else {
            None
        }
    }

    /// Records what the compiler reported for `stage`, and tells whether the registry took
    /// it: it does so for a stage that was pending, and for no other.
    pub fn report(&mut self, stage: usize, status: CompileStatus) -> (taken: bool)
        ensures
            final(self)@ == old(self)@.reported(stage as int, status@),
            taken <==> stage < old(self)@.len() && old(self)@.statuses[stage as int] is Pending,
        no_unwind
    {
        proof {
            use_type_invariant(&*self);
        }
        if stage >= self.kernels.len() {
            return false;
        }
        match self.kernels[stage].status {
            CompileStatus::Pending => {},
            _ => {
                return false;
            },
        }
        self.kernels[stage].status = status;
        assert(self@.entry_points =~= old(self)@.entry_points);
        assert(self@.statuses =~= old(self)@.statuses.update(stage as int, status@));
        true
    }
}

/// The entry points of the seven stages of hydraulic erosion, in the order in which a tick
/// dispatches them.
pub fn erosion_entry_points() -> (names: Vec<String>)
    ensures
        names@.len() == 7,
        names@[0]@ == "_1_precipitation"@,
        names@[1]@ == "_2_1_outflow_flux"@,
        names@[2]@ == "_2_2_water_height"@,
        names@[3]@ == "_2_3_velocity_field"@,
        names@[4]@ == "_3_erosion_deposition"@,
        names@[5]@ == "_4_sediment_transport"@,
        names@[6]@ == "_5_evaporation"@,
{
    let mut names: Vec<String> = Vec::new();
    names.push("_1_precipitation".to_owned());
    names.push("_2_1_outflow_flux".to_owned());
    names.push("_2_2_water_height".to_owned());
    names.push("_2_3_velocity_field".to_owned());
    names.push("_3_erosion_deposition".to_owned());
    names.push("_4_sediment_transport".to_owned());
    names.push("_5_evaporation".to_owned());
    names
}

} // verus!
