//! The reaction-diffusion engine: two grids that swap the roles of source
//! and destination at every step, the program that updates them, and the
//! uniforms it reads.

use vstd::prelude::*;
use crate::grid::{groups_to_cover, GridShape, WORKGROUP_X, WORKGROUP_Y};
use crate::uniforms::{is_native_image, BrushUniform, UNIFORM_BYTES};

verus! {

/// One of the two grids.
#[derive(Clone, Copy, Debug, PartialEq, Eq, Structural)]
pub enum GridId {
    A,
    B,
}

impl GridId {
    /// The grid that is not this one.
    pub open spec fn other(self) -> GridId {
        match self {
            GridId::A => GridId::B,
            GridId::B => GridId::A,
        }
    }

    /// The grid that is not this one.
    pub fn opposite(&self) -> (id: GridId)
        ensures
            id == self.other(),
            id != *self,
    {
        match self {
            GridId::A => GridId::B,
            GridId::B => GridId::A,
        }
    }
}

/// What kind of resource a slot of the program's binding layout takes.
#[derive(Clone, Copy, Debug, PartialEq, Eq, Structural)]
pub enum BindingKind {
    /// A uniform buffer of at least `min_size` bytes, at a fixed offset.
    UniformBuffer { min_size: u64 },
    /// A two-dimensional texture that is sampled without filtering.
    SampledTexture,
    /// A two-dimensional storage texture that is only written.
    WriteOnlyStorageTexture,
}

/// One slot of the program's binding layout.
#[derive(Clone, Copy, Debug, PartialEq, Eq, Structural)]
pub struct LayoutEntry {
    pub slot: u32,
    pub kind: BindingKind,
}

/// A resource of the engine that can be bound to a slot.
#[derive(Clone, Copy, Debug, PartialEq, Eq, Structural)]
pub enum BoundResource {
    /// The buffer that holds the time record.
    TimeBuffer,
    /// A view of one of the two grids.
    Grid(GridId),
}

/// What is bound to one slot in a binding group.
#[derive(Clone, Copy, Debug, PartialEq, Eq, Structural)]
pub struct BindingEntry {
    pub slot: u32,
    pub resource: BoundResource,
}

/// Slot of the time record.
pub const TIME_SLOT: u32 = 0;

/// Slot of the grid that a step reads.
pub const SOURCE_SLOT: u32 = 1;

/// Slot of the grid that a step writes.
pub const DESTINATION_SLOT: u32 = 2;

/// The program's binding layout: the time record, the grid that is read and
/// the grid that is written, in this order of slots.
pub open spec fn spec_binding_layout() -> Seq<LayoutEntry> {
    seq![
        LayoutEntry { slot: 0, kind: BindingKind::UniformBuffer { min_size: 16 } },
        LayoutEntry { slot: 1, kind: BindingKind::SampledTexture },
        LayoutEntry { slot: 2, kind: BindingKind::WriteOnlyStorageTexture },
    ]
}

/// The binding group for a step that reads `source`: the time buffer, then
/// `source` to be read, then the other grid to be written.
pub open spec fn spec_binding_entries(source: GridId) -> Seq<BindingEntry> {
    seq![
        BindingEntry { slot: 0, resource: BoundResource::TimeBuffer },
        BindingEntry { slot: 1, resource: BoundResource::Grid(source) },
        BindingEntry { slot: 2, resource: BoundResource::Grid(source.other()) },
    ]
}

/// The program's binding layout.
pub fn binding_layout() -> (layout: Vec<LayoutEntry>)
    ensures
        layout@ == spec_binding_layout(),
{
    let mut layout: Vec<LayoutEntry> = Vec::new();
    layout.push(
        LayoutEntry {
            slot: TIME_SLOT,
            kind: BindingKind::UniformBuffer { min_size: UNIFORM_BYTES as u64 },
        },
    );
    layout.push(LayoutEntry { slot: SOURCE_SLOT, kind: BindingKind::SampledTexture });
    layout.push(LayoutEntry { slot: DESTINATION_SLOT, kind: BindingKind::WriteOnlyStorageTexture });
    assert(layout@ =~= spec_binding_layout());
    layout
}

/// The entries of the binding group for a step that reads `source`. The
/// grid that is written is never the grid that is read.
pub fn binding_entries(source: GridId) -> (entries: Vec<BindingEntry>)
    ensures
        entries@ == spec_binding_entries(source),
        entries@[1].resource != entries@[2].resource,
{
    let mut entries: Vec<BindingEntry> = Vec::new();
    entries.push(BindingEntry { slot: TIME_SLOT, resource: BoundResource::TimeBuffer });
    entries.push(BindingEntry { slot: SOURCE_SLOT, resource: BoundResource::Grid(source) });
    entries.push(
        BindingEntry { slot: DESTINATION_SLOT, resource: BoundResource::Grid(source.opposite()) },
    );
    assert(entries@ =~= spec_binding_entries(source));
    entries
}

/// The compiled program with its two binding groups, one per direction.
/// `P` is the caller's pipeline object, `G` its binding group object.
pub struct CompiledProgram<P, G> {
    pub pipeline: P,
    /// Bindings for a step that reads grid A and writes grid B.
    pub a_to_b: G,
    /// Bindings for a step that reads grid B and writes grid A.
    pub b_to_a: G,
}

/// Why a rebuild of the program was rejected.
#[derive(Clone, Copy, Debug, PartialEq, Eq, Structural)]
pub enum RebuildError {
    /// The shader source did not compile.
    ShaderCompilation,
    /// The compiled shader does not fit the binding layout.
    Binding,
}

/// One step of the simulation, as it is to be recorded.
#[derive(Clone, Copy, Debug, PartialEq, Eq, Structural)]
pub struct Dispatch {
    /// Time since the previous step, in ticks of the caller's clock.
    pub delta: u64,
    /// The grid that the step reads.
    pub source: GridId,
    /// The grid that the step overwrites.
    pub destination: GridId,
    /// Number of workgroups along the horizontal axis.
    pub groups_x: u32,
    /// Number of workgroups along the vertical axis.
    pub groups_y: u32,
}

/// What the engine remembers between steps, apart from the program.
pub struct EngineState {
    /// The grid that the next step reads.
    pub source: GridId,
    /// Clock reading at the previous step, zero before the first.
    pub last_time: u64,
    /// The brush record that was uploaded last.
    pub brush: BrushUniform,
}

impl EngineState {
    /// The state of an engine that has not made a step: grid A is read
    /// first, the clock stands at zero, the brush is at rest.
    pub open spec fn fresh() -> EngineState {
        EngineState { source: GridId::A, last_time: 0, brush: BrushUniform::spec_inactive() }
    }

    /// Time since the previous step at clock reading `now`: zero where the
    /// clock has not advanced.
    pub open spec fn delta(self, now: u64) -> u64 {
        if now >= self.last_time {
            (now - self.last_time) as u64
        } else {
            0
        }
    }

    /// The step that is recorded at clock reading `now` on a grid of the
    /// given shape.
    pub open spec fn dispatch(self, shape: GridShape, now: u64) -> Dispatch {
        Dispatch {
            delta: self.delta(now),
            source: self.source,
            destination: self.source.other(),
            groups_x: groups_to_cover(shape.spec_width() as int, WORKGROUP_X as int) as u32,
            groups_y: groups_to_cover(shape.spec_height() as int, WORKGROUP_Y as int) as u32,
        }
    }

    /// The state after a step at clock reading `now`: the grids have swapped
    /// roles and the clock reading is remembered.
    pub open spec fn advanced(self, now: u64) -> EngineState {
        EngineState { source: self.source.other(), last_time: now, brush: self.brush }
    }

    /// The state after `brush` was uploaded.
    pub open spec fn with_brush(self, brush: BrushUniform) -> EngineState {
        EngineState { source: self.source, last_time: self.last_time, brush }
    }

    /// The state after one step at each of the clock readings, in order.
    pub open spec fn after_steps(self, times: Seq<u64>) -> EngineState
        decreases times.len(),
    {
        if times.len() == 0 {
            self
        } else {
            self.after_steps(times.drop_last()).advanced(times.last())
        }
    }
}

/// The engine. It owns the program and decides, step by step, which grid is
/// read, which is written, and how much time has passed.
pub struct ReactionDiffusionSystem<P, G> {
    shape: GridShape,
    program: CompiledProgram<P, G>,
    state: EngineState,
}

impl<P, G> View for ReactionDiffusionSystem<P, G> {
    type V = EngineState;

    closed spec fn view(&self) -> EngineState {
        self.state
    }
}

impl<P, G> ReactionDiffusionSystem<P, G> {
    /// The shape of the two grids.
    pub closed spec fn shape(self) -> GridShape {
        self.shape
    }

    /// The program that steps are dispatched with.
    pub closed spec fn program(self) -> CompiledProgram<P, G> {
        self.program
    }

    /// An engine for grids of the given shape, with a program compiled for
    /// them. It has made no step yet.
    pub fn new(shape: GridShape, program: CompiledProgram<P, G>) -> (engine: Self)
        ensures
            engine@ == EngineState::fresh(),
            engine.shape() == shape,
            engine.program() == program,
    {
        ReactionDiffusionSystem {
            shape,
            program,
            state: EngineState {
                source: GridId::A,
                last_time: 0,
                brush: BrushUniform::inactive(),
            },
        }
    }

    /// Makes one step at clock reading `now` and returns what is to be
    /// recorded for it: the time since the previous step, the grid to read,
    /// the grid to overwrite and the number of workgroups. Afterwards the two
    /// grids have swapped roles.
    pub fn compute_and_render_pass(&mut self, now: u64) -> (step: Dispatch)
        ensures
            step == old(self)@.dispatch(old(self).shape(), now),
            step.source != step.destination,
            WORKGROUP_X * (step.groups_x - 1) < old(self).shape().spec_width() <= WORKGROUP_X
                * step.groups_x,
            WORKGROUP_Y * (step.groups_y - 1) < old(self).shape().spec_height() <= WORKGROUP_Y
                * step.groups_y,
            final(self)@ == old(self)@.advanced(now),
            final(self).shape() == old(self).shape(),
            final(self).program() == old(self).program(),
    {
        let delta: u64 = if now >= self.state.last_time {
            now - self.state.last_time
        } else {
            0
        };
        let source: GridId = self.state.source;
        let destination: GridId = source.opposite();
        let groups: (u32, u32) = self.shape.workgroups();
        self.state.last_time = now;
        self.state.source = destination;
        Dispatch { delta, source, destination, groups_x: groups.0, groups_y: groups.1 }
    }

    /// Takes `params` as the current brush and returns the bytes to write to
    /// the brush buffer. Nothing else about the engine changes.
    pub fn set_brush_parameters(&mut self, params: &BrushUniform) -> (bytes: Vec<u8>)
        ensures
            final(self)@ == old(self)@.with_brush(*params),
            final(self).shape() == old(self).shape(),
            final(self).program() == old(self).program(),
            bytes@.len() == UNIFORM_BYTES,
            is_native_image(params.words(), bytes@),
            params.is_layout(bytes@, true) || params.is_layout(bytes@, false),
    {
        self.state.brush = *params;
        params.to_bytes()
    }

    /// Ends a rebuild. Given a newly compiled program, the engine takes it in
    /// place of the old one, whole. Given a failure, the engine stays as it
    /// was and hands the failure on. Either way the grids keep their roles.
    pub fn rebuild_pipeline(
        &mut self,
        compiled: Result<CompiledProgram<P, G>, RebuildError>,
    ) -> (outcome: Result<(), RebuildError>)
        ensures
            final(self)@ == old(self)@,
            final(self).shape() == old(self).shape(),
            match compiled {
                Ok(program) => outcome.is_ok() && final(self).program() == program,
                Err(error) => outcome == Err::<(), RebuildError>(error) && final(self).program()
                    == old(self).program(),
            },
    {
        match compiled {
            Ok(program) => {
                self.program = program;
                Ok(())
            },
            Err(error) => Err(error),
        }
    }

    /// Width and height of the grids, in cells.
    pub fn grid_dimensions(&self) -> (size: (u32, u32))
        ensures
            size == (self.shape().spec_width(), self.shape().spec_height()),
    {
        self.shape.dimensions()
    }

    /// The shape of the grids.
    pub fn grid_shape(&self) -> (shape: GridShape)
        ensures
            shape == self.shape(),
            shape.wf(),
    {
        proof {
            use_type_invariant(&self.shape);
        }
        self.shape
    }

    /// The grid that the next step reads.
    pub fn source(&self) -> (id: GridId)
        ensures
            id == self@.source,
    {
        self.state.source
    }

    /// Clock reading at the previous step.
    pub fn last_time(&self) -> (time: u64)
        ensures
            time == self@.last_time,
    {
        self.state.last_time
    }

    /// The brush record that was uploaded last.
    pub fn brush(&self) -> (brush: BrushUniform)
        ensures
            brush == self@.brush,
    {
        self.state.brush
    }

    /// The pipeline that steps are dispatched with.
    pub fn pipeline(&self) -> (pipeline: &P)
        ensures
            *pipeline == self.program().pipeline,
    {
        &self.program.pipeline
    }

    /// The binding group for a step that reads `source`.
    pub fn bindings_for(&self, source: GridId) -> (bindings: &G)
        ensures
            *bindings == match source {
                GridId::A => self.program().a_to_b,
                GridId::B => self.program().b_to_a,
            },
    {
        match source {
            GridId::A => &self.program.a_to_b,
            GridId::B => &self.program.b_to_a,
        }
    }
}

/// No step reads the grid it writes.
pub proof fn lemma_roles_disjoint(state: EngineState, shape: GridShape, now: u64)
    ensures
        state.dispatch(shape, now).source != state.dispatch(shape, now).destination,
        spec_binding_entries(state.dispatch(shape, now).source)[1].resource
            != spec_binding_entries(state.dispatch(shape, now).source)[2].resource,
{
}

/// The grids alternate: after an even number of steps the grid that is read
/// next is the one that was read first, after an odd number it is the other.
pub proof fn lemma_alternation(state: EngineState, times: Seq<u64>)
    ensures
        state.after_steps(times).source == if times.len() % 2 == 0 {
            state.source
        } else {
            state.source.other()
        },
        state.after_steps(times).brush == state.brush,
    decreases times.len(),
{
    if times.len() > 0 {
        lemma_alternation(state, times.drop_last());
    }
}

/// From a fresh engine, step number `times.len()` (counted from zero) reads
/// grid A if that number is even and grid B if it is odd.
pub proof fn lemma_alternation_from_fresh(times: Seq<u64>)
    ensures
        EngineState::fresh().after_steps(times).source == if times.len() % 2 == 0 {
            GridId::A
        } else {
            GridId::B
        },
{
    lemma_alternation(EngineState::fresh(), times);
}

/// Uploading the same brush again changes nothing, and an upload changes
/// nothing about the steps: neither which grids they read and write, nor
/// the time they see, nor the state they leave apart from the brush.
pub proof fn lemma_brush_upload_idempotent(
    state: EngineState,
    brush: BrushUniform,
    shape: GridShape,
    now: u64,
)
    ensures
        state.with_brush(brush).with_brush(brush) == state.with_brush(brush),
        state.with_brush(brush).dispatch(shape, now) == state.dispatch(shape, now),
        state.with_brush(brush).advanced(now) == state.advanced(now).with_brush(brush),
{
}

/// The time a step sees is the clock's advance since the previous step,
/// and the next step counts from this one's clock reading.
pub proof fn lemma_delta(state: EngineState, now: u64, later: u64)
    ensures
        now >= state.last_time ==> state.delta(now) == now - state.last_time,
        now < state.last_time ==> state.delta(now) == 0,
        later >= now ==> state.advanced(now).delta(later) == later - now,
{
}

} // verus!
