//! The order of one redraw: what is decided before a frame is acquired and
//! what is done once the attempt to acquire one has ended.

use vstd::prelude::*;
use crate::gpu_resources::{GpuResource, SurfaceStatus};
use crate::grid::GridShape;
use crate::input::{brush_center, brush_is_placed, is_mapped, origin, BrushCenter, InputState};
use crate::rd_system::{
    CompiledProgram,
    Dispatch,
    EngineState,
    ReactionDiffusionSystem,
    RebuildError,
};
use crate::shader_watcher::ShaderWatcher;
use crate::uniforms::{is_native_image, BrushUniform, UNIFORM_BYTES};

verus! {

/// What a redraw does before it acquires a frame.
#[derive(Clone, Copy, Debug, PartialEq, Eq, Structural)]
pub struct FramePlan {
    /// Whether the program is to be rebuilt, once, before anything else.
    pub rebuild: bool,
    /// Where the brush is to be centred.
    pub brush: BrushCenter,
}

/// How a redraw ended.
#[derive(Clone, Copy, Debug, PartialEq, Eq, Structural)]
pub enum FrameOutcome {
    /// A frame was acquired: the step is to be recorded, followed by the
    /// presentation pass, and the frame submitted.
    Rendered(Dispatch),
    /// No frame for now: the redraw is given up and the next one tries again.
    Skipped,
    /// No frame to be had: the application is to end.
    Fatal,
}

/// Everything a redraw works on: the surface, the engine and the watch on
/// the shader sources.
pub struct State<P, G> {
    gpu_res: GpuResource,
    rd_system: ReactionDiffusionSystem<P, G>,
    shader_watcher: ShaderWatcher,
}

impl<P, G> State<P, G> {
    /// The surface.
    pub closed spec fn surface(self) -> GpuResource {
        self.gpu_res
    }

    /// The engine.
    pub closed spec fn engine(self) -> ReactionDiffusionSystem<P, G> {
        self.rd_system
    }

    /// The watch on the shader sources.
    pub closed spec fn watcher(self) -> ShaderWatcher {
        self.shader_watcher
    }

    /// Puts the three parts together.
    pub fn new(
        gpu_res: GpuResource,
        rd_system: ReactionDiffusionSystem<P, G>,
        shader_watcher: ShaderWatcher,
    ) -> (state: Self)
        ensures
            state.surface() == gpu_res,
            state.engine() == rd_system,
            state.watcher() == shader_watcher,
    {
        State { gpu_res, rd_system, shader_watcher }
    }

    /// Passes a new size of the window on to the surface. The result says
    /// whether the surface is to be configured anew, which it is unless
    /// either extent is zero.
    pub fn resize(&mut self, width: u32, height: u32) -> (reconfigure: bool)
        ensures
            reconfigure == (width > 0 && height > 0),
            reconfigure ==> final(self).surface().spec_size() == (width, height),
            reconfigure ==> final(self).surface().spec_config() == (width, height),
            !reconfigure ==> final(self).surface() == old(self).surface(),
            final(self).engine() == old(self).engine(),
            final(self).watcher() == old(self).watcher(),
    {
        self.gpu_res.resize(width, height)
    }

    /// Plans a redraw. `drained` is the number of shader changes that were
    /// taken off the queue, which is empty afterwards. However many there
    /// were, the program is rebuilt once if there was any, and not
    /// otherwise. The brush is centred where the pointer stands on the grid
    /// while the button is held, a position is known and the surface is not
    /// empty; otherwise it rests at the origin.
    pub fn render(&self, input: &InputState, drained: usize) -> (plan: FramePlan)
        ensures
            plan.rebuild == (drained > 0),
            brush_is_placed(*input, self.surface().spec_size()) ==> is_mapped(
                plan.brush,
                input.mouse_pos.unwrap(),
                self.surface().spec_size(),
                (self.engine().shape().spec_width(), self.engine().shape().spec_height()),
            ),
            !brush_is_placed(*input, self.surface().spec_size()) ==> plan.brush == origin(),
            plan.brush.x.den > 0 && plan.brush.y.den > 0,
            plan.brush.x.num <= self.engine().shape().spec_width() * plan.brush.x.den,
            plan.brush.y.num <= self.engine().shape().spec_height() * plan.brush.y.den,
    {
        let grid: (u32, u32) = self.rd_system.grid_dimensions();
        let surface: (u32, u32) = self.gpu_res.size();
        FramePlan { rebuild: drained > 0, brush: brush_center(input, surface, grid) }
    }

    /// Ends the rebuild that a plan asked for: a newly compiled program
    /// replaces the old one whole, a failure leaves the old one in place and
    /// is handed on. Nothing else changes.
    pub fn rebuild_pipeline(
        &mut self,
        compiled: Result<CompiledProgram<P, G>, RebuildError>,
    ) -> (outcome: Result<(), RebuildError>)
        ensures
            final(self).engine()@ == old(self).engine()@,
            final(self).engine().shape() == old(self).engine().shape(),
            final(self).surface() == old(self).surface(),
            final(self).watcher() == old(self).watcher(),
            match compiled {
                Ok(program) => outcome.is_ok() && final(self).engine().program() == program,
                Err(error) => {
                    &&& outcome == Err::<(), RebuildError>(error)
                    &&& final(self).engine().program() == old(self).engine().program()
                },
            },
    {
        self.rd_system.rebuild_pipeline(compiled)
    }

    /// Takes `params` as the current brush and returns the bytes to write
    /// to the brush buffer.
    pub fn set_brush_parameters(&mut self, params: &BrushUniform) -> (bytes: Vec<u8>)
        ensures
            final(self).engine()@ == old(self).engine()@.with_brush(*params),
            final(self).engine().shape() == old(self).engine().shape(),
            final(self).engine().program() == old(self).engine().program(),
            final(self).surface() == old(self).surface(),
            final(self).watcher() == old(self).watcher(),
            bytes@.len() == UNIFORM_BYTES,
            is_native_image(params.words(), bytes@),
            params.is_layout(bytes@, true) || params.is_layout(bytes@, false),
    {
        self.rd_system.set_brush_parameters(params)
    }

    /// Ends a redraw, given how the attempt to acquire a frame ended and
    /// the clock reading. With a frame the engine makes one step, which is
    /// returned to be recorded. Without one the engine makes none: the
    /// redraw is skipped where a later attempt may succeed, and the
    /// application is to end where none will.
    pub fn finish_frame(&mut self, status: SurfaceStatus, now: u64) -> (outcome: FrameOutcome)
        ensures
            final(self).surface() == old(self).surface(),
            final(self).watcher() == old(self).watcher(),
            final(self).engine().shape() == old(self).engine().shape(),
            final(self).engine().program() == old(self).engine().program(),
            outcome == frame_outcome(old(self).engine()@, old(self).engine().shape(), status, now),
            final(self).engine()@ == state_after_frame(old(self).engine()@, status, now),
    {
        match status {
            SurfaceStatus::Ready => {
                let step = self.rd_system.compute_and_render_pass(now);
                FrameOutcome::Rendered(step)
            },
            SurfaceStatus::Recoverable => FrameOutcome::Skipped,
            SurfaceStatus::Fatal => FrameOutcome::Fatal,
        }
    }

    /// The surface.
    pub fn gpu_res(&self) -> (gpu_res: &GpuResource)
        ensures
            *gpu_res == self.surface(),
    {
        &self.gpu_res
    }

    /// The engine.
    pub fn rd_system(&self) -> (rd_system: &ReactionDiffusionSystem<P, G>)
        ensures
            *rd_system == self.engine(),
    {
        &self.rd_system
    }

    /// The watch on the shader sources.
    pub fn shader_watcher(&self) -> (shader_watcher: &ShaderWatcher)
        ensures
            *shader_watcher == self.watcher(),
    {
        &self.shader_watcher
    }
}

/// How a redraw ends for each way the attempt to acquire a frame can end.
pub open spec fn frame_outcome(
    state: EngineState,
    shape: GridShape,
    status: SurfaceStatus,
    now: u64,
) -> FrameOutcome {
    match status {
        SurfaceStatus::Ready => FrameOutcome::Rendered(state.dispatch(shape, now)),
        SurfaceStatus::Recoverable => FrameOutcome::Skipped,
        SurfaceStatus::Fatal => FrameOutcome::Fatal,
    }
}

/// What the engine remembers after a redraw: it has made a step if a frame
/// was acquired, and is as it was if none was.
pub open spec fn state_after_frame(
    state: EngineState,
    status: SurfaceStatus,
    now: u64,
) -> EngineState {
    match status {
        SurfaceStatus::Ready => state.advanced(now),
        _ => state,
    }
}

} // verus!
