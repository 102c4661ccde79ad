use reaction_diffusion::gpu_resources::{GpuResource, SurfaceStatus};
use reaction_diffusion::grid::GridShape;
use reaction_diffusion::input::{
    BrushCenter, GridCoordinate, InputState, LoopCommand, ScreenPosition, WindowEvent,
};
use reaction_diffusion::rd_system::{
    CompiledProgram, Dispatch, GridId, ReactionDiffusionSystem, RebuildError,
};
use reaction_diffusion::shader_watcher::ShaderWatcher;
use reaction_diffusion::state::{FrameOutcome, FramePlan, State};
use reaction_diffusion::uniforms::BrushUniform;

fn program(tag: u32) -> CompiledProgram<u32, (u32, char)> {
    CompiledProgram { pipeline: tag, a_to_b: (tag, 'f'), b_to_a: (tag, 'b') }
}

fn state(surface: (u32, u32), grid: (u32, u32)) -> State<u32, (u32, char)> {
    State::new(
        GpuResource::new(surface.0, surface.1),
        ReactionDiffusionSystem::new(GridShape::new(grid.0, grid.1).unwrap(), program(1)),
        ShaderWatcher::new(String::from("shaders")),
    )
}

const ORIGIN: BrushCenter =
    BrushCenter { x: GridCoordinate { num: 0, den: 1 }, y: GridCoordinate { num: 0, den: 1 } };

const IDLE: InputState = InputState { mouse_pos: None, mouse_down: false };

#[test]
fn state_holds_its_parts() {
    let s = state((970, 600), (720, 1280));
    assert_eq!(s.gpu_res().size(), (970, 600));
    assert_eq!(s.rd_system().grid_dimensions(), (720, 1280));
    assert_eq!(s.shader_watcher().path(), "shaders");
}

#[test]
fn no_change_no_rebuild() {
    let s = state((970, 970), (720, 1280));
    assert_eq!(s.render(&IDLE, 0), FramePlan { rebuild: false, brush: ORIGIN });
}

#[test]
fn five_changes_between_two_redraws_make_one_rebuild() {
    let mut s = state((970, 970), (720, 1280));
    let plan = s.render(&IDLE, 5);
    assert_eq!(plan, FramePlan { rebuild: true, brush: ORIGIN });
    assert_eq!(s.rebuild_pipeline(Ok(program(2))), Ok(()));
    assert_eq!(*s.rd_system().pipeline(), 2);
    // The queue was drained: the next redraw finds nothing and rebuilds nothing.
    assert!(!s.render(&IDLE, 0).rebuild);
    assert!(s.render(&IDLE, 1).rebuild);
    assert!(s.render(&IDLE, usize::MAX).rebuild);
}

#[test]
fn failed_rebuild_leaves_the_prior_pipeline_in_use() {
    let mut s = state((970, 970), (64, 64));
    assert!(s.render(&IDLE, 1).rebuild);
    assert_eq!(
        s.rebuild_pipeline(Err(RebuildError::ShaderCompilation)),
        Err(RebuildError::ShaderCompilation)
    );
    assert_eq!(*s.rd_system().pipeline(), 1);
    let outcome = s.finish_frame(SurfaceStatus::Ready, 16);
    let expected =
        Dispatch { delta: 16, source: GridId::A, destination: GridId::B, groups_x: 8, groups_y: 8 };
    assert_eq!(outcome, FrameOutcome::Rendered(expected));
    assert_eq!(*s.rd_system().bindings_for(GridId::A), (1, 'f'));
    assert_eq!(s.rebuild_pipeline(Err(RebuildError::Binding)), Err(RebuildError::Binding));
    assert_eq!(*s.rd_system().pipeline(), 1);
}

#[test]
fn plan_places_the_brush_under_the_pointer() {
    let s = state((100, 200), (64, 32));
    let input = InputState {
        mouse_pos: Some(ScreenPosition { x: 25 * 65536, y: 50 * 65536 }),
        mouse_down: true,
    };
    let plan = s.render(&input, 0);
    assert!(!plan.rebuild);
    assert_eq!(plan.brush.x, GridCoordinate { num: 25 * 65536 * 64, den: 100 * 65536 });
    assert_eq!(plan.brush.y, GridCoordinate { num: 150 * 65536 * 32, den: 200 * 65536 });
    let released = InputState { mouse_down: false, ..input };
    assert_eq!(s.render(&released, 0).brush, ORIGIN);
}

#[test]
fn plan_uses_the_windows_size_after_a_resize() {
    let mut s = state((100, 100), (64, 64));
    let input = InputState {
        mouse_pos: Some(ScreenPosition { x: 100 * 65536, y: 0 }),
        mouse_down: true,
    };
    let before = s.render(&input, 0).brush;
    assert_eq!(before.x, GridCoordinate { num: 64 * 100 * 65536, den: 100 * 65536 });
    assert!(s.resize(200, 50));
    assert_eq!(s.gpu_res().size(), (200, 50));
    let brush = s.render(&input, 0).brush;
    assert_eq!(brush.x, GridCoordinate { num: 64 * 100 * 65536, den: 200 * 65536 });
    assert_eq!(brush.y, GridCoordinate { num: 64 * 50 * 65536, den: 50 * 65536 });
    assert!(!s.resize(0, 50));
    assert_eq!(s.gpu_res().size(), (200, 50));
    assert_eq!(s.render(&input, 0).brush, brush);
}

#[test]
fn brush_rests_on_a_window_without_extent() {
    let s = state((0, 0), (64, 64));
    let input = InputState { mouse_pos: Some(ScreenPosition { x: 5, y: 5 }), mouse_down: true };
    assert_eq!(s.render(&input, 0).brush, ORIGIN);
}

#[test]
fn frame_without_an_image_is_skipped_and_changes_nothing() {
    let mut s = state((970, 970), (64, 64));
    assert_eq!(s.finish_frame(SurfaceStatus::Recoverable, 100), FrameOutcome::Skipped);
    assert_eq!(s.rd_system().source(), GridId::A);
    assert_eq!(s.rd_system().last_time(), 0);
    // The next redraw tries again and counts the time from the last step made.
    let outcome = s.finish_frame(SurfaceStatus::Ready, 116);
    let expected = Dispatch {
        delta: 116,
        source: GridId::A,
        destination: GridId::B,
        groups_x: 8,
        groups_y: 8,
    };
    assert_eq!(outcome, FrameOutcome::Rendered(expected));
    assert_eq!(s.rd_system().source(), GridId::B);
}

#[test]
fn fatal_surface_failure_ends_the_application() {
    let mut s = state((970, 970), (64, 64));
    assert_eq!(s.finish_frame(SurfaceStatus::Fatal, 100), FrameOutcome::Fatal);
    assert_eq!(s.rd_system().source(), GridId::A);
    assert_eq!(s.rd_system().last_time(), 0);
}

#[test]
fn brush_upload_through_the_state() {
    let mut s = state((970, 970), (64, 64));
    let brush = BrushUniform {
        c_x: 1.5_f32.to_bits(),
        c_y: 2.5_f32.to_bits(),
        radius: 5.0_f32.to_bits(),
    };
    let bytes = s.set_brush_parameters(&brush);
    assert_eq!(&bytes[0..4], &1.5_f32.to_ne_bytes());
    assert_eq!(&bytes[4..8], &2.5_f32.to_ne_bytes());
    assert_eq!(&bytes[8..12], &5.0_f32.to_ne_bytes());
    assert_eq!(&bytes[12..16], &[0u8; 4]);
    assert_eq!(s.rd_system().brush(), brush);
    assert_eq!(s.gpu_res().size(), (970, 970));
}

#[test]
fn a_whole_redraw_cycle() {
    let mut s = state((800, 600), (64, 64));
    let mut input = InputState::new();
    assert_eq!(
        input.window_event(WindowEvent::CursorMoved { x: 400 * 65536, y: 300 * 65536 }),
        LoopCommand::Nothing
    );
    input.window_event(WindowEvent::MouseInput { left_button: true, pressed: true });
    assert_eq!(input.window_event(WindowEvent::RedrawRequested), LoopCommand::Render);
    let plan = s.render(&input, 3);
    assert!(plan.rebuild);
    assert_eq!(s.rebuild_pipeline(Ok(program(9))), Ok(()));
    let x = (plan.brush.x.num as f64 / plan.brush.x.den as f64) as f32;
    let y = (plan.brush.y.num as f64 / plan.brush.y.den as f64) as f32;
    assert_eq!((x, y), (32.0, 32.0));
    let brush = BrushUniform { c_x: x.to_bits(), c_y: y.to_bits(), radius: 5.0_f32.to_bits() };
    assert_eq!(s.set_brush_parameters(&brush).len(), 16);
    match s.finish_frame(SurfaceStatus::Ready, 16_000_000) {
        FrameOutcome::Rendered(step) => {
            assert_eq!(step.source, GridId::A);
            assert_eq!(step.destination, GridId::B);
            assert_eq!(step.delta, 16_000_000);
            assert_eq!(*s.rd_system().pipeline(), 9);
            assert_eq!(*s.rd_system().bindings_for(step.source), (9, 'f'));
        }
        other => panic!("no frame was rendered: {other:?}"),
    }
}
