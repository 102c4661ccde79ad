use reaction_diffusion::gpu_resources::{
    preferred_format, GpuResource, SurfaceError, SurfaceFormat, SurfaceStatus, FRAME_LATENCY,
};
use reaction_diffusion::shader_watcher::{EventKind, ModifyKind, ShaderWatcher};

#[test]
fn surface_is_configured_for_the_windows_size() {
    let gpu = GpuResource::new(970, 600);
    assert_eq!(gpu.size(), (970, 600));
    assert_eq!(gpu.config(), (970, 600));
    assert_eq!(FRAME_LATENCY, 2);
}

#[test]
fn surface_is_never_configured_for_no_pixels() {
    let gpu = GpuResource::new(0, 0);
    assert_eq!(gpu.size(), (0, 0));
    assert_eq!(gpu.config(), (1, 1));
    let gpu = GpuResource::new(0, 7);
    assert_eq!(gpu.size(), (0, 7));
    assert_eq!(gpu.config(), (1, 7));
}

#[test]
fn resize_takes_positive_sizes() {
    let mut gpu = GpuResource::new(100, 100);
    assert!(gpu.resize(640, 480));
    assert_eq!(gpu.size(), (640, 480));
    assert_eq!(gpu.config(), (640, 480));
}

#[test]
fn resize_to_nothing_is_ignored() {
    let mut gpu = GpuResource::new(100, 200);
    assert!(!gpu.resize(0, 480));
    assert!(!gpu.resize(640, 0));
    assert!(!gpu.resize(0, 0));
    assert_eq!(gpu.size(), (100, 200));
    assert_eq!(gpu.config(), (100, 200));
    let mut minimized = GpuResource::new(0, 0);
    assert!(!minimized.resize(0, 5));
    assert_eq!(minimized.size(), (0, 0));
    assert_eq!(minimized.config(), (1, 1));
}

#[test]
fn preferred_formats() {
    assert!(SurfaceFormat::Bgra8UnormSrgb.is_preferred());
    assert!(SurfaceFormat::Rgba8UnormSrgb.is_preferred());
    assert!(!SurfaceFormat::Other.is_preferred());
}

#[test]
fn format_choice() {
    let (bgra, rgba, other) =
        (SurfaceFormat::Bgra8UnormSrgb, SurfaceFormat::Rgba8UnormSrgb, SurfaceFormat::Other);
    assert_eq!(preferred_format(&vec![]), None);
    assert_eq!(preferred_format(&vec![other]), Some(0));
    assert_eq!(preferred_format(&vec![other, other, other]), Some(0));
    assert_eq!(preferred_format(&vec![bgra, rgba]), Some(0));
    assert_eq!(preferred_format(&vec![other, rgba, bgra]), Some(1));
    assert_eq!(preferred_format(&vec![other, other, bgra, other]), Some(2));
}

#[test]
fn only_changed_content_qualifies() {
    assert!(EventKind::Modify(ModifyKind::Data).is_content_change());
    for kind in [
        EventKind::Any,
        EventKind::Access,
        EventKind::Create,
        EventKind::Modify(ModifyKind::Any),
        EventKind::Modify(ModifyKind::Metadata),
        EventKind::Modify(ModifyKind::Name),
        EventKind::Modify(ModifyKind::Other),
        EventKind::Remove,
        EventKind::Other,
    ] {
        assert!(!kind.is_content_change());
    }
}

#[test]
fn watcher_keeps_its_path_and_does_not_descend() {
    let watcher = ShaderWatcher::new(String::from("/srv/app/shaders"));
    assert_eq!(watcher.path(), "/srv/app/shaders");
    assert!(!watcher.recursive());
}

#[test]
fn watcher_publishes_the_paths_of_content_changes() {
    let watcher = ShaderWatcher::new(String::from("shaders"));
    let paths = vec![String::from("shaders/a.wgsl"), String::from("shaders/b.wgsl")];
    assert_eq!(
        watcher.paths_to_publish(&EventKind::Modify(ModifyKind::Data), paths.clone()),
        paths
    );
    let none: Vec<String> = Vec::new();
    assert_eq!(
        watcher.paths_to_publish(&EventKind::Modify(ModifyKind::Data), none.clone()),
        none
    );
}

#[test]
fn watcher_drops_everything_else() {
    let watcher = ShaderWatcher::new(String::from("shaders"));
    let paths = vec![String::from("shaders/a.wgsl")];
    for kind in [
        EventKind::Any,
        EventKind::Access,
        EventKind::Create,
        EventKind::Modify(ModifyKind::Any),
        EventKind::Modify(ModifyKind::Metadata),
        EventKind::Modify(ModifyKind::Name),
        EventKind::Modify(ModifyKind::Other),
        EventKind::Remove,
        EventKind::Other,
    ] {
        assert!(watcher.paths_to_publish(&kind, paths.clone()).is_empty());
    }
}

#[test]
fn acquired_image_is_ready() {
    assert_eq!(SurfaceStatus::from_attempt(Ok(())), SurfaceStatus::Ready);
}

#[test]
fn only_exhausted_memory_is_fatal() {
    assert_eq!(
        SurfaceStatus::from_attempt(Err(SurfaceError::OutOfMemory)),
        SurfaceStatus::Fatal
    );
    for error in [
        SurfaceError::Timeout,
        SurfaceError::Outdated,
        SurfaceError::Lost,
        SurfaceError::Other,
    ] {
        assert_eq!(SurfaceStatus::from_attempt(Err(error)), SurfaceStatus::Recoverable);
    }
}
