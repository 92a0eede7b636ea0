use bevy_ecs::entity::Entity;
use bevy_window::{CompositeAlphaMode, PresentMode};
use wgpu::{SurfaceError, TextureFormat};
use window_render::extract::{extract_windows, WindowSnapshot};
use window_render::offscreen::{LayerId, MetalPresentState, OffscreenBlitState};
use window_render::prepare::{
    any_may_erroneously_timeout, prepare_windows, CameraTarget, FrameCommand, FrameEvent,
    FrameStage, Platform, WindowPreparation,
};
use window_render::surface::{
    SurfaceConfiguration, SurfaceData, SurfaceId, TextureUsages, WindowSurfaces,
};
use window_render::window::{
    ExtractedWindow, ExtractedWindows, RawHandleId, SurfaceTexture, TextureId, TextureView,
};

fn entity(n: u32) -> Entity {
    Entity::from_raw_u32(n).unwrap()
}

fn snapshot(n: u32, width: u32) -> WindowSnapshot {
    WindowSnapshot {
        entity: entity(n),
        handle: RawHandleId(100 + n as u64),
        physical_width: width,
        physical_height: 32,
        present_mode: PresentMode::Fifo,
        desired_maximum_frame_latency: None,
        composite_alpha_mode: CompositeAlphaMode::Auto,
        primary: false,
    }
}

fn configuration() -> SurfaceConfiguration {
    SurfaceConfiguration {
        usage: TextureUsages { copy_src: false, copy_dst: true, render_attachment: true },
        format: TextureFormat::Bgra8Unorm,
        width: 64,
        height: 32,
        present_mode: wgpu::PresentMode::Fifo,
        desired_maximum_frame_latency: 2,
        alpha_mode: wgpu::CompositeAlphaMode::Auto,
        view_formats: Some(TextureFormat::Bgra8UnormSrgb),
    }
}

/// One window with a surface.
fn setting() -> (ExtractedWindows, WindowSurfaces) {
    let mut windows = ExtractedWindows::default();
    let mut surfaces = WindowSurfaces::default();
    extract_windows(&mut windows, &vec![], &vec![snapshot(1, 64)], &vec![], &mut surfaces);
    surfaces.surfaces.insert(
        entity(1),
        SurfaceData {
            surface: SurfaceId(7),
            configuration: configuration(),
            texture_view_format: Some(TextureFormat::Bgra8UnormSrgb),
        },
    );
    surfaces.configured_windows.insert(entity(1));
    (windows, surfaces)
}

fn blit_state(layer: Option<u64>) -> OffscreenBlitState {
    OffscreenBlitState {
        source_texture: TextureId(1),
        source_width: 10,
        source_height: 10,
        metal_state: layer.map(|id| MetalPresentState { layer: LayerId(id) }),
    }
}

fn targeted() -> Vec<Option<CameraTarget>> {
    vec![None, Some(CameraTarget::Other), Some(CameraTarget::Window(entity(1)))]
}

fn frame(id: u64) -> SurfaceTexture {
    SurfaceTexture { texture: TextureId(id), format: TextureFormat::Bgra8Unorm }
}

/// A pass that has come past its opening.
fn begin(
    windows: &mut ExtractedWindows,
    surfaces: &WindowSurfaces,
    cameras: Vec<Option<CameraTarget>>,
    offscreen: Option<OffscreenBlitState>,
    platform: Platform,
) -> WindowPreparation {
    let mut pass = prepare_windows(windows, cameras, offscreen, platform);
    assert_eq!(pass.step(FrameEvent::Resume, windows, surfaces), FrameCommand::Continue);
    pass
}

fn acquire() -> FrameCommand {
    FrameCommand::Acquire { window: entity(1), surface: SurfaceId(7) }
}

fn the_window(windows: &ExtractedWindows) -> ExtractedWindow {
    *windows.get(&entity(1)).unwrap()
}

#[test]
fn targeted_window_gets_a_frame() {
    let (mut windows, surfaces) = setting();
    let mut pass = begin(&mut windows, &surfaces, targeted(), None, Platform::Other);
    assert_eq!(pass.step(FrameEvent::Resume, &mut windows, &surfaces), acquire());
    let event = FrameEvent::Frame(Ok(frame(5)));
    assert_eq!(pass.step(event, &mut windows, &surfaces), FrameCommand::Continue);
    let window = the_window(&windows);
    assert_eq!(window.swap_chain_texture, Some(frame(5)));
    assert_eq!(
        window.swap_chain_texture_view,
        Some(TextureView {
            texture: TextureId(5),
            format: Some(TextureFormat::Bgra8UnormSrgb),
        })
    );
    assert_eq!(window.swap_chain_texture_view_format, Some(TextureFormat::Bgra8UnormSrgb));
    assert_eq!(window.swap_chain_texture_format, Some(TextureFormat::Bgra8Unorm));
    assert!(window.needs_initial_present);
    assert_eq!(pass.step(FrameEvent::Resume, &mut windows, &surfaces), FrameCommand::Done);
}

#[test]
fn held_frame_is_kept() {
    let (mut windows, surfaces) = setting();
    windows.windows.get_mut(&entity(1)).unwrap().set_swapchain_texture(frame(5));
    let before = the_window(&windows);
    let mut pass = begin(&mut windows, &surfaces, targeted(), None, Platform::Other);
    assert_eq!(pass.step(FrameEvent::Resume, &mut windows, &surfaces), FrameCommand::Continue);
    assert_eq!(pass.step(FrameEvent::Resume, &mut windows, &surfaces), FrameCommand::Done);
    assert_eq!(the_window(&windows), before);
}

#[test]
fn second_pass_leaves_prepared_windows_alone() {
    let (mut windows, mut surfaces) = setting();
    let shown = vec![snapshot(1, 64), snapshot(2, 64), snapshot(3, 64)];
    extract_windows(&mut windows, &vec![], &shown, &vec![], &mut surfaces);
    let data = *surfaces.surfaces.get(&entity(1)).unwrap();
    surfaces.surfaces.insert(entity(2), data);
    windows.windows.get_mut(&entity(2)).unwrap().needs_initial_present = false;
    let mut pass = prepare_windows(&windows, targeted(), None, Platform::Other);
    let mut command = pass.step(FrameEvent::Resume, &mut windows, &surfaces);
    while command != FrameCommand::Done {
        let event = match command {
            FrameCommand::Acquire { .. } => FrameEvent::Frame(Ok(frame(5))),
            _ => FrameEvent::Resume,
        };
        command = pass.step(event, &mut windows, &surfaces);
    }
    assert!(the_window(&windows).has_swapchain_texture());
    let before: Vec<ExtractedWindow> =
        (1..4).map(|n| *windows.get(&entity(n)).unwrap()).collect();
    let mut pass = prepare_windows(&windows, targeted(), None, Platform::Other);
    for _ in 0..4 {
        let command = pass.step(FrameEvent::Resume, &mut windows, &surfaces);
        assert_eq!(command, FrameCommand::Continue);
    }
    assert_eq!(pass.step(FrameEvent::Resume, &mut windows, &surfaces), FrameCommand::Done);
    for n in 1..4 {
        assert_eq!(*windows.get(&entity(n)).unwrap(), before[n as usize - 1]);
    }
}

#[test]
fn changed_window_gets_a_new_frame() {
    let (mut windows, mut surfaces) = setting();
    windows.windows.get_mut(&entity(1)).unwrap().set_swapchain_texture(frame(5));
    extract_windows(&mut windows, &vec![], &vec![snapshot(1, 65)], &vec![], &mut surfaces);
    let mut pass = begin(&mut windows, &surfaces, targeted(), None, Platform::Other);
    assert_eq!(pass.step(FrameEvent::Resume, &mut windows, &surfaces), acquire());
}

#[test]
fn presented_window_gets_a_new_frame() {
    let (mut windows, mut surfaces) = setting();
    windows.windows.get_mut(&entity(1)).unwrap().set_swapchain_texture(frame(5));
    windows.windows.get_mut(&entity(1)).unwrap().present();
    extract_windows(&mut windows, &vec![], &vec![snapshot(1, 64)], &vec![], &mut surfaces);
    let mut pass = begin(&mut windows, &surfaces, targeted(), None, Platform::Other);
    assert_eq!(pass.step(FrameEvent::Resume, &mut windows, &surfaces), acquire());
}

#[test]
fn window_without_surface_is_passed_over() {
    let (mut windows, _) = setting();
    let surfaces = WindowSurfaces::default();
    let before = the_window(&windows);
    let mut pass = begin(&mut windows, &surfaces, targeted(), None, Platform::Other);
    assert_eq!(pass.step(FrameEvent::Resume, &mut windows, &surfaces), FrameCommand::Continue);
    assert_eq!(the_window(&windows), before);
}

#[test]
fn untargeted_window_gets_its_first_frame() {
    let (mut windows, surfaces) = setting();
    let others = vec![Some(CameraTarget::Window(entity(2)))];
    let mut pass = begin(&mut windows, &surfaces, others, None, Platform::Other);
    assert_eq!(pass.step(FrameEvent::Resume, &mut windows, &surfaces), acquire());
}

#[test]
fn untargeted_window_stays_idle() {
    let (mut windows, surfaces) = setting();
    windows.windows.get_mut(&entity(1)).unwrap().needs_initial_present = false;
    let mut pass = begin(&mut windows, &surfaces, vec![], None, Platform::Other);
    assert_eq!(pass.step(FrameEvent::Resume, &mut windows, &surfaces), FrameCommand::Continue);
    let window = the_window(&windows);
    assert_eq!(window.swap_chain_texture_format, Some(TextureFormat::Bgra8Unorm));
    assert!(window.swap_chain_texture.is_none());
}

#[test]
fn blit_takes_over_the_first_frame() {
    let (mut windows, surfaces) = setting();
    let state = Some(blit_state(None));
    let mut pass = begin(&mut windows, &surfaces, vec![], state, Platform::Other);
    assert_eq!(pass.step(FrameEvent::Resume, &mut windows, &surfaces), FrameCommand::Continue);
    let window = the_window(&windows);
    assert!(!window.needs_initial_present);
    assert_eq!(window.swap_chain_texture_format, Some(TextureFormat::Bgra8Unorm));
    assert!(window.swap_chain_texture.is_none());
}

#[test]
fn blit_leaves_targeted_windows_alone() {
    let (mut windows, surfaces) = setting();
    let state = Some(blit_state(None));
    let mut pass = begin(&mut windows, &surfaces, targeted(), state, Platform::Other);
    assert_eq!(pass.step(FrameEvent::Resume, &mut windows, &surfaces), acquire());
    assert!(the_window(&windows).needs_initial_present);
}

#[test]
fn outdated_surface_is_configured_again() {
    let (mut windows, surfaces) = setting();
    let mut pass = begin(&mut windows, &surfaces, targeted(), None, Platform::Other);
    pass.step(FrameEvent::Resume, &mut windows, &surfaces);
    let event = FrameEvent::Frame(Err(SurfaceError::Outdated));
    assert_eq!(
        pass.step(event, &mut windows, &surfaces),
        FrameCommand::Configure {
            window: entity(1),
            surface: SurfaceId(7),
            configuration: configuration(),
        }
    );
    assert_eq!(pass.step(FrameEvent::Configured, &mut windows, &surfaces), acquire());
    assert_eq!(pass.stage, FrameStage::AwaitFrameAgain(entity(1)));
    let event = FrameEvent::Frame(Ok(frame(6)));
    assert_eq!(pass.step(event, &mut windows, &surfaces), FrameCommand::Continue);
    assert_eq!(the_window(&windows).swap_chain_texture, Some(frame(6)));
    assert_eq!(
        the_window(&windows).swap_chain_texture_format,
        Some(TextureFormat::Bgra8Unorm)
    );
}

#[test]
fn second_failure_is_passed_over() {
    for error in [SurfaceError::Outdated, SurfaceError::Timeout, SurfaceError::Lost] {
        let (mut windows, surfaces) = setting();
        let before = the_window(&windows);
        let mut pass = begin(&mut windows, &surfaces, targeted(), None, Platform::Linux);
        pass.step(FrameEvent::Resume, &mut windows, &surfaces);
        pass.step(FrameEvent::Frame(Err(SurfaceError::Outdated)), &mut windows, &surfaces);
        pass.step(FrameEvent::Configured, &mut windows, &surfaces);
        let event = FrameEvent::Frame(Err(error));
        assert_eq!(pass.step(event, &mut windows, &surfaces), FrameCommand::Continue);
        assert_eq!(the_window(&windows), before);
    }
}

#[test]
fn timeout_is_excused_on_some_drivers() {
    let (mut windows, surfaces) = setting();
    let mut pass = begin(&mut windows, &surfaces, targeted(), None, Platform::Linux);
    pass.step(FrameEvent::Resume, &mut windows, &surfaces);
    let event = FrameEvent::Frame(Err(SurfaceError::Timeout));
    assert_eq!(
        pass.step(event, &mut windows, &surfaces),
        FrameCommand::ListAdapters(entity(1))
    );
    let names = vec![String::from("llvmpipe"), String::from("Intel(R) UHD Graphics")];
    let event = FrameEvent::AdapterNames(names);
    assert_eq!(pass.step(event, &mut windows, &surfaces), FrameCommand::Continue);
    let window = the_window(&windows);
    assert!(window.swap_chain_texture.is_none());
    assert_eq!(window.swap_chain_texture_format, Some(TextureFormat::Bgra8Unorm));
}

#[test]
fn timeout_is_fatal_on_other_drivers() {
    let (mut windows, surfaces) = setting();
    let mut pass = begin(&mut windows, &surfaces, targeted(), None, Platform::Linux);
    pass.step(FrameEvent::Resume, &mut windows, &surfaces);
    pass.step(FrameEvent::Frame(Err(SurfaceError::Timeout)), &mut windows, &surfaces);
    let event = FrameEvent::AdapterNames(vec![String::from("NVIDIA GeForce")]);
    assert_eq!(
        pass.step(event, &mut windows, &surfaces),
        FrameCommand::Fail { window: entity(1), error: SurfaceError::Timeout }
    );
    assert_eq!(pass.stage, FrameStage::Failed);
}

#[test]
fn other_errors_are_fatal() {
    for (platform, error) in [
        (Platform::Other, SurfaceError::Timeout),
        (Platform::MacOs, SurfaceError::Timeout),
        (Platform::Linux, SurfaceError::Lost),
        (Platform::Linux, SurfaceError::OutOfMemory),
        (Platform::Linux, SurfaceError::Other),
    ] {
        let (mut windows, surfaces) = setting();
        let before = the_window(&windows);
        let mut pass = begin(&mut windows, &surfaces, targeted(), None, platform);
        pass.step(FrameEvent::Resume, &mut windows, &surfaces);
        let event = FrameEvent::Frame(Err(error.clone()));
        assert_eq!(
            pass.step(event, &mut windows, &surfaces),
            FrameCommand::Fail { window: entity(1), error }
        );
        assert_eq!(the_window(&windows), before);
    }
}

#[test]
fn driver_names_are_told_by_their_start() {
    let names = |name: &str| vec![String::from("x"), String::from(name)];
    assert!(any_may_erroneously_timeout(&names("Radeon RX 580")));
    assert!(any_may_erroneously_timeout(&names("AMD")));
    assert!(any_may_erroneously_timeout(&names("Intel")));
    assert!(!any_may_erroneously_timeout(&names("Mesa Intel")));
    assert!(!any_may_erroneously_timeout(&names("amd")));
    assert!(!any_may_erroneously_timeout(&names("Inte")));
    assert!(!any_may_erroneously_timeout(&names("")));
    assert!(!any_may_erroneously_timeout(&vec![]));
}

#[test]
fn layer_is_detached_when_the_last_window_is_gone() {
    let mut windows = ExtractedWindows::default();
    let surfaces = WindowSurfaces::default();
    let state = Some(blit_state(Some(9)));
    let mut pass = prepare_windows(&windows, vec![], state, Platform::MacOs);
    assert_eq!(
        pass.step(FrameEvent::Resume, &mut windows, &surfaces),
        FrameCommand::RaiseShutdownFlag
    );
    let event = FrameEvent::ShutdownFlagWas(false);
    assert_eq!(
        pass.step(event, &mut windows, &surfaces),
        FrameCommand::DetachLayer(LayerId(9))
    );
    assert_eq!(pass.step(FrameEvent::Resume, &mut windows, &surfaces), FrameCommand::Done);

    let mut pass = prepare_windows(&windows, vec![], state, Platform::MacOs);
    pass.step(FrameEvent::Resume, &mut windows, &surfaces);
    let event = FrameEvent::ShutdownFlagWas(true);
    assert_eq!(pass.step(event, &mut windows, &surfaces), FrameCommand::Continue);

    let mut pass = prepare_windows(&windows, vec![], Some(blit_state(None)), Platform::MacOs);
    pass.step(FrameEvent::Resume, &mut windows, &surfaces);
    let event = FrameEvent::ShutdownFlagWas(false);
    assert_eq!(pass.step(event, &mut windows, &surfaces), FrameCommand::Continue);
}

#[test]
fn flag_stays_down_while_there_are_windows() {
    let (mut windows, surfaces) = setting();
    let state = Some(blit_state(Some(9)));
    let mut pass = prepare_windows(&windows, vec![], state, Platform::MacOs);
    assert_eq!(pass.step(FrameEvent::Resume, &mut windows, &surfaces), FrameCommand::Continue);

    let mut none = ExtractedWindows::default();
    let mut pass = prepare_windows(&none, vec![], state, Platform::Linux);
    assert_eq!(pass.step(FrameEvent::Resume, &mut none, &surfaces), FrameCommand::Continue);
    let mut pass = prepare_windows(&none, vec![], None, Platform::MacOs);
    assert_eq!(pass.step(FrameEvent::Resume, &mut none, &surfaces), FrameCommand::Continue);
}
