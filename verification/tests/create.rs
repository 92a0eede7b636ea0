use bevy_ecs::entity::Entity;
use bevy_window::{CompositeAlphaMode, PresentMode};
use wgpu::TextureFormat;
use window_render::create::{
    create_surfaces, SurfaceCommand, SurfaceCreation, SurfaceEvent, SurfaceFailure, SurfaceStage,
};
use window_render::extract::{extract_windows, WindowSnapshot};
use window_render::surface::{
    need_surface_configuration, new_surface_data, present_mode, reports_fallback,
    supported_present_mode, surface_format, surface_present_mode, SurfaceCapabilities, SurfaceConfiguration, SurfaceId, TextureUsages,
    WindowSurfaces, DEFAULT_DESIRED_MAXIMUM_FRAME_LATENCY,
};
use window_render::formats::{same_present_mode, same_window_present_mode};
use window_render::window::{
    ExtractedWindow, ExtractedWindows, RawHandleId, SurfaceTexture, TextureId,
};

fn entity(n: u32) -> Entity {
    Entity::from_raw_u32(n).unwrap()
}

fn snapshot(n: u32, width: u32, height: u32) -> WindowSnapshot {
    WindowSnapshot {
        entity: entity(n),
        handle: RawHandleId(100 + n as u64),
        physical_width: width,
        physical_height: height,
        present_mode: PresentMode::AutoVsync,
        desired_maximum_frame_latency: None,
        composite_alpha_mode: CompositeAlphaMode::PreMultiplied,
        primary: false,
    }
}

fn window(mode: PresentMode) -> ExtractedWindow {
    let mut windows = ExtractedWindows::default();
    let mut shown = snapshot(1, 64, 32);
    shown.present_mode = mode;
    let mut surfaces = WindowSurfaces::default();
    extract_windows(&mut windows, &vec![], &vec![shown], &vec![], &mut surfaces);
    *windows.get(&entity(1)).unwrap()
}

fn capabilities(modes: Vec<wgpu::PresentMode>) -> SurfaceCapabilities {
    SurfaceCapabilities {
        formats: vec![TextureFormat::Bgra8Unorm, TextureFormat::Rgba16Float],
        present_modes: modes,
    }
}

fn fifo() -> SurfaceCapabilities {
    capabilities(vec![wgpu::PresentMode::Fifo])
}

fn chosen(mode: PresentMode, modes: Vec<wgpu::PresentMode>) -> wgpu::PresentMode {
    present_mode(&window(mode), &capabilities(modes))
}

fn extract(
    windows: &mut ExtractedWindows,
    surfaces: &mut WindowSurfaces,
    snapshots: Vec<WindowSnapshot>,
) {
    extract_windows(windows, &vec![], &snapshots, &vec![], surfaces);
}

/// Runs a pass to its end, with every surface numbered after its window.
fn run(windows: &mut ExtractedWindows, surfaces: &mut WindowSurfaces) -> Vec<SurfaceCommand> {
    let mut pass: SurfaceCreation = create_surfaces(windows);
    let mut event = SurfaceEvent::Resume;
    let mut commands = vec![];
    loop {
        let command = pass.step(event, windows, surfaces);
        commands.push(command);
        event = match command {
            SurfaceCommand::Create { handle, .. } => {
                SurfaceEvent::Created { surface: SurfaceId(handle.0), capabilities: fifo() }
            }
            SurfaceCommand::QueryCapabilities { .. } => SurfaceEvent::Capabilities(capabilities(
                vec![wgpu::PresentMode::Fifo, wgpu::PresentMode::FifoRelaxed],
            )),
            SurfaceCommand::Configure { .. } => SurfaceEvent::Configured,
            SurfaceCommand::Ready(_) => SurfaceEvent::Resume,
            SurfaceCommand::Done | SurfaceCommand::Fail { .. } => return commands,
        };
    }
}

fn configuration(width: u32, height: u32, mode: wgpu::PresentMode) -> SurfaceConfiguration {
    SurfaceConfiguration {
        usage: TextureUsages { copy_src: false, copy_dst: true, render_attachment: true },
        format: TextureFormat::Bgra8Unorm,
        width,
        height,
        present_mode: mode,
        desired_maximum_frame_latency: 2,
        alpha_mode: wgpu::CompositeAlphaMode::PreMultiplied,
        view_formats: Some(TextureFormat::Bgra8UnormSrgb),
    }
}

#[test]
fn supported_modes_are_granted() {
    let all = vec![
        wgpu::PresentMode::Fifo,
        wgpu::PresentMode::FifoRelaxed,
        wgpu::PresentMode::Mailbox,
        wgpu::PresentMode::Immediate,
    ];
    assert_eq!(chosen(PresentMode::Fifo, all.clone()), wgpu::PresentMode::Fifo);
    assert_eq!(chosen(PresentMode::FifoRelaxed, all.clone()), wgpu::PresentMode::FifoRelaxed);
    assert_eq!(chosen(PresentMode::Mailbox, all.clone()), wgpu::PresentMode::Mailbox);
    assert_eq!(chosen(PresentMode::Immediate, all.clone()), wgpu::PresentMode::Immediate);
    assert_eq!(chosen(PresentMode::AutoVsync, all.clone()), wgpu::PresentMode::FifoRelaxed);
    assert_eq!(chosen(PresentMode::AutoNoVsync, all), wgpu::PresentMode::Immediate);
}

#[test]
fn unsupported_modes_fall_back() {
    let only_fifo = vec![wgpu::PresentMode::Fifo];
    for mode in [
        PresentMode::Fifo,
        PresentMode::FifoRelaxed,
        PresentMode::Mailbox,
        PresentMode::Immediate,
        PresentMode::AutoVsync,
        PresentMode::AutoNoVsync,
    ] {
        assert_eq!(chosen(mode, only_fifo.clone()), wgpu::PresentMode::Fifo);
    }
    let no_mailbox = vec![wgpu::PresentMode::Fifo, wgpu::PresentMode::Immediate];
    assert_eq!(chosen(PresentMode::Mailbox, no_mailbox), wgpu::PresentMode::Immediate);
    let no_immediate = vec![wgpu::PresentMode::Fifo, wgpu::PresentMode::Mailbox];
    assert_eq!(chosen(PresentMode::AutoNoVsync, no_immediate.clone()), wgpu::PresentMode::Mailbox);
    assert_eq!(chosen(PresentMode::Immediate, no_immediate), wgpu::PresentMode::Fifo);
}

#[test]
fn no_mode_may_do() {
    let none = capabilities(vec![]);
    assert_eq!(supported_present_mode(&window(PresentMode::AutoVsync), &none), None);
    let immediate = capabilities(vec![wgpu::PresentMode::Immediate]);
    assert_eq!(supported_present_mode(&window(PresentMode::Fifo), &immediate), None);
    assert_eq!(
        supported_present_mode(&window(PresentMode::Mailbox), &immediate),
        Some(wgpu::PresentMode::Immediate)
    );
}

#[test]
fn order_of_supported_modes_does_not_matter() {
    for mode in [
        PresentMode::Fifo,
        PresentMode::FifoRelaxed,
        PresentMode::Mailbox,
        PresentMode::Immediate,
        PresentMode::AutoVsync,
        PresentMode::AutoNoVsync,
    ] {
        let listed = chosen(mode, vec![wgpu::PresentMode::Fifo, wgpu::PresentMode::Immediate]);
        let shuffled = chosen(
            mode,
            vec![
                wgpu::PresentMode::Immediate,
                wgpu::PresentMode::Fifo,
                wgpu::PresentMode::Immediate,
            ],
        );
        assert_eq!(listed, shuffled);
    }
}

#[test]
fn configured_windows_need_no_further_pass() {
    let mut windows = ExtractedWindows::default();
    let mut surfaces = WindowSurfaces::default();
    extract(&mut windows, &mut surfaces, vec![snapshot(1, 64, 32)]);
    run(&mut windows, &mut surfaces);
    let shown = vec![snapshot(1, 128, 32), snapshot(2, 8, 8)];
    extract(&mut windows, &mut surfaces, shown.clone());
    assert!(need_surface_configuration(&windows, &surfaces));
    run(&mut windows, &mut surfaces);
    assert!(need_surface_configuration(&windows, &surfaces));
    extract(&mut windows, &mut surfaces, shown);
    assert!(!need_surface_configuration(&windows, &surfaces));
}

#[test]
fn fallback_is_reported_only_for_particular_modes() {
    let fifo_only = fifo();
    for (mode, surface_mode, reported) in [
        (PresentMode::Fifo, wgpu::PresentMode::Fifo, false),
        (PresentMode::FifoRelaxed, wgpu::PresentMode::FifoRelaxed, true),
        (PresentMode::Mailbox, wgpu::PresentMode::Mailbox, true),
        (PresentMode::Immediate, wgpu::PresentMode::Immediate, true),
        (PresentMode::AutoVsync, wgpu::PresentMode::AutoVsync, false),
        (PresentMode::AutoNoVsync, wgpu::PresentMode::AutoNoVsync, false),
    ] {
        assert_eq!(surface_present_mode(mode), surface_mode);
        assert_eq!(reports_fallback(&window(mode), &fifo_only), reported);
    }
    let mailbox = capabilities(vec![wgpu::PresentMode::Fifo, wgpu::PresentMode::Mailbox]);
    assert!(!reports_fallback(&window(PresentMode::Mailbox), &mailbox));
}

#[test]
fn configured_windows_are_those_with_a_surface() {
    let mut windows = ExtractedWindows::default();
    let mut surfaces = WindowSurfaces::default();
    extract(&mut windows, &mut surfaces, vec![snapshot(1, 1, 1), snapshot(2, 2, 2)]);
    run(&mut windows, &mut surfaces);
    extract(&mut windows, &mut surfaces, vec![snapshot(3, 3, 3)]);
    run(&mut windows, &mut surfaces);
    assert_eq!(surfaces.configured_windows.len(), 3);
    extract_windows(&mut windows, &vec![entity(2)], &vec![], &vec![], &mut surfaces);
    surfaces.remove(entity(1));
    for n in 1..4 {
        assert_eq!(surfaces.surfaces.contains_key(&entity(n)), n == 3);
        assert_eq!(surfaces.configured_windows.contains(&entity(n)), n == 3);
    }
}

#[test]
fn modes_are_told_apart() {
    let window_modes = [
        PresentMode::AutoVsync,
        PresentMode::AutoNoVsync,
        PresentMode::Fifo,
        PresentMode::FifoRelaxed,
        PresentMode::Immediate,
        PresentMode::Mailbox,
    ];
    let surface_modes = [
        wgpu::PresentMode::AutoVsync,
        wgpu::PresentMode::AutoNoVsync,
        wgpu::PresentMode::Fifo,
        wgpu::PresentMode::FifoRelaxed,
        wgpu::PresentMode::Immediate,
        wgpu::PresentMode::Mailbox,
    ];
    for i in 0..6 {
        for j in 0..6 {
            assert_eq!(same_window_present_mode(window_modes[i], window_modes[j]), i == j);
            assert_eq!(same_present_mode(surface_modes[i], surface_modes[j]), i == j);
        }
    }
}

#[test]
fn srgb_format_is_preferred() {
    assert_eq!(
        surface_format(&vec![
            TextureFormat::Bgra8Unorm,
            TextureFormat::Rgba8UnormSrgb,
            TextureFormat::Bgra8UnormSrgb,
        ]),
        TextureFormat::Rgba8UnormSrgb
    );
    assert_eq!(
        surface_format(&vec![TextureFormat::Rgba16Float, TextureFormat::Bgra8Unorm]),
        TextureFormat::Rgba16Float
    );
    assert_eq!(
        surface_format(&vec![TextureFormat::Bc7RgbaUnormSrgb, TextureFormat::Bgra8UnormSrgb]),
        TextureFormat::Bgra8UnormSrgb
    );
}

#[test]
fn plain_surface_is_viewed_in_srgb() {
    let data = new_surface_data(&window(PresentMode::AutoVsync), SurfaceId(4), &fifo());
    assert_eq!(data.surface, SurfaceId(4));
    assert_eq!(data.texture_view_format, Some(TextureFormat::Bgra8UnormSrgb));
    assert_eq!(data.configuration, configuration(64, 32, wgpu::PresentMode::Fifo));
}

#[test]
fn srgb_surface_needs_no_other_view() {
    for format in [
        TextureFormat::Rgba8UnormSrgb,
        TextureFormat::Bgra8UnormSrgb,
        TextureFormat::Bc1RgbaUnormSrgb,
        TextureFormat::Bc2RgbaUnormSrgb,
        TextureFormat::Bc3RgbaUnormSrgb,
        TextureFormat::Bc7RgbaUnormSrgb,
        TextureFormat::Etc2Rgb8UnormSrgb,
        TextureFormat::Etc2Rgb8A1UnormSrgb,
        TextureFormat::Etc2Rgba8UnormSrgb,
        TextureFormat::Astc {
            block: wgpu::AstcBlock::B5x4,
            channel: wgpu::AstcChannel::UnormSrgb,
        },
    ] {
        let caps = SurfaceCapabilities {
            formats: vec![format],
            present_modes: vec![wgpu::PresentMode::Fifo],
        };
        let data = new_surface_data(&window(PresentMode::Fifo), SurfaceId(4), &caps);
        assert_eq!(data.configuration.format, format);
        assert_eq!(data.configuration.view_formats, None);
        assert_eq!(data.texture_view_format, None);
    }
    let caps = SurfaceCapabilities {
        formats: vec![TextureFormat::Rgba16Float],
        present_modes: vec![wgpu::PresentMode::Fifo],
    };
    let data = new_surface_data(&window(PresentMode::Fifo), SurfaceId(4), &caps);
    assert_eq!(data.configuration.view_formats, Some(TextureFormat::Rgba16Float));
}

#[test]
fn latency_and_alpha_mode_follow_the_window() {
    assert_eq!(DEFAULT_DESIRED_MAXIMUM_FRAME_LATENCY, 2);
    let mut shown = window(PresentMode::Fifo);
    shown.desired_maximum_frame_latency = Some(1);
    for (mode, surface_mode) in [
        (CompositeAlphaMode::Auto, wgpu::CompositeAlphaMode::Auto),
        (CompositeAlphaMode::Opaque, wgpu::CompositeAlphaMode::Opaque),
        (CompositeAlphaMode::PreMultiplied, wgpu::CompositeAlphaMode::PreMultiplied),
        (CompositeAlphaMode::PostMultiplied, wgpu::CompositeAlphaMode::PostMultiplied),
        (CompositeAlphaMode::Inherit, wgpu::CompositeAlphaMode::Inherit),
    ] {
        shown.alpha_mode = mode;
        let data = new_surface_data(&shown, SurfaceId(4), &fifo());
        assert_eq!(data.configuration.alpha_mode, surface_mode);
        assert_eq!(data.configuration.desired_maximum_frame_latency, 1);
    }
}

#[test]
fn pass_over_no_windows_is_over() {
    let mut windows = ExtractedWindows::default();
    let mut surfaces = WindowSurfaces::default();
    assert_eq!(run(&mut windows, &mut surfaces), vec![SurfaceCommand::Done]);
}

#[test]
fn new_window_gets_a_surface() {
    let mut windows = ExtractedWindows::default();
    let mut surfaces = WindowSurfaces::default();
    extract(&mut windows, &mut surfaces, vec![snapshot(1, 64, 32)]);
    assert!(need_surface_configuration(&windows, &surfaces));
    assert_eq!(
        run(&mut windows, &mut surfaces),
        vec![
            SurfaceCommand::Create { window: entity(1), handle: RawHandleId(101) },
            SurfaceCommand::Configure {
                window: entity(1),
                surface: SurfaceId(101),
                configuration: configuration(64, 32, wgpu::PresentMode::Fifo),
            },
            SurfaceCommand::Ready(entity(1)),
            SurfaceCommand::Done,
        ]
    );
    assert!(surfaces.configured_windows.contains(&entity(1)));
    assert_eq!(surfaces.surfaces.get(&entity(1)).unwrap().surface, SurfaceId(101));
    assert!(!need_surface_configuration(&windows, &surfaces));
    assert_eq!(
        run(&mut windows, &mut surfaces),
        vec![SurfaceCommand::Ready(entity(1)), SurfaceCommand::Done]
    );
}

#[test]
fn changed_window_is_configured_anew() {
    let mut windows = ExtractedWindows::default();
    let mut surfaces = WindowSurfaces::default();
    extract(&mut windows, &mut surfaces, vec![snapshot(1, 64, 32)]);
    run(&mut windows, &mut surfaces);
    let frame = SurfaceTexture { texture: TextureId(5), format: TextureFormat::Bgra8Unorm };
    windows.windows.get_mut(&entity(1)).unwrap().set_swapchain_texture(frame);
    extract(&mut windows, &mut surfaces, vec![snapshot(1, 128, 32)]);
    assert!(windows.get(&entity(1)).unwrap().has_swapchain_texture());
    assert_eq!(
        run(&mut windows, &mut surfaces),
        vec![
            SurfaceCommand::QueryCapabilities { window: entity(1), surface: SurfaceId(101) },
            SurfaceCommand::Configure {
                window: entity(1),
                surface: SurfaceId(101),
                configuration: configuration(128, 32, wgpu::PresentMode::FifoRelaxed),
            },
            SurfaceCommand::Ready(entity(1)),
            SurfaceCommand::Done,
        ]
    );
    let window = windows.get(&entity(1)).unwrap();
    assert!(window.swap_chain_texture.is_none());
    assert!(window.swap_chain_texture_view.is_none());
    let data = surfaces.surfaces.get(&entity(1)).unwrap();
    assert_eq!(data.configuration, configuration(128, 32, wgpu::PresentMode::FifoRelaxed));
}

#[test]
fn changed_window_without_surface_is_configured_twice() {
    let mut windows = ExtractedWindows::default();
    let mut surfaces = WindowSurfaces::default();
    extract(&mut windows, &mut surfaces, vec![snapshot(1, 64, 32)]);
    extract(&mut windows, &mut surfaces, vec![snapshot(1, 64, 33)]);
    let commands = run(&mut windows, &mut surfaces);
    assert_eq!(commands.len(), 6);
    assert!(matches!(commands[0], SurfaceCommand::Create { .. }));
    assert_eq!(
        commands[1],
        SurfaceCommand::Configure {
            window: entity(1),
            surface: SurfaceId(101),
            configuration: configuration(64, 33, wgpu::PresentMode::Fifo),
        }
    );
    assert!(matches!(commands[2], SurfaceCommand::QueryCapabilities { .. }));
    assert_eq!(
        commands[3],
        SurfaceCommand::Configure {
            window: entity(1),
            surface: SurfaceId(101),
            configuration: configuration(64, 33, wgpu::PresentMode::FifoRelaxed),
        }
    );
    assert_eq!(commands[4], SurfaceCommand::Ready(entity(1)));
    assert_eq!(commands[5], SurfaceCommand::Done);
}

#[test]
fn all_windows_are_dealt_with_once() {
    let mut windows = ExtractedWindows::default();
    let mut surfaces = WindowSurfaces::default();
    extract(
        &mut windows,
        &mut surfaces,
        vec![snapshot(1, 1, 1), snapshot(2, 2, 2), snapshot(3, 3, 3)],
    );
    let commands = run(&mut windows, &mut surfaces);
    assert_eq!(commands.len(), 10);
    for n in 1..4 {
        let ready = commands.iter().filter(|c| **c == SurfaceCommand::Ready(entity(n))).count();
        assert_eq!(ready, 1);
        let data = surfaces.surfaces.get(&entity(n)).unwrap();
        assert_eq!(data.surface, SurfaceId(100 + n as u64));
        assert_eq!((data.configuration.width, data.configuration.height), (n, n));
        assert!(surfaces.configured_windows.contains(&entity(n)));
    }
}

#[test]
fn surface_without_formats_fails() {
    let mut windows = ExtractedWindows::default();
    let mut surfaces = WindowSurfaces::default();
    extract(&mut windows, &mut surfaces, vec![snapshot(1, 64, 32)]);
    let mut pass = create_surfaces(&windows);
    pass.step(SurfaceEvent::Resume, &mut windows, &mut surfaces);
    assert_eq!(pass.stage, SurfaceStage::AwaitSurface(entity(1)));
    let unfit = SurfaceCapabilities {
        formats: vec![],
        present_modes: vec![wgpu::PresentMode::Fifo],
    };
    let event = SurfaceEvent::Created { surface: SurfaceId(1), capabilities: unfit };
    assert_eq!(
        pass.step(event, &mut windows, &mut surfaces),
        SurfaceCommand::Fail { window: entity(1), failure: SurfaceFailure::NoFormat }
    );
    assert_eq!(pass.stage, SurfaceStage::Failed);
    assert!(surfaces.surfaces.is_empty());
    assert!(surfaces.configured_windows.is_empty());
}

#[test]
fn surface_without_present_modes_fails() {
    let mut windows = ExtractedWindows::default();
    let mut surfaces = WindowSurfaces::default();
    extract(&mut windows, &mut surfaces, vec![snapshot(1, 64, 32)]);
    let mut pass = create_surfaces(&windows);
    pass.step(SurfaceEvent::Resume, &mut windows, &mut surfaces);
    let unfit = SurfaceCapabilities { formats: vec![], present_modes: vec![] };
    let event = SurfaceEvent::Created { surface: SurfaceId(1), capabilities: unfit };
    let failure = SurfaceCommand::Fail {
        window: entity(1),
        failure: SurfaceFailure::NoPresentMode,
    };
    assert_eq!(pass.step(event, &mut windows, &mut surfaces), failure);

    run(&mut windows, &mut surfaces);
    extract(&mut windows, &mut surfaces, vec![snapshot(1, 65, 32)]);
    let mut pass = create_surfaces(&windows);
    pass.step(SurfaceEvent::Resume, &mut windows, &mut surfaces);
    let event = SurfaceEvent::Capabilities(capabilities(vec![wgpu::PresentMode::Immediate]));
    assert_eq!(pass.step(event, &mut windows, &mut surfaces), failure);
}
