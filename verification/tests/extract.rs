use bevy_ecs::entity::Entity;
use bevy_window::{CompositeAlphaMode, PresentMode};
use wgpu::TextureFormat;
use window_render::extract::{extract_windows, WindowSnapshot};
use window_render::surface::{
    need_surface_configuration, SurfaceConfiguration, SurfaceData, SurfaceId, TextureUsages,
    WindowSurfaces,
};
use window_render::window::{ExtractedWindows, RawHandleId, SurfaceTexture, TextureId, TextureView};

fn entity(n: u32) -> Entity {
    Entity::from_raw_u32(n).unwrap()
}

fn snapshot(n: u32, width: u32, height: u32) -> WindowSnapshot {
    WindowSnapshot {
        entity: entity(n),
        handle: RawHandleId(100 + n as u64),
        physical_width: width,
        physical_height: height,
        present_mode: PresentMode::Fifo,
        desired_maximum_frame_latency: None,
        composite_alpha_mode: CompositeAlphaMode::Auto,
        primary: false,
    }
}

fn surface_data(width: u32, height: u32) -> SurfaceData {
    SurfaceData {
        surface: SurfaceId(7),
        configuration: SurfaceConfiguration {
            usage: TextureUsages { copy_src: false, copy_dst: true, render_attachment: true },
            format: TextureFormat::Bgra8UnormSrgb,
            width,
            height,
            present_mode: wgpu::PresentMode::Fifo,
            desired_maximum_frame_latency: 2,
            alpha_mode: wgpu::CompositeAlphaMode::Auto,
            view_formats: None,
        },
        texture_view_format: None,
    }
}

fn extract(windows: &mut ExtractedWindows, snapshots: Vec<WindowSnapshot>) {
    let mut surfaces = WindowSurfaces::default();
    extract_windows(windows, &vec![], &snapshots, &vec![], &mut surfaces);
}

fn frame(id: u64) -> SurfaceTexture {
    SurfaceTexture { texture: TextureId(id), format: TextureFormat::Bgra8Unorm }
}

#[test]
fn nothing_is_known_at_first() {
    let windows = ExtractedWindows::default();
    assert!(windows.primary.is_none());
    assert!(windows.windows.is_empty());
    let surfaces = WindowSurfaces::default();
    assert!(surfaces.surfaces.is_empty());
    assert!(surfaces.configured_windows.is_empty());
}

#[test]
fn new_window_is_taken_over() {
    let mut windows = ExtractedWindows::default();
    let mut shown = snapshot(1, 800, 600);
    shown.present_mode = PresentMode::Mailbox;
    shown.desired_maximum_frame_latency = Some(3);
    shown.composite_alpha_mode = CompositeAlphaMode::Opaque;
    extract(&mut windows, vec![shown]);
    assert_eq!(windows.windows.len(), 1);
    let window = windows.get(&entity(1)).unwrap();
    assert_eq!(window.entity, entity(1));
    assert_eq!(window.handle, RawHandleId(101));
    assert_eq!((window.physical_width, window.physical_height), (800, 600));
    assert_eq!(window.present_mode, PresentMode::Mailbox);
    assert_eq!(window.desired_maximum_frame_latency, Some(3));
    assert_eq!(window.alpha_mode, CompositeAlphaMode::Opaque);
    assert!(window.swap_chain_texture.is_none());
    assert!(window.swap_chain_texture_view.is_none());
    assert!(window.swap_chain_texture_format.is_none());
    assert!(window.swap_chain_texture_view_format.is_none());
    assert!(!window.size_changed);
    assert!(!window.present_mode_changed);
    assert!(window.needs_initial_present);
}

#[test]
fn empty_window_is_one_pixel() {
    let mut windows = ExtractedWindows::default();
    extract(&mut windows, vec![snapshot(1, 0, 0), snapshot(2, 0, 5)]);
    let one = windows.get(&entity(1)).unwrap();
    assert_eq!((one.physical_width, one.physical_height), (1, 1));
    let two = windows.get(&entity(2)).unwrap();
    assert_eq!((two.physical_width, two.physical_height), (1, 5));
}

#[test]
fn change_of_size_is_noticed_once() {
    let mut windows = ExtractedWindows::default();
    extract(&mut windows, vec![snapshot(1, 800, 600), snapshot(2, 30, 40)]);
    extract(&mut windows, vec![snapshot(1, 800, 601), snapshot(2, 30, 40)]);
    let one = *windows.get(&entity(1)).unwrap();
    assert!(one.size_changed);
    assert!(!one.present_mode_changed);
    assert_eq!((one.physical_width, one.physical_height), (800, 601));
    assert!(!windows.get(&entity(2)).unwrap().size_changed);
    extract(&mut windows, vec![snapshot(1, 800, 601), snapshot(2, 30, 40)]);
    assert!(!windows.get(&entity(1)).unwrap().size_changed);
}

#[test]
fn second_extraction_only_lowers_flags() {
    let mut windows = ExtractedWindows::default();
    let mut first = snapshot(1, 8, 8);
    first.primary = true;
    extract(&mut windows, vec![first, snapshot(2, 9, 9)]);
    windows.windows.get_mut(&entity(1)).unwrap().set_swapchain_texture(frame(5));
    first.physical_width = 80;
    first.present_mode = PresentMode::Mailbox;
    extract(&mut windows, vec![first]);
    let mut once = *windows.get(&entity(1)).unwrap();
    let other = *windows.get(&entity(2)).unwrap();
    assert!(once.size_changed && once.present_mode_changed);
    extract(&mut windows, vec![first]);
    once.size_changed = false;
    once.present_mode_changed = false;
    assert_eq!(*windows.get(&entity(1)).unwrap(), once);
    assert_eq!(*windows.get(&entity(2)).unwrap(), other);
    assert_eq!(windows.windows.len(), 2);
    assert_eq!(windows.primary, Some(entity(1)));
}

#[test]
fn change_of_present_mode_is_noticed_once() {
    let mut windows = ExtractedWindows::default();
    extract(&mut windows, vec![snapshot(1, 8, 8)]);
    let mut shown = snapshot(1, 8, 8);
    shown.present_mode = PresentMode::AutoNoVsync;
    extract(&mut windows, vec![shown]);
    let window = *windows.get(&entity(1)).unwrap();
    assert!(window.present_mode_changed);
    assert!(!window.size_changed);
    assert_eq!(window.present_mode, PresentMode::AutoNoVsync);
    extract(&mut windows, vec![shown]);
    assert!(!windows.get(&entity(1)).unwrap().present_mode_changed);
}

#[test]
fn handle_latency_and_alpha_mode_stay() {
    let mut windows = ExtractedWindows::default();
    extract(&mut windows, vec![snapshot(1, 8, 8)]);
    let mut shown = snapshot(1, 8, 8);
    shown.handle = RawHandleId(9);
    shown.desired_maximum_frame_latency = Some(1);
    shown.composite_alpha_mode = CompositeAlphaMode::Inherit;
    extract(&mut windows, vec![shown]);
    let window = windows.get(&entity(1)).unwrap();
    assert_eq!(window.handle, RawHandleId(101));
    assert_eq!(window.desired_maximum_frame_latency, None);
    assert_eq!(window.alpha_mode, CompositeAlphaMode::Auto);
}

#[test]
fn last_primary_window_counts() {
    let mut windows = ExtractedWindows::default();
    let mut first = snapshot(1, 8, 8);
    first.primary = true;
    let mut second = snapshot(2, 8, 8);
    second.primary = true;
    extract(&mut windows, vec![first, second, snapshot(3, 8, 8)]);
    assert_eq!(windows.primary, Some(entity(2)));
    extract(&mut windows, vec![snapshot(3, 8, 8)]);
    assert_eq!(windows.primary, Some(entity(2)));
}

#[test]
fn unshown_window_keeps_its_entry() {
    let mut windows = ExtractedWindows::default();
    extract(&mut windows, vec![snapshot(1, 8, 8), snapshot(2, 9, 9)]);
    let before = *windows.get(&entity(1)).unwrap();
    extract(&mut windows, vec![snapshot(2, 10, 10)]);
    assert_eq!(windows.get(&entity(1)).unwrap(), &before);
}

#[test]
fn presented_frame_takes_its_view_along() {
    let mut windows = ExtractedWindows::default();
    extract(&mut windows, vec![snapshot(1, 8, 8)]);
    let window = windows.windows.get_mut(&entity(1)).unwrap();
    window.set_swapchain_texture(frame(5));
    assert!(window.has_swapchain_texture());
    assert_eq!(window.present(), Some(frame(5)));
    assert!(!window.has_swapchain_texture());
    assert!(window.swap_chain_texture_view.is_some());
    assert_eq!(window.present(), None);
    extract(&mut windows, vec![snapshot(1, 8, 8)]);
    assert!(windows.get(&entity(1)).unwrap().swap_chain_texture_view.is_none());
}

#[test]
fn unpresented_frame_is_kept() {
    let mut windows = ExtractedWindows::default();
    extract(&mut windows, vec![snapshot(1, 8, 8)]);
    windows.windows.get_mut(&entity(1)).unwrap().set_swapchain_texture(frame(5));
    extract(&mut windows, vec![snapshot(1, 9, 8)]);
    let window = windows.get(&entity(1)).unwrap();
    assert!(window.has_swapchain_texture());
    assert_eq!(window.swap_chain_texture, Some(frame(5)));
    assert!(window.size_changed);
}

#[test]
fn dropped_frame_is_not_presented() {
    let mut windows = ExtractedWindows::default();
    extract(&mut windows, vec![snapshot(1, 8, 8)]);
    let window = windows.windows.get_mut(&entity(1)).unwrap();
    window.set_swapchain_texture(frame(5));
    window.drop_swapchain_texture();
    assert!(window.swap_chain_texture_view.is_none());
    assert_eq!(window.present(), None);
}

#[test]
fn frame_is_viewed_in_srgb() {
    let twins = vec![
        (TextureFormat::Rgba8Unorm, TextureFormat::Rgba8UnormSrgb),
        (TextureFormat::Bgra8Unorm, TextureFormat::Bgra8UnormSrgb),
        (TextureFormat::Bc1RgbaUnorm, TextureFormat::Bc1RgbaUnormSrgb),
        (TextureFormat::Bc2RgbaUnorm, TextureFormat::Bc2RgbaUnormSrgb),
        (TextureFormat::Bc3RgbaUnorm, TextureFormat::Bc3RgbaUnormSrgb),
        (TextureFormat::Bc7RgbaUnorm, TextureFormat::Bc7RgbaUnormSrgb),
        (TextureFormat::Etc2Rgb8Unorm, TextureFormat::Etc2Rgb8UnormSrgb),
        (TextureFormat::Etc2Rgb8A1Unorm, TextureFormat::Etc2Rgb8A1UnormSrgb),
        (TextureFormat::Etc2Rgba8Unorm, TextureFormat::Etc2Rgba8UnormSrgb),
        (
            TextureFormat::Astc {
                block: wgpu::AstcBlock::B4x4,
                channel: wgpu::AstcChannel::Unorm,
            },
            TextureFormat::Astc {
                block: wgpu::AstcBlock::B4x4,
                channel: wgpu::AstcChannel::UnormSrgb,
            },
        ),
        (TextureFormat::Bgra8UnormSrgb, TextureFormat::Bgra8UnormSrgb),
        (TextureFormat::Rgba16Float, TextureFormat::Rgba16Float),
        (
            TextureFormat::Astc {
                block: wgpu::AstcBlock::B4x4,
                channel: wgpu::AstcChannel::Hdr,
            },
            TextureFormat::Astc {
                block: wgpu::AstcBlock::B4x4,
                channel: wgpu::AstcChannel::Hdr,
            },
        ),
    ];
    let mut windows = ExtractedWindows::default();
    extract(&mut windows, vec![snapshot(1, 8, 8)]);
    let window = windows.windows.get_mut(&entity(1)).unwrap();
    for (format, twin) in twins {
        window.set_swapchain_texture(SurfaceTexture { texture: TextureId(3), format });
        assert_eq!(window.swap_chain_texture_view_format, Some(twin));
        assert_eq!(
            window.swap_chain_texture_view,
            Some(TextureView { texture: TextureId(3), format: Some(twin) })
        );
        assert_eq!(
            window.swap_chain_texture,
            Some(SurfaceTexture { texture: TextureId(3), format })
        );
    }
}

#[test]
fn closing_and_removed_windows_are_forgotten() {
    let mut windows = ExtractedWindows::default();
    let mut surfaces = WindowSurfaces::default();
    let shown = vec![snapshot(1, 8, 8), snapshot(2, 8, 8), snapshot(3, 8, 8)];
    extract_windows(&mut windows, &vec![], &shown, &vec![], &mut surfaces);
    for n in 1..4 {
        surfaces.surfaces.insert(entity(n), surface_data(8, 8));
        surfaces.configured_windows.insert(entity(n));
    }
    extract_windows(&mut windows, &vec![entity(1)], &shown, &vec![entity(3)], &mut surfaces);
    for n in 1..4 {
        assert_eq!(windows.contains_key(&entity(n)), n == 2);
        assert_eq!(surfaces.surfaces.contains_key(&entity(n)), n == 2);
        assert_eq!(surfaces.configured_windows.contains(&entity(n)), n == 2);
    }
    surfaces.remove(entity(2));
    assert!(surfaces.surfaces.is_empty());
    assert!(surfaces.configured_windows.is_empty());
}

#[test]
fn configuration_is_needed_for_new_and_changed_windows() {
    let mut windows = ExtractedWindows::default();
    let mut surfaces = WindowSurfaces::default();
    assert!(!need_surface_configuration(&windows, &surfaces));
    extract(&mut windows, vec![snapshot(1, 8, 8), snapshot(2, 8, 8)]);
    assert!(need_surface_configuration(&windows, &surfaces));
    surfaces.configured_windows.insert(entity(1));
    assert!(need_surface_configuration(&windows, &surfaces));
    surfaces.configured_windows.insert(entity(2));
    assert!(!need_surface_configuration(&windows, &surfaces));
    extract(&mut windows, vec![snapshot(1, 8, 8), snapshot(2, 8, 9)]);
    assert!(need_surface_configuration(&windows, &surfaces));
    extract(&mut windows, vec![snapshot(1, 8, 8), snapshot(2, 8, 9)]);
    assert!(!need_surface_configuration(&windows, &surfaces));
    let mut shown = snapshot(1, 8, 8);
    shown.present_mode = PresentMode::Immediate;
    extract(&mut windows, vec![shown]);
    assert!(need_surface_configuration(&windows, &surfaces));
}
