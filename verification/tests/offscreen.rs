use bevy_ecs::entity::Entity;
use bevy_window::{CompositeAlphaMode, PresentMode};
use wgpu::{SurfaceError, TextureDimension, TextureFormat};
use window_render::blit::{
    blit_offscreen_to_window, BlitCommand, BlitEvent, BlitTarget, MetalBlit, MetalBlitCommand,
    MetalBlitEvent, MetalBlitStage, MetalSize, OffscreenBlit,
};
use window_render::extract::{extract_windows, WindowSnapshot};
use window_render::metal_layer::{init_metal_presenter, LayerCommand, LayerEvent, LayerStage};
use window_render::offscreen::{
    signal_offscreen_shutdown, LayerId, ManualTextureView, MetalPresentState, OffscreenBlitState,
    OffscreenPresentConfig, OffscreenShutdownFlag, WindowRenderPlugin,
};
use window_render::surface::{
    SurfaceConfiguration, SurfaceData, SurfaceId, TextureUsages, WindowSurfaces,
};
use window_render::window::{ExtractedWindows, RawHandleId, SurfaceTexture, TextureId};

fn entity(n: u32) -> Entity {
    Entity::from_raw_u32(n).unwrap()
}

fn configuration() -> SurfaceConfiguration {
    SurfaceConfiguration {
        usage: TextureUsages { copy_src: false, copy_dst: true, render_attachment: true },
        format: TextureFormat::Bgra8UnormSrgb,
        width: 64,
        height: 32,
        present_mode: wgpu::PresentMode::Fifo,
        desired_maximum_frame_latency: 2,
        alpha_mode: wgpu::CompositeAlphaMode::Auto,
        view_formats: None,
    }
}

/// One window with a surface.
fn setting() -> (ExtractedWindows, WindowSurfaces) {
    let mut windows = ExtractedWindows::default();
    let mut surfaces = WindowSurfaces::default();
    let shown = WindowSnapshot {
        entity: entity(1),
        handle: RawHandleId(101),
        physical_width: 64,
        physical_height: 32,
        present_mode: PresentMode::Fifo,
        desired_maximum_frame_latency: None,
        composite_alpha_mode: CompositeAlphaMode::Auto,
        primary: true,
    };
    extract_windows(&mut windows, &vec![], &vec![shown], &vec![], &mut surfaces);
    surfaces.surfaces.insert(
        entity(1),
        SurfaceData {
            surface: SurfaceId(7),
            configuration: configuration(),
            texture_view_format: None,
        },
    );
    (windows, surfaces)
}

fn state(layer: Option<u64>) -> OffscreenBlitState {
    OffscreenBlitState {
        source_texture: TextureId(3),
        source_width: 100,
        source_height: 20,
        metal_state: layer.map(|id| MetalPresentState { layer: LayerId(id) }),
    }
}

fn begin(windows: &ExtractedWindows) -> OffscreenBlit {
    blit_offscreen_to_window(Some(state(None)), windows).unwrap()
}

fn target() -> BlitTarget {
    BlitTarget { texture: TextureId(8), width: 64, height: 32 }
}

fn copy() -> BlitCommand {
    BlitCommand::CopyAndPresent {
        window: entity(1),
        source: TextureId(3),
        target: TextureId(8),
        width: 64,
        height: 20,
    }
}

fn acquire() -> BlitCommand {
    BlitCommand::Acquire { window: entity(1), surface: SurfaceId(7) }
}

#[test]
fn without_offscreen_blit_nothing_is_copied() {
    let (windows, _) = setting();
    assert!(blit_offscreen_to_window(None, &windows).is_none());
}

#[test]
fn texture_is_copied_as_far_as_both_reach() {
    let (windows, surfaces) = setting();
    let mut pass = begin(&windows);
    assert_eq!(pass.step(BlitEvent::Resume, &windows, &surfaces), acquire());
    assert_eq!(pass.step(BlitEvent::Frame(Ok(target())), &windows, &surfaces), copy());
    assert_eq!(pass.step(BlitEvent::Resume, &windows, &surfaces), BlitCommand::Done);
}

#[test]
fn outdated_surface_is_configured_before_the_copy() {
    let (windows, surfaces) = setting();
    let mut pass = begin(&windows);
    pass.step(BlitEvent::Resume, &windows, &surfaces);
    let event = BlitEvent::Frame(Err(SurfaceError::Outdated));
    assert_eq!(
        pass.step(event, &windows, &surfaces),
        BlitCommand::Configure {
            window: entity(1),
            surface: SurfaceId(7),
            configuration: configuration(),
        }
    );
    assert_eq!(pass.step(BlitEvent::Configured, &windows, &surfaces), acquire());
    assert_eq!(pass.step(BlitEvent::Frame(Ok(target())), &windows, &surfaces), copy());
}

#[test]
fn failures_skip_the_window() {
    for error in [
        SurfaceError::Timeout,
        SurfaceError::Lost,
        SurfaceError::OutOfMemory,
        SurfaceError::Other,
    ] {
        let (windows, surfaces) = setting();
        let mut pass = begin(&windows);
        pass.step(BlitEvent::Resume, &windows, &surfaces);
        let event = BlitEvent::Frame(Err(error));
        assert_eq!(pass.step(event, &windows, &surfaces), BlitCommand::Skip(entity(1)));
    }
    let (windows, surfaces) = setting();
    let mut pass = begin(&windows);
    pass.step(BlitEvent::Resume, &windows, &surfaces);
    pass.step(BlitEvent::Frame(Err(SurfaceError::Outdated)), &windows, &surfaces);
    pass.step(BlitEvent::Configured, &windows, &surfaces);
    let event = BlitEvent::Frame(Err(SurfaceError::Outdated));
    assert_eq!(pass.step(event, &windows, &surfaces), BlitCommand::Skip(entity(1)));
    assert_eq!(pass.step(BlitEvent::Resume, &windows, &surfaces), BlitCommand::Done);
}

#[test]
fn rendered_window_is_not_copied_to() {
    let (mut windows, surfaces) = setting();
    let frame = SurfaceTexture { texture: TextureId(5), format: TextureFormat::Bgra8UnormSrgb };
    windows.windows.get_mut(&entity(1)).unwrap().set_swapchain_texture(frame);
    let mut pass = begin(&windows);
    assert_eq!(
        pass.step(BlitEvent::Resume, &windows, &surfaces),
        BlitCommand::Skip(entity(1))
    );
}

#[test]
fn window_without_surface_is_not_copied_to() {
    let (windows, _) = setting();
    let surfaces = WindowSurfaces::default();
    let mut pass = begin(&windows);
    assert_eq!(
        pass.step(BlitEvent::Resume, &windows, &surfaces),
        BlitCommand::Skip(entity(1))
    );
}

#[test]
fn metal_copy_is_bounded_by_both_textures() {
    let mut copy = MetalBlit::new(Some(state(Some(9))));
    assert_eq!(copy.step(MetalBlitEvent::Begin), MetalBlitCommand::ReadShutdownFlag);
    assert_eq!(
        copy.step(MetalBlitEvent::ShutdownFlag(false)),
        MetalBlitCommand::ReadShutdownFlag
    );
    assert_eq!(
        copy.step(MetalBlitEvent::ShutdownFlag(false)),
        MetalBlitCommand::NextDrawable(LayerId(9))
    );
    let drawable = MetalBlitEvent::Drawable {
        target: Some(MetalSize { width: 50, height: 70 }),
        source: MetalSize { width: 60, height: 40 },
    };
    assert_eq!(
        copy.step(drawable),
        MetalBlitCommand::CopyAndPresent { width: 50, height: 40 }
    );
    assert_eq!(copy.stage, MetalBlitStage::Finished);
}

#[test]
fn metal_copy_stops_early() {
    let done = MetalBlitCommand::Done;
    let mut copy = MetalBlit::new(None);
    assert_eq!(copy.step(MetalBlitEvent::Begin), done);

    let mut copy = MetalBlit::new(Some(state(Some(9))));
    copy.step(MetalBlitEvent::Begin);
    assert_eq!(copy.step(MetalBlitEvent::ShutdownFlag(true)), done);

    let mut copy = MetalBlit::new(Some(state(None)));
    copy.step(MetalBlitEvent::Begin);
    assert_eq!(copy.step(MetalBlitEvent::ShutdownFlag(false)), done);

    let mut copy = MetalBlit::new(Some(state(Some(9))));
    copy.step(MetalBlitEvent::Begin);
    copy.step(MetalBlitEvent::ShutdownFlag(false));
    assert_eq!(copy.step(MetalBlitEvent::ShutdownFlag(true)), done);

    let mut copy = MetalBlit::new(Some(state(Some(9))));
    copy.step(MetalBlitEvent::Begin);
    copy.step(MetalBlitEvent::ShutdownFlag(false));
    copy.step(MetalBlitEvent::ShutdownFlag(false));
    let event = MetalBlitEvent::Drawable {
        target: None,
        source: MetalSize { width: 1, height: 1 },
    };
    assert_eq!(copy.step(event), done);
}

#[test]
fn metal_root_layer_is_installed() {
    let (windows, _) = setting();
    let mut blit = Some(state(None));
    let mut search = init_metal_presenter(&windows);
    assert_eq!(
        search.step(LayerEvent::Begin, &mut blit),
        LayerCommand::FindRootLayer { window: entity(1), handle: RawHandleId(101) }
    );
    let root = LayerEvent::RootLayer { is_app_kit: true, layer: Some(LayerId(40)) };
    assert_eq!(search.step(root, &mut blit), LayerCommand::AskIsMetal(LayerId(40)));
    assert_eq!(
        search.step(LayerEvent::IsMetal(true), &mut blit),
        LayerCommand::Install { layer: LayerId(40), maximum_drawable_count: 3 }
    );
    assert_eq!(blit, Some(state(None)));
    assert_eq!(search.step(LayerEvent::Installed, &mut blit), LayerCommand::Done);
    assert_eq!(blit, Some(state(Some(40))));

    let mut search = init_metal_presenter(&windows);
    assert_eq!(search.step(LayerEvent::Begin, &mut blit), LayerCommand::Done);
}

#[test]
fn first_metal_sublayer_is_installed() {
    let (windows, _) = setting();
    let mut blit = Some(state(None));
    let mut search = init_metal_presenter(&windows);
    search.step(LayerEvent::Begin, &mut blit);
    let root = LayerEvent::RootLayer { is_app_kit: true, layer: Some(LayerId(40)) };
    search.step(root, &mut blit);
    assert_eq!(
        search.step(LayerEvent::IsMetal(false), &mut blit),
        LayerCommand::CountSublayers(LayerId(40))
    );
    assert_eq!(
        search.step(LayerEvent::SublayerCount(Some(3)), &mut blit),
        LayerCommand::GetSublayer { parent: LayerId(40), index: 0 }
    );
    assert_eq!(
        search.step(LayerEvent::Sublayer(LayerId(41)), &mut blit),
        LayerCommand::AskIsMetal(LayerId(41))
    );
    assert_eq!(
        search.step(LayerEvent::IsMetal(false), &mut blit),
        LayerCommand::GetSublayer { parent: LayerId(40), index: 1 }
    );
    search.step(LayerEvent::Sublayer(LayerId(42)), &mut blit);
    assert_eq!(
        search.step(LayerEvent::IsMetal(true), &mut blit),
        LayerCommand::Install { layer: LayerId(42), maximum_drawable_count: 3 }
    );
}

#[test]
fn search_may_find_nothing() {
    let (windows, _) = setting();
    let done = LayerCommand::Done;
    let mut none = None;
    assert_eq!(init_metal_presenter(&windows).step(LayerEvent::Begin, &mut none), done);

    let mut blit = Some(state(None));
    let no_windows = ExtractedWindows::default();
    assert_eq!(init_metal_presenter(&no_windows).step(LayerEvent::Begin, &mut blit), done);

    for root in [
        LayerEvent::RootLayer { is_app_kit: false, layer: None },
        LayerEvent::RootLayer { is_app_kit: true, layer: None },
    ] {
        let mut search = init_metal_presenter(&windows);
        search.step(LayerEvent::Begin, &mut blit);
        assert_eq!(search.step(root, &mut blit), done);
    }
    for count in [None, Some(0)] {
        let mut search = init_metal_presenter(&windows);
        search.step(LayerEvent::Begin, &mut blit);
        let root = LayerEvent::RootLayer { is_app_kit: true, layer: Some(LayerId(40)) };
        search.step(root, &mut blit);
        search.step(LayerEvent::IsMetal(false), &mut blit);
        assert_eq!(search.step(LayerEvent::SublayerCount(count), &mut blit), done);
    }
    let mut search = init_metal_presenter(&windows);
    search.step(LayerEvent::Begin, &mut blit);
    let root = LayerEvent::RootLayer { is_app_kit: true, layer: Some(LayerId(40)) };
    search.step(root, &mut blit);
    search.step(LayerEvent::IsMetal(false), &mut blit);
    search.step(LayerEvent::SublayerCount(Some(1)), &mut blit);
    search.step(LayerEvent::Sublayer(LayerId(41)), &mut blit);
    assert_eq!(search.step(LayerEvent::IsMetal(false), &mut blit), done);
    assert_eq!(search.stage, LayerStage::Finished);
    assert_eq!(blit, Some(state(None)));
}

#[test]
fn exit_raises_the_flag() {
    let up = OffscreenShutdownFlag(true);
    let down = OffscreenShutdownFlag(false);
    assert_eq!(signal_offscreen_shutdown(true, Some(down)), Some(up));
    assert_eq!(signal_offscreen_shutdown(true, Some(up)), Some(up));
    assert_eq!(signal_offscreen_shutdown(false, Some(down)), Some(down));
    assert_eq!(signal_offscreen_shutdown(false, Some(up)), Some(up));
    assert_eq!(signal_offscreen_shutdown(true, None), None);
    assert_eq!(signal_offscreen_shutdown(false, None), None);
}

#[test]
fn offscreen_target_is_set_up_on_demand() {
    let config = OffscreenPresentConfig {
        handle: 11,
        width: 1920,
        height: 1080,
        scale_factor_bits: 2.0f32.to_bits(),
    };
    let plugin = WindowRenderPlugin;
    assert!(plugin.finish(None, true, true).is_none());
    assert!(plugin.finish(Some(config), false, true).is_none());
    let setup = plugin.finish(Some(config), true, false).unwrap();
    assert_eq!(setup.texture.label, "offscreen_render_target");
    assert_eq!((setup.texture.width, setup.texture.height), (1920, 1080));
    assert_eq!(setup.texture.depth_or_array_layers, 1);
    assert_eq!(setup.texture.mip_level_count, 1);
    assert_eq!(setup.texture.sample_count, 1);
    assert_eq!(setup.texture.dimension, TextureDimension::D2);
    assert_eq!(setup.texture.format, TextureFormat::Bgra8UnormSrgb);
    assert_eq!(
        setup.texture.usage,
        TextureUsages { copy_src: true, copy_dst: false, render_attachment: true }
    );
    assert_eq!(setup.texture.view_formats, None);
    assert_eq!(
        setup.blit_state(TextureId(77)),
        OffscreenBlitState {
            source_texture: TextureId(77),
            source_width: 1920,
            source_height: 1080,
            metal_state: None,
        }
    );
    assert_eq!(setup.handle, 11);
    assert_eq!(
        setup.view,
        ManualTextureView {
            width: 1920,
            height: 1080,
            view_format: TextureFormat::Bgra8UnormSrgb,
            scale_factor_bits: 2.0f32.to_bits(),
        }
    );
    assert!(setup.init_manual_texture_views);
    assert_eq!(setup.shutting_down, OffscreenShutdownFlag(false));
    assert!(!plugin.finish(Some(config), true, true).unwrap().init_manual_texture_views);
}
