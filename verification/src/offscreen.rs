//! Rendering to a texture of one's own instead of to a window.

use vstd::prelude::*;
use wgpu::{TextureDimension, TextureFormat};

use crate::surface::TextureUsages;
use crate::window::TextureId;

verus! {

/// Number under which the caller keeps a layer of the window system.
#[derive(Clone, Copy, Debug, PartialEq, Eq, Structural)]
pub struct LayerId(pub u64);

/// Asks for offscreen rendering: cameras then target a texture of this size, which is copied to
/// the window every frame.
#[derive(Clone, Copy, Debug, PartialEq, Eq, Structural)]
pub struct OffscreenPresentConfig {
    /// Number of the texture view that cameras target.
    pub handle: u32,
    /// Width of the texture in pixels.
    pub width: u32,
    /// Height of the texture in pixels.
    pub height: u32,
    /// Physical pixels per logical one, as the bits of a 32-bit floating point number.
    pub scale_factor_bits: u32,
}

/// The layer that the offscreen texture is copied to, where it is a Metal layer.
#[derive(Clone, Copy, Debug, PartialEq, Eq, Structural)]
pub struct MetalPresentState {
    pub layer: LayerId,
}

/// The offscreen blit.
#[derive(Clone, Copy, Debug, PartialEq, Eq, Structural)]
pub struct OffscreenBlitState {
    pub source_texture: TextureId,
    pub source_width: u32,
    pub source_height: u32,
    pub metal_state: Option<MetalPresentState>,
}

/// Whether the offscreen blit is to stop. The flag is shared with the application, and never
/// lowered.
#[derive(Clone, Copy, Debug, PartialEq, Eq, Structural)]
pub struct OffscreenShutdownFlag(pub bool);

/// The shutdown flag after the application signalled whether it is about to exit.
pub open spec fn flag_after_signal(raised: bool, exit_requested: bool) -> bool {
    raised || exit_requested
}

/// Raises the flag, where there is one, once the application is about to exit: the blit must not
/// wait for a drawable of a window that is gone.
pub fn signal_offscreen_shutdown(
    exit_requested: bool,
    flag: Option<OffscreenShutdownFlag>,
) -> (signalled: Option<OffscreenShutdownFlag>)
    ensures
        signalled == (match flag {
            Some(before) => Some(OffscreenShutdownFlag(before.0 || exit_requested)),
            None => None,
        }),
        signalled is Some <==> flag is Some,
        match (flag, signalled) {
            (Some(before), Some(after)) => after.0 == flag_after_signal(before.0, exit_requested),
            _ => true,
        },
{
    if exit_requested {
        if flag.is_some() {
            return Some(OffscreenShutdownFlag(true));
        }
    }
    flag
}

/// A texture to be made.
#[derive(Clone, Copy, Debug, PartialEq, Eq)]
pub struct TextureDescriptor {
    pub label: &'static str,
    pub width: u32,
    pub height: u32,
    pub depth_or_array_layers: u32,
    pub mip_level_count: u32,
    pub sample_count: u32,
    pub dimension: TextureDimension,
    pub format: TextureFormat,
    pub usage: TextureUsages,
    /// The list of further formats in which the texture may be viewed. It holds at most one.
    pub view_formats: Option<TextureFormat>,
}

/// A texture view that cameras can target.
#[derive(Clone, Copy, Debug, PartialEq, Eq)]
pub struct ManualTextureView {
    pub width: u32,
    pub height: u32,
    pub view_format: TextureFormat,
    pub scale_factor_bits: u32,
}

/// What has to be made for offscreen rendering.
#[derive(Clone, Copy, Debug, PartialEq, Eq)]
pub struct OffscreenSetup {
    /// The texture that cameras render to.
    pub texture: TextureDescriptor,
    /// The number under which the view of it is registered, both with the renderer and with the
    /// application.
    pub handle: u32,
    /// The view of it.
    pub view: ManualTextureView,
    /// Whether the renderer's registry of views has to be made first.
    pub init_manual_texture_views: bool,
    /// The shutdown flag, which the renderer and the application share.
    pub shutting_down: OffscreenShutdownFlag,
}

impl OffscreenSetup {
    /// The offscreen blit once the texture was made, and is kept under this number: the whole
    /// texture is its source, and no layer has been found for it yet.
    pub fn blit_state(&self, texture: TextureId) -> (state: OffscreenBlitState)
        ensures
            state == (OffscreenBlitState {
                source_texture: texture,
                source_width: self.texture.width,
                source_height: self.texture.height,
                metal_state: None,
            }),
    {
        OffscreenBlitState {
            source_texture: texture,
            source_width: self.texture.width,
            source_height: self.texture.height,
            metal_state: None,
        }
    }
}

/// The window part of a renderer.
#[derive(Clone, Copy, Debug, PartialEq, Eq, Structural)]
pub struct WindowRenderPlugin;

impl WindowRenderPlugin {
    /// Works out what has to be made for offscreen rendering: nothing, unless it is asked for and
    /// there is a renderer.
    pub fn finish(
        &self,
        config: Option<OffscreenPresentConfig>,
        has_render_app: bool,
        has_manual_texture_views: bool,
    ) -> (setup: Option<OffscreenSetup>)
        ensures
            setup is Some <==> config is Some && has_render_app,
            setup matches Some(s) ==> {
                &&& s.texture.label@ == "offscreen_render_target"@
                &&& s.texture.width == config->0.width
                &&& s.texture.height == config->0.height
                &&& s.texture.depth_or_array_layers == 1
                &&& s.texture.mip_level_count == 1
                &&& s.texture.sample_count == 1
                &&& s.texture.dimension == TextureDimension::D2
                &&& s.texture.format == TextureFormat::Bgra8UnormSrgb
                &&& s.texture.usage == (TextureUsages {
                    copy_src: true,
                    copy_dst: false,
                    render_attachment: true,
                })
                &&& s.texture.view_formats is None
                &&& s.handle == config->0.handle
                &&& s.view == (ManualTextureView {
                    width: config->0.width,
                    height: config->0.height,
                    view_format: TextureFormat::Bgra8UnormSrgb,
                    scale_factor_bits: config->0.scale_factor_bits,
                })
                &&& s.init_manual_texture_views == !has_manual_texture_views
                &&& s.view.width == s.texture.width && s.view.height == s.texture.height
                &&& s.view.view_format == s.texture.format
                &&& s.texture.usage.render_attachment && s.texture.usage.copy_src
                &&& s.shutting_down == OffscreenShutdownFlag(false)
            },
    {
        let config = match config {
            Some(config) => config,
            None => {
                return None;
            },
        };
        if !has_render_app {
            return None;
        }
        Some(
            OffscreenSetup {
                texture: TextureDescriptor {
                    label: "offscreen_render_target",
                    width: config.width,
                    height: config.height,
                    depth_or_array_layers: 1,
                    mip_level_count: 1,
                    sample_count: 1,
                    dimension: TextureDimension::D2,
                    format: TextureFormat::Bgra8UnormSrgb,
                    usage: TextureUsages {
                        copy_src: true,
                        copy_dst: false,
                        render_attachment: true,
                    },
                    view_formats: None,
                },
                handle: config.handle,
                view: ManualTextureView {
                    width: config.width,
                    height: config.height,
                    view_format: TextureFormat::Bgra8UnormSrgb,
                    scale_factor_bits: config.scale_factor_bits,
                },
                init_manual_texture_views: !has_manual_texture_views,
                shutting_down: OffscreenShutdownFlag(false),
            },
        )
    }
}

} // verus!
