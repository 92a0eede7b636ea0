//! The windows that the renderer knows.

use bevy_ecs::entity::{Entity, EntityHashMap};
use vstd::prelude::*;
use wgpu::TextureFormat;

use crate::containers;
use crate::formats;

verus! {

/// Number under which the caller keeps the raw display and window handles of a window.
#[derive(Clone, Copy, Debug, PartialEq, Eq, Structural)]
pub struct RawHandleId(pub u64);

/// Number under which the caller keeps a texture.
#[derive(Clone, Copy, Debug, PartialEq, Eq, Structural)]
pub struct TextureId(pub u64);

/// A frame that was acquired from a surface and has not been presented yet.
#[derive(Clone, Copy, Debug, PartialEq, Eq)]
pub struct SurfaceTexture {
    pub texture: TextureId,
    /// Format of the texture itself.
    pub format: TextureFormat,
}

/// A view of a texture, through which it is rendered to.
#[derive(Clone, Copy, Debug, PartialEq, Eq)]
pub struct TextureView {
    pub texture: TextureId,
    /// Format in which the view interprets the texture; the texture's own where there is none.
    pub format: Option<TextureFormat>,
}

/// What the renderer knows of a window.
#[derive(Clone, Copy, Debug, PartialEq, Eq)]
pub struct ExtractedWindow {
    /// The window's entity.
    pub entity: Entity,
    pub handle: RawHandleId,
    pub physical_width: u32,
    pub physical_height: u32,
    pub present_mode: bevy_window::PresentMode,
    /// Frames that may be queued ahead, at least one; the surface's default where there is none.
    pub desired_maximum_frame_latency: Option<u32>,
    /// Not always a view of the swap chain texture: while a screenshot is taken it points to
    /// another texture, from which the render result is copied.
    pub swap_chain_texture_view: Option<TextureView>,
    pub swap_chain_texture: Option<SurfaceTexture>,
    pub swap_chain_texture_format: Option<TextureFormat>,
    pub swap_chain_texture_view_format: Option<TextureFormat>,
    pub size_changed: bool,
    pub present_mode_changed: bool,
    pub alpha_mode: bevy_window::CompositeAlphaMode,
    /// Whether the window still needs a first frame.
    ///
    /// On Wayland a window is not shown before it has presented once.
    pub needs_initial_present: bool,
}

impl ExtractedWindow {
    /// Whether the window holds both a frame and a view of it.
    pub open spec fn holds_frame(self) -> bool {
        self.swap_chain_texture_view is Some && self.swap_chain_texture is Some
    }

    /// Whether the size or the presentation mode differs from what the last extraction found.
    pub open spec fn changed(self) -> bool {
        self.size_changed || self.present_mode_changed
    }

    /// The window with `frame` as its swap chain texture, viewed in the sRGB twin of its format.
    pub open spec fn with_frame(self, frame: SurfaceTexture) -> ExtractedWindow {
        let view_format = Some(formats::with_srgb_suffix(frame.format));
        ExtractedWindow {
            swap_chain_texture_view_format: view_format,
            swap_chain_texture_view: Some(
                TextureView { texture: frame.texture, format: view_format },
            ),
            swap_chain_texture: Some(frame),
            ..self
        }
    }

    /// The window without the frame and without the view of it.
    pub open spec fn without_frame(self) -> ExtractedWindow {
        ExtractedWindow { swap_chain_texture: None, swap_chain_texture_view: None, ..self }
    }

    /// Makes `frame` the swap chain texture, with a view in the sRGB twin of its format.
    pub fn set_swapchain_texture(&mut self, frame: SurfaceTexture)
        ensures
            *final(self) == old(self).with_frame(frame),
            final(self).swap_chain_texture == Some(frame),
            final(self).swap_chain_texture_view is Some,
            final(self).swap_chain_texture_view->0.texture == frame.texture,
            final(self).swap_chain_texture_view->0.format
                == final(self).swap_chain_texture_view_format,
    {
        self.swap_chain_texture_view_format = Some(frame.format.add_srgb_suffix());
        self.swap_chain_texture_view = Some(
            TextureView { texture: frame.texture, format: self.swap_chain_texture_view_format },
        );
        self.swap_chain_texture = Some(frame);
    }

    /// Whether there is both a frame to render to and a view of it.
    pub fn has_swapchain_texture(&self) -> (held: bool)
        ensures
            held == self.holds_frame(),
            held <==> self.swap_chain_texture is Some && self.swap_chain_texture_view is Some,
    {
        self.swap_chain_texture_view.is_some() && self.swap_chain_texture.is_some()
    }

    /// Gives up the frame, which the caller is to present. The view stays until the next
    /// extraction.
    pub fn present(&mut self) -> (frame: Option<SurfaceTexture>)
        ensures
            frame == old(self).swap_chain_texture,
            *final(self) == (ExtractedWindow { swap_chain_texture: None, ..*old(self) }),
    {
        self.swap_chain_texture.take()
    }

    /// Drops the frame and its view without presenting them.
    pub fn drop_swapchain_texture(&mut self)
        ensures
            *final(self) == old(self).without_frame(),
            final(self).swap_chain_texture is None,
            final(self).swap_chain_texture_view is None,
    {
        self.swap_chain_texture = None;
        self.swap_chain_texture_view = None;
    }
}

/// All windows that the renderer knows, by entity.
pub struct ExtractedWindows {
    /// The window that was last extracted as the primary one.
    pub primary: Option<Entity>,
    pub windows: EntityHashMap<ExtractedWindow>,
}

impl View for ExtractedWindows {
    type V = Map<Entity, ExtractedWindow>;

    open spec fn view(&self) -> Map<Entity, ExtractedWindow> {
        containers::window_entries(self.windows)
    }
}

/// Every window stands under its own entity and is at least one pixel wide and high.
pub open spec fn windows_well_formed(windows: Map<Entity, ExtractedWindow>) -> bool {
    forall|e: Entity| #[trigger]
        windows.dom().contains(e) ==> {
            &&& windows[e].entity == e
            &&& windows[e].physical_width >= 1
            &&& windows[e].physical_height >= 1
        }
}

/// No window asks for frames to be queued without any.
pub open spec fn latencies_positive(windows: Map<Entity, ExtractedWindow>) -> bool {
    forall|e: Entity| #[trigger]
        windows.dom().contains(e) ==> windows[e].desired_maximum_frame_latency != Some(0u32)
}

impl ExtractedWindows {
    pub open spec fn well_formed(&self) -> bool {
        windows_well_formed(self@)
    }
}

impl core::ops::Deref for ExtractedWindows {
    type Target = EntityHashMap<ExtractedWindow>;

    /// The windows by entity.
    fn deref(&self) -> (windows: &EntityHashMap<ExtractedWindow>)
        ensures
            *windows == self.windows,
    {
        &self.windows
    }
}

impl Default for ExtractedWindows {
    /// No windows, and none of them primary.
    fn default() -> (windows: Self)
        ensures
            windows.primary is None,
            windows@ == Map::<Entity, ExtractedWindow>::empty(),
            windows.well_formed(),
            latencies_positive(windows@),
    {
        ExtractedWindows { primary: None, windows: containers::new_window_map() }
    }
}

} // verus!
