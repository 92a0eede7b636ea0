//! Texture formats, presentation modes and the other plain enums that come from `wgpu` and
//! `bevy_window`.
//!
//! All of these types are public enums without private parts. Each is declared to Verus by its
//! definition alone: its variants are read from the crate that defines it, and nothing is claimed
//! of it here. What is claimed are two functions of `TextureFormat`.

use vstd::prelude::*;
use wgpu::{AstcChannel, TextureFormat};

verus! {

/// `wgpu::AstcBlock`, read from its definition.
#[verifier::external_type_specification]
pub struct ExAstcBlock(wgpu::AstcBlock);

/// `wgpu::AstcChannel`, read from its definition.
#[verifier::external_type_specification]
pub struct ExAstcChannel(wgpu::AstcChannel);

/// `wgpu::TextureFormat`, read from its definition.
#[verifier::external_type_specification]
pub struct ExTextureFormat(wgpu::TextureFormat);

/// `wgpu::TextureDimension`, read from its definition.
#[verifier::external_type_specification]
pub struct ExTextureDimension(wgpu::TextureDimension);

/// `wgpu::PresentMode`, read from its definition.
#[verifier::external_type_specification]
pub struct ExSurfacePresentMode(wgpu::PresentMode);

/// `wgpu::CompositeAlphaMode`, read from its definition.
#[verifier::external_type_specification]
pub struct ExSurfaceCompositeAlphaMode(wgpu::CompositeAlphaMode);

/// `wgpu::SurfaceError`, read from its definition.
#[verifier::external_type_specification]
pub struct ExSurfaceError(wgpu::SurfaceError);

/// `bevy_window::PresentMode`, read from its definition.
#[verifier::external_type_specification]
pub struct ExWindowPresentMode(bevy_window::PresentMode);

/// `bevy_window::CompositeAlphaMode`, read from its definition.
#[verifier::external_type_specification]
pub struct ExWindowCompositeAlphaMode(bevy_window::CompositeAlphaMode);

/// Whether the samples of a texture of this format are stored sRGB encoded.
pub open spec fn has_srgb_suffix(format: TextureFormat) -> bool {
    match format {
        TextureFormat::Rgba8UnormSrgb
        | TextureFormat::Bgra8UnormSrgb
        | TextureFormat::Bc1RgbaUnormSrgb
        | TextureFormat::Bc2RgbaUnormSrgb
        | TextureFormat::Bc3RgbaUnormSrgb
        | TextureFormat::Bc7RgbaUnormSrgb
        | TextureFormat::Etc2Rgb8UnormSrgb
        | TextureFormat::Etc2Rgb8A1UnormSrgb
        | TextureFormat::Etc2Rgba8UnormSrgb => true,
        TextureFormat::Astc { block: _, channel } => channel is UnormSrgb,
        _ => false,
    }
}

/// The sRGB twin of a format; a format that has none, or is one, stands for itself.
pub open spec fn with_srgb_suffix(format: TextureFormat) -> TextureFormat {
    match format {
        TextureFormat::Rgba8Unorm => TextureFormat::Rgba8UnormSrgb,
        TextureFormat::Bgra8Unorm => TextureFormat::Bgra8UnormSrgb,
        TextureFormat::Bc1RgbaUnorm => TextureFormat::Bc1RgbaUnormSrgb,
        TextureFormat::Bc2RgbaUnorm => TextureFormat::Bc2RgbaUnormSrgb,
        TextureFormat::Bc3RgbaUnorm => TextureFormat::Bc3RgbaUnormSrgb,
        TextureFormat::Bc7RgbaUnorm => TextureFormat::Bc7RgbaUnormSrgb,
        TextureFormat::Etc2Rgb8Unorm => TextureFormat::Etc2Rgb8UnormSrgb,
        TextureFormat::Etc2Rgb8A1Unorm => TextureFormat::Etc2Rgb8A1UnormSrgb,
        TextureFormat::Etc2Rgba8Unorm => TextureFormat::Etc2Rgba8UnormSrgb,
        TextureFormat::Astc { block, channel } => if channel is Unorm {
            TextureFormat::Astc { block, channel: AstcChannel::UnormSrgb }
        } else {
            format
        },
        _ => format,
    }
}

/// `wgpu::TextureFormat::is_srgb`: true of exactly the formats whose name ends in `Srgb`.
pub assume_specification[ wgpu::TextureFormat::is_srgb ](format: &TextureFormat) -> (srgb: bool)
    ensures
        srgb == has_srgb_suffix(*format),
;

/// `wgpu::TextureFormat::add_srgb_suffix`: the format's sRGB twin where there is one, else the
/// format itself.
pub assume_specification[ wgpu::TextureFormat::add_srgb_suffix ](format: &TextureFormat) -> (twin:
    TextureFormat)
    ensures
        twin == with_srgb_suffix(*format),
;

/// Compares two window presentation modes.
pub fn same_window_present_mode(
    a: bevy_window::PresentMode,
    b: bevy_window::PresentMode,
) -> (same: bool)
    ensures
        same == (a == b),
{
    match a {
        bevy_window::PresentMode::AutoVsync => matches!(b, bevy_window::PresentMode::AutoVsync),
        bevy_window::PresentMode::AutoNoVsync => matches!(b, bevy_window::PresentMode::AutoNoVsync),
        bevy_window::PresentMode::Fifo => matches!(b, bevy_window::PresentMode::Fifo),
        bevy_window::PresentMode::FifoRelaxed => matches!(b, bevy_window::PresentMode::FifoRelaxed),
        bevy_window::PresentMode::Immediate => matches!(b, bevy_window::PresentMode::Immediate),
        bevy_window::PresentMode::Mailbox => matches!(b, bevy_window::PresentMode::Mailbox),
    }
}

/// Compares two surface presentation modes.
pub fn same_present_mode(a: wgpu::PresentMode, b: wgpu::PresentMode) -> (same: bool)
    ensures
        same == (a == b),
{
    match a {
        wgpu::PresentMode::AutoVsync => matches!(b, wgpu::PresentMode::AutoVsync),
        wgpu::PresentMode::AutoNoVsync => matches!(b, wgpu::PresentMode::AutoNoVsync),
        wgpu::PresentMode::Fifo => matches!(b, wgpu::PresentMode::Fifo),
        wgpu::PresentMode::FifoRelaxed => matches!(b, wgpu::PresentMode::FifoRelaxed),
        wgpu::PresentMode::Immediate => matches!(b, wgpu::PresentMode::Immediate),
        wgpu::PresentMode::Mailbox => matches!(b, wgpu::PresentMode::Mailbox),
    }
}

} // verus!
