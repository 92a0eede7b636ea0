//! Laws of the choice of a surface configuration.

use bevy_ecs::entity::Entity;
use vstd::prelude::*;
use wgpu::TextureFormat;

use crate::formats;
use crate::surface;
use crate::surface::{SurfaceCapabilities, SurfaceId};
use crate::window::{ExtractedWindow, SurfaceTexture};

verus! {

/// The first supported option is one of the options, is supported, and no option before it is.
pub proof fn first_supported_is_first(
    options: Seq<wgpu::PresentMode>,
    supported: Seq<wgpu::PresentMode>,
)
    ensures
        match surface::first_supported(options, supported) {
            Some(mode) => exists|i: int| #![trigger options[i]]
                0 <= i < options.len() && options[i] == mode && supported.contains(mode) && (
                forall|j: int| 0 <= j < i ==> !supported.contains(#[trigger] options[j])),
            None => forall|j: int|
                0 <= j < options.len() ==> !supported.contains(#[trigger] options[j]),
        },
    decreases options.len(),
{
    if options.len() > 0 {
        if supported.contains(options[0]) {
        } else {
            let rest = options.drop_first();
            first_supported_is_first(rest, supported);
            match surface::first_supported(rest, supported) {
                Some(mode) => {
                    let i = choose|i: int| #![trigger rest[i]]
                        0 <= i < rest.len() && rest[i] == mode && supported.contains(mode) && (
                        forall|j: int| 0 <= j < i ==> !supported.contains(#[trigger] rest[j]));
                    assert(options[i + 1] == mode);
                    assert forall|j: int| 0 <= j < i + 1 implies !supported.contains(
                        #[trigger] options[j],
                    ) by {
                        if j > 0 {
                            assert(rest[j - 1] == options[j]);
                        }
                    }
                },
                None => {
                    assert forall|j: int| 0 <= j < options.len() implies !supported.contains(
                        #[trigger] options[j],
                    ) by {
                        if j > 0 {
                            assert(rest[j - 1] == options[j]);
                        }
                    }
                },
            }
        }
    }
}

/// Which option is the first supported one depends on the set of supported modes alone.
proof fn lemma_first_supported_ignores_order(
    options: Seq<wgpu::PresentMode>,
    supported: Seq<wgpu::PresentMode>,
    other: Seq<wgpu::PresentMode>,
)
    requires
        supported.to_set() == other.to_set(),
    ensures
        surface::first_supported(options, supported) == surface::first_supported(options, other),
    decreases options.len(),
{
    if options.len() > 0 {
        assert(supported.to_set().contains(options[0]) <==> supported.contains(options[0]));
        assert(other.to_set().contains(options[0]) <==> other.contains(options[0]));
        lemma_first_supported_ignores_order(options.drop_first(), supported, other);
    }
}

/// The mode that is chosen depends on which modes are supported, not on the order in which they
/// are listed or on how often.
pub proof fn chosen_mode_ignores_order(
    mode: bevy_window::PresentMode,
    supported: Seq<wgpu::PresentMode>,
    other: Seq<wgpu::PresentMode>,
)
    requires
        supported.to_set() == other.to_set(),
    ensures
        surface::chosen_present_mode(mode, supported) == surface::chosen_present_mode(mode, other),
{
    lemma_first_supported_ignores_order(
        surface::present_mode_fallbacks(surface::requested_present_mode(mode)),
        supported,
        other,
    );
}

/// A presentation mode can always be chosen where `Fifo` is supported, as it is everywhere.
pub proof fn fifo_suffices(mode: bevy_window::PresentMode, supported: Seq<wgpu::PresentMode>)
    requires
        supported.contains(wgpu::PresentMode::Fifo),
    ensures
        surface::chosen_present_mode(mode, supported) is Some,
{
    let options = surface::present_mode_fallbacks(surface::requested_present_mode(mode));
    first_supported_is_first(options, supported);
    assert(options[options.len() - 1] == wgpu::PresentMode::Fifo);
}

/// The mode that is chosen is one that the surface supports, and never one of the automatic modes:
/// those are resolved.
pub proof fn chosen_mode_is_supported(
    mode: bevy_window::PresentMode,
    supported: Seq<wgpu::PresentMode>,
)
    requires
        surface::chosen_present_mode(mode, supported) is Some,
    ensures
        supported.contains(surface::chosen_present_mode(mode, supported)->0),
        !(surface::chosen_present_mode(mode, supported)->0 is AutoVsync),
        !(surface::chosen_present_mode(mode, supported)->0 is AutoNoVsync),
{
    first_supported_is_first(
        surface::present_mode_fallbacks(surface::requested_present_mode(mode)),
        supported,
    );
}

/// A window that asks for a particular mode gets it wherever it is supported.
pub proof fn supported_request_is_granted(
    mode: bevy_window::PresentMode,
    supported: Seq<wgpu::PresentMode>,
)
    requires
        !(mode is AutoVsync),
        !(mode is AutoNoVsync),
        supported.contains(surface::requested_present_mode(mode)),
    ensures
        surface::chosen_present_mode(mode, supported) == Some(
            surface::requested_present_mode(mode),
        ),
{
    let options = surface::present_mode_fallbacks(surface::requested_present_mode(mode));
    assert(options[0] == surface::requested_present_mode(mode));
}

/// A window that asks for vertical synchronisation, in whatever form, is presented in one of the
/// two `Fifo` modes, which queue frames for the display.
pub proof fn vsync_is_never_given_up(
    mode: bevy_window::PresentMode,
    supported: Seq<wgpu::PresentMode>,
)
    requires
        mode is AutoVsync || mode is Fifo || mode is FifoRelaxed,
        surface::chosen_present_mode(mode, supported) is Some,
    ensures
        ({
            let chosen = surface::chosen_present_mode(mode, supported)->0;
            chosen is Fifo || chosen is FifoRelaxed
        }),
{
    first_supported_is_first(
        surface::present_mode_fallbacks(surface::requested_present_mode(mode)),
        supported,
    );
}

/// The format that a surface gets is one of those that it supports, and an sRGB one wherever one
/// of the two that surfaces have is among them.
pub proof fn chosen_format_is_supported(formats: Seq<TextureFormat>)
    requires
        formats.len() > 0,
    ensures
        formats.contains(surface::chosen_format(formats)),
        (exists|i: int| 0 <= i < formats.len() && surface::is_preferred_format(#[trigger] formats[i]))
            ==> surface::is_preferred_format(surface::chosen_format(formats)),
{
    first_preferred_is_listed(formats);
}

proof fn first_preferred_is_listed(formats: Seq<TextureFormat>)
    ensures
        match surface::first_preferred(formats) {
            Some(format) => formats.contains(format) && surface::is_preferred_format(format),
            None => forall|i: int|
                0 <= i < formats.len() ==> !surface::is_preferred_format(#[trigger] formats[i]),
        },
    decreases formats.len(),
{
    if formats.len() > 0 && !surface::is_preferred_format(formats[0]) {
        let rest = formats.drop_first();
        first_preferred_is_listed(rest);
        match surface::first_preferred(rest) {
            Some(format) => {
                let i = choose|i: int| 0 <= i < rest.len() && rest[i] == format;
                assert(formats[i + 1] == format);
            },
            None => {
                assert forall|i: int| 0 <= i < formats.len() implies !surface::is_preferred_format(
                    #[trigger] formats[i],
                ) by {
                    if i > 0 {
                        assert(rest[i - 1] == formats[i]);
                    }
                }
            },
        }
    }
}

/// A new surface is configured to queue at least one frame, unless its window asks for none.
pub proof fn frame_latency_is_positive(
    window: ExtractedWindow,
    surface: SurfaceId,
    capabilities: SurfaceCapabilities,
)
    requires
        window.desired_maximum_frame_latency != Some(0u32),
    ensures
        surface::initial_surface_data(
            window,
            surface,
            capabilities,
        ).configuration.desired_maximum_frame_latency >= 1,
{
}

/// A window that asks for a particular mode is reported exactly where the surface lacks that mode;
/// one that leaves the choice open is never reported.
pub proof fn fallback_is_reported_where_request_is_unsupported(
    mode: bevy_window::PresentMode,
    supported: Seq<wgpu::PresentMode>,
)
    requires
        surface::chosen_present_mode(mode, supported) is Some,
    ensures
        ({
            let requested = surface::requested_present_mode(mode);
            let chosen = surface::chosen_present_mode(mode, supported)->0;
            (chosen != requested && surface::present_mode_fallbacks(requested).contains(requested))
                <==> !(mode is AutoVsync) && !(mode is AutoNoVsync) && !supported.contains(
                requested,
            )
        }),
{
    let requested = surface::requested_present_mode(mode);
    let options = surface::present_mode_fallbacks(requested);
    first_supported_is_first(options, supported);
    if mode is AutoVsync || mode is AutoNoVsync {
        assert(!options.contains(requested));
    } else {
        assert(options[0] == requested);
        assert(options.contains(requested));
    }
}

/// The view that a window takes of a frame is in a format that its surface allows: the frame's own
/// or the one that the surface was configured to allow besides.
pub proof fn frame_views_are_allowed(
    window: ExtractedWindow,
    surface: SurfaceId,
    capabilities: SurfaceCapabilities,
    frame: SurfaceTexture,
)
    requires
        frame.format == surface::initial_surface_data(
            window,
            surface,
            capabilities,
        ).configuration.format,
    ensures
        ({
            let data = surface::initial_surface_data(window, surface, capabilities);
            let view = window.with_frame(frame).swap_chain_texture_view->0;
            &&& view.format == Some(frame.format) || view.format == data.configuration.view_formats
            &&& view.texture == frame.texture
            &&& data.texture_view_format == data.configuration.view_formats
        }),
{
}

/// Which mode each request ends in, for every set of supported modes.
pub proof fn every_request_has_its_order_of_modes(supported: Seq<wgpu::PresentMode>)
    ensures
        ({
            let immediate = supported.contains(wgpu::PresentMode::Immediate);
            let mailbox = supported.contains(wgpu::PresentMode::Mailbox);
            let relaxed = supported.contains(wgpu::PresentMode::FifoRelaxed);
            let fifo = supported.contains(wgpu::PresentMode::Fifo);
            let for_fifo = surface::chosen_present_mode(bevy_window::PresentMode::Fifo, supported);
            let for_relaxed = surface::chosen_present_mode(
                bevy_window::PresentMode::FifoRelaxed,
                supported,
            );
            let for_mailbox = surface::chosen_present_mode(
                bevy_window::PresentMode::Mailbox,
                supported,
            );
            let for_immediate = surface::chosen_present_mode(
                bevy_window::PresentMode::Immediate,
                supported,
            );
            let for_vsync = surface::chosen_present_mode(
                bevy_window::PresentMode::AutoVsync,
                supported,
            );
            let for_no_vsync = surface::chosen_present_mode(
                bevy_window::PresentMode::AutoNoVsync,
                supported,
            );
            &&& fifo ==> for_fifo == Some(wgpu::PresentMode::Fifo)
            &&& !fifo ==> for_fifo is None
            &&& relaxed ==> for_relaxed == Some(wgpu::PresentMode::FifoRelaxed)
            &&& !relaxed && fifo ==> for_relaxed == Some(wgpu::PresentMode::Fifo)
            &&& !relaxed && !fifo ==> for_relaxed is None
            &&& mailbox ==> for_mailbox == Some(wgpu::PresentMode::Mailbox)
            &&& !mailbox && immediate ==> for_mailbox == Some(wgpu::PresentMode::Immediate)
            &&& !mailbox && !immediate && fifo ==> for_mailbox == Some(wgpu::PresentMode::Fifo)
            &&& !mailbox && !immediate && !fifo ==> for_mailbox is None
            &&& immediate ==> for_immediate == Some(wgpu::PresentMode::Immediate)
            &&& !immediate && fifo ==> for_immediate == Some(wgpu::PresentMode::Fifo)
            &&& !immediate && !fifo ==> for_immediate is None
            &&& relaxed ==> for_vsync == Some(wgpu::PresentMode::FifoRelaxed)
            &&& !relaxed && fifo ==> for_vsync == Some(wgpu::PresentMode::Fifo)
            &&& !relaxed && !fifo ==> for_vsync is None
            &&& immediate ==> for_no_vsync == Some(wgpu::PresentMode::Immediate)
            &&& !immediate && mailbox ==> for_no_vsync == Some(wgpu::PresentMode::Mailbox)
            &&& !immediate && !mailbox && fifo ==> for_no_vsync == Some(wgpu::PresentMode::Fifo)
            &&& !immediate && !mailbox && !fifo ==> for_no_vsync is None
        }),
{
    reveal_with_fuel(surface::first_supported, 4);
}

/// A window that asks not to wait, by `Mailbox` or by `AutoNoVsync`, does not wait wherever the
/// surface supports a mode without waiting.
pub proof fn no_vsync_is_granted_where_possible(
    mode: bevy_window::PresentMode,
    supported: Seq<wgpu::PresentMode>,
)
    requires
        mode is Mailbox || mode is AutoNoVsync,
        supported.contains(wgpu::PresentMode::Immediate) || supported.contains(
            wgpu::PresentMode::Mailbox,
        ),
    ensures
        ({
            let chosen = surface::chosen_present_mode(mode, supported);
            chosen == Some(wgpu::PresentMode::Immediate) || chosen == Some(
                wgpu::PresentMode::Mailbox,
            )
        }),
{
    every_request_has_its_order_of_modes(supported);
}

/// Late frames may tear only for a window that allows it: `FifoRelaxed` is chosen for none but
/// those that ask for it or leave the way of synchronising open.
pub proof fn relaxed_mode_is_chosen_on_request_only(
    mode: bevy_window::PresentMode,
    supported: Seq<wgpu::PresentMode>,
)
    requires
        surface::chosen_present_mode(mode, supported) == Some(wgpu::PresentMode::FifoRelaxed),
    ensures
        mode is FifoRelaxed || mode is AutoVsync,
{
    every_request_has_its_order_of_modes(supported);
}

/// Requests of windows and of surfaces correspond by name.
pub proof fn requests_correspond_by_name(
    mode: bevy_window::PresentMode,
    alpha_mode: bevy_window::CompositeAlphaMode,
)
    ensures
        ({
            let requested = surface::requested_present_mode(mode);
            &&& requested is Fifo <==> mode is Fifo
            &&& requested is FifoRelaxed <==> mode is FifoRelaxed
            &&& requested is Mailbox <==> mode is Mailbox
            &&& requested is Immediate <==> mode is Immediate
            &&& requested is AutoVsync <==> mode is AutoVsync
            &&& requested is AutoNoVsync <==> mode is AutoNoVsync
        }),
        ({
            let requested = surface::requested_alpha_mode(alpha_mode);
            &&& requested is Auto <==> alpha_mode is Auto
            &&& requested is Opaque <==> alpha_mode is Opaque
            &&& requested is PreMultiplied <==> alpha_mode is PreMultiplied
            &&& requested is PostMultiplied <==> alpha_mode is PostMultiplied
            &&& requested is Inherit <==> alpha_mode is Inherit
        }),
{
}

proof fn lemma_first_preferred_at(formats: Seq<TextureFormat>, i: int)
    requires
        0 <= i < formats.len(),
        formats[i] is Rgba8UnormSrgb || formats[i] is Bgra8UnormSrgb,
        forall|j: int|
            0 <= j < i ==> !((#[trigger] formats[j]) is Rgba8UnormSrgb) && !(
            formats[j] is Bgra8UnormSrgb),
    ensures
        surface::first_preferred(formats) == Some(formats[i]),
    decreases i,
{
    if i > 0 {
        let rest = formats.drop_first();
        assert(!(formats[0] is Rgba8UnormSrgb) && !(formats[0] is Bgra8UnormSrgb));
        assert forall|j: int| 0 <= j < i - 1 implies !((#[trigger] rest[j]) is Rgba8UnormSrgb)
            && !(rest[j] is Bgra8UnormSrgb) by {
            assert(rest[j] == formats[j + 1]);
        }
        lemma_first_preferred_at(rest, i - 1);
    }
}

/// A surface gets the first of its formats that is `Rgba8UnormSrgb` or `Bgra8UnormSrgb`, and its
/// very first format where neither is supported.
pub proof fn first_srgb_format_is_taken(formats: Seq<TextureFormat>, i: int)
    requires
        formats.len() > 0,
    ensures
        0 <= i < formats.len() && (formats[i] is Rgba8UnormSrgb || formats[i] is Bgra8UnormSrgb)
            && (forall|j: int|
            0 <= j < i ==> !((#[trigger] formats[j]) is Rgba8UnormSrgb) && !(
            formats[j] is Bgra8UnormSrgb)) ==> surface::chosen_format(formats) == formats[i],
        (forall|j: int|
            0 <= j < formats.len() ==> !((#[trigger] formats[j]) is Rgba8UnormSrgb) && !(
            formats[j] is Bgra8UnormSrgb)) ==> surface::chosen_format(formats) == formats[0],
{
    if 0 <= i < formats.len() && (formats[i] is Rgba8UnormSrgb || formats[i] is Bgra8UnormSrgb) && (
    forall|j: int|
        0 <= j < i ==> !((#[trigger] formats[j]) is Rgba8UnormSrgb) && !(
        formats[j] is Bgra8UnormSrgb)) {
        lemma_first_preferred_at(formats, i);
    }
    first_preferred_is_listed(formats);
    if surface::first_preferred(formats) is Some {
        let format = surface::first_preferred(formats)->0;
        let j = choose|j: int| 0 <= j < formats.len() && formats[j] == format;
        assert(formats[j] is Rgba8UnormSrgb || formats[j] is Bgra8UnormSrgb);
    }
}

/// How a new surface is configured, setting by setting: as large as its window, to be rendered and
/// copied to but not from, with the latency that the window asks for or else two frames, with the
/// alpha mode of the same name, and with the sRGB twin as a further view format exactly where its
/// own format is not sRGB.
pub proof fn new_surfaces_suit_their_windows(
    window: ExtractedWindow,
    surface: SurfaceId,
    capabilities: SurfaceCapabilities,
)
    requires
        capabilities.formats@.len() > 0,
        surface::chosen_present_mode(window.present_mode, capabilities.present_modes@) is Some,
    ensures
        surface::can_show(window, capabilities),
        ({
            let data = surface::initial_surface_data(window, surface, capabilities);
            let configuration = data.configuration;
            &&& data.surface == surface
            &&& configuration.width == window.physical_width
            &&& configuration.height == window.physical_height
            &&& configuration.usage.render_attachment
            &&& configuration.usage.copy_dst
            &&& !configuration.usage.copy_src
            &&& configuration.format == surface::chosen_format(capabilities.formats@)
            &&& Some(configuration.present_mode) == surface::chosen_present_mode(
                window.present_mode,
                capabilities.present_modes@,
            )
            &&& window.desired_maximum_frame_latency is Some ==> Some(
                configuration.desired_maximum_frame_latency,
            ) == window.desired_maximum_frame_latency
            &&& window.desired_maximum_frame_latency is None
                ==> configuration.desired_maximum_frame_latency == 2
            &&& configuration.alpha_mode is Auto <==> window.alpha_mode is Auto
            &&& configuration.alpha_mode is Opaque <==> window.alpha_mode is Opaque
            &&& configuration.alpha_mode is PreMultiplied <==> window.alpha_mode is PreMultiplied
            &&& configuration.alpha_mode is PostMultiplied <==> window.alpha_mode is PostMultiplied
            &&& configuration.alpha_mode is Inherit <==> window.alpha_mode is Inherit
            &&& formats::has_srgb_suffix(configuration.format)
                ==> configuration.view_formats is None
            &&& !formats::has_srgb_suffix(configuration.format) ==> configuration.view_formats
                == Some(formats::with_srgb_suffix(configuration.format))
            &&& data.texture_view_format == configuration.view_formats
        }),
{
}

/// Configuration is needed exactly for a window that was never configured, whose size changed, or
/// whose presentation mode changed.
pub proof fn each_change_calls_for_configuration(window: ExtractedWindow, configured: Set<Entity>)
    ensures
        !configured.contains(window.entity) ==> surface::needs_configuration(window, configured),
        window.size_changed ==> surface::needs_configuration(window, configured),
        window.present_mode_changed ==> surface::needs_configuration(window, configured),
        configured.contains(window.entity) && !window.size_changed && !window.present_mode_changed
            ==> !surface::needs_configuration(window, configured),
{
}

} // verus!
