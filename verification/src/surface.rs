//! Window surfaces, and the choice of how they are configured.

use bevy_ecs::entity::{Entity, EntityHashMap};
use bevy_platform::collections::HashSet;
use vstd::prelude::*;
use wgpu::TextureFormat;

use crate::containers;
use crate::formats;
use crate::laws;
use crate::pending;
use crate::window::{ExtractedWindow, ExtractedWindows};

verus! {

/// Frames queued ahead where a window does not say.
///
/// One frame is the minimum, but may lower the frame rate: the CPU then waits for the GPU to
/// finish all work of a frame before it starts on the next, and the GPU waits in turn.
pub const DEFAULT_DESIRED_MAXIMUM_FRAME_LATENCY: u32 = 2;

/// Number under which the caller keeps a surface.
#[derive(Clone, Copy, Debug, PartialEq, Eq, Structural)]
pub struct SurfaceId(pub u64);

/// What a texture may be used for, as far as this crate asks for it.
#[derive(Clone, Copy, Debug, PartialEq, Eq, Structural)]
pub struct TextureUsages {
    pub copy_src: bool,
    pub copy_dst: bool,
    pub render_attachment: bool,
}

/// How a surface is configured for presentation.
#[derive(Clone, Copy, Debug, PartialEq, Eq)]
pub struct SurfaceConfiguration {
    pub usage: TextureUsages,
    pub format: TextureFormat,
    pub width: u32,
    pub height: u32,
    pub present_mode: wgpu::PresentMode,
    pub desired_maximum_frame_latency: u32,
    pub alpha_mode: wgpu::CompositeAlphaMode,
    /// The list of further formats in which the surface's textures may be viewed. It holds at
    /// most one.
    pub view_formats: Option<TextureFormat>,
}

/// What an adapter can do with a surface.
#[derive(Debug, PartialEq, Eq)]
pub struct SurfaceCapabilities {
    /// Supported formats, the preferred one first.
    pub formats: Vec<TextureFormat>,
    /// Supported presentation modes.
    pub present_modes: Vec<wgpu::PresentMode>,
}

/// A surface with the configuration that it last got.
#[derive(Clone, Copy, Debug, PartialEq, Eq)]
pub struct SurfaceData {
    pub surface: SurfaceId,
    pub configuration: SurfaceConfiguration,
    /// The sRGB format in which the surface is viewed, where its own format is not sRGB.
    pub texture_view_format: Option<TextureFormat>,
}

/// The surfaces of the windows, by entity.
pub struct WindowSurfaces {
    pub surfaces: EntityHashMap<SurfaceData>,
    /// Windows whose surface was configured at least once.
    pub configured_windows: HashSet<Entity>,
}

impl WindowSurfaces {
    /// The surfaces by entity.
    pub open spec fn data(&self) -> Map<Entity, SurfaceData> {
        containers::surface_entries(self.surfaces)
    }

    /// The windows whose surface was configured.
    pub open spec fn configured(&self) -> Set<Entity> {
        containers::entity_members(self.configured_windows)
    }

    /// Only windows with a surface count as configured.
    pub open spec fn well_formed(&self) -> bool {
        self.configured().subset_of(self.data().dom())
    }

    /// Exactly the windows with a surface count as configured, as it is between two passes.
    pub open spec fn all_configured(&self) -> bool {
        self.configured() == self.data().dom()
    }

    /// Forgets the surface of a window.
    pub fn remove(&mut self, window: Entity)
        ensures
            final(self).data() == old(self).data().remove(window),
            final(self).configured() == old(self).configured().remove(window),
            old(self).well_formed() ==> final(self).well_formed(),
            old(self).all_configured() ==> final(self).all_configured(),
    {
        containers::surface_remove(&mut self.surfaces, window);
        containers::entity_set_remove(&mut self.configured_windows, window);
    }
}

impl Default for WindowSurfaces {
    /// No surfaces.
    fn default() -> (surfaces: Self)
        ensures
            surfaces.data() == Map::<Entity, SurfaceData>::empty(),
            surfaces.configured() == Set::<Entity>::empty(),
            surfaces.well_formed(),
            surfaces.all_configured(),
    {
        WindowSurfaces {
            surfaces: containers::new_surface_map(),
            configured_windows: containers::new_entity_set(),
        }
    }
}

/// Whether a window is not configured yet, or differs from what its surface is configured for.
pub open spec fn needs_configuration(window: ExtractedWindow, configured: Set<Entity>) -> bool {
    !configured.contains(window.entity) || window.changed()
}

/// Whether the surface of any window has to be configured.
pub fn need_surface_configuration(
    windows: &ExtractedWindows,
    window_surfaces: &WindowSurfaces,
) -> (needed: bool)
    ensures
        needed <==> exists|e: Entity| #[trigger]
            windows@.dom().contains(e) && needs_configuration(
                windows@[e],
                window_surfaces.configured(),
            ),
        forall|e: Entity| #[trigger]
            windows@.dom().contains(e) && (windows@[e].size_changed
                || windows@[e].present_mode_changed || !window_surfaces.configured().contains(
                windows@[e].entity,
            )) ==> needed,
{
    let keys = containers::window_keys(&windows.windows);
    let mut i: usize = 0;
    while i < keys.len()
        invariant
            keys@.to_set() == windows@.dom(),
            i <= keys.len(),
            forall|j: int|
                0 <= j < i ==> !needs_configuration(
                    windows@[#[trigger] keys@[j]],
                    window_surfaces.configured(),
                ),
        decreases keys.len() - i,
    {
        assert(keys@.to_set().contains(keys@[i as int]));
        if let Some(window) = containers::window_get(&windows.windows, keys[i]) {
            if !containers::entity_set_contains(
                &window_surfaces.configured_windows,
                window.entity,
            ) || window.size_changed || window.present_mode_changed {
                return true;
            }
        }
        i = i + 1;
    }
    proof {
        pending::lemma_listed_windows_are_known(keys@, windows@.dom());
        assert forall|e: Entity| #[trigger] windows@.dom().contains(e) implies !needs_configuration(
            windows@[e],
            window_surfaces.configured(),
        ) by {
            let j = choose|j: int| 0 <= j < keys@.len() && keys@[j] == e;
        }
    }
    false
}

/// The surface presentation mode that a window asks for.
pub open spec fn requested_present_mode(mode: bevy_window::PresentMode) -> wgpu::PresentMode {
    match mode {
        bevy_window::PresentMode::Fifo => wgpu::PresentMode::Fifo,
        bevy_window::PresentMode::FifoRelaxed => wgpu::PresentMode::FifoRelaxed,
        bevy_window::PresentMode::Mailbox => wgpu::PresentMode::Mailbox,
        bevy_window::PresentMode::Immediate => wgpu::PresentMode::Immediate,
        bevy_window::PresentMode::AutoVsync => wgpu::PresentMode::AutoVsync,
        bevy_window::PresentMode::AutoNoVsync => wgpu::PresentMode::AutoNoVsync,
    }
}

/// The modes that may stand for a requested one, the best first. The last is always `Fifo`.
pub open spec fn present_mode_fallbacks(mode: wgpu::PresentMode) -> Seq<wgpu::PresentMode> {
    match mode {
        wgpu::PresentMode::AutoVsync => seq![
            wgpu::PresentMode::FifoRelaxed,
            wgpu::PresentMode::Fifo,
        ],
        wgpu::PresentMode::AutoNoVsync => seq![
            wgpu::PresentMode::Immediate,
            wgpu::PresentMode::Mailbox,
            wgpu::PresentMode::Fifo,
        ],
        wgpu::PresentMode::Mailbox => seq![
            wgpu::PresentMode::Mailbox,
            wgpu::PresentMode::Immediate,
            wgpu::PresentMode::Fifo,
        ],
        other => seq![other, wgpu::PresentMode::Fifo],
    }
}

/// The first of the options that is supported.
pub open spec fn first_supported(
    options: Seq<wgpu::PresentMode>,
    supported: Seq<wgpu::PresentMode>,
) -> Option<wgpu::PresentMode>
    decreases options.len(),
{
    if options.len() == 0 {
        None
    } else if supported.contains(options[0]) {
        Some(options[0])
    } else {
        first_supported(options.drop_first(), supported)
    }
}

/// The mode in which a window with this setting is presented, where the supported modes have one
/// for it.
pub open spec fn chosen_present_mode(
    mode: bevy_window::PresentMode,
    supported: Seq<wgpu::PresentMode>,
) -> Option<wgpu::PresentMode> {
    first_supported(present_mode_fallbacks(requested_present_mode(mode)), supported)
}

/// The surface presentation mode that a window asks for.
pub fn surface_present_mode(mode: bevy_window::PresentMode) -> (requested: wgpu::PresentMode)
    ensures
        requested == requested_present_mode(mode),
{
    match mode {
        bevy_window::PresentMode::Fifo => wgpu::PresentMode::Fifo,
        bevy_window::PresentMode::FifoRelaxed => wgpu::PresentMode::FifoRelaxed,
        bevy_window::PresentMode::Mailbox => wgpu::PresentMode::Mailbox,
        bevy_window::PresentMode::Immediate => wgpu::PresentMode::Immediate,
        bevy_window::PresentMode::AutoVsync => wgpu::PresentMode::AutoVsync,
        bevy_window::PresentMode::AutoNoVsync => wgpu::PresentMode::AutoNoVsync,
    }
}

fn fallbacks_of(mode: wgpu::PresentMode) -> (fallbacks: Vec<wgpu::PresentMode>)
    ensures
        fallbacks@ == present_mode_fallbacks(mode),
{
    let fallbacks: Vec<wgpu::PresentMode> = match mode {
        wgpu::PresentMode::AutoVsync => vec![
            wgpu::PresentMode::FifoRelaxed,
            wgpu::PresentMode::Fifo,
        ],
        wgpu::PresentMode::AutoNoVsync => vec![
            wgpu::PresentMode::Immediate,
            wgpu::PresentMode::Mailbox,
            wgpu::PresentMode::Fifo,
        ],
        wgpu::PresentMode::Mailbox => vec![
            wgpu::PresentMode::Mailbox,
            wgpu::PresentMode::Immediate,
            wgpu::PresentMode::Fifo,
        ],
        // Always ends in Fifo, which is supported everywhere.
        other => vec![other, wgpu::PresentMode::Fifo],
    };
    assert(fallbacks@ =~= present_mode_fallbacks(mode));
    fallbacks
}

fn supports(supported: &Vec<wgpu::PresentMode>, mode: wgpu::PresentMode) -> (found: bool)
    ensures
        found == supported@.contains(mode),
{
    let mut i: usize = 0;
    while i < supported.len()
        invariant
            i <= supported.len(),
            forall|j: int| 0 <= j < i ==> supported@[j] != mode,
        decreases supported.len() - i,
    {
        if formats::same_present_mode(supported[i], mode) {
            return true;
        }
        i = i + 1;
    }
    false
}

/// Picks the best presentation mode for a window out of those that the surface supports; none
/// where it supports no mode that may stand for the one asked for.
pub fn supported_present_mode(
    window: &ExtractedWindow,
    capabilities: &SurfaceCapabilities,
) -> (chosen: Option<wgpu::PresentMode>)
    ensures
        chosen == chosen_present_mode(window.present_mode, capabilities.present_modes@),
{
    let fallbacks = fallbacks_of(surface_present_mode(window.present_mode));
    let ghost supported = capabilities.present_modes@;
    let mut i: usize = 0;
    assert(fallbacks@.skip(0) =~= fallbacks@);
    while i < fallbacks.len()
        invariant
            i <= fallbacks.len(),
            fallbacks@ == present_mode_fallbacks(requested_present_mode(window.present_mode)),
            supported == capabilities.present_modes@,
            first_supported(fallbacks@, supported) == first_supported(
                fallbacks@.skip(i as int),
                supported,
            ),
        decreases fallbacks.len() - i,
    {
        if supports(&capabilities.present_modes, fallbacks[i]) {
            return Some(fallbacks[i]);
        }
        assert(fallbacks@.skip(i as int).drop_first() =~= fallbacks@.skip(i as int + 1));
        i = i + 1;
    }
    None
}

/// Picks the best presentation mode for a window out of those that the surface supports, of which
/// one has to do.
pub fn present_mode(window: &ExtractedWindow, capabilities: &SurfaceCapabilities) -> (chosen:
    wgpu::PresentMode)
    requires
        chosen_present_mode(window.present_mode, capabilities.present_modes@) is Some,
    ensures
        Some(chosen) == chosen_present_mode(window.present_mode, capabilities.present_modes@),
{
    supported_present_mode(window, capabilities).unwrap()
}

/// Whether it is worth a report that a window is not presented as it asked to be: the mode that it
/// asked for might have been taken, and another one was. A window that leaves the choice open
/// always gets some other mode, which is no news.
pub fn reports_fallback(window: &ExtractedWindow, capabilities: &SurfaceCapabilities) -> (reported:
    bool)
    requires
        chosen_present_mode(window.present_mode, capabilities.present_modes@) is Some,
    ensures
        reported == ({
            let requested = requested_present_mode(window.present_mode);
            let chosen = chosen_present_mode(window.present_mode, capabilities.present_modes@)->0;
            chosen != requested && present_mode_fallbacks(requested).contains(requested)
        }),
        reported ==> window.present_mode is FifoRelaxed || window.present_mode is Mailbox
            || window.present_mode is Immediate,
        window.present_mode is FifoRelaxed ==> reported == !capabilities.present_modes@.contains(
            wgpu::PresentMode::FifoRelaxed,
        ),
        window.present_mode is Mailbox ==> reported == !capabilities.present_modes@.contains(
            wgpu::PresentMode::Mailbox,
        ),
        window.present_mode is Immediate ==> reported == !capabilities.present_modes@.contains(
            wgpu::PresentMode::Immediate,
        ),
{
    proof {
        laws::configuration::every_request_has_its_order_of_modes(capabilities.present_modes@);
        laws::configuration::fallback_is_reported_where_request_is_unsupported(
            window.present_mode,
            capabilities.present_modes@,
        );
    }
    let requested = surface_present_mode(window.present_mode);
    let chosen = present_mode(window, capabilities);
    !formats::same_present_mode(chosen, requested) && supports(&fallbacks_of(requested), requested)
}

/// The formats that a surface is preferably given: the sRGB formats that a surface can have.
pub open spec fn is_preferred_format(format: TextureFormat) -> bool {
    format is Rgba8UnormSrgb || format is Bgra8UnormSrgb
}

/// The first preferred format in the list.
pub open spec fn first_preferred(formats: Seq<TextureFormat>) -> Option<TextureFormat>
    decreases formats.len(),
{
    if formats.len() == 0 {
        None
    } else if is_preferred_format(formats[0]) {
        Some(formats[0])
    } else {
        first_preferred(formats.drop_first())
    }
}

/// The format that a surface gets: the first preferred one, or else the first of all.
pub open spec fn chosen_format(formats: Seq<TextureFormat>) -> TextureFormat {
    match first_preferred(formats) {
        Some(format) => format,
        None => formats[0],
    }
}

/// Picks the format of a surface out of those that it supports.
pub fn surface_format(formats: &Vec<TextureFormat>) -> (format: TextureFormat)
    requires
        formats.len() > 0,
    ensures
        format == chosen_format(formats@),
{
    let mut i: usize = 0;
    assert(formats@.skip(0) =~= formats@);
    while i < formats.len()
        invariant
            i <= formats.len(),
            first_preferred(formats@) == first_preferred(formats@.skip(i as int)),
        decreases formats.len() - i,
    {
        if matches!(formats[i], TextureFormat::Rgba8UnormSrgb | TextureFormat::Bgra8UnormSrgb) {
            return formats[i];
        }
        assert(formats@.skip(i as int).drop_first() =~= formats@.skip(i as int + 1));
        i = i + 1;
    }
    formats[0]
}

/// The surface alpha mode that a window asks for.
pub open spec fn requested_alpha_mode(
    mode: bevy_window::CompositeAlphaMode,
) -> wgpu::CompositeAlphaMode {
    match mode {
        bevy_window::CompositeAlphaMode::Auto => wgpu::CompositeAlphaMode::Auto,
        bevy_window::CompositeAlphaMode::Opaque => wgpu::CompositeAlphaMode::Opaque,
        bevy_window::CompositeAlphaMode::PreMultiplied => wgpu::CompositeAlphaMode::PreMultiplied,
        bevy_window::CompositeAlphaMode::PostMultiplied => wgpu::CompositeAlphaMode::PostMultiplied,
        bevy_window::CompositeAlphaMode::Inherit => wgpu::CompositeAlphaMode::Inherit,
    }
}

fn surface_alpha_mode(mode: bevy_window::CompositeAlphaMode) -> (alpha_mode:
    wgpu::CompositeAlphaMode)
    ensures
        alpha_mode == requested_alpha_mode(mode),
{
    match mode {
        bevy_window::CompositeAlphaMode::Auto => wgpu::CompositeAlphaMode::Auto,
        bevy_window::CompositeAlphaMode::Opaque => wgpu::CompositeAlphaMode::Opaque,
        bevy_window::CompositeAlphaMode::PreMultiplied => wgpu::CompositeAlphaMode::PreMultiplied,
        bevy_window::CompositeAlphaMode::PostMultiplied => wgpu::CompositeAlphaMode::PostMultiplied,
        bevy_window::CompositeAlphaMode::Inherit => wgpu::CompositeAlphaMode::Inherit,
    }
}

/// The further format in which textures of this format are viewed: its sRGB twin, unless it is
/// sRGB itself.
pub open spec fn extra_view_format(format: TextureFormat) -> Option<TextureFormat> {
    if formats::has_srgb_suffix(format) {
        None
    } else {
        Some(formats::with_srgb_suffix(format))
    }
}

/// Whether a surface with these capabilities can show the window at all.
pub open spec fn can_show(window: ExtractedWindow, capabilities: SurfaceCapabilities) -> bool {
    &&& capabilities.formats@.len() > 0
    &&& chosen_present_mode(window.present_mode, capabilities.present_modes@) is Some
}

/// The data of a surface that was just created for a window.
pub open spec fn initial_surface_data(
    window: ExtractedWindow,
    surface: SurfaceId,
    capabilities: SurfaceCapabilities,
) -> SurfaceData {
    let format = chosen_format(capabilities.formats@);
    SurfaceData {
        surface,
        configuration: SurfaceConfiguration {
            usage: TextureUsages { copy_src: false, copy_dst: true, render_attachment: true },
            format,
            width: window.physical_width,
            height: window.physical_height,
            present_mode: chosen_present_mode(
                window.present_mode,
                capabilities.present_modes@,
            )->0,
            desired_maximum_frame_latency: match window.desired_maximum_frame_latency {
                Some(latency) => latency,
                None => DEFAULT_DESIRED_MAXIMUM_FRAME_LATENCY,
            },
            alpha_mode: requested_alpha_mode(window.alpha_mode),
            view_formats: extra_view_format(format),
        },
        texture_view_format: extra_view_format(format),
    }
}

/// Works out the configuration of a surface that was just created for a window.
pub fn new_surface_data(
    window: &ExtractedWindow,
    surface: SurfaceId,
    capabilities: &SurfaceCapabilities,
) -> (data: SurfaceData)
    requires
        can_show(*window, *capabilities),
    ensures
        data == initial_surface_data(*window, surface, *capabilities),
{
    let present_mode = present_mode(window, capabilities);
    let format = surface_format(&capabilities.formats);
    let texture_view_format = if !format.is_srgb() {
        Some(format.add_srgb_suffix())
    } else {
        None
    };
    let configuration = SurfaceConfiguration {
        usage: TextureUsages { copy_src: false, copy_dst: true, render_attachment: true },
        format,
        width: window.physical_width,
        height: window.physical_height,
        present_mode,
        desired_maximum_frame_latency: match window.desired_maximum_frame_latency {
            Some(latency) => latency,
            None => DEFAULT_DESIRED_MAXIMUM_FRAME_LATENCY,
        },
        alpha_mode: surface_alpha_mode(window.alpha_mode),
        view_formats: texture_view_format,
    };
    SurfaceData { surface, configuration, texture_view_format }
}

} // verus!
