//! Acquiring the frames that the windows are rendered to.
//!
//! Acquiring a frame can take long where the GPU is the bottleneck. A pass over the windows asks
//! its caller for a frame only where a window is about to be rendered to and holds none.

use bevy_ecs::entity::Entity;
use vstd::prelude::*;
use wgpu::SurfaceError;

use crate::containers;
use crate::offscreen::{LayerId, OffscreenBlitState};
use crate::pending;
use crate::surface::{SurfaceConfiguration, SurfaceData, SurfaceId, WindowSurfaces};
use crate::window::{ExtractedWindow, ExtractedWindows, SurfaceTexture};

verus! {

/// Where a camera renders to.
#[derive(Clone, Copy, Debug, PartialEq, Eq)]
pub enum CameraTarget {
    Window(Entity),
    /// An image, a texture view, or nothing at all.
    Other,
}

/// The operating system, as far as it matters here.
#[derive(Clone, Copy, Debug, PartialEq, Eq, Structural)]
pub enum Platform {
    Linux,
    MacOs,
    Other,
}

/// What the caller reports to a pass.
#[derive(Debug, PartialEq, Eq)]
pub enum FrameEvent {
    /// The pass is to begin, or to go on with the next window.
    Resume,
    /// The shutdown flag was raised; before, it was as said here.
    ShutdownFlagWas(bool),
    /// Acquiring a frame gave this.
    Frame(Result<SurfaceTexture, SurfaceError>),
    /// The surface was configured.
    Configured,
    /// The Vulkan adapters of the machine have these names.
    AdapterNames(Vec<String>),
}

/// What a pass asks its caller to do.
#[derive(Debug, PartialEq, Eq)]
pub enum FrameCommand {
    /// Raise the shutdown flag of the offscreen blit, and report what it was.
    RaiseShutdownFlag,
    /// Take the layer out of its parent, so that no one waits for a drawable of it any more.
    /// Report `Resume`.
    DetachLayer(LayerId),
    /// Acquire a frame of the surface, and report `Frame`.
    Acquire { window: Entity, surface: SurfaceId },
    /// Configure the surface, and report `Configured`.
    Configure { window: Entity, surface: SurfaceId, configuration: SurfaceConfiguration },
    /// List the names of the Vulkan adapters, and report `AdapterNames`.
    ListAdapters(Entity),
    /// The pass is through with this window, or with its opening. Report `Resume`.
    Continue,
    /// All windows are prepared.
    Done,
    /// No frame can be had, and there is no way to go on. The pass is over.
    Fail { window: Entity, error: SurfaceError },
}

/// What a pass waits for.
#[derive(Clone, Copy, Debug, PartialEq, Eq)]
pub enum FrameStage {
    Begin,
    AwaitShutdownFlag,
    NextWindow,
    AwaitFrame(Entity),
    AwaitConfiguration(Entity),
    AwaitFrameAgain(Entity),
    AwaitAdapterNames(Entity),
    Failed,
}

/// A pass that acquires a frame for every window that is about to be rendered to.
pub struct WindowPreparation {
    /// Windows that the pass has not come to yet.
    pub pending: Vec<Entity>,
    pub stage: FrameStage,
    /// The target of each camera that has one.
    pub cameras: Vec<Option<CameraTarget>>,
    /// The offscreen blit, where it is active.
    pub offscreen_blit: Option<OffscreenBlitState>,
    pub platform: Platform,
}

/// A pass together with the state that it works on.
#[verifier::ext_equal]
pub struct WindowPreparationModel {
    pub windows: Map<Entity, ExtractedWindow>,
    pub surfaces: Map<Entity, SurfaceData>,
    pub pending: Seq<Entity>,
    pub stage: FrameStage,
    pub cameras: Seq<Option<CameraTarget>>,
    pub offscreen_blit: Option<OffscreenBlitState>,
    pub platform: Platform,
}

/// Whether some camera renders to the window.
pub open spec fn is_targeted(cameras: Seq<Option<CameraTarget>>, window: Entity) -> bool {
    cameras.contains(Some(CameraTarget::Window(window)))
}

/// Whether the adapter's driver is known to time out for no good reason.
pub open spec fn may_erroneously_timeout(name: Seq<char>) -> bool {
    ||| "Radeon"@.is_prefix_of(name)
    ||| "AMD"@.is_prefix_of(name)
    ||| "Intel"@.is_prefix_of(name)
}

/// Whether any of the adapters has such a driver.
pub open spec fn timeout_is_excusable(names: Seq<String>) -> bool {
    exists|i: int| 0 <= i < names.len() && may_erroneously_timeout(#[trigger] names[i]@)
}

/// Whether a window takes no part in rendering, so that no frame is acquired for it.
///
/// A window that no camera targets still needs a first frame to be shown, unless the offscreen
/// blit presents to it.
pub open spec fn is_idle(
    window: ExtractedWindow,
    cameras: Seq<Option<CameraTarget>>,
    has_offscreen_blit: bool,
) -> bool {
    !is_targeted(cameras, window.entity) && (!window.needs_initial_present || has_offscreen_blit)
}

/// Whether a window goes on with the frame that it holds.
pub open spec fn keeps_frame(window: ExtractedWindow) -> bool {
    window.holds_frame() && !window.changed()
}

impl WindowPreparationModel {
    /// The windows to come and the window at hand are known, and the surface at hand is there.
    pub open spec fn well_formed(self) -> bool {
        &&& forall|e: Entity| #[trigger]
            self.windows.dom().contains(e) ==> self.windows[e].entity == e
        &&& forall|i: int|
            0 <= i < self.pending.len() ==> self.windows.dom().contains(#[trigger] self.pending[i])
        &&& match self.stage {
            FrameStage::Begin | FrameStage::NextWindow | FrameStage::Failed => true,
            FrameStage::AwaitShutdownFlag => self.offscreen_blit is Some,
            FrameStage::AwaitFrame(e)
            | FrameStage::AwaitConfiguration(e)
            | FrameStage::AwaitFrameAgain(e)
            | FrameStage::AwaitAdapterNames(e) => self.windows.dom().contains(e)
                && self.surfaces.dom().contains(e),
        }
    }

    /// Whether the event is the one that the pass waits for.
    pub open spec fn accepts(self, event: FrameEvent) -> bool {
        match self.stage {
            FrameStage::Begin | FrameStage::NextWindow => event is Resume,
            FrameStage::AwaitShutdownFlag => event is ShutdownFlagWas,
            FrameStage::AwaitFrame(_) | FrameStage::AwaitFrameAgain(_) => event is Frame,
            FrameStage::AwaitConfiguration(_) => event is Configured,
            FrameStage::AwaitAdapterNames(_) => event is AdapterNames,
            FrameStage::Failed => false,
        }
    }

    /// The pass goes on with the next window.
    pub open spec fn next(self) -> (WindowPreparationModel, FrameCommand) {
        (
            WindowPreparationModel { stage: FrameStage::NextWindow, ..self },
            FrameCommand::Continue,
        )
    }

    /// The window becomes `window`, and the pass goes on with the next one.
    pub open spec fn settle(self, e: Entity, window: ExtractedWindow) -> (
        WindowPreparationModel,
        FrameCommand,
    ) {
        (
            WindowPreparationModel {
                windows: self.windows.insert(e, window),
                stage: FrameStage::NextWindow,
                ..self
            },
            FrameCommand::Continue,
        )
    }

    /// The window waits in `stage` for what `command` brings.
    pub open spec fn wait(self, stage: FrameStage, command: FrameCommand) -> (
        WindowPreparationModel,
        FrameCommand,
    ) {
        (WindowPreparationModel { stage, ..self }, command)
    }

    /// The window with the surface's format noted on it.
    pub open spec fn formatted(self, e: Entity, window: ExtractedWindow) -> ExtractedWindow {
        ExtractedWindow {
            swap_chain_texture_format: Some(self.surfaces[e].configuration.format),
            ..window
        }
    }

    /// What the pass does with a window that it comes to.
    pub open spec fn visit(self, e: Entity) -> (WindowPreparationModel, FrameCommand) {
        let window = self.windows[e];
        let has_offscreen_blit = self.offscreen_blit is Some;
        if !self.surfaces.dom().contains(e) {
            self.next()
        } else if is_idle(window, self.cameras, has_offscreen_blit) {
            self.settle(
                e,
                ExtractedWindow {
                    needs_initial_present: window.needs_initial_present && !has_offscreen_blit,
                    ..self.formatted(e, window)
                },
            )
        } else if keeps_frame(window) {
            self.next()
        } else {
            self.wait(
                FrameStage::AwaitFrame(e),
                FrameCommand::Acquire { window: e, surface: self.surfaces[e].surface },
            )
        }
    }

    /// What the pass does on an event, and what it asks for next.
    pub open spec fn step(self, event: FrameEvent) -> (WindowPreparationModel, FrameCommand)
        recommends
            self.well_formed(),
            self.accepts(event),
    {
        match (self.stage, event) {
            (FrameStage::Begin, _) => if self.platform == Platform::MacOs && self.pending.len()
                == 0 && self.offscreen_blit is Some {
                self.wait(FrameStage::AwaitShutdownFlag, FrameCommand::RaiseShutdownFlag)
            } else {
                self.next()
            },
            (FrameStage::AwaitShutdownFlag, FrameEvent::ShutdownFlagWas(raised)) => {
                if raised {
                    self.next()
                } else {
                    match self.offscreen_blit->0.metal_state {
                        Some(metal_state) => self.wait(
                            FrameStage::NextWindow,
                            FrameCommand::DetachLayer(metal_state.layer),
                        ),
                        None => self.next(),
                    }
                }
            },
            (FrameStage::NextWindow, _) => if self.pending.len() == 0 {
                (self, FrameCommand::Done)
            } else {
                let next = WindowPreparationModel { pending: self.pending.drop_last(), ..self };
                next.visit(self.pending.last())
            },
            (FrameStage::AwaitFrame(e), FrameEvent::Frame(result)) => match result {
                Ok(frame) => self.settle(e, self.formatted(e, self.windows[e].with_frame(frame))),
                Err(SurfaceError::Outdated) => self.wait(
                    FrameStage::AwaitConfiguration(e),
                    FrameCommand::Configure {
                        window: e,
                        surface: self.surfaces[e].surface,
                        configuration: self.surfaces[e].configuration,
                    },
                ),
                Err(error) => if error is Timeout && self.platform == Platform::Linux {
                    self.wait(FrameStage::AwaitAdapterNames(e), FrameCommand::ListAdapters(e))
                } else {
                    self.wait(FrameStage::Failed, FrameCommand::Fail { window: e, error })
                },
            },
            (FrameStage::AwaitConfiguration(e), _) => self.wait(
                FrameStage::AwaitFrameAgain(e),
                FrameCommand::Acquire { window: e, surface: self.surfaces[e].surface },
            ),
            (FrameStage::AwaitFrameAgain(e), FrameEvent::Frame(result)) => match result {
                Ok(frame) => self.settle(e, self.formatted(e, self.windows[e].with_frame(frame))),
                Err(_) => self.next(),
            },
            (FrameStage::AwaitAdapterNames(e), FrameEvent::AdapterNames(names)) => {
                if timeout_is_excusable(names@) {
                    self.settle(e, self.formatted(e, self.windows[e]))
                } else {
                    self.wait(
                        FrameStage::Failed,
                        FrameCommand::Fail { window: e, error: SurfaceError::Timeout },
                    )
                }
            },
            _ => (self, FrameCommand::Done),
        }
    }
}

/// Begins a pass over all windows that acquires the frames which are about to be rendered to.
pub fn prepare_windows(
    windows: &ExtractedWindows,
    cameras: Vec<Option<CameraTarget>>,
    offscreen_blit: Option<OffscreenBlitState>,
    platform: Platform,
) -> (pass: WindowPreparation)
    ensures
        pass.pending@.no_duplicates(),
        pass.pending@.to_set() == windows@.dom(),
        pass.stage == FrameStage::Begin,
        pass.cameras == cameras,
        pass.offscreen_blit == offscreen_blit,
        pass.platform == platform,
        windows.well_formed() ==> forall|window_surfaces: &WindowSurfaces| #[trigger]
            pass.model(windows, window_surfaces).well_formed(),
{
    let pending = containers::window_keys(&windows.windows);
    proof {
        pending::lemma_listed_windows_are_known(pending@, windows@.dom());
    }
    WindowPreparation {
        pending,
        stage: FrameStage::Begin,
        cameras,
        offscreen_blit,
        platform,
    }
}

/// Whether any of the adapters has a driver that is known to time out for no good reason.
pub fn any_may_erroneously_timeout(names: &Vec<String>) -> (any: bool)
    ensures
        any == timeout_is_excusable(names@),
        any <==> exists|i: int|
            0 <= i < names@.len() && ("Radeon"@.is_prefix_of((#[trigger] names@[i])@)
                || "AMD"@.is_prefix_of(names@[i]@) || "Intel"@.is_prefix_of(names@[i]@)),
{
    let mut i: usize = 0;
    while i < names.len()
        invariant
            i <= names.len(),
            forall|j: int| 0 <= j < i ==> !may_erroneously_timeout(#[trigger] names@[j]@),
        decreases names.len() - i,
    {
        let name = names[i].as_str();
        if starts_with(name, "Radeon") || starts_with(name, "AMD") || starts_with(name, "Intel") {
            return true;
        }
        i = i + 1;
    }
    false
}

fn starts_with(text: &str, prefix: &str) -> (starts: bool)
    ensures
        starts == prefix@.is_prefix_of(text@),
{
    let len: usize = prefix.unicode_len();
    if text.unicode_len() < len {
        return false;
    }
    let mut i: usize = 0;
    while i < len
        invariant
            i <= len,
            len == prefix@.len(),
            len <= text@.len(),
            forall|j: int| 0 <= j < i ==> prefix@[j] == text@[j],
        decreases len - i,
    {
        if prefix.get_char(i) != text.get_char(i) {
            assert(text@.subrange(0, prefix@.len() as int)[i as int] == text@[i as int]);
            return false;
        }
        i = i + 1;
    }
    assert(text@.subrange(0, prefix@.len() as int) =~= prefix@);
    true
}

impl WindowPreparation {
    /// The pass together with the state that it works on.
    pub open spec fn model(
        &self,
        windows: &ExtractedWindows,
        window_surfaces: &WindowSurfaces,
    ) -> WindowPreparationModel {
        WindowPreparationModel {
            windows: windows@,
            surfaces: window_surfaces.data(),
            pending: self.pending@,
            stage: self.stage,
            cameras: self.cameras@,
            offscreen_blit: self.offscreen_blit,
            platform: self.platform,
        }
    }

    /// Takes what the caller reports, and says what it is to do next.
    pub fn step(
        &mut self,
        event: FrameEvent,
        windows: &mut ExtractedWindows,
        window_surfaces: &WindowSurfaces,
    ) -> (command: FrameCommand)
        requires
            old(self).model(old(windows), window_surfaces).well_formed(),
            old(self).model(old(windows), window_surfaces).accepts(event),
        ensures
            (final(self).model(final(windows), window_surfaces), command) == old(self).model(
                old(windows),
                window_surfaces,
            ).step(event),
            final(self).model(final(windows), window_surfaces).well_formed(),
            final(windows).primary == old(windows).primary,
            old(windows).well_formed() ==> final(windows).well_formed(),
    {
        match (self.stage, event) {
            (FrameStage::Begin, FrameEvent::Resume) => {
                if self.platform == Platform::MacOs && self.pending.len() == 0
                    && self.offscreen_blit.is_some() {
                    self.stage = FrameStage::AwaitShutdownFlag;
                    FrameCommand::RaiseShutdownFlag
                } else {
                    self.stage = FrameStage::NextWindow;
                    FrameCommand::Continue
                }
            },
            (FrameStage::AwaitShutdownFlag, FrameEvent::ShutdownFlagWas(raised)) => {
                self.stage = FrameStage::NextWindow;
                if raised {
                    FrameCommand::Continue
                } else {
                    match self.offscreen_blit.unwrap().metal_state {
                        Some(metal_state) => FrameCommand::DetachLayer(metal_state.layer),
                        None => FrameCommand::Continue,
                    }
                }
            },
            (FrameStage::NextWindow, FrameEvent::Resume) => {
                match self.pending.pop() {
                    None => FrameCommand::Done,
                    Some(e) => {
                        proof {
                            let before = old(self).model(old(windows), window_surfaces);
                            assert(before.windows.dom().contains(
                                before.pending[before.pending.len() - 1],
                            ));
                        }
                        self.visit(e, windows, window_surfaces)
                    },
                }
            },
            (FrameStage::AwaitFrame(e), FrameEvent::Frame(result)) => {
                match result {
                    Ok(frame) => self.take_frame(e, frame, windows, window_surfaces),
                    Err(SurfaceError::Outdated) => {
                        let data = containers::surface_get(
                            &window_surfaces.surfaces,
                            e,
                        ).unwrap();
                        self.stage = FrameStage::AwaitConfiguration(e);
                        FrameCommand::Configure {
                            window: e,
                            surface: data.surface,
                            configuration: data.configuration,
                        }
                    },
                    Err(error) => {
                        if self.platform == Platform::Linux && matches!(
                            error,
                            SurfaceError::Timeout
                        ) {
                            self.stage = FrameStage::AwaitAdapterNames(e);
                            FrameCommand::ListAdapters(e)
                        } else {
                            self.stage = FrameStage::Failed;
                            FrameCommand::Fail { window: e, error }
                        }
                    },
                }
            },
            (FrameStage::AwaitConfiguration(e), FrameEvent::Configured) => {
                let data = containers::surface_get(&window_surfaces.surfaces, e).unwrap();
                self.stage = FrameStage::AwaitFrameAgain(e);
                FrameCommand::Acquire { window: e, surface: data.surface }
            },
            (FrameStage::AwaitFrameAgain(e), FrameEvent::Frame(result)) => {
                match result {
                    Ok(frame) => self.take_frame(e, frame, windows, window_surfaces),
                    Err(_) => {
                        // Common on X11 and Xwayland with NVIDIA drivers, when a window is opened
                        // or resized.
                        self.stage = FrameStage::NextWindow;
                        FrameCommand::Continue
                    },
                }
            },
            (FrameStage::AwaitAdapterNames(e), FrameEvent::AdapterNames(names)) => {
                if any_may_erroneously_timeout(&names) {
                    let data = containers::surface_get(&window_surfaces.surfaces, e).unwrap();
                    let window = containers::window_get_mut(&mut windows.windows, e).unwrap();
                    window.swap_chain_texture_format = Some(data.configuration.format);
                    self.stage = FrameStage::NextWindow;
                    FrameCommand::Continue
                } else {
                    self.stage = FrameStage::Failed;
                    FrameCommand::Fail { window: e, error: SurfaceError::Timeout }
                }
            },
            _ => FrameCommand::Done,
        }
    }

    fn targets(&self, entity: Entity) -> (targeted: bool)
        ensures
            targeted == is_targeted(self.cameras@, entity),
    {
        let mut i: usize = 0;
        while i < self.cameras.len()
            invariant
                i <= self.cameras.len(),
                forall|j: int|
                    0 <= j < i ==> self.cameras@[j] != Some(CameraTarget::Window(entity)),
            decreases self.cameras.len() - i,
        {
            if let Some(CameraTarget::Window(target)) = self.cameras[i] {
                if containers::same_entity(target, entity) {
                    return true;
                }
            }
            i = i + 1;
        }
        false
    }

    fn visit(
        &mut self,
        e: Entity,
        windows: &mut ExtractedWindows,
        window_surfaces: &WindowSurfaces,
    ) -> (command: FrameCommand)
        requires
            old(windows)@.dom().contains(e),
            old(windows)@[e].entity == e,
            old(self).stage == FrameStage::NextWindow,
        ensures
            (final(self).model(final(windows), window_surfaces), command) == old(self).model(
                old(windows),
                window_surfaces,
            ).visit(e),
            final(windows).primary == old(windows).primary,
    {
        let has_offscreen_blit = self.offscreen_blit.is_some();
        match containers::surface_get(&window_surfaces.surfaces, e) {
            None => FrameCommand::Continue,
            Some(data) => {
                let window = containers::window_get_mut(&mut windows.windows, e).unwrap();
                if !self.targets(window.entity) && (!window.needs_initial_present
                    || has_offscreen_blit) {
                    window.swap_chain_texture_format = Some(data.configuration.format);
                    if has_offscreen_blit {
                        window.needs_initial_present = false;
                    }
                    FrameCommand::Continue
                } else {
                    assert(old(windows)@.insert(e, old(windows)@[e]) =~= old(windows)@);
                    if window.has_swapchain_texture() && !window.size_changed
                        && !window.present_mode_changed {
                        // The last frame was not presented, so it can be used further.
                        FrameCommand::Continue
                    } else {
                        self.stage = FrameStage::AwaitFrame(e);
                        FrameCommand::Acquire { window: e, surface: data.surface }
                    }
                }
            },
        }
    }

    fn take_frame(
        &mut self,
        e: Entity,
        frame: SurfaceTexture,
        windows: &mut ExtractedWindows,
        window_surfaces: &WindowSurfaces,
    ) -> (command: FrameCommand)
        requires
            old(windows)@.dom().contains(e),
            window_surfaces.data().dom().contains(e),
        ensures
            ({
                let before = old(self).model(old(windows), window_surfaces);
                (final(self).model(final(windows), window_surfaces), command) == before.settle(
                    e,
                    before.formatted(e, before.windows[e].with_frame(frame)),
                )
            }),
            final(windows).primary == old(windows).primary,
    {
        let data = containers::surface_get(&window_surfaces.surfaces, e).unwrap();
        let window = containers::window_get_mut(&mut windows.windows, e).unwrap();
        window.set_swapchain_texture(frame);
        window.swap_chain_texture_format = Some(data.configuration.format);
        self.stage = FrameStage::NextWindow;
        FrameCommand::Continue
    }
}

} // verus!
