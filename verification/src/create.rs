//! Creating and configuring the surfaces of the windows.
//!
//! Surfaces are created, queried and configured by the caller. A pass over the windows asks for
//! that work command by command:
//!
//! - a window without a surface gets one: `Create`, then `Configure`;
//! - a window whose size or presentation mode changed is configured anew: `QueryCapabilities`,
//!   then `Configure`;
//! - after either, or none of it, the window is `Ready`.

use bevy_ecs::entity::Entity;
use vstd::prelude::*;

use crate::containers;
use crate::pending;
use crate::surface;
use crate::surface::{
    SurfaceCapabilities, SurfaceConfiguration, SurfaceData, SurfaceId, WindowSurfaces,
};
use crate::window::{ExtractedWindow, ExtractedWindows, RawHandleId};

verus! {

/// What the caller reports to a pass.
#[derive(Debug, PartialEq, Eq)]
pub enum SurfaceEvent {
    /// The pass is to go on with the next window.
    Resume,
    /// A surface was created, and has these capabilities.
    Created { surface: SurfaceId, capabilities: SurfaceCapabilities },
    /// The surface has these capabilities.
    Capabilities(SurfaceCapabilities),
    /// The surface was configured.
    Configured,
}

/// Why a window cannot be shown on its surface.
#[derive(Clone, Copy, Debug, PartialEq, Eq, Structural)]
pub enum SurfaceFailure {
    /// No supported presentation mode may stand for the one that the window asks for.
    NoPresentMode,
    /// The surface supports no format.
    NoFormat,
}

/// What a pass asks its caller to do.
#[derive(Clone, Copy, Debug, PartialEq, Eq)]
pub enum SurfaceCommand {
    /// Create a surface on these handles, query its capabilities, and report `Created`.
    Create { window: Entity, handle: RawHandleId },
    /// Query the capabilities of the surface, and report `Capabilities`.
    QueryCapabilities { window: Entity, surface: SurfaceId },
    /// Configure the surface, and report `Configured`.
    Configure { window: Entity, surface: SurfaceId, configuration: SurfaceConfiguration },
    /// The surface of this window is configured. Report `Resume`.
    Ready(Entity),
    /// All windows are ready.
    Done,
    /// The window cannot be shown. The pass is over.
    Fail { window: Entity, failure: SurfaceFailure },
}

/// What a pass waits for.
#[derive(Clone, Copy, Debug, PartialEq, Eq)]
pub enum SurfaceStage {
    NextWindow,
    AwaitSurface(Entity),
    AwaitFirstConfiguration(Entity),
    AwaitCapabilities(Entity),
    AwaitConfiguration(Entity),
    Failed,
}

/// A pass that gives every window a configured surface.
pub struct SurfaceCreation {
    /// Windows that the pass has not come to yet.
    pub pending: Vec<Entity>,
    pub stage: SurfaceStage,
}

/// A pass together with the state that it works on.
#[verifier::ext_equal]
pub struct SurfaceCreationModel {
    pub windows: Map<Entity, ExtractedWindow>,
    pub surfaces: Map<Entity, SurfaceData>,
    pub configured: Set<Entity>,
    pub pending: Seq<Entity>,
    pub stage: SurfaceStage,
}

impl SurfaceCreationModel {
    /// The windows to come and the window at hand are known, and the surface at hand is there.
    pub open spec fn well_formed(self) -> bool {
        &&& forall|e: Entity| #[trigger]
            self.windows.dom().contains(e) ==> self.windows[e].entity == e
        &&& forall|i: int|
            0 <= i < self.pending.len() ==> self.windows.dom().contains(#[trigger] self.pending[i])
        &&& match self.stage {
            SurfaceStage::NextWindow | SurfaceStage::Failed => true,
            SurfaceStage::AwaitSurface(e) => self.windows.dom().contains(e),
            SurfaceStage::AwaitFirstConfiguration(e)
            | SurfaceStage::AwaitCapabilities(e)
            | SurfaceStage::AwaitConfiguration(e) => self.windows.dom().contains(e)
                && self.surfaces.dom().contains(e),
        }
    }

    /// Whether the event is the one that the pass waits for.
    pub open spec fn accepts(self, event: SurfaceEvent) -> bool {
        match self.stage {
            SurfaceStage::NextWindow => event is Resume,
            SurfaceStage::AwaitSurface(_) => event is Created,
            SurfaceStage::AwaitFirstConfiguration(_) => event is Configured,
            SurfaceStage::AwaitCapabilities(_) => event is Capabilities,
            SurfaceStage::AwaitConfiguration(_) => event is Configured,
            SurfaceStage::Failed => false,
        }
    }

    /// The window is configured and the pass goes on.
    pub open spec fn ready(self, e: Entity) -> (SurfaceCreationModel, SurfaceCommand) {
        (
            SurfaceCreationModel {
                configured: self.configured.insert(e),
                stage: SurfaceStage::NextWindow,
                ..self
            },
            SurfaceCommand::Ready(e),
        )
    }

    /// The window, which has a surface, is looked at for changes. A changed window loses its
    /// frame, which would not outlive a new configuration.
    pub open spec fn look_for_changes(self, e: Entity) -> (SurfaceCreationModel, SurfaceCommand) {
        if self.windows[e].changed() {
            (
                SurfaceCreationModel {
                    windows: self.windows.insert(e, self.windows[e].without_frame()),
                    surfaces: self.surfaces.insert(
                        e,
                        resized_surface(self.surfaces[e], self.windows[e]),
                    ),
                    stage: SurfaceStage::AwaitCapabilities(e),
                    ..self
                },
                SurfaceCommand::QueryCapabilities { window: e, surface: self.surfaces[e].surface },
            )
        } else {
            self.ready(e)
        }
    }

    /// The window cannot be shown.
    pub open spec fn fail(self, e: Entity, failure: SurfaceFailure) -> (
        SurfaceCreationModel,
        SurfaceCommand,
    ) {
        (
            SurfaceCreationModel { stage: SurfaceStage::Failed, ..self },
            SurfaceCommand::Fail { window: e, failure },
        )
    }

    /// What the pass does on an event, and what it asks for next.
    pub open spec fn step(self, event: SurfaceEvent) -> (SurfaceCreationModel, SurfaceCommand)
        recommends
            self.well_formed(),
            self.accepts(event),
    {
        match (self.stage, event) {
            (SurfaceStage::NextWindow, _) => if self.pending.len() == 0 {
                (self, SurfaceCommand::Done)
            } else {
                let e = self.pending.last();
                let next = SurfaceCreationModel { pending: self.pending.drop_last(), ..self };
                if self.surfaces.dom().contains(e) {
                    next.look_for_changes(e)
                } else {
                    (
                        SurfaceCreationModel { stage: SurfaceStage::AwaitSurface(e), ..next },
                        SurfaceCommand::Create { window: e, handle: self.windows[e].handle },
                    )
                }
            },
            (SurfaceStage::AwaitSurface(e), SurfaceEvent::Created { surface, capabilities }) => {
                let window = self.windows[e];
                if surface::chosen_present_mode(
                    window.present_mode,
                    capabilities.present_modes@,
                ) is None {
                    self.fail(e, SurfaceFailure::NoPresentMode)
                } else if capabilities.formats@.len() == 0 {
                    self.fail(e, SurfaceFailure::NoFormat)
                } else {
                    let data = surface::initial_surface_data(window, surface, capabilities);
                    (
                        SurfaceCreationModel {
                            surfaces: self.surfaces.insert(e, data),
                            stage: SurfaceStage::AwaitFirstConfiguration(e),
                            ..self
                        },
                        SurfaceCommand::Configure {
                            window: e,
                            surface,
                            configuration: data.configuration,
                        },
                    )
                }
            },
            (SurfaceStage::AwaitFirstConfiguration(e), _) => self.look_for_changes(e),
            (SurfaceStage::AwaitCapabilities(e), SurfaceEvent::Capabilities(capabilities)) => {
                match surface::chosen_present_mode(
                    self.windows[e].present_mode,
                    capabilities.present_modes@,
                ) {
                    None => self.fail(e, SurfaceFailure::NoPresentMode),
                    Some(mode) => {
                        let data = presented_surface(self.surfaces[e], mode);
                        (
                            SurfaceCreationModel {
                                surfaces: self.surfaces.insert(e, data),
                                stage: SurfaceStage::AwaitConfiguration(e),
                                ..self
                            },
                            SurfaceCommand::Configure {
                                window: e,
                                surface: data.surface,
                                configuration: data.configuration,
                            },
                        )
                    },
                }
            },
            (SurfaceStage::AwaitConfiguration(e), _) => self.ready(e),
            _ => (self, SurfaceCommand::Done),
        }
    }
}

/// A surface with the size of a window.
pub open spec fn resized_surface(data: SurfaceData, window: ExtractedWindow) -> SurfaceData {
    SurfaceData {
        configuration: SurfaceConfiguration {
            width: window.physical_width,
            height: window.physical_height,
            ..data.configuration
        },
        ..data
    }
}

/// A surface with a presentation mode.
pub open spec fn presented_surface(data: SurfaceData, mode: wgpu::PresentMode) -> SurfaceData {
    SurfaceData {
        configuration: SurfaceConfiguration { present_mode: mode, ..data.configuration },
        ..data
    }
}

/// Begins a pass over all windows that gives each a surface, configured for it.
pub fn create_surfaces(windows: &ExtractedWindows) -> (pass: SurfaceCreation)
    ensures
        pass.pending@.no_duplicates(),
        pass.pending@.to_set() == windows@.dom(),
        pass.stage == SurfaceStage::NextWindow,
        windows.well_formed() ==> forall|window_surfaces: &WindowSurfaces| #[trigger]
            pass.model(windows, window_surfaces).well_formed(),
{
    let pending = containers::window_keys(&windows.windows);
    proof {
        pending::lemma_listed_windows_are_known(pending@, windows@.dom());
    }
    SurfaceCreation { pending, stage: SurfaceStage::NextWindow }
}

impl SurfaceCreation {
    /// The pass together with the state that it works on.
    pub open spec fn model(
        &self,
        windows: &ExtractedWindows,
        window_surfaces: &WindowSurfaces,
    ) -> SurfaceCreationModel {
        SurfaceCreationModel {
            windows: windows@,
            surfaces: window_surfaces.data(),
            configured: window_surfaces.configured(),
            pending: self.pending@,
            stage: self.stage,
        }
    }

    /// Takes what the caller reports, and says what it is to do next.
    pub fn step(
        &mut self,
        event: SurfaceEvent,
        windows: &mut ExtractedWindows,
        window_surfaces: &mut WindowSurfaces,
    ) -> (command: SurfaceCommand)
        requires
            old(self).model(old(windows), old(window_surfaces)).well_formed(),
            old(self).model(old(windows), old(window_surfaces)).accepts(event),
        ensures
            (final(self).model(final(windows), final(window_surfaces)), command) == old(self).model(
                old(windows),
                old(window_surfaces),
            ).step(event),
            final(self).model(final(windows), final(window_surfaces)).well_formed(),
            final(windows).primary == old(windows).primary,
            old(windows).well_formed() ==> final(windows).well_formed(),
            old(window_surfaces).well_formed() ==> final(window_surfaces).well_formed(),
    {
        match (self.stage, event) {
            (SurfaceStage::NextWindow, SurfaceEvent::Resume) => {
                match self.pending.pop() {
                    None => SurfaceCommand::Done,
                    Some(e) => {
                        assert(windows@.dom().contains(old(self).pending@[old(self).pending@.len()
                            - 1]));
                        if containers::surface_get(&window_surfaces.surfaces, e).is_some() {
                            self.look_for_changes(e, windows, window_surfaces)
                        } else {
                            self.stage = SurfaceStage::AwaitSurface(e);
                            let window = containers::window_get(&windows.windows, e).unwrap();
                            SurfaceCommand::Create { window: e, handle: window.handle }
                        }
                    },
                }
            },
            (SurfaceStage::AwaitSurface(e), SurfaceEvent::Created { surface, capabilities }) => {
                let window = containers::window_get(&windows.windows, e).unwrap();
                if surface::supported_present_mode(window, &capabilities).is_none() {
                    self.fail(e, SurfaceFailure::NoPresentMode)
                } else if capabilities.formats.len() == 0 {
                    self.fail(e, SurfaceFailure::NoFormat)
                } else {
                    let data = surface::new_surface_data(window, surface, &capabilities);
                    containers::surface_insert(&mut window_surfaces.surfaces, e, data);
                    self.stage = SurfaceStage::AwaitFirstConfiguration(e);
                    SurfaceCommand::Configure {
                        window: e,
                        surface,
                        configuration: data.configuration,
                    }
                }
            },
            (SurfaceStage::AwaitFirstConfiguration(e), SurfaceEvent::Configured) => {
                self.look_for_changes(e, windows, window_surfaces)
            },
            (SurfaceStage::AwaitCapabilities(e), SurfaceEvent::Capabilities(capabilities)) => {
                let window = containers::window_get(&windows.windows, e).unwrap();
                match surface::supported_present_mode(window, &capabilities) {
                    None => self.fail(e, SurfaceFailure::NoPresentMode),
                    Some(mode) => {
                        let mut data = *containers::surface_get(
                            &window_surfaces.surfaces,
                            e,
                        ).unwrap();
                        data.configuration.present_mode = mode;
                        containers::surface_insert(&mut window_surfaces.surfaces, e, data);
                        self.stage = SurfaceStage::AwaitConfiguration(e);
                        SurfaceCommand::Configure {
                            window: e,
                            surface: data.surface,
                            configuration: data.configuration,
                        }
                    },
                }
            },
            (SurfaceStage::AwaitConfiguration(e), SurfaceEvent::Configured) => {
                self.ready(e, window_surfaces)
            },
            _ => SurfaceCommand::Done,
        }
    }

    fn fail(&mut self, e: Entity, failure: SurfaceFailure) -> (command: SurfaceCommand)
        ensures
            command == (SurfaceCommand::Fail { window: e, failure }),
            final(self).stage == SurfaceStage::Failed,
            final(self).pending@ == old(self).pending@,
    {
        self.stage = SurfaceStage::Failed;
        SurfaceCommand::Fail { window: e, failure }
    }

    fn ready(&mut self, e: Entity, window_surfaces: &mut WindowSurfaces) -> (command:
        SurfaceCommand)
        ensures
            command == SurfaceCommand::Ready(e),
            final(self).stage == SurfaceStage::NextWindow,
            final(self).pending@ == old(self).pending@,
            final(window_surfaces).data() == old(window_surfaces).data(),
            final(window_surfaces).configured() == old(window_surfaces).configured().insert(e),
    {
        containers::entity_set_insert(&mut window_surfaces.configured_windows, e);
        self.stage = SurfaceStage::NextWindow;
        SurfaceCommand::Ready(e)
    }

    fn look_for_changes(
        &mut self,
        e: Entity,
        windows: &mut ExtractedWindows,
        window_surfaces: &mut WindowSurfaces,
    ) -> (command: SurfaceCommand)
        requires
            old(windows)@.dom().contains(e),
            old(window_surfaces).data().dom().contains(e),
        ensures
            (final(self).model(final(windows), final(window_surfaces)), command) == old(self).model(
                old(windows),
                old(window_surfaces),
            ).look_for_changes(e),
            final(windows).primary == old(windows).primary,
    {
        let mut data = *containers::surface_get(&window_surfaces.surfaces, e).unwrap();
        let window = containers::window_get_mut(&mut windows.windows, e).unwrap();
        if window.size_changed || window.present_mode_changed {
            // A frame is normally gone once it was presented. One that is left would be in the
            // way of the new configuration.
            window.drop_swapchain_texture();
            data.configuration.width = window.physical_width;
            data.configuration.height = window.physical_height;
            containers::surface_insert(&mut window_surfaces.surfaces, e, data);
            self.stage = SurfaceStage::AwaitCapabilities(e);
            SurfaceCommand::QueryCapabilities { window: e, surface: data.surface }
        } else {
            assert(old(windows)@.insert(e, old(windows)@[e]) =~= old(windows)@);
            self.ready(e, window_surfaces)
        }
    }
}

} // verus!
