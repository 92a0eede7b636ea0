//! Copying the offscreen texture to the windows.
//!
//! There are two ways: through the surfaces of the windows, and straight to a Metal layer.

use bevy_ecs::entity::Entity;
use vstd::prelude::*;
use wgpu::SurfaceError;

use crate::containers;
use crate::offscreen::{LayerId, OffscreenBlitState};
use crate::pending;
use crate::surface::{SurfaceConfiguration, SurfaceData, SurfaceId, WindowSurfaces};
use crate::window::{ExtractedWindow, ExtractedWindows, TextureId};

verus! {

/// A frame to copy to.
#[derive(Clone, Copy, Debug, PartialEq, Eq, Structural)]
pub struct BlitTarget {
    pub texture: TextureId,
    pub width: u32,
    pub height: u32,
}

/// What the caller reports to a pass.
#[derive(Debug, PartialEq, Eq)]
pub enum BlitEvent {
    /// The pass is to go on with the next window.
    Resume,
    /// Acquiring a frame gave this.
    Frame(Result<BlitTarget, SurfaceError>),
    /// The surface was configured.
    Configured,
}

/// What a pass asks its caller to do.
#[derive(Clone, Copy, Debug, PartialEq, Eq)]
pub enum BlitCommand {
    /// Acquire a frame of the surface, and report `Frame`.
    Acquire { window: Entity, surface: SurfaceId },
    /// Configure the surface, and report `Configured`.
    Configure { window: Entity, surface: SurfaceId, configuration: SurfaceConfiguration },
    /// Copy as much of the source to the frame as said here, from the origin of the one to the
    /// origin of the other, and present the frame. Report `Resume`.
    CopyAndPresent {
        window: Entity,
        source: TextureId,
        target: TextureId,
        width: u32,
        height: u32,
    },
    /// Nothing is copied to this window. Report `Resume`.
    Skip(Entity),
    /// The pass is through with all windows.
    Done,
}

/// What a pass waits for.
#[derive(Clone, Copy, Debug, PartialEq, Eq)]
pub enum BlitStage {
    NextWindow,
    AwaitFrame(Entity),
    AwaitConfiguration(Entity),
    AwaitFrameAgain(Entity),
}

/// A pass that copies the offscreen texture to every window that is not rendered to otherwise.
pub struct OffscreenBlit {
    /// Windows that the pass has not come to yet.
    pub pending: Vec<Entity>,
    pub stage: BlitStage,
    pub source: TextureId,
    pub source_width: u32,
    pub source_height: u32,
}

/// A pass together with the state that it reads.
#[verifier::ext_equal]
pub struct OffscreenBlitModel {
    pub windows: Map<Entity, ExtractedWindow>,
    pub surfaces: Map<Entity, SurfaceData>,
    pub pending: Seq<Entity>,
    pub stage: BlitStage,
    pub source: TextureId,
    pub source_width: u32,
    pub source_height: u32,
}

/// The lesser of two lengths.
pub open spec fn lesser(a: u32, b: u32) -> u32 {
    if a <= b {
        a
    } else {
        b
    }
}

impl OffscreenBlitModel {
    /// The windows to come are known, and the surface at hand is there.
    pub open spec fn well_formed(self) -> bool {
        &&& forall|e: Entity| #[trigger]
            self.windows.dom().contains(e) ==> self.windows[e].entity == e
        &&& forall|i: int|
            0 <= i < self.pending.len() ==> self.windows.dom().contains(#[trigger] self.pending[i])
        &&& match self.stage {
            BlitStage::NextWindow => true,
            BlitStage::AwaitFrame(e)
            | BlitStage::AwaitConfiguration(e)
            | BlitStage::AwaitFrameAgain(e) => self.surfaces.dom().contains(e),
        }
    }

    /// Whether the event is the one that the pass waits for.
    pub open spec fn accepts(self, event: BlitEvent) -> bool {
        match self.stage {
            BlitStage::NextWindow => event is Resume,
            BlitStage::AwaitFrame(_) | BlitStage::AwaitFrameAgain(_) => event is Frame,
            BlitStage::AwaitConfiguration(_) => event is Configured,
        }
    }

    /// The pass waits in `stage` for what `command` brings.
    pub open spec fn wait(self, stage: BlitStage, command: BlitCommand) -> (
        OffscreenBlitModel,
        BlitCommand,
    ) {
        (OffscreenBlitModel { stage, ..self }, command)
    }

    /// The source is copied to the frame as far as both reach.
    pub open spec fn copy(self, e: Entity, target: BlitTarget) -> (OffscreenBlitModel, BlitCommand) {
        self.wait(
            BlitStage::NextWindow,
            BlitCommand::CopyAndPresent {
                window: e,
                source: self.source,
                target: target.texture,
                width: lesser(self.source_width, target.width),
                height: lesser(self.source_height, target.height),
            },
        )
    }

    /// What the pass does on an event, and what it asks for next.
    pub open spec fn step(self, event: BlitEvent) -> (OffscreenBlitModel, BlitCommand)
        recommends
            self.well_formed(),
            self.accepts(event),
    {
        match (self.stage, event) {
            (BlitStage::NextWindow, _) => if self.pending.len() == 0 {
                (self, BlitCommand::Done)
            } else {
                let e = self.pending.last();
                let next = OffscreenBlitModel { pending: self.pending.drop_last(), ..self };
                if !self.surfaces.dom().contains(e) || self.windows[e].swap_chain_texture is Some {
                    next.wait(BlitStage::NextWindow, BlitCommand::Skip(e))
                } else {
                    next.wait(
                        BlitStage::AwaitFrame(e),
                        BlitCommand::Acquire { window: e, surface: self.surfaces[e].surface },
                    )
                }
            },
            (BlitStage::AwaitFrame(e), BlitEvent::Frame(result)) => match result {
                Ok(target) => self.copy(e, target),
                Err(SurfaceError::Outdated) => self.wait(
                    BlitStage::AwaitConfiguration(e),
                    BlitCommand::Configure {
                        window: e,
                        surface: self.surfaces[e].surface,
                        configuration: self.surfaces[e].configuration,
                    },
                ),
                Err(_) => self.wait(BlitStage::NextWindow, BlitCommand::Skip(e)),
            },
            (BlitStage::AwaitConfiguration(e), _) => self.wait(
                BlitStage::AwaitFrameAgain(e),
                BlitCommand::Acquire { window: e, surface: self.surfaces[e].surface },
            ),
            (BlitStage::AwaitFrameAgain(e), BlitEvent::Frame(result)) => match result {
                Ok(target) => self.copy(e, target),
                Err(_) => self.wait(BlitStage::NextWindow, BlitCommand::Skip(e)),
            },
            _ => (self, BlitCommand::Done),
        }
    }
}

/// Begins a pass over all windows that copies the offscreen texture to them; none where there is
/// no offscreen blit.
pub fn blit_offscreen_to_window(
    state: Option<OffscreenBlitState>,
    windows: &ExtractedWindows,
) -> (pass: Option<OffscreenBlit>)
    ensures
        pass is Some <==> state is Some,
        pass matches Some(p) ==> {
            &&& p.pending@.no_duplicates()
            &&& p.pending@.to_set() == windows@.dom()
            &&& p.stage == BlitStage::NextWindow
            &&& p.source == state->0.source_texture
            &&& p.source_width == state->0.source_width
            &&& p.source_height == state->0.source_height
            &&& windows.well_formed() ==> forall|window_surfaces: &WindowSurfaces| #[trigger]
                p.model(windows, window_surfaces).well_formed()
        },
{
    match state {
        None => None,
        Some(state) => {
            let pending = containers::window_keys(&windows.windows);
            proof {
                pending::lemma_listed_windows_are_known(pending@, windows@.dom());
            }
            Some(
                OffscreenBlit {
                    pending,
                    stage: BlitStage::NextWindow,
                    source: state.source_texture,
                    source_width: state.source_width,
                    source_height: state.source_height,
                },
            )
        },
    }
}

impl OffscreenBlit {
    /// The pass together with the state that it reads.
    pub open spec fn model(
        &self,
        windows: &ExtractedWindows,
        window_surfaces: &WindowSurfaces,
    ) -> OffscreenBlitModel {
        OffscreenBlitModel {
            windows: windows@,
            surfaces: window_surfaces.data(),
            pending: self.pending@,
            stage: self.stage,
            source: self.source,
            source_width: self.source_width,
            source_height: self.source_height,
        }
    }

    /// Takes what the caller reports, and says what it is to do next.
    pub fn step(
        &mut self,
        event: BlitEvent,
        windows: &ExtractedWindows,
        window_surfaces: &WindowSurfaces,
    ) -> (command: BlitCommand)
        requires
            old(self).model(windows, window_surfaces).well_formed(),
            old(self).model(windows, window_surfaces).accepts(event),
        ensures
            (final(self).model(windows, window_surfaces), command) == old(self).model(
                windows,
                window_surfaces,
            ).step(event),
            final(self).model(windows, window_surfaces).well_formed(),
    {
        match (self.stage, event) {
            (BlitStage::NextWindow, BlitEvent::Resume) => {
                match self.pending.pop() {
                    None => BlitCommand::Done,
                    Some(e) => {
                        proof {
                            let before = old(self).model(windows, window_surfaces);
                            assert(before.windows.dom().contains(
                                before.pending[before.pending.len() - 1],
                            ));
                        }
                        let window = containers::window_get(&windows.windows, e).unwrap();
                        match containers::surface_get(
                            &window_surfaces.surfaces,
                            window.entity,
                        ) {
                            None => BlitCommand::Skip(e),
                            Some(data) => {
                                if window.swap_chain_texture.is_some() {
                                    BlitCommand::Skip(e)
                                } else {
                                    self.stage = BlitStage::AwaitFrame(e);
                                    BlitCommand::Acquire { window: e, surface: data.surface }
                                }
                            },
                        }
                    },
                }
            },
            (BlitStage::AwaitFrame(e), BlitEvent::Frame(result)) => {
                match result {
                    Ok(target) => self.copy(e, target),
                    Err(SurfaceError::Outdated) => {
                        let data = containers::surface_get(
                            &window_surfaces.surfaces,
                            e,
                        ).unwrap();
                        self.stage = BlitStage::AwaitConfiguration(e);
                        BlitCommand::Configure {
                            window: e,
                            surface: data.surface,
                            configuration: data.configuration,
                        }
                    },
                    Err(_) => {
                        self.stage = BlitStage::NextWindow;
                        BlitCommand::Skip(e)
                    },
                }
            },
            (BlitStage::AwaitConfiguration(e), BlitEvent::Configured) => {
                let data = containers::surface_get(&window_surfaces.surfaces, e).unwrap();
                self.stage = BlitStage::AwaitFrameAgain(e);
                BlitCommand::Acquire { window: e, surface: data.surface }
            },
            (BlitStage::AwaitFrameAgain(e), BlitEvent::Frame(result)) => {
                match result {
                    Ok(target) => self.copy(e, target),
                    Err(_) => {
                        self.stage = BlitStage::NextWindow;
                        BlitCommand::Skip(e)
                    },
                }
            },
            _ => BlitCommand::Done,
        }
    }

    fn copy(&mut self, e: Entity, target: BlitTarget) -> (command: BlitCommand)
        ensures
            forall|windows: &ExtractedWindows, window_surfaces: &WindowSurfaces|
                (#[trigger] final(self).model(windows, window_surfaces), command) == old(
                    self,
                ).model(windows, window_surfaces).copy(e, target),
    {
        self.stage = BlitStage::NextWindow;
        BlitCommand::CopyAndPresent {
            window: e,
            source: self.source,
            target: target.texture,
            width: if self.source_width <= target.width {
                self.source_width
            } else {
                target.width
            },
            height: if self.source_height <= target.height {
                self.source_height
            } else {
                target.height
            },
        }
    }
}

/// A size in pixels of a Metal texture.
#[derive(Clone, Copy, Debug, PartialEq, Eq, Structural)]
pub struct MetalSize {
    pub width: u64,
    pub height: u64,
}

/// What the caller reports to a copy to a Metal layer.
#[derive(Clone, Copy, Debug, PartialEq, Eq, Structural)]
pub enum MetalBlitEvent {
    /// The copy is to begin.
    Begin,
    /// The shutdown flag is as said here.
    ShutdownFlag(bool),
    /// Asking for a drawable gave one with a texture of this size, or none, and the source has
    /// the other size.
    Drawable { target: Option<MetalSize>, source: MetalSize },
}

/// What a copy to a Metal layer asks its caller to do.
#[derive(Clone, Copy, Debug, PartialEq, Eq, Structural)]
pub enum MetalBlitCommand {
    /// Read the shutdown flag, and report `ShutdownFlag`.
    ReadShutdownFlag,
    /// Ask the layer for a drawable, for a tenth of a second at most, and report `Drawable`.
    NextDrawable(LayerId),
    /// Copy as much of the source to the drawable as said here, from the origin of the one to the
    /// origin of the other, and present the drawable.
    CopyAndPresent { width: u64, height: u64 },
    /// There is nothing to do.
    Done,
}

/// What a copy to a Metal layer waits for.
#[derive(Clone, Copy, Debug, PartialEq, Eq, Structural)]
pub enum MetalBlitStage {
    Begin,
    FirstCheck,
    SecondCheck,
    AwaitDrawable,
    Finished,
}

/// A copy of the offscreen texture to a Metal layer.
///
/// The shutdown flag is read once before any work and again right before a drawable is asked for,
/// so that the copy does not wait for a layer that is being taken down.
#[derive(Clone, Copy, Debug, PartialEq, Eq, Structural)]
pub struct MetalBlit {
    pub state: Option<OffscreenBlitState>,
    pub stage: MetalBlitStage,
}

/// The lesser of two lengths.
pub open spec fn lesser_length(a: u64, b: u64) -> u64 {
    if a <= b {
        a
    } else {
        b
    }
}

impl MetalBlit {
    /// There is an offscreen blit once the flag was asked for, and a layer once a drawable can be.
    pub open spec fn well_formed(self) -> bool {
        match self.stage {
            MetalBlitStage::Begin | MetalBlitStage::Finished => true,
            MetalBlitStage::FirstCheck => self.state is Some,
            MetalBlitStage::SecondCheck | MetalBlitStage::AwaitDrawable => self.state is Some
                && self.state->0.metal_state is Some,
        }
    }

    /// Whether the event is the one that the copy waits for.
    pub open spec fn accepts(self, event: MetalBlitEvent) -> bool {
        match self.stage {
            MetalBlitStage::Begin => event is Begin,
            MetalBlitStage::FirstCheck | MetalBlitStage::SecondCheck => event is ShutdownFlag,
            MetalBlitStage::AwaitDrawable => event is Drawable,
            MetalBlitStage::Finished => false,
        }
    }

    /// The copy waits in `stage` for what `command` brings.
    pub open spec fn wait(self, stage: MetalBlitStage, command: MetalBlitCommand) -> (
        MetalBlit,
        MetalBlitCommand,
    ) {
        (MetalBlit { stage, ..self }, command)
    }

    /// What the copy does on an event, and what it asks for next.
    pub open spec fn transition(self, event: MetalBlitEvent) -> (MetalBlit, MetalBlitCommand)
        recommends
            self.well_formed(),
            self.accepts(event),
    {
        let done = self.wait(MetalBlitStage::Finished, MetalBlitCommand::Done);
        match (self.stage, event) {
            (MetalBlitStage::Begin, _) => if self.state is None {
                done
            } else {
                self.wait(MetalBlitStage::FirstCheck, MetalBlitCommand::ReadShutdownFlag)
            },
            (MetalBlitStage::FirstCheck, MetalBlitEvent::ShutdownFlag(raised)) => if raised
                || self.state->0.metal_state is None {
                done
            } else {
                self.wait(MetalBlitStage::SecondCheck, MetalBlitCommand::ReadShutdownFlag)
            },
            (MetalBlitStage::SecondCheck, MetalBlitEvent::ShutdownFlag(raised)) => if raised {
                done
            } else {
                self.wait(
                    MetalBlitStage::AwaitDrawable,
                    MetalBlitCommand::NextDrawable(self.state->0.metal_state->0.layer),
                )
            },
            (MetalBlitStage::AwaitDrawable, MetalBlitEvent::Drawable { target, source }) => {
                match target {
                    None => done,
                    Some(target) => self.wait(
                        MetalBlitStage::Finished,
                        MetalBlitCommand::CopyAndPresent {
                            width: lesser_length(source.width, target.width),
                            height: lesser_length(source.height, target.height),
                        },
                    ),
                }
            },
            _ => (self, MetalBlitCommand::Done),
        }
    }

    /// A copy that has not begun.
    pub fn new(state: Option<OffscreenBlitState>) -> (copy: MetalBlit)
        ensures
            copy == (MetalBlit { state, stage: MetalBlitStage::Begin }),
            copy.well_formed(),
    {
        MetalBlit { state, stage: MetalBlitStage::Begin }
    }

    /// Takes what the caller reports, and says what it is to do next.
    pub fn step(&mut self, event: MetalBlitEvent) -> (command: MetalBlitCommand)
        requires
            old(self).well_formed(),
            old(self).accepts(event),
        ensures
            (*final(self), command) == old(self).transition(event),
            final(self).well_formed(),
    {
        match (self.stage, event) {
            (MetalBlitStage::Begin, MetalBlitEvent::Begin) => {
                if self.state.is_some() {
                    self.stage = MetalBlitStage::FirstCheck;
                    return MetalBlitCommand::ReadShutdownFlag;
                }
            },
            (MetalBlitStage::FirstCheck, MetalBlitEvent::ShutdownFlag(raised)) => {
                if !raised && self.state.unwrap().metal_state.is_some() {
                    self.stage = MetalBlitStage::SecondCheck;
                    return MetalBlitCommand::ReadShutdownFlag;
                }
            },
            (MetalBlitStage::SecondCheck, MetalBlitEvent::ShutdownFlag(raised)) => {
                if !raised {
                    self.stage = MetalBlitStage::AwaitDrawable;
                    return MetalBlitCommand::NextDrawable(
                        self.state.unwrap().metal_state.unwrap().layer,
                    );
                }
            },
            (MetalBlitStage::AwaitDrawable, MetalBlitEvent::Drawable { target, source }) => {
                if let Some(target) = target {
                    self.stage = MetalBlitStage::Finished;
                    return MetalBlitCommand::CopyAndPresent {
                        width: if source.width <= target.width {
                            source.width
                        } else {
                            target.width
                        },
                        height: if source.height <= target.height {
                            source.height
                        } else {
                            target.height
                        },
                    };
                }
            },
            _ => {},
        }
        self.stage = MetalBlitStage::Finished;
        MetalBlitCommand::Done
    }
}

} // verus!
