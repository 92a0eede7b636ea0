//! Finding the Metal layer of a window, to copy the offscreen texture to.
//!
//! Layers can only be asked about on the main thread. The search runs once there: it looks at the
//! root layer of the window's view and, where that is no Metal layer, at the layers right below it
//! until it finds one.

use bevy_ecs::entity::Entity;
use vstd::prelude::*;

use crate::containers;
use crate::offscreen::{LayerId, MetalPresentState, OffscreenBlitState};
use crate::window::{ExtractedWindows, RawHandleId};

verus! {

/// How many drawables the layer is to cycle through.
pub const MAXIMUM_DRAWABLE_COUNT: u64 = 3;

/// What the caller reports to a search.
#[derive(Clone, Copy, Debug, PartialEq, Eq, Structural)]
pub enum LayerEvent {
    /// The search is to begin.
    Begin,
    /// The window is shown in a view of AppKit, whose layer is as said here; or not in one.
    RootLayer { is_app_kit: bool, layer: Option<LayerId> },
    /// Whether the layer is a Metal layer.
    IsMetal(bool),
    /// How many layers there are below the layer, if it has a list of them.
    SublayerCount(Option<u64>),
    /// The layer at the index that was asked for.
    Sublayer(LayerId),
    /// The layer was set up for presenting.
    Installed,
}

/// What a search asks its caller to do.
#[derive(Clone, Copy, Debug, PartialEq, Eq)]
pub enum LayerCommand {
    /// Look at the view of the window, and report `RootLayer`.
    FindRootLayer { window: Entity, handle: RawHandleId },
    /// Ask the layer for its class, and report `IsMetal`.
    AskIsMetal(LayerId),
    /// Count the layers below the layer, and report `SublayerCount`.
    CountSublayers(LayerId),
    /// Get the layer at the index below the layer, and report `Sublayer`.
    GetSublayer { parent: LayerId, index: u64 },
    /// Let the layer cycle through so many drawables, keep what presenting to it needs, and
    /// report `Installed`.
    Install { layer: LayerId, maximum_drawable_count: u64 },
    /// The search is over.
    Done,
}

/// What a search waits for.
#[derive(Clone, Copy, Debug, PartialEq, Eq, Structural)]
pub enum LayerStage {
    Begin,
    AwaitRoot,
    AwaitRootClass { root: LayerId },
    AwaitCount { root: LayerId },
    AwaitSublayer { root: LayerId, index: u64, count: u64 },
    AwaitSublayerClass { root: LayerId, index: u64, count: u64, layer: LayerId },
    AwaitInstall { layer: LayerId },
    Finished,
}

/// A search for the Metal layer of a window.
pub struct LayerSearch {
    /// A window to look at, with its handle.
    pub window: Option<(Entity, RawHandleId)>,
    pub stage: LayerStage,
}

/// A search together with the state that it works on.
#[verifier::ext_equal]
pub struct LayerSearchModel {
    pub window: Option<(Entity, RawHandleId)>,
    pub stage: LayerStage,
    pub state: Option<OffscreenBlitState>,
}

impl LayerSearchModel {
    /// There is an offscreen blit while the search runs, and the index at hand is below the count.
    pub open spec fn well_formed(self) -> bool {
        &&& self.stage != LayerStage::Begin && self.stage != LayerStage::Finished
            ==> self.state is Some
        &&& match self.stage {
            LayerStage::AwaitSublayer { root: _, index, count } => index < count,
            LayerStage::AwaitSublayerClass { root: _, index, count, layer: _ } => index < count,
            _ => true,
        }
    }

    /// Whether the event is the one that the search waits for.
    pub open spec fn accepts(self, event: LayerEvent) -> bool {
        match self.stage {
            LayerStage::Begin => event is Begin,
            LayerStage::AwaitRoot => event is RootLayer,
            LayerStage::AwaitRootClass { .. } => event is IsMetal,
            LayerStage::AwaitCount { .. } => event is SublayerCount,
            LayerStage::AwaitSublayer { .. } => event is Sublayer,
            LayerStage::AwaitSublayerClass { .. } => event is IsMetal,
            LayerStage::AwaitInstall { .. } => event is Installed,
            LayerStage::Finished => false,
        }
    }

    /// The search waits in `stage` for what `command` brings.
    pub open spec fn wait(self, stage: LayerStage, command: LayerCommand) -> (
        LayerSearchModel,
        LayerCommand,
    ) {
        (LayerSearchModel { stage, ..self }, command)
    }

    /// The search is over.
    pub open spec fn done(self) -> (LayerSearchModel, LayerCommand) {
        self.wait(LayerStage::Finished, LayerCommand::Done)
    }

    /// The layer is the one to present to.
    pub open spec fn install(self, layer: LayerId) -> (LayerSearchModel, LayerCommand) {
        self.wait(
            LayerStage::AwaitInstall { layer },
            LayerCommand::Install { layer, maximum_drawable_count: MAXIMUM_DRAWABLE_COUNT },
        )
    }

    /// The search goes on with the layer at the index, if there is one.
    pub open spec fn look_at(self, root: LayerId, index: u64, count: u64) -> (
        LayerSearchModel,
        LayerCommand,
    ) {
        if index < count {
            self.wait(
                LayerStage::AwaitSublayer { root, index, count },
                LayerCommand::GetSublayer { parent: root, index },
            )
        } else {
            self.done()
        }
    }

    /// What the search does on an event, and what it asks for next.
    pub open spec fn step(self, event: LayerEvent) -> (LayerSearchModel, LayerCommand)
        recommends
            self.well_formed(),
            self.accepts(event),
    {
        match (self.stage, event) {
            (LayerStage::Begin, _) => match (self.state, self.window) {
                (Some(state), Some((window, handle))) => if state.metal_state is Some {
                    self.done()
                } else {
                    self.wait(
                        LayerStage::AwaitRoot,
                        LayerCommand::FindRootLayer { window, handle },
                    )
                },
                _ => self.done(),
            },
            (LayerStage::AwaitRoot, LayerEvent::RootLayer { is_app_kit, layer }) => match layer {
                Some(root) => if is_app_kit {
                    self.wait(LayerStage::AwaitRootClass { root }, LayerCommand::AskIsMetal(root))
                } else {
                    self.done()
                },
                None => self.done(),
            },
            (LayerStage::AwaitRootClass { root }, LayerEvent::IsMetal(is_metal)) => if is_metal {
                self.install(root)
            } else {
                self.wait(LayerStage::AwaitCount { root }, LayerCommand::CountSublayers(root))
            },
            (LayerStage::AwaitCount { root }, LayerEvent::SublayerCount(count)) => match count {
                Some(count) => self.look_at(root, 0, count),
                None => self.done(),
            },
            (LayerStage::AwaitSublayer { root, index, count }, LayerEvent::Sublayer(layer)) => {
                self.wait(
                    LayerStage::AwaitSublayerClass { root, index, count, layer },
                    LayerCommand::AskIsMetal(layer),
                )
            },
            (
                LayerStage::AwaitSublayerClass { root, index, count, layer },
                LayerEvent::IsMetal(is_metal),
            ) => if is_metal {
                self.install(layer)
            } else {
                self.look_at(root, (index + 1) as u64, count)
            },
            (LayerStage::AwaitInstall { layer }, _) => (
                LayerSearchModel {
                    stage: LayerStage::Finished,
                    state: Some(
                        OffscreenBlitState {
                            metal_state: Some(MetalPresentState { layer }),
                            ..self.state->0
                        },
                    ),
                    ..self
                },
                LayerCommand::Done,
            ),
            _ => (self, LayerCommand::Done),
        }
    }
}

/// Begins a search for the Metal layer of a window. Which of several windows it is is left open.
pub fn init_metal_presenter(windows: &ExtractedWindows) -> (search: LayerSearch)
    ensures
        search.stage == LayerStage::Begin,
        search.window is None <==> windows@.dom() == Set::<Entity>::empty(),
        search.window matches Some((window, handle)) ==> windows@.dom().contains(window)
            && windows@[window].handle == handle,
{
    let keys = containers::window_keys(&windows.windows);
    let window = if keys.len() == 0 {
        assert(keys@.to_set() =~= Set::<Entity>::empty());
        None
    } else {
        assert(keys@.to_set().contains(keys@[0]));
        let window = containers::window_get(&windows.windows, keys[0]).unwrap();
        Some((keys[0], window.handle))
    };
    LayerSearch { window, stage: LayerStage::Begin }
}

impl LayerSearch {
    /// The search together with the state that it works on.
    pub open spec fn model(&self, state: Option<OffscreenBlitState>) -> LayerSearchModel {
        LayerSearchModel { window: self.window, stage: self.stage, state }
    }

    /// Takes what the caller reports, and says what it is to do next.
    pub fn step(
        &mut self,
        event: LayerEvent,
        state: &mut Option<OffscreenBlitState>,
    ) -> (command: LayerCommand)
        requires
            old(self).model(*old(state)).well_formed(),
            old(self).model(*old(state)).accepts(event),
        ensures
            (final(self).model(*final(state)), command) == old(self).model(*old(state)).step(event),
            final(self).model(*final(state)).well_formed(),
    {
        match (self.stage, event) {
            (LayerStage::Begin, LayerEvent::Begin) => {
                if let Some(blit) = *state {
                    if blit.metal_state.is_none() {
                        if let Some((window, handle)) = self.window {
                            self.stage = LayerStage::AwaitRoot;
                            return LayerCommand::FindRootLayer { window, handle };
                        }
                    }
                }
            },
            (LayerStage::AwaitRoot, LayerEvent::RootLayer { is_app_kit, layer }) => {
                if is_app_kit {
                    if let Some(root) = layer {
                        self.stage = LayerStage::AwaitRootClass { root };
                        return LayerCommand::AskIsMetal(root);
                    }
                }
            },
            (LayerStage::AwaitRootClass { root }, LayerEvent::IsMetal(is_metal)) => {
                if is_metal {
                    return self.install(root);
                }
                self.stage = LayerStage::AwaitCount { root };
                return LayerCommand::CountSublayers(root);
            },
            (LayerStage::AwaitCount { root }, LayerEvent::SublayerCount(count)) => {
                if let Some(count) = count {
                    return self.look_at(root, 0, count);
                }
            },
            (LayerStage::AwaitSublayer { root, index, count }, LayerEvent::Sublayer(layer)) => {
                self.stage = LayerStage::AwaitSublayerClass { root, index, count, layer };
                return LayerCommand::AskIsMetal(layer);
            },
            (
                LayerStage::AwaitSublayerClass { root, index, count, layer },
                LayerEvent::IsMetal(is_metal),
            ) => {
                if is_metal {
                    return self.install(layer);
                }
                return self.look_at(root, index + 1, count);
            },
            (LayerStage::AwaitInstall { layer }, LayerEvent::Installed) => {
                if let Some(blit) = *state {
                    *state = Some(
                        OffscreenBlitState {
                            metal_state: Some(MetalPresentState { layer }),
                            ..blit
                        },
                    );
                }
            },
            _ => {},
        }
        self.stage = LayerStage::Finished;
        LayerCommand::Done
    }

    fn install(&mut self, layer: LayerId) -> (command: LayerCommand)
        ensures
            forall|state: Option<OffscreenBlitState>|
                (#[trigger] final(self).model(state), command) == old(self).model(state).install(
                    layer,
                ),
    {
        self.stage = LayerStage::AwaitInstall { layer };
        LayerCommand::Install { layer, maximum_drawable_count: MAXIMUM_DRAWABLE_COUNT }
    }

    fn look_at(&mut self, root: LayerId, index: u64, count: u64) -> (command: LayerCommand)
        ensures
            forall|state: Option<OffscreenBlitState>|
                (#[trigger] final(self).model(state), command) == old(self).model(state).look_at(
                    root,
                    index,
                    count,
                ),
    {
        if index < count {
            self.stage = LayerStage::AwaitSublayer { root, index, count };
            LayerCommand::GetSublayer { parent: root, index }
        } else {
            self.stage = LayerStage::Finished;
            LayerCommand::Done
        }
    }
}

} // verus!
