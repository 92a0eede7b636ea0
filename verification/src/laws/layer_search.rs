//! Laws of the search for a Metal layer.

use vstd::prelude::*;

use crate::metal_layer::{LayerCommand, LayerEvent, LayerSearch, LayerSearchModel, LayerStage};
use crate::offscreen::{LayerId, MetalPresentState, OffscreenBlitState};

verus! {

/// The search from the layer at the index on, when the layers below the root are `layers` and
/// those of them that are Metal layers are marked in `is_metal`.
pub open spec fn search_sublayers(
    search: LayerSearchModel,
    index: int,
    layers: Seq<LayerId>,
    is_metal: Seq<bool>,
) -> (LayerSearchModel, LayerCommand)
    decreases layers.len() - index,
{
    let answered = search.step(LayerEvent::Sublayer(layers[index])).0.step(
        LayerEvent::IsMetal(is_metal[index]),
    );
    if index + 1 < layers.len() && answered.0.stage is AwaitSublayer {
        search_sublayers(answered.0, index + 1, layers, is_metal)
    } else {
        answered
    }
}

/// The first Metal layer at or after the index.
pub open spec fn first_metal(index: int, layers: Seq<LayerId>, is_metal: Seq<bool>) -> Option<LayerId>
    decreases layers.len() - index,
{
    if index >= layers.len() {
        None
    } else if is_metal[index] {
        Some(layers[index])
    } else {
        first_metal(index + 1, layers, is_metal)
    }
}

/// Below a root layer that is no Metal layer, the search settles on the first layer that is one,
/// and is over without a result where there is none.
pub proof fn search_finds_first_metal_layer(
    search: LayerSearchModel,
    root: LayerId,
    index: u64,
    layers: Seq<LayerId>,
    is_metal: Seq<bool>,
)
    requires
        search.well_formed(),
        search.stage == (LayerStage::AwaitSublayer { root, index, count: layers.len() as u64 }),
        layers.len() <= u64::MAX,
        is_metal.len() == layers.len(),
    ensures
        search_sublayers(search, index as int, layers, is_metal) == match first_metal(
            index as int,
            layers,
            is_metal,
        ) {
            Some(layer) => search.install(layer),
            None => search.done(),
        },
    decreases layers.len() - index,
{
    reveal_with_fuel(first_metal, 2);
    let answered = search.step(LayerEvent::Sublayer(layers[index as int])).0.step(
        LayerEvent::IsMetal(is_metal[index as int]),
    );
    if !is_metal[index as int] && index + 1 < layers.len() {
        search_finds_first_metal_layer(answered.0, root, (index + 1) as u64, layers, is_metal);
    }
}

/// A root layer that is a Metal layer is taken, without a look at the layers below it.
pub proof fn metal_root_layer_is_taken(search: LayerSearchModel, root: LayerId)
    requires
        search.well_formed(),
        search.stage == (LayerStage::AwaitRootClass { root }),
    ensures
        search.step(LayerEvent::IsMetal(true)) == search.install(root),
        search.install(root).0.step(LayerEvent::Installed).0.state->0.metal_state->0.layer == root,
{
}

/// What the outside answers during a search.
pub struct LayerReplies {
    pub is_app_kit: bool,
    pub root: Option<LayerId>,
    pub root_is_metal: bool,
    /// The layers below the root, if it has a list of them.
    pub sublayers: Option<Seq<LayerId>>,
    /// Which of these are Metal layers.
    pub is_metal: Seq<bool>,
}

/// The layer to present to, if there is one: the root layer of an AppKit view, or else the first
/// below it, that is a Metal layer.
pub open spec fn found_layer(replies: LayerReplies) -> Option<LayerId> {
    match replies.root {
        Some(root) => if !replies.is_app_kit {
            None
        } else if replies.root_is_metal {
            Some(root)
        } else {
            match replies.sublayers {
                Some(layers) => first_metal(0, layers, replies.is_metal),
                None => None,
            }
        },
        None => None,
    }
}

/// The steps of a search up to the end, or to the layer that it settles on, when the outside
/// answers so.
pub open spec fn run_search(search: LayerSearchModel, replies: LayerReplies) -> LayerSearchModel {
    let root = search.step(LayerEvent::Begin).0.step(
        LayerEvent::RootLayer { is_app_kit: replies.is_app_kit, layer: replies.root },
    ).0;
    if root.stage is Finished {
        root
    } else {
        let asked = root.step(LayerEvent::IsMetal(replies.root_is_metal)).0;
        if asked.stage is AwaitInstall {
            asked
        } else {
            let counted = asked.step(
                LayerEvent::SublayerCount(
                    match replies.sublayers {
                        Some(layers) => Some(layers.len() as u64),
                        None => None,
                    },
                ),
            ).0;
            if counted.stage is Finished {
                counted
            } else {
                search_sublayers(counted, 0, replies.sublayers->0, replies.is_metal).0
            }
        }
    }
}

/// A search that begins with a window to look at, and with no layer yet, finds the layer to present
/// to wherever there is one; installed, it becomes the layer of the offscreen blit, of which
/// nothing else changes.
pub proof fn search_finds_the_layer(search: LayerSearchModel, replies: LayerReplies)
    requires
        search.stage == LayerStage::Begin,
        search.window is Some,
        search.state is Some,
        search.state->0.metal_state is None,
        replies.sublayers is Some ==> {
            &&& replies.sublayers->0.len() <= u64::MAX
            &&& replies.is_metal.len() == replies.sublayers->0.len()
        },
    ensures
        match found_layer(replies) {
            Some(layer) => {
                let found = run_search(search, replies);
                &&& found == search.install(layer).0
                &&& found.step(LayerEvent::Installed).0.stage == LayerStage::Finished
                &&& found.step(LayerEvent::Installed).0.state == Some(
                    OffscreenBlitState {
                        metal_state: Some(MetalPresentState { layer }),
                        ..search.state->0
                    },
                )
            },
            None => run_search(search, replies) == search.done().0,
        },
{
    if replies.is_app_kit && replies.root is Some && !replies.root_is_metal
        && replies.sublayers is Some && replies.sublayers->0.len() > 0 {
        let root = replies.root->0;
        let layers = replies.sublayers->0;
        let counted = LayerSearchModel {
            stage: LayerStage::AwaitSublayer { root, index: 0, count: layers.len() as u64 },
            ..search
        };
        search_finds_first_metal_layer(counted, root, 0, layers, replies.is_metal);
    }
}

/// The layer is looked for only once: a search that begins with a layer at hand is over at once.
pub proof fn search_runs_once(search: LayerSearchModel)
    requires
        search.stage == LayerStage::Begin,
        search.state is Some,
        search.state->0.metal_state is Some,
    ensures
        search.step(LayerEvent::Begin) == (
            LayerSearchModel { stage: LayerStage::Finished, ..search },
            LayerCommand::Done,
        ),
{
}

/// How many steps a search can take at most until it is over.
pub open spec fn steps_left(search: LayerSearchModel) -> int {
    match search.stage {
        LayerStage::Begin => 2 * u64::MAX + 6,
        LayerStage::AwaitRoot => 2 * u64::MAX + 5,
        LayerStage::AwaitRootClass { .. } => 2 * u64::MAX + 4,
        LayerStage::AwaitCount { .. } => 2 * u64::MAX + 3,
        LayerStage::AwaitSublayer { root: _, index, count } => 2 * (count - index) + 2,
        LayerStage::AwaitSublayerClass { root: _, index, count, layer: _ } => 2 * (count - index)
            + 1,
        LayerStage::AwaitInstall { .. } => 1,
        LayerStage::Finished => 0,
    }
}

/// A search ends, whatever the outside answers: each step brings it closer to its end.
pub proof fn search_ends(search: LayerSearchModel, event: LayerEvent)
    requires
        search.well_formed(),
        search.accepts(event),
    ensures
        0 <= steps_left(search.step(event).0) < steps_left(search),
        search.step(event).1 is Done <==> search.step(event).0.stage == LayerStage::Finished,
{
}

/// A search asks for the view of its window first, and only where there is a blit without a layer
/// and a window to look at; otherwise it is over at once.
pub proof fn search_begins_at_the_window(search: LayerSearchModel)
    requires
        search.stage == LayerStage::Begin,
    ensures
        ({
            let wanted = search.state is Some && search.state->0.metal_state is None
                && search.window is Some;
            let (after, command) = search.step(LayerEvent::Begin);
            &&& wanted ==> after == (LayerSearchModel { stage: LayerStage::AwaitRoot, ..search })
                && search.window == Some((command->window, command->handle))
                && command is FindRootLayer
            &&& !wanted ==> after == (LayerSearchModel { stage: LayerStage::Finished, ..search })
                && command == LayerCommand::Done
        }),
{
}

/// The root layer of an AppKit view is asked for its class; without one the search is over.
pub proof fn root_layers_are_asked_about(
    search: LayerSearchModel,
    is_app_kit: bool,
    layer: Option<LayerId>,
)
    requires
        search.well_formed(),
        search.stage == LayerStage::AwaitRoot,
    ensures
        ({
            let (after, command) = search.step(LayerEvent::RootLayer { is_app_kit, layer });
            &&& is_app_kit && layer is Some ==> after == (LayerSearchModel {
                stage: LayerStage::AwaitRootClass { root: layer->0 },
                ..search
            }) && command == LayerCommand::AskIsMetal(layer->0)
            &&& !is_app_kit || layer is None ==> after == (LayerSearchModel {
                stage: LayerStage::Finished,
                ..search
            }) && command == LayerCommand::Done
        }),
{
}

/// Once the class of a layer is known: a Metal layer is set up to cycle through three drawables;
/// below a root that is none the layers are counted; and after a layer below it that is none comes
/// the next, until all were looked at.
pub proof fn metal_layers_are_installed(search: LayerSearchModel, is_metal: bool)
    requires
        search.well_formed(),
    ensures
        search.stage matches LayerStage::AwaitRootClass { root } ==> ({
            let (after, command) = search.step(LayerEvent::IsMetal(is_metal));
            &&& is_metal ==> after == (LayerSearchModel {
                stage: LayerStage::AwaitInstall { layer: root },
                ..search
            }) && command == (LayerCommand::Install { layer: root, maximum_drawable_count: 3 })
            &&& !is_metal ==> after == (LayerSearchModel {
                stage: LayerStage::AwaitCount { root },
                ..search
            }) && command == LayerCommand::CountSublayers(root)
        }),
        search.stage matches LayerStage::AwaitSublayerClass { root, index, count, layer } ==> ({
            let (after, command) = search.step(LayerEvent::IsMetal(is_metal));
            &&& is_metal ==> after == (LayerSearchModel {
                stage: LayerStage::AwaitInstall { layer },
                ..search
            }) && command == (LayerCommand::Install { layer, maximum_drawable_count: 3 })
            &&& !is_metal && index + 1 < count ==> after == (LayerSearchModel {
                stage: LayerStage::AwaitSublayer { root, index: (index + 1) as u64, count },
                ..search
            }) && command == (LayerCommand::GetSublayer {
                parent: root,
                index: (index + 1) as u64,
            })
            &&& !is_metal && index + 1 >= count ==> after == (LayerSearchModel {
                stage: LayerStage::Finished,
                ..search
            }) && command == LayerCommand::Done
        }),
{
}

/// The layers below the root are looked at from the first on, each asked for its class; without a
/// list of them, or with an empty one, the search is over.
pub proof fn sublayers_are_looked_at_from_the_first(
    search: LayerSearchModel,
    found: Option<u64>,
    sublayer: LayerId,
)
    requires
        search.well_formed(),
    ensures
        search.stage matches LayerStage::AwaitCount { root } ==> ({
            let (after, command) = search.step(LayerEvent::SublayerCount(found));
            &&& found is Some && found->0 > 0 ==> after == (LayerSearchModel {
                stage: LayerStage::AwaitSublayer { root, index: 0, count: found->0 },
                ..search
            }) && command == (LayerCommand::GetSublayer { parent: root, index: 0 })
            &&& found is None || found->0 == 0 ==> after == (LayerSearchModel {
                stage: LayerStage::Finished,
                ..search
            }) && command == LayerCommand::Done
        }),
        search.stage matches LayerStage::AwaitSublayer { root, index, count } ==> search.step(
            LayerEvent::Sublayer(sublayer),
        ) == (
            (LayerSearchModel {
                stage: LayerStage::AwaitSublayerClass { root, index, count, layer: sublayer },
                ..search
            }),
            LayerCommand::AskIsMetal(sublayer),
        ),
{
}

/// The layer that was set up becomes the layer of the blit, of which nothing else changes, and the
/// search is over.
pub proof fn installed_layers_are_kept(search: LayerSearchModel, layer: LayerId)
    requires
        search.well_formed(),
        search.stage == (LayerStage::AwaitInstall { layer }),
    ensures
        ({
            let (after, command) = search.step(LayerEvent::Installed);
            &&& command == LayerCommand::Done
            &&& after.stage == LayerStage::Finished
            &&& after.window == search.window
            &&& after.state is Some
            &&& after.state->0.metal_state is Some
            &&& after.state->0.metal_state->0.layer == layer
            &&& after.state->0.source_texture == search.state->0.source_texture
            &&& after.state->0.source_width == search.state->0.source_width
            &&& after.state->0.source_height == search.state->0.source_height
        }),
{
}

/// A search takes every answer to what it asked for.
pub proof fn every_answer_is_taken(
    search: LayerSearchModel,
    event: LayerEvent,
    is_app_kit: bool,
    layer: Option<LayerId>,
    is_metal: bool,
    count: Option<u64>,
    sublayer: LayerId,
)
    requires
        search.well_formed(),
        search.accepts(event),
    ensures
        ({
            let (after, command) = search.step(event);
            &&& command is FindRootLayer ==> after.accepts(
                LayerEvent::RootLayer { is_app_kit, layer },
            )
            &&& command is AskIsMetal ==> after.accepts(LayerEvent::IsMetal(is_metal))
            &&& command is CountSublayers ==> after.accepts(LayerEvent::SublayerCount(count))
            &&& command is GetSublayer ==> after.accepts(LayerEvent::Sublayer(sublayer))
            &&& command is Install ==> after.accepts(LayerEvent::Installed)
        }),
        search.stage == LayerStage::Begin ==> search.accepts(LayerEvent::Begin),
{
}

/// A search stands for what its caller holds, part by part.
pub proof fn searches_show_all_they_work_on(search: LayerSearch, state: Option<OffscreenBlitState>)
    ensures
        search.model(state).window == search.window,
        search.model(state).stage == search.stage,
        search.model(state).state == state,
{
}

} // verus!
