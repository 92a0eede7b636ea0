//! Laws of the creation of surfaces.

use bevy_ecs::entity::Entity;
use vstd::prelude::*;

use crate::containers;
use crate::create;
use crate::create::{
    SurfaceCommand, SurfaceCreation, SurfaceCreationModel, SurfaceEvent, SurfaceFailure,
    SurfaceStage,
};
use crate::extract;
use crate::extract::WindowSnapshot;
use crate::laws::extraction;
use crate::pending;
use crate::surface;
use crate::surface::{SurfaceCapabilities, SurfaceData, SurfaceId, WindowSurfaces};
use crate::window;
use crate::window::{ExtractedWindow, ExtractedWindows};

verus! {

/// What the outside answers about one window during a pass.
pub struct SurfaceReplies {
    /// The surface, where one is created.
    pub surface: SurfaceId,
    /// Its capabilities at that time.
    pub created: SurfaceCapabilities,
    /// Its capabilities when it is configured anew.
    pub queried: SurfaceCapabilities,
}

/// The surface can show the window whenever it is asked to.
pub open spec fn replies_suit(pass: SurfaceCreationModel, e: Entity, replies: SurfaceReplies) -> bool {
    let window = pass.windows[e];
    &&& !pass.surfaces.dom().contains(e) ==> surface::can_show(window, replies.created)
    &&& window.changed() ==> surface::chosen_present_mode(
        window.present_mode,
        replies.queried.present_modes@,
    ) is Some
}

/// The surface that a window ends up with.
pub open spec fn settled_surface(
    pass: SurfaceCreationModel,
    e: Entity,
    replies: SurfaceReplies,
) -> SurfaceData {
    let window = pass.windows[e];
    let data = if pass.surfaces.dom().contains(e) {
        pass.surfaces[e]
    } else {
        surface::initial_surface_data(window, replies.surface, replies.created)
    };
    if window.changed() {
        create::presented_surface(
            create::resized_surface(data, window),
            surface::chosen_present_mode(window.present_mode, replies.queried.present_modes@)->0,
        )
    } else {
        data
    }
}

/// What becomes of a window itself: it loses its frame if it changed.
pub open spec fn settled_window(window: ExtractedWindow) -> ExtractedWindow {
    if window.changed() {
        window.without_frame()
    } else {
        window
    }
}

/// A pass after it dealt with the next window.
pub open spec fn settled(pass: SurfaceCreationModel, replies: SurfaceReplies) -> SurfaceCreationModel {
    let e = pass.pending.last();
    SurfaceCreationModel {
        windows: pass.windows.insert(e, settled_window(pass.windows[e])),
        surfaces: pass.surfaces.insert(e, settled_surface(pass, e, replies)),
        configured: pass.configured.insert(e),
        pending: pass.pending.drop_last(),
        stage: SurfaceStage::NextWindow,
    }
}

/// The steps of a pass from one window to the next, when the outside answers so.
pub open spec fn run_window(
    pass: SurfaceCreationModel,
    replies: SurfaceReplies,
) -> SurfaceCreationModel {
    let begun = pass.step(SurfaceEvent::Resume).0;
    let with_surface = if begun.stage is AwaitSurface {
        begun.step(
            SurfaceEvent::Created { surface: replies.surface, capabilities: replies.created },
        ).0.step(SurfaceEvent::Configured).0
    } else {
        begun
    };
    if with_surface.stage is AwaitCapabilities {
        with_surface.step(SurfaceEvent::Capabilities(replies.queried)).0.step(
            SurfaceEvent::Configured,
        ).0
    } else {
        with_surface
    }
}

/// The steps that a pass takes over a window come to this: the window has a surface, created for
/// it if there was none, configured for it if it changed; it counts as configured; and it lost its
/// frame if it changed. Nothing else is touched.
pub proof fn steps_settle_a_window(pass: SurfaceCreationModel, replies: SurfaceReplies)
    requires
        pass.well_formed(),
        pass.stage == SurfaceStage::NextWindow,
        pass.pending.len() > 0,
        replies_suit(pass, pass.pending.last(), replies),
    ensures
        run_window(pass, replies) == settled(pass, replies),
{
    let e = pass.pending.last();
    assert(pass.windows.dom().contains(pass.pending[pass.pending.len() - 1]));
    let got = run_window(pass, replies);
    let want = settled(pass, replies);
    assert(got.windows =~= want.windows);
    assert(got.surfaces =~= want.surfaces);
    assert(got.configured =~= want.configured);
    assert(got.pending =~= want.pending);
}

/// A pass after it dealt with all its windows.
pub open spec fn settled_all(
    pass: SurfaceCreationModel,
    replies: spec_fn(Entity) -> SurfaceReplies,
) -> SurfaceCreationModel
    decreases pass.pending.len(),
{
    if pass.pending.len() == 0 {
        pass
    } else {
        settled_all(settled(pass, replies(pass.pending.last())), replies)
    }
}

/// A pass settles each of its windows by what the outside answered about that window alone, and
/// leaves all others as they were.
pub proof fn pass_settles_all_windows(
    pass: SurfaceCreationModel,
    replies: spec_fn(Entity) -> SurfaceReplies,
)
    requires
        pass.pending.no_duplicates(),
    ensures
        ({
            let after = settled_all(pass, replies);
            &&& after.pending.len() == 0
            &&& forall|e: Entity| #[trigger]
                pass.pending.contains(e) ==> {
                    &&& after.windows.dom().contains(e)
                    &&& after.windows[e] == settled_window(pass.windows[e])
                    &&& after.surfaces.dom().contains(e)
                    &&& after.surfaces[e] == settled_surface(pass, e, replies(e))
                    &&& after.configured.contains(e)
                }
            &&& forall|e: Entity|
                !#[trigger] pass.pending.contains(e) ==> {
                    &&& after.windows.dom().contains(e) == pass.windows.dom().contains(e)
                    &&& after.windows[e] == pass.windows[e]
                    &&& after.surfaces.dom().contains(e) == pass.surfaces.dom().contains(e)
                    &&& after.surfaces[e] == pass.surfaces[e]
                    &&& after.configured.contains(e) == pass.configured.contains(e)
                }
        }),
    decreases pass.pending.len(),
{
    if pass.pending.len() > 0 {
        let last = pass.pending.last();
        let next = settled(pass, replies(last));
        pending::lemma_rest_holds_the_others(pass.pending);
        pass_settles_all_windows(next, replies);
    }
}

/// The steps of a pass over its next `count` windows, when the outside answers so.
pub open spec fn run_windows(
    pass: SurfaceCreationModel,
    replies: spec_fn(Entity) -> SurfaceReplies,
    count: nat,
) -> SurfaceCreationModel
    decreases count,
{
    if count == 0 {
        pass
    } else {
        run_windows(
            run_window(pass, replies(pass.pending.last())),
            replies,
            (count - 1) as nat,
        )
    }
}

/// Step by step, a pass over surfaces that can show their windows comes to what `settled_all`
/// says, and is then done.
pub proof fn steps_settle_all_windows(
    pass: SurfaceCreationModel,
    replies: spec_fn(Entity) -> SurfaceReplies,
)
    requires
        pass.well_formed(),
        pass.stage == SurfaceStage::NextWindow,
        pass.pending.no_duplicates(),
        forall|e: Entity| #[trigger]
            pass.pending.contains(e) ==> replies_suit(pass, e, replies(e)),
    ensures
        run_windows(pass, replies, pass.pending.len()) == settled_all(pass, replies),
        settled_all(pass, replies).step(SurfaceEvent::Resume).1 == SurfaceCommand::Done,
    decreases pass.pending.len(),
{
    if pass.pending.len() > 0 {
        let last = pass.pending.last();
        let next = settled(pass, replies(last));
        pending::lemma_rest_holds_the_others(pass.pending);
        assert(pass.windows.dom().contains(pass.pending[pass.pending.len() - 1]));
        steps_settle_a_window(pass, replies(last));
        assert forall|i: int| 0 <= i < next.pending.len() implies next.windows.dom().contains(
            #[trigger] next.pending[i],
        ) by {
            assert(pass.windows.dom().contains(pass.pending[i]));
        }
        assert forall|e: Entity| #[trigger] next.pending.contains(e) implies replies_suit(
            next,
            e,
            replies(e),
        ) by {
            assert(pass.pending.contains(e));
        }
        steps_settle_all_windows(next, replies);
    }
}

/// After a pass over all windows each of them is configured; so a further pass is called for only
/// by windows that changed.
pub proof fn pass_configures_all_windows(
    pass: SurfaceCreationModel,
    replies: spec_fn(Entity) -> SurfaceReplies,
    e: Entity,
)
    requires
        pass.well_formed(),
        pass.pending.no_duplicates(),
        pass.pending.to_set() == pass.windows.dom(),
        pass.windows.dom().contains(e),
    ensures
        ({
            let after = settled_all(pass, replies);
            &&& after.windows.dom().contains(e)
            &&& surface::needs_configuration(after.windows[e], after.configured)
                <==> pass.windows[e].changed()
        }),
{
    pass_settles_all_windows(pass, replies);
    pending::lemma_listed_windows_are_known(pass.pending, pass.windows.dom());
    assert(pass.pending.contains(e));
}

/// A pass over all windows keeps it so that exactly the windows with a surface count as
/// configured: afterwards these are the windows that did so before, and all that are known.
pub proof fn pass_keeps_windows_configured(
    pass: SurfaceCreationModel,
    replies: spec_fn(Entity) -> SurfaceReplies,
)
    requires
        pass.well_formed(),
        pass.stage == SurfaceStage::NextWindow,
        pass.pending.no_duplicates(),
        pass.pending.to_set() == pass.windows.dom(),
        forall|e: Entity| #[trigger]
            pass.windows.dom().contains(e) ==> replies_suit(pass, e, replies(e)),
        pass.configured == pass.surfaces.dom(),
    ensures
        ({
            let after = run_windows(pass, replies, pass.pending.len());
            &&& after.configured == pass.configured.union(pass.windows.dom())
            &&& after.surfaces.dom() == after.configured
        }),
{
    let after = settled_all(pass, replies);
    pending::lemma_listed_windows_are_known(pass.pending, pass.windows.dom());
    assert forall|e: Entity| #[trigger] pass.pending.contains(e) implies replies_suit(
        pass,
        e,
        replies(e),
    ) by {
        assert(pass.windows.dom().contains(e));
    }
    steps_settle_all_windows(pass, replies);
    pass_settles_all_windows(pass, replies);
    assert forall|e: Entity|
        #![trigger after.configured.contains(e)]
        #![trigger after.surfaces.dom().contains(e)]
        after.configured.contains(e) == pass.configured.union(pass.windows.dom()).contains(e)
            && after.surfaces.dom().contains(e) == after.configured.contains(e) by {
        assert(pass.windows.dom().contains(e) <==> pass.pending.contains(e));
    }
    assert(after.configured =~= pass.configured.union(pass.windows.dom()));
    assert(after.surfaces.dom() =~= after.configured);
}

/// Every surface is configured to queue at least one frame.
pub open spec fn surface_latencies_positive(surfaces: Map<Entity, SurfaceData>) -> bool {
    forall|e: Entity| #[trigger]
        surfaces.dom().contains(e) ==> surfaces[e].configuration.desired_maximum_frame_latency >= 1
}

/// Where no window asks for frames to be queued without any, no surface is ever configured so.
pub proof fn pass_keeps_latencies_positive(pass: SurfaceCreationModel, event: SurfaceEvent)
    requires
        pass.well_formed(),
        pass.accepts(event),
        window::latencies_positive(pass.windows),
        surface_latencies_positive(pass.surfaces),
    ensures
        window::latencies_positive(pass.step(event).0.windows),
        surface_latencies_positive(pass.step(event).0.surfaces),
        pass.step(event).1 matches SurfaceCommand::Configure { configuration, .. }
            ==> configuration.desired_maximum_frame_latency >= 1,
{
    if pass.stage == SurfaceStage::NextWindow && pass.pending.len() > 0 {
        assert(pass.windows.dom().contains(pass.pending[pass.pending.len() - 1]));
    }
}

/// Whether a surface is as large as its window.
pub open spec fn fits(window: ExtractedWindow, data: SurfaceData) -> bool {
    &&& data.configuration.width == window.physical_width
    &&& data.configuration.height == window.physical_height
}

/// Every surface is as large as its window.
pub open spec fn surfaces_fit(
    windows: Map<Entity, ExtractedWindow>,
    surfaces: Map<Entity, SurfaceData>,
) -> bool {
    forall|e: Entity| #[trigger]
        windows.dom().contains(e) && surfaces.dom().contains(e) ==> fits(windows[e], surfaces[e])
}

/// Every surface is as large as its window, unless the window is known to have changed its size.
pub open spec fn surfaces_fit_or_changed(
    windows: Map<Entity, ExtractedWindow>,
    surfaces: Map<Entity, SurfaceData>,
) -> bool {
    forall|e: Entity| #[trigger]
        windows.dom().contains(e) && surfaces.dom().contains(e) ==> windows[e].size_changed || fits(
            windows[e],
            surfaces[e],
        )
}

/// Where the surfaces fit before an extraction, any that does not fit afterwards belongs to a
/// window that the extraction reports as changed: no change of size goes unnoticed.
pub proof fn extraction_notices_size_changes(
    windows: Map<Entity, ExtractedWindow>,
    surfaces: Map<Entity, SurfaceData>,
    snapshots: Seq<WindowSnapshot>,
    gone: Set<Entity>,
)
    requires
        extraction::distinct_windows(snapshots),
        surfaces_fit(windows, surfaces),
        surfaces.dom().subset_of(windows.dom()),
    ensures
        surfaces_fit_or_changed(
            extract::with_snapshots(windows, snapshots).remove_keys(gone),
            surfaces.remove_keys(gone),
        ),
        surfaces.remove_keys(gone).dom().subset_of(
            extract::with_snapshots(windows, snapshots).remove_keys(gone).dom(),
        ),
{
    let extracted = extract::with_snapshots(windows, snapshots);
    let after = extracted.remove_keys(gone);
    let left = surfaces.remove_keys(gone);
    assert forall|e: Entity| #[trigger]
        after.dom().contains(e) && left.dom().contains(e) implies after[e].size_changed || fits(
        after[e],
        left[e],
    ) by {
        assert(extracted.dom().contains(e));
        assert(windows.dom().contains(e));
        assert(fits(windows[e], surfaces[e]));
        if extraction::is_shown(snapshots, e) {
            let i = choose|i: int|
                0 <= i < snapshots.len() && (#[trigger] snapshots[i]).entity == e;
            extraction::extraction_treats_windows_alone(windows, snapshots, i);
        } else {
            extraction::extraction_keeps_other_windows(windows, snapshots, e);
        }
    }
    assert forall|e: Entity| #[trigger] left.dom().contains(e) implies after.dom().contains(e) by {
        extraction::extraction_knows_all_windows(windows, snapshots, gone, e);
    }
}

/// After a pass over all windows every surface is as large as its window again.
pub proof fn pass_makes_surfaces_fit(
    pass: SurfaceCreationModel,
    replies: spec_fn(Entity) -> SurfaceReplies,
)
    requires
        pass.well_formed(),
        pass.pending.no_duplicates(),
        pass.pending.to_set() == pass.windows.dom(),
        surfaces_fit_or_changed(pass.windows, pass.surfaces),
    ensures
        surfaces_fit(
            settled_all(pass, replies).windows,
            settled_all(pass, replies).surfaces,
        ),
        settled_all(pass, replies).windows.dom() == pass.windows.dom(),
{
    let after = settled_all(pass, replies);
    pass_settles_all_windows(pass, replies);
    pending::lemma_listed_windows_are_known(pass.pending, pass.windows.dom());
    assert forall|e: Entity| #[trigger]
        after.windows.dom().contains(e) <==> pass.windows.dom().contains(e) by {
        assert(pass.windows.dom().contains(e) <==> pass.pending.contains(e));
    }
    assert(after.windows.dom() =~= pass.windows.dom());
}

/// Where no window needs its surface configured, a pass would change nothing: leaving it out is
/// safe.
pub proof fn pass_without_need_changes_nothing(
    pass: SurfaceCreationModel,
    replies: SurfaceReplies,
)
    requires
        pass.well_formed(),
        pass.configured.subset_of(pass.surfaces.dom()),
        pass.stage == SurfaceStage::NextWindow,
        pass.pending.len() > 0,
        forall|e: Entity| #[trigger]
            pass.windows.dom().contains(e) ==> !surface::needs_configuration(
                pass.windows[e],
                pass.configured,
            ),
    ensures
        pass.step(SurfaceEvent::Resume) == (
            SurfaceCreationModel { pending: pass.pending.drop_last(), ..pass },
            SurfaceCommand::Ready(pass.pending.last()),
        ),
{
    let e = pass.pending.last();
    assert(pass.windows.dom().contains(pass.pending[pass.pending.len() - 1]));
    assert(pass.configured.contains(e));
    assert(pass.configured.insert(e) =~= pass.configured);
}

/// A window that is being configured anew holds no frame.
pub open spec fn frame_is_dropped(pass: SurfaceCreationModel) -> bool {
    match pass.stage {
        SurfaceStage::AwaitCapabilities(e) | SurfaceStage::AwaitConfiguration(e) => {
            &&& pass.windows[e].swap_chain_texture is None
            &&& pass.windows[e].swap_chain_texture_view is None
        },
        _ => true,
    }
}

/// A surface that was there before the pass is configured only once its window holds no frame of
/// it any more, whatever the outside answers.
pub proof fn frames_are_dropped_before_configuring(pass: SurfaceCreationModel, event: SurfaceEvent)
    requires
        pass.well_formed(),
        pass.accepts(event),
        frame_is_dropped(pass),
    ensures
        frame_is_dropped(pass.step(event).0),
        pass.step(event).1 is Configure ==> pass.stage is AwaitSurface || (
        pass.stage is AwaitCapabilities && ({
            let window = pass.step(event).0.windows[pass.stage->AwaitCapabilities_0];
            window.swap_chain_texture is None && window.swap_chain_texture_view is None
        })),
{
}

/// A pass keeps windows and surfaces well formed: only windows with a surface count as configured,
/// only known windows have a surface, and no window comes or goes.
pub proof fn pass_keeps_surfaces_well_formed(pass: SurfaceCreationModel, event: SurfaceEvent)
    requires
        pass.well_formed(),
        pass.accepts(event),
        pass.configured.subset_of(pass.surfaces.dom()),
        pass.surfaces.dom().subset_of(pass.windows.dom()),
        window::windows_well_formed(pass.windows),
    ensures
        pass.step(event).0.configured.subset_of(pass.step(event).0.surfaces.dom()),
        pass.step(event).0.surfaces.dom().subset_of(pass.step(event).0.windows.dom()),
        pass.step(event).0.windows.dom() == pass.windows.dom(),
        window::windows_well_formed(pass.step(event).0.windows),
{
    if pass.stage == SurfaceStage::NextWindow && pass.pending.len() > 0 {
        assert(pass.windows.dom().contains(pass.pending[pass.pending.len() - 1]));
    }
    assert(pass.step(event).0.windows.dom() =~= pass.windows.dom());
}

/// Over a whole frame, from one extraction to the next, every surface stays as large as its window:
/// the windows are extracted, and a pass over all of them follows unless none of them needs it.
pub proof fn surfaces_keep_fitting(
    windows: Map<Entity, ExtractedWindow>,
    surfaces: Map<Entity, SurfaceData>,
    snapshots: Seq<WindowSnapshot>,
    gone: Set<Entity>,
    pass: SurfaceCreationModel,
    replies: spec_fn(Entity) -> SurfaceReplies,
)
    requires
        extraction::distinct_windows(snapshots),
        window::windows_well_formed(windows),
        surfaces_fit(windows, surfaces),
        surfaces.dom().subset_of(windows.dom()),
        pass.windows == extract::with_snapshots(windows, snapshots).remove_keys(gone),
        pass.surfaces == surfaces.remove_keys(gone),
        pass.stage == SurfaceStage::NextWindow,
        pass.pending.no_duplicates(),
        pass.pending.to_set() == pass.windows.dom(),
    ensures
        surfaces_fit(settled_all(pass, replies).windows, settled_all(pass, replies).surfaces),
        (forall|e: Entity| #[trigger]
            pass.windows.dom().contains(e) ==> !surface::needs_configuration(
                pass.windows[e],
                pass.configured,
            )) ==> surfaces_fit(pass.windows, pass.surfaces),
{
    extraction_notices_size_changes(windows, surfaces, snapshots, gone);
    extraction::extraction_keeps_windows_well_formed(windows, snapshots, gone);
    pending::lemma_listed_windows_are_known(pass.pending, pass.windows.dom());
    pass_makes_surfaces_fit(pass, replies);
}

/// After an extraction, a pass over all windows, and a second extraction of the same windows, no
/// window that is shown needs its surface configured. A window that neither extraction is shown
/// keeps its flags, and so needs it exactly where it is still marked as changed. No window that
/// went in the first extraction is shown in the second, unless it goes again.
pub proof fn configured_windows_need_nothing(
    windows: Map<Entity, ExtractedWindow>,
    snapshots: Seq<WindowSnapshot>,
    gone: Set<Entity>,
    pass: SurfaceCreationModel,
    replies: spec_fn(Entity) -> SurfaceReplies,
    gone_again: Set<Entity>,
)
    requires
        extraction::distinct_windows(snapshots),
        window::windows_well_formed(windows),
        pass.windows == extract::with_snapshots(windows, snapshots).remove_keys(gone),
        pass.stage == SurfaceStage::NextWindow,
        pass.pending.no_duplicates(),
        pass.pending.to_set() == pass.windows.dom(),
        forall|e: Entity| #[trigger]
            pass.windows.dom().contains(e) ==> replies_suit(pass, e, replies(e)),
        forall|i: int|
            0 <= i < snapshots.len() && gone.contains((#[trigger] snapshots[i]).entity)
                ==> gone_again.contains(snapshots[i].entity),
    ensures
        ({
            let after = run_windows(pass, replies, pass.pending.len());
            let again = extract::with_snapshots(after.windows, snapshots).remove_keys(gone_again);
            let configured = after.configured.difference(gone_again);
            forall|e: Entity| #[trigger]
                again.dom().contains(e) ==> (surface::needs_configuration(again[e], configured)
                    <==> !extraction::is_shown(snapshots, e) && pass.windows[e].changed())
        }),
{
    extraction::extraction_keeps_windows_well_formed(windows, snapshots, gone);
    pending::lemma_listed_windows_are_known(pass.pending, pass.windows.dom());
    assert forall|e: Entity| #[trigger] pass.pending.contains(e) implies replies_suit(
        pass,
        e,
        replies(e),
    ) by {
        assert(pass.windows.dom().contains(e));
    }
    steps_settle_all_windows(pass, replies);
    pass_settles_all_windows(pass, replies);
    let after = settled_all(pass, replies);
    let extracted = extract::with_snapshots(after.windows, snapshots);
    let again = extracted.remove_keys(gone_again);
    let configured = after.configured.difference(gone_again);
    assert forall|e: Entity| #[trigger] again.dom().contains(e) implies (
    surface::needs_configuration(again[e], configured) <==> !extraction::is_shown(snapshots, e)
        && pass.windows[e].changed()) by {
        extraction::extraction_knows_all_windows(windows, snapshots, gone, e);
        extraction::extraction_knows_all_windows(after.windows, snapshots, gone_again, e);
        assert(pass.windows.dom().contains(e) <==> pass.pending.contains(e));
        assert(again[e] == extracted[e]);
        if extraction::is_shown(snapshots, e) {
            let i = choose|i: int|
                0 <= i < snapshots.len() && (#[trigger] snapshots[i]).entity == e;
            extraction::extraction_follows_snapshots(windows, snapshots, i);
            extraction::extraction_treats_windows_alone(after.windows, snapshots, i);
        } else {
            extraction::extraction_keeps_other_windows(after.windows, snapshots, e);
        }
    }
}

/// How many steps a pass can take at most until it is over.
pub open spec fn steps_left(pass: SurfaceCreationModel) -> int {
    5 * pass.pending.len() + match pass.stage {
        SurfaceStage::NextWindow => 0int,
        SurfaceStage::AwaitSurface(_) => 4,
        SurfaceStage::AwaitFirstConfiguration(_) => 3,
        SurfaceStage::AwaitCapabilities(_) => 2,
        SurfaceStage::AwaitConfiguration(_) => 1,
        SurfaceStage::Failed => 0,
    }
}

/// A pass ends, whatever the outside answers: each step that does not end it brings it closer to
/// its end.
pub proof fn pass_ends(pass: SurfaceCreationModel, event: SurfaceEvent)
    requires
        pass.well_formed(),
        pass.accepts(event),
    ensures
        0 <= steps_left(pass),
        pass.step(event).1 is Done || pass.step(event).1 is Fail || steps_left(pass.step(event).0)
            < steps_left(pass),
        pass.step(event).1 is Done <==> pass.stage == SurfaceStage::NextWindow
            && pass.pending.len() == 0,
{
}

/// The pass looks at a window whose surface is there: it comes to the window, or has just
/// configured a new surface for it.
pub open spec fn looks_at(pass: SurfaceCreationModel, event: SurfaceEvent, e: Entity) -> bool {
    &&& pass.surfaces.dom().contains(e)
    &&& pass.windows.dom().contains(e)
    &&& {
        ||| pass.stage == SurfaceStage::NextWindow && event is Resume && pass.pending.len() > 0
            && pass.pending.last() == e
        ||| pass.stage == SurfaceStage::AwaitFirstConfiguration(e) && event is Configured
    }
}

/// The windows to come once the pass has looked at the window at hand.
pub open spec fn still_pending(pass: SurfaceCreationModel) -> Seq<Entity> {
    if pass.stage == SurfaceStage::NextWindow {
        pass.pending.drop_last()
    } else {
        pass.pending
    }
}

/// A window without a surface gets one on its own handles, and nothing else happens yet. A pass
/// without windows to come is done.
pub proof fn missing_surfaces_are_created(pass: SurfaceCreationModel)
    requires
        pass.well_formed(),
        pass.stage == SurfaceStage::NextWindow,
    ensures
        pass.pending.len() == 0 ==> pass.step(SurfaceEvent::Resume) == (pass, SurfaceCommand::Done),
        pass.pending.len() > 0 && !pass.surfaces.dom().contains(pass.pending.last()) ==> ({
            let e = pass.pending.last();
            let (after, command) = pass.step(SurfaceEvent::Resume);
            &&& command == (SurfaceCommand::Create { window: e, handle: pass.windows[e].handle })
            &&& after.stage == SurfaceStage::AwaitSurface(e)
            &&& after.pending == pass.pending.drop_last()
            &&& after.windows == pass.windows
            &&& after.surfaces == pass.surfaces
            &&& after.configured == pass.configured
        }),
{
}

/// A window that did not change, neither in size nor in presentation mode, is left as it is with
/// its surface, and counts as configured.
pub proof fn unchanged_windows_are_ready(
    pass: SurfaceCreationModel,
    event: SurfaceEvent,
    e: Entity,
)
    requires
        pass.well_formed(),
        looks_at(pass, event, e),
        !pass.windows[e].size_changed,
        !pass.windows[e].present_mode_changed,
    ensures
        ({
            let (after, command) = pass.step(event);
            &&& command == SurfaceCommand::Ready(e)
            &&& after.stage == SurfaceStage::NextWindow
            &&& after.pending == still_pending(pass)
            &&& after.windows == pass.windows
            &&& after.surfaces == pass.surfaces
            &&& after.configured == pass.configured.insert(e)
        }),
{
}

/// A window that changed, in size or in presentation mode, gives up its frame and the view of it,
/// its surface takes on its size, and the surface's capabilities are asked for. Nothing else of
/// the window, of its surface or of any other changes.
pub proof fn changed_windows_are_resized(pass: SurfaceCreationModel, event: SurfaceEvent, e: Entity)
    requires
        pass.well_formed(),
        looks_at(pass, event, e),
        pass.windows[e].size_changed || pass.windows[e].present_mode_changed,
    ensures
        ({
            let (after, command) = pass.step(event);
            let before = pass.surfaces[e];
            &&& command == (SurfaceCommand::QueryCapabilities {
                window: e,
                surface: before.surface,
            })
            &&& after.stage == SurfaceStage::AwaitCapabilities(e)
            &&& after.pending == still_pending(pass)
            &&& after.configured == pass.configured
            &&& after.windows.dom() == pass.windows.dom()
            &&& after.surfaces.dom() == pass.surfaces.dom()
            &&& forall|other: Entity| other != e ==> #[trigger] after.windows[other]
                == pass.windows[other]
            &&& forall|other: Entity| other != e ==> #[trigger] after.surfaces[other]
                == pass.surfaces[other]
            &&& after.windows[e].swap_chain_texture is None
            &&& after.windows[e].swap_chain_texture_view is None
            &&& after.windows[e].swap_chain_texture_view_format
                == pass.windows[e].swap_chain_texture_view_format
            &&& extraction::same_but_for_frame(pass.windows[e], after.windows[e])
            &&& after.surfaces[e].configuration.width == pass.windows[e].physical_width
            &&& after.surfaces[e].configuration.height == pass.windows[e].physical_height
            &&& after.surfaces[e].configuration.present_mode == before.configuration.present_mode
            &&& same_but_for_size_and_mode(before, after.surfaces[e])
        }),
{
    let after = pass.step(event).0;
    assert(after.windows.dom() =~= pass.windows.dom());
    assert(after.surfaces.dom() =~= pass.surfaces.dom());
}

/// Whether two states of a surface differ in nothing but size and presentation mode.
pub open spec fn same_but_for_size_and_mode(before: SurfaceData, after: SurfaceData) -> bool {
    &&& after.surface == before.surface
    &&& after.texture_view_format == before.texture_view_format
    &&& after.configuration.usage == before.configuration.usage
    &&& after.configuration.format == before.configuration.format
    &&& after.configuration.desired_maximum_frame_latency
        == before.configuration.desired_maximum_frame_latency
    &&& after.configuration.alpha_mode == before.configuration.alpha_mode
    &&& after.configuration.view_formats == before.configuration.view_formats
}

/// A new surface is configured for its window and kept with just that configuration, unless it
/// cannot show the window: then the pass fails, for want of a mode or, with a mode, of a format,
/// and nothing is kept.
pub proof fn new_surfaces_are_configured(
    pass: SurfaceCreationModel,
    e: Entity,
    surface: SurfaceId,
    capabilities: SurfaceCapabilities,
)
    requires
        pass.well_formed(),
        pass.stage == SurfaceStage::AwaitSurface(e),
    ensures
        ({
            let (after, command) = pass.step(SurfaceEvent::Created { surface, capabilities });
            let mode = surface::chosen_present_mode(
                pass.windows[e].present_mode,
                capabilities.present_modes@,
            );
            &&& after.pending == pass.pending
            &&& after.windows == pass.windows
            &&& after.configured == pass.configured
            &&& mode is None ==> command == (SurfaceCommand::Fail {
                window: e,
                failure: SurfaceFailure::NoPresentMode,
            })
            &&& mode is Some && capabilities.formats@.len() == 0 ==> command == (
            SurfaceCommand::Fail { window: e, failure: SurfaceFailure::NoFormat })
            &&& mode is None || capabilities.formats@.len() == 0 ==> after.surfaces
                == pass.surfaces && after.stage == SurfaceStage::Failed
            &&& mode is Some && capabilities.formats@.len() > 0 ==> {
                let data = surface::initial_surface_data(pass.windows[e], surface, capabilities);
                &&& command == (SurfaceCommand::Configure {
                    window: e,
                    surface,
                    configuration: data.configuration,
                })
                &&& after.surfaces == pass.surfaces.insert(e, data)
                &&& after.stage == SurfaceStage::AwaitFirstConfiguration(e)
            }
        }),
{
}

/// A changed window is configured anew in the mode that is chosen for its own present mode out of
/// those that the query reported: so says the command, and so it is kept. All other settings stay.
/// Where no mode will do, the pass fails and changes nothing.
pub proof fn changed_windows_get_their_mode(
    pass: SurfaceCreationModel,
    e: Entity,
    capabilities: SurfaceCapabilities,
)
    requires
        pass.well_formed(),
        pass.stage == SurfaceStage::AwaitCapabilities(e),
    ensures
        ({
            let (after, command) = pass.step(SurfaceEvent::Capabilities(capabilities));
            let before = pass.surfaces[e];
            let mode = surface::chosen_present_mode(
                pass.windows[e].present_mode,
                capabilities.present_modes@,
            );
            &&& after.pending == pass.pending
            &&& after.windows == pass.windows
            &&& after.configured == pass.configured
            &&& mode is None ==> after.surfaces == pass.surfaces && after.stage
                == SurfaceStage::Failed && command == (SurfaceCommand::Fail {
                window: e,
                failure: SurfaceFailure::NoPresentMode,
            })
            &&& mode is Some ==> {
                let kept = after.surfaces[e];
                &&& command == (SurfaceCommand::Configure {
                    window: e,
                    surface: before.surface,
                    configuration: kept.configuration,
                })
                &&& Some(kept.configuration.present_mode) == mode
                &&& kept.configuration.width == before.configuration.width
                &&& kept.configuration.height == before.configuration.height
                &&& same_but_for_size_and_mode(before, kept)
                &&& after.surfaces == pass.surfaces.insert(e, kept)
                &&& after.stage == SurfaceStage::AwaitConfiguration(e)
            }
        }),
{
}

/// Once a surface was configured anew, its window counts as configured, and nothing else happens.
pub proof fn windows_configured_anew_are_ready(pass: SurfaceCreationModel, e: Entity)
    requires
        pass.well_formed(),
        pass.stage == SurfaceStage::AwaitConfiguration(e),
    ensures
        ({
            let (after, command) = pass.step(SurfaceEvent::Configured);
            &&& command == SurfaceCommand::Ready(e)
            &&& after.stage == SurfaceStage::NextWindow
            &&& after.pending == pass.pending
            &&& after.windows == pass.windows
            &&& after.surfaces == pass.surfaces
            &&& after.configured == pass.configured.insert(e)
        }),
{
}

/// From one window to the next: a window with a surface that changed ends with its own size, with
/// the mode that is chosen for it, and with all other settings as they were; one that did not
/// change keeps its surface as it was.
pub proof fn existing_surfaces_follow_their_windows(
    pass: SurfaceCreationModel,
    replies: SurfaceReplies,
)
    requires
        pass.well_formed(),
        pass.stage == SurfaceStage::NextWindow,
        pass.pending.len() > 0,
        pass.surfaces.dom().contains(pass.pending.last()),
        replies_suit(pass, pass.pending.last(), replies),
    ensures
        ({
            let e = pass.pending.last();
            let window = pass.windows[e];
            let before = pass.surfaces[e];
            let after = run_window(pass, replies).surfaces[e];
            &&& window.size_changed || window.present_mode_changed ==> {
                &&& after.configuration.width == window.physical_width
                &&& after.configuration.height == window.physical_height
                &&& Some(after.configuration.present_mode) == surface::chosen_present_mode(
                    window.present_mode,
                    replies.queried.present_modes@,
                )
                &&& same_but_for_size_and_mode(before, after)
            }
            &&& !window.size_changed && !window.present_mode_changed ==> after == before
        }),
{
    steps_settle_a_window(pass, replies);
}

/// What a pass asks to configure a surface with is what it keeps for that surface.
pub proof fn surfaces_are_kept_as_configured(pass: SurfaceCreationModel, event: SurfaceEvent)
    requires
        pass.well_formed(),
        pass.accepts(event),
    ensures
        pass.step(event).1 matches SurfaceCommand::Configure { window, surface, configuration }
            ==> {
            let kept = pass.step(event).0.surfaces[window];
            &&& pass.step(event).0.surfaces.dom().contains(window)
            &&& kept.surface == surface
            &&& kept.configuration == configuration
        },
{
}

/// A pass takes every answer to what it asked for.
pub proof fn every_answer_is_taken(
    pass: SurfaceCreationModel,
    event: SurfaceEvent,
    surface: SurfaceId,
    capabilities: SurfaceCapabilities,
)
    requires
        pass.well_formed(),
        pass.accepts(event),
    ensures
        ({
            let (after, command) = pass.step(event);
            &&& command is Create ==> after.accepts(
                SurfaceEvent::Created { surface, capabilities },
            )
            &&& command is QueryCapabilities ==> after.accepts(
                SurfaceEvent::Capabilities(capabilities),
            )
            &&& command is Configure ==> after.accepts(SurfaceEvent::Configured)
            &&& command is Ready ==> after.accepts(SurfaceEvent::Resume)
        }),
        pass.stage == SurfaceStage::NextWindow ==> pass.accepts(SurfaceEvent::Resume),
{
    if pass.stage == SurfaceStage::NextWindow && pass.pending.len() > 0 {
        assert(pass.windows.dom().contains(pass.pending[pass.pending.len() - 1]));
    }
}

/// A pass stands for what its caller holds, part by part.
pub proof fn passes_show_all_they_work_on(
    pass: SurfaceCreation,
    windows: ExtractedWindows,
    window_surfaces: WindowSurfaces,
)
    ensures
        ({
            let model = pass.model(&windows, &window_surfaces);
            &&& model.windows == containers::window_entries(windows.windows)
            &&& model.surfaces == containers::surface_entries(window_surfaces.surfaces)
            &&& model.configured == containers::entity_members(window_surfaces.configured_windows)
            &&& model.pending == pass.pending@
            &&& model.stage == pass.stage
        }),
{
}

} // verus!
