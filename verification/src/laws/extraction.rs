//! Laws of extraction.

use bevy_ecs::entity::Entity;
use vstd::prelude::*;

use crate::extract;
use crate::extract::WindowSnapshot;
use crate::formats;
use crate::surface;
use crate::surface::SurfaceData;
use crate::window;
use crate::window::{ExtractedWindow, SurfaceTexture};

verus! {

/// No two snapshots are of the same window.
pub open spec fn distinct_windows(snapshots: Seq<WindowSnapshot>) -> bool {
    forall|i: int, j: int|
        0 <= i < j < snapshots.len() ==> (#[trigger] snapshots[i]).entity != (
        #[trigger] snapshots[j]).entity
}

/// Extraction keeps every window under its own entity and at least one pixel wide and high,
/// whatever sizes the snapshots have and whichever windows go.
pub proof fn extraction_keeps_windows_well_formed(
    windows: Map<Entity, ExtractedWindow>,
    snapshots: Seq<WindowSnapshot>,
    gone: Set<Entity>,
)
    requires
        window::windows_well_formed(windows),
    ensures
        window::windows_well_formed(extract::with_snapshots(windows, snapshots).remove_keys(gone)),
    decreases snapshots.len(),
{
    if snapshots.len() > 0 {
        let before = extract::with_snapshots(windows, snapshots.drop_last());
        extraction_keeps_windows_well_formed(windows, snapshots.drop_last(), Set::empty());
        assert(before.remove_keys(Set::empty()) =~= before);
    }
}

/// Whether one of the snapshots is of the window.
pub open spec fn is_shown(snapshots: Seq<WindowSnapshot>, e: Entity) -> bool {
    exists|i: int| 0 <= i < snapshots.len() && (#[trigger] snapshots[i]).entity == e
}

proof fn lemma_is_shown_step(snapshots: Seq<WindowSnapshot>, e: Entity)
    requires
        snapshots.len() > 0,
    ensures
        is_shown(snapshots, e) <==> is_shown(snapshots.drop_last(), e) || snapshots.last().entity
            == e,
{
    let shorter = snapshots.drop_last();
    if is_shown(shorter, e) {
        let i = choose|i: int| 0 <= i < shorter.len() && (#[trigger] shorter[i]).entity == e;
        assert(snapshots[i].entity == e);
    }
    if snapshots.last().entity == e {
        assert(snapshots[snapshots.len() - 1].entity == e);
    }
    if is_shown(snapshots, e) {
        let i = choose|i: int| 0 <= i < snapshots.len() && (#[trigger] snapshots[i]).entity == e;
        if i < shorter.len() {
            assert(shorter[i].entity == e);
        }
    }
}

/// Extraction knows exactly the windows that it knew before and those that it is shown, less those
/// that go.
pub proof fn extraction_knows_all_windows(
    windows: Map<Entity, ExtractedWindow>,
    snapshots: Seq<WindowSnapshot>,
    gone: Set<Entity>,
    e: Entity,
)
    ensures
        extract::with_snapshots(windows, snapshots).remove_keys(gone).dom().contains(e) <==> (
        windows.dom().contains(e) || is_shown(snapshots, e)) && !gone.contains(e),
    decreases snapshots.len(),
{
    if snapshots.len() > 0 {
        let shorter = snapshots.drop_last();
        let before = extract::with_snapshots(windows, shorter);
        lemma_is_shown_step(snapshots, e);
        extraction_knows_all_windows(windows, shorter, Set::empty(), e);
        assert(before.remove_keys(Set::empty()) =~= before);
    }
}

/// A window that extraction is not shown keeps its entry.
pub proof fn extraction_keeps_other_windows(
    windows: Map<Entity, ExtractedWindow>,
    snapshots: Seq<WindowSnapshot>,
    e: Entity,
)
    requires
        !is_shown(snapshots, e),
    ensures
        extract::with_snapshots(windows, snapshots).dom().contains(e) <==> windows.dom().contains(
            e,
        ),
        extract::with_snapshots(windows, snapshots)[e] == windows[e],
    decreases snapshots.len(),
{
    if snapshots.len() > 0 {
        lemma_is_shown_step(snapshots, e);
        extraction_keeps_other_windows(windows, snapshots.drop_last(), e);
    }
}

/// A window that extraction is shown once gets the entry that this one snapshot gives it: windows
/// do not affect one another.
pub proof fn extraction_treats_windows_alone(
    windows: Map<Entity, ExtractedWindow>,
    snapshots: Seq<WindowSnapshot>,
    i: int,
)
    requires
        distinct_windows(snapshots),
        0 <= i < snapshots.len(),
    ensures
        extract::with_snapshots(windows, snapshots).dom().contains(snapshots[i].entity),
        extract::with_snapshots(windows, snapshots)[snapshots[i].entity]
            == extract::extracted_window(windows, snapshots[i]),
    decreases snapshots.len(),
{
    let shorter = snapshots.drop_last();
    let last = snapshots.last();
    assert(distinct_windows(shorter)) by {
        assert forall|j: int, k: int| 0 <= j < k < shorter.len() implies (
        #[trigger] shorter[j]).entity != (#[trigger] shorter[k]).entity by {
            assert(snapshots[j].entity != snapshots[k].entity);
        }
    }
    if i < shorter.len() {
        assert(shorter[i] == snapshots[i]);
        assert(snapshots[i].entity != snapshots[snapshots.len() - 1].entity);
        extraction_treats_windows_alone(windows, shorter, i);
    } else {
        assert(!is_shown(shorter, last.entity)) by {
            if is_shown(shorter, last.entity) {
                let j = choose|j: int|
                    0 <= j < shorter.len() && (#[trigger] shorter[j]).entity == last.entity;
                assert(snapshots[j].entity != snapshots[snapshots.len() - 1].entity);
            }
        }
        extraction_keeps_other_windows(windows, shorter, last.entity);
    }
}

/// A window that is seen for the first time does not count as changed, holds no frame, and waits
/// for its first one.
pub proof fn new_windows_are_unchanged(
    windows: Map<Entity, ExtractedWindow>,
    snapshot: WindowSnapshot,
)
    requires
        !windows.dom().contains(snapshot.entity),
    ensures
        ({
            let window = extract::extracted_window(windows, snapshot);
            &&& !window.changed()
            &&& window.needs_initial_present
            &&& window.swap_chain_texture is None
            &&& window.swap_chain_texture_view is None
        }),
{
}

/// After an extraction a window has the size and the presentation mode of its snapshot.
pub proof fn extraction_follows_snapshots(
    windows: Map<Entity, ExtractedWindow>,
    snapshots: Seq<WindowSnapshot>,
    i: int,
)
    requires
        distinct_windows(snapshots),
        0 <= i < snapshots.len(),
    ensures
        ({
            let window = extract::with_snapshots(windows, snapshots)[snapshots[i].entity];
            &&& window.physical_width == extract::at_least_one(snapshots[i].physical_width)
            &&& window.physical_height == extract::at_least_one(snapshots[i].physical_height)
            &&& window.present_mode == snapshots[i].present_mode
        }),
{
    extraction_treats_windows_alone(windows, snapshots, i);
}

/// A second extraction of the same state reports no change, and does nothing else: every window
/// that it is shown is as the first left it but for its flags, which are down; every other window
/// is as the first left it; and the windows that are known, and the primary one among them, stay.
pub proof fn second_extraction_reports_no_change(
    windows: Map<Entity, ExtractedWindow>,
    primary: Option<Entity>,
    snapshots: Seq<WindowSnapshot>,
    gone: Set<Entity>,
)
    requires
        distinct_windows(snapshots),
    ensures
        ({
            let once = extract::with_snapshots(windows, snapshots).remove_keys(gone);
            let twice = extract::with_snapshots(once, snapshots).remove_keys(gone);
            &&& twice.dom() == once.dom()
            &&& forall|e: Entity| #[trigger]
                once.dom().contains(e) ==> twice[e] == if is_shown(snapshots, e) {
                    ExtractedWindow { size_changed: false, present_mode_changed: false, ..once[e] }
                } else {
                    once[e]
                }
        }),
        extract::last_primary(extract::last_primary(primary, snapshots), snapshots)
            == extract::last_primary(primary, snapshots),
{
    let extracted = extract::with_snapshots(windows, snapshots);
    let once = extracted.remove_keys(gone);
    let again = extract::with_snapshots(once, snapshots);
    let twice = again.remove_keys(gone);
    assert forall|e: Entity| #[trigger] twice.dom().contains(e) <==> once.dom().contains(e) by {
        extraction_knows_all_windows(windows, snapshots, gone, e);
        extraction_knows_all_windows(once, snapshots, gone, e);
    }
    assert(twice.dom() =~= once.dom());
    assert forall|e: Entity| #[trigger] once.dom().contains(e) implies twice[e] == if is_shown(
        snapshots,
        e,
    ) {
        ExtractedWindow { size_changed: false, present_mode_changed: false, ..once[e] }
    } else {
        once[e]
    } by {
        assert(once[e] == extracted[e]);
        assert(twice.dom().contains(e));
        assert(twice[e] == again[e]);
        if is_shown(snapshots, e) {
            let i = choose|i: int|
                0 <= i < snapshots.len() && (#[trigger] snapshots[i]).entity == e;
            extraction_treats_windows_alone(windows, snapshots, i);
            extraction_treats_windows_alone(once, snapshots, i);
        } else {
            extraction_keeps_other_windows(once, snapshots, e);
        }
    }
    lemma_primary_stays(primary, snapshots);
}

/// Taking over the primary window of the same snapshots twice is taking it over once.
proof fn lemma_primary_stays(primary: Option<Entity>, snapshots: Seq<WindowSnapshot>)
    ensures
        extract::last_primary(extract::last_primary(primary, snapshots), snapshots)
            == extract::last_primary(primary, snapshots),
    decreases snapshots.len(),
{
    if snapshots.len() > 0 && !snapshots.last().primary {
        lemma_primary_stays(primary, snapshots.drop_last());
    }
}

/// A frame that was not presented survives an extraction together with its view.
pub proof fn extraction_keeps_unpresented_frames(window: ExtractedWindow, snapshot: WindowSnapshot)
    ensures
        window.holds_frame() ==> {
            let after = extract::refreshed_window(window, snapshot);
            &&& after.holds_frame()
            &&& after.swap_chain_texture == window.swap_chain_texture
            &&& after.swap_chain_texture_view == window.swap_chain_texture_view
        },
{
}

/// Once its frame was presented, a window is left with neither frame nor view by the next
/// extraction.
pub proof fn extraction_drops_views_of_presented_frames(
    window: ExtractedWindow,
    snapshot: WindowSnapshot,
)
    ensures
        ({
            let presented = ExtractedWindow { swap_chain_texture: None, ..window };
            let after = extract::refreshed_window(presented, snapshot);
            after.swap_chain_texture is None && after.swap_chain_texture_view is None
        }),
{
}

/// A window that is closing or lost its handle is forgotten, and so are its surface and the fact
/// that it was configured, even if the window is extracted at the same time.
pub proof fn gone_windows_are_forgotten(
    windows: Map<Entity, ExtractedWindow>,
    snapshots: Seq<WindowSnapshot>,
    surfaces: Map<Entity, SurfaceData>,
    configured: Set<Entity>,
    closing: Seq<Entity>,
    removed: Seq<Entity>,
    e: Entity,
)
    requires
        closing.contains(e) || removed.contains(e),
    ensures
        ({
            let gone = (closing + removed).to_set();
            &&& !extract::with_snapshots(windows, snapshots).remove_keys(gone).dom().contains(e)
            &&& !surfaces.remove_keys(gone).dom().contains(e)
            &&& !configured.difference(gone).contains(e)
        }),
{
    let all = closing + removed;
    if closing.contains(e) {
        let i = choose|i: int| 0 <= i < closing.len() && closing[i] == e;
        assert(all[i] == e);
    } else {
        let i = choose|i: int| 0 <= i < removed.len() && removed[i] == e;
        assert(all[closing.len() + i] == e);
    }
    assert(all.to_set().contains(e));
}

/// Forgetting windows keeps the surfaces well formed: only windows with a surface count as
/// configured.
pub proof fn forgetting_keeps_surfaces_well_formed(
    surfaces: Map<Entity, SurfaceData>,
    configured: Set<Entity>,
    gone: Set<Entity>,
)
    requires
        configured.subset_of(surfaces.dom()),
    ensures
        configured.difference(gone).subset_of(surfaces.remove_keys(gone).dom()),
{
}

/// Forgetting windows keeps it so that exactly the windows with a surface count as configured.
pub proof fn forgetting_keeps_windows_configured(
    surfaces: Map<Entity, SurfaceData>,
    configured: Set<Entity>,
    gone: Set<Entity>,
)
    requires
        configured == surfaces.dom(),
    ensures
        configured.difference(gone) == surfaces.remove_keys(gone).dom(),
{
    assert(configured.difference(gone) =~= surfaces.remove_keys(gone).dom());
}

/// Where no window asks for frames to be queued without any, neither before nor in the snapshots,
/// none does after an extraction.
pub proof fn extraction_keeps_latencies_positive(
    windows: Map<Entity, ExtractedWindow>,
    snapshots: Seq<WindowSnapshot>,
    gone: Set<Entity>,
)
    requires
        window::latencies_positive(windows),
        extract::latencies_positive(snapshots),
    ensures
        window::latencies_positive(extract::with_snapshots(windows, snapshots).remove_keys(gone)),
    decreases snapshots.len(),
{
    if snapshots.len() > 0 {
        let shorter = snapshots.drop_last();
        let before = extract::with_snapshots(windows, shorter);
        assert(snapshots.last() == snapshots[snapshots.len() - 1]);
        assert(extract::latencies_positive(shorter)) by {
            assert forall|i: int| 0 <= i < shorter.len() implies (
            #[trigger] shorter[i]).desired_maximum_frame_latency != Some(0u32) by {
                assert(shorter[i] == snapshots[i]);
            }
        }
        extraction_keeps_latencies_positive(windows, shorter, Set::empty());
        assert(before.remove_keys(Set::empty()) =~= before);
    }
}

/// Presenting gives back the frame that was last set, and no frame after that until another is
/// set.
pub proof fn presenting_gives_back_the_frame(window: ExtractedWindow, frame: SurfaceTexture)
    ensures
        ({
            let holding = window.with_frame(frame);
            let presented = ExtractedWindow { swap_chain_texture: None, ..holding };
            &&& holding.holds_frame()
            &&& holding.swap_chain_texture == Some(frame)
            &&& !presented.holds_frame()
            &&& presented.swap_chain_texture is None
        }),
{
}

/// What an extraction makes of a window that was known and is shown once: it has the size of the
/// snapshot, but at least one pixel each way, and its presentation mode; the flags say whether
/// these differ from before; a view without a frame goes; and all else stays.
pub proof fn known_windows_follow_their_snapshot(
    windows: Map<Entity, ExtractedWindow>,
    snapshots: Seq<WindowSnapshot>,
    i: int,
)
    requires
        distinct_windows(snapshots),
        0 <= i < snapshots.len(),
        windows.dom().contains(snapshots[i].entity),
    ensures
        ({
            let shown = snapshots[i];
            let before = windows[shown.entity];
            let after = extract::with_snapshots(windows, snapshots)[shown.entity];
            &&& shown.physical_width >= 1 ==> after.physical_width == shown.physical_width
            &&& shown.physical_width == 0 ==> after.physical_width == 1
            &&& shown.physical_height >= 1 ==> after.physical_height == shown.physical_height
            &&& shown.physical_height == 0 ==> after.physical_height == 1
            &&& after.present_mode == shown.present_mode
            &&& after.size_changed <==> after.physical_width != before.physical_width
                || after.physical_height != before.physical_height
            &&& after.present_mode_changed <==> shown.present_mode != before.present_mode
            &&& before.swap_chain_texture is None ==> after.swap_chain_texture_view is None
            &&& before.swap_chain_texture is Some ==> after.swap_chain_texture_view
                == before.swap_chain_texture_view
            &&& after.swap_chain_texture == before.swap_chain_texture
            &&& after.swap_chain_texture_format == before.swap_chain_texture_format
            &&& after.swap_chain_texture_view_format == before.swap_chain_texture_view_format
            &&& after.entity == before.entity
            &&& after.handle == before.handle
            &&& after.desired_maximum_frame_latency == before.desired_maximum_frame_latency
            &&& after.alpha_mode == before.alpha_mode
            &&& after.needs_initial_present == before.needs_initial_present
        }),
{
    extraction_treats_windows_alone(windows, snapshots, i);
}

/// What an extraction makes of a window that was not known and is shown once.
pub proof fn new_windows_follow_their_snapshot(
    windows: Map<Entity, ExtractedWindow>,
    snapshots: Seq<WindowSnapshot>,
    i: int,
)
    requires
        distinct_windows(snapshots),
        0 <= i < snapshots.len(),
        !windows.dom().contains(snapshots[i].entity),
    ensures
        ({
            let shown = snapshots[i];
            let after = extract::with_snapshots(windows, snapshots)[shown.entity];
            &&& shown.physical_width >= 1 ==> after.physical_width == shown.physical_width
            &&& shown.physical_width == 0 ==> after.physical_width == 1
            &&& shown.physical_height >= 1 ==> after.physical_height == shown.physical_height
            &&& shown.physical_height == 0 ==> after.physical_height == 1
            &&& after.present_mode == shown.present_mode
            &&& !after.size_changed
            &&& !after.present_mode_changed
            &&& after.swap_chain_texture is None
            &&& after.swap_chain_texture_view is None
            &&& after.swap_chain_texture_format is None
            &&& after.swap_chain_texture_view_format is None
            &&& after.entity == shown.entity
            &&& after.handle == shown.handle
            &&& after.desired_maximum_frame_latency == shown.desired_maximum_frame_latency
            &&& after.alpha_mode == shown.composite_alpha_mode
            &&& after.needs_initial_present
        }),
{
    extraction_treats_windows_alone(windows, snapshots, i);
}

/// No change of the presentation mode goes unnoticed, and none is made up: a known window that is
/// shown once is marked exactly where the mode that it has now differs from the one that it had,
/// and its surface then has to be configured.
pub proof fn extraction_notices_present_mode_changes(
    windows: Map<Entity, ExtractedWindow>,
    snapshots: Seq<WindowSnapshot>,
    i: int,
    configured: Set<Entity>,
)
    requires
        distinct_windows(snapshots),
        0 <= i < snapshots.len(),
        windows.dom().contains(snapshots[i].entity),
    ensures
        ({
            let e = snapshots[i].entity;
            let after = extract::with_snapshots(windows, snapshots)[e];
            &&& after.present_mode_changed <==> after.present_mode != windows[e].present_mode
            &&& after.present_mode == snapshots[i].present_mode
            &&& after.present_mode != windows[e].present_mode ==> surface::needs_configuration(
                after,
                configured,
            )
        }),
{
    extraction_treats_windows_alone(windows, snapshots, i);
}

/// Taking over a list of snapshots is taking over its first part and then the rest: later
/// snapshots build on what earlier ones left, also where they are of the same window.
pub proof fn extraction_goes_in_order(
    windows: Map<Entity, ExtractedWindow>,
    first: Seq<WindowSnapshot>,
    rest: Seq<WindowSnapshot>,
)
    ensures
        extract::with_snapshots(windows, first + rest) == extract::with_snapshots(
            extract::with_snapshots(windows, first),
            rest,
        ),
        extract::with_snapshots(windows, Seq::<WindowSnapshot>::empty()) == windows,
    decreases rest.len(),
{
    if rest.len() == 0 {
        assert(first + rest =~= first);
    } else {
        assert((first + rest).drop_last() =~= first + rest.drop_last());
        extraction_goes_in_order(windows, first, rest.drop_last());
    }
}

/// The primary window is the last that is shown as such; where none is, it stays.
pub proof fn last_window_shown_as_primary_counts(
    primary: Option<Entity>,
    snapshots: Seq<WindowSnapshot>,
)
    ensures
        forall|i: int|
            0 <= i < snapshots.len() && (#[trigger] snapshots[i]).primary && (forall|j: int|
                i < j < snapshots.len() ==> !(#[trigger] snapshots[j]).primary)
                ==> extract::last_primary(primary, snapshots) == Some(snapshots[i].entity),
        (forall|j: int| 0 <= j < snapshots.len() ==> !(#[trigger] snapshots[j]).primary)
            ==> extract::last_primary(primary, snapshots) == primary,
    decreases snapshots.len(),
{
    if snapshots.len() > 0 {
        let last = snapshots.len() - 1;
        let shorter = snapshots.drop_last();
        last_window_shown_as_primary_counts(primary, shorter);
        assert(snapshots.last() == snapshots[last]);
        assert(forall|j: int| 0 <= j < shorter.len() ==> shorter[j] == snapshots[j]);
        if !snapshots[last].primary {
            assert forall|i: int|
                0 <= i < snapshots.len() && (#[trigger] snapshots[i]).primary && (forall|j: int|
                    i < j < snapshots.len() ==> !(
                    #[trigger] snapshots[j]).primary) implies extract::last_primary(
                primary,
                snapshots,
            ) == Some(snapshots[i].entity) by {
                assert(shorter[i].primary);
            }
        } else {
            assert forall|i: int|
                0 <= i < snapshots.len() && (#[trigger] snapshots[i]).primary && (forall|j: int|
                    i < j < snapshots.len() ==> !(
                    #[trigger] snapshots[j]).primary) implies i == last by {
                if i < last {
                    assert(!snapshots[last].primary);
                }
            }
        }
    }
}

/// What a window is, and what has been done to it, in terms of its fields: what counts as holding a
/// frame and as changed, and what taking over and dropping a frame do.
pub proof fn frames_come_and_go_with_their_views(window: ExtractedWindow, frame: SurfaceTexture)
    ensures
        window.holds_frame() <==> window.swap_chain_texture is Some
            && window.swap_chain_texture_view is Some,
        window.changed() <==> window.size_changed || window.present_mode_changed,
        window.with_frame(frame).swap_chain_texture == Some(frame),
        window.with_frame(frame).swap_chain_texture_view is Some,
        window.with_frame(frame).swap_chain_texture_view->0.texture == frame.texture,
        window.with_frame(frame).swap_chain_texture_view->0.format == Some(
            formats::with_srgb_suffix(frame.format),
        ),
        window.with_frame(frame).swap_chain_texture_view_format == Some(
            formats::with_srgb_suffix(frame.format),
        ),
        window.without_frame().swap_chain_texture is None,
        window.without_frame().swap_chain_texture_view is None,
        window.without_frame().swap_chain_texture_view_format
            == window.swap_chain_texture_view_format,
        same_but_for_frame(window, window.with_frame(frame)),
        same_but_for_frame(window, window.without_frame()),
{
}

/// Whether two states of a window differ in nothing but the frame, the view of it and its format.
pub open spec fn same_but_for_frame(before: ExtractedWindow, after: ExtractedWindow) -> bool {
    &&& after.entity == before.entity
    &&& after.handle == before.handle
    &&& after.physical_width == before.physical_width
    &&& after.physical_height == before.physical_height
    &&& after.present_mode == before.present_mode
    &&& after.desired_maximum_frame_latency == before.desired_maximum_frame_latency
    &&& after.swap_chain_texture_format == before.swap_chain_texture_format
    &&& after.size_changed == before.size_changed
    &&& after.present_mode_changed == before.present_mode_changed
    &&& after.alpha_mode == before.alpha_mode
    &&& after.needs_initial_present == before.needs_initial_present
}

} // verus!
