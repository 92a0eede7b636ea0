//! Taking over the state of the windows at the start of a frame.

use bevy_ecs::entity::Entity;
use vstd::prelude::*;

use crate::containers;
use crate::formats;
use crate::laws;
use crate::surface::WindowSurfaces;
use crate::window;
use crate::window::{ExtractedWindow, ExtractedWindows, RawHandleId};

verus! {

/// A window as the application sees it at the time of extraction.
#[derive(Clone, Copy, Debug, PartialEq, Eq)]
pub struct WindowSnapshot {
    pub entity: Entity,
    pub handle: RawHandleId,
    pub physical_width: u32,
    pub physical_height: u32,
    pub present_mode: bevy_window::PresentMode,
    /// Frames that may be queued ahead, at least one.
    pub desired_maximum_frame_latency: Option<u32>,
    pub composite_alpha_mode: bevy_window::CompositeAlphaMode,
    /// Whether this is the application's primary window.
    pub primary: bool,
}

/// No snapshot asks for frames to be queued without any.
pub open spec fn latencies_positive(snapshots: Seq<WindowSnapshot>) -> bool {
    forall|i: int|
        0 <= i < snapshots.len() ==> (#[trigger] snapshots[i]).desired_maximum_frame_latency
            != Some(0u32)
}

/// A side of a window in pixels, of which there is at least one.
pub open spec fn at_least_one(side: u32) -> u32 {
    if side == 0 {
        1
    } else {
        side
    }
}

/// The entry of a window that was not known before.
pub open spec fn fresh_window(snapshot: WindowSnapshot) -> ExtractedWindow {
    ExtractedWindow {
        entity: snapshot.entity,
        handle: snapshot.handle,
        physical_width: at_least_one(snapshot.physical_width),
        physical_height: at_least_one(snapshot.physical_height),
        present_mode: snapshot.present_mode,
        desired_maximum_frame_latency: snapshot.desired_maximum_frame_latency,
        swap_chain_texture: None,
        swap_chain_texture_view: None,
        size_changed: false,
        swap_chain_texture_format: None,
        swap_chain_texture_view_format: None,
        present_mode_changed: false,
        alpha_mode: snapshot.composite_alpha_mode,
        needs_initial_present: true,
    }
}

/// The entry of a known window after an extraction: size and presentation mode are those of the
/// snapshot, the flags say whether they changed, and the view goes if its frame is gone. The
/// handle, the latency and the alpha mode stay as they were first seen.
pub open spec fn refreshed_window(
    window: ExtractedWindow,
    snapshot: WindowSnapshot,
) -> ExtractedWindow {
    let width = at_least_one(snapshot.physical_width);
    let height = at_least_one(snapshot.physical_height);
    ExtractedWindow {
        swap_chain_texture_view: if window.swap_chain_texture is None {
            None
        } else {
            window.swap_chain_texture_view
        },
        size_changed: width != window.physical_width || height != window.physical_height,
        present_mode_changed: snapshot.present_mode != window.present_mode,
        physical_width: width,
        physical_height: height,
        present_mode: snapshot.present_mode,
        ..window
    }
}

/// The entry of a window after an extraction, whether it was known or not.
pub open spec fn extracted_window(
    windows: Map<Entity, ExtractedWindow>,
    snapshot: WindowSnapshot,
) -> ExtractedWindow {
    if windows.dom().contains(snapshot.entity) {
        refreshed_window(windows[snapshot.entity], snapshot)
    } else {
        fresh_window(snapshot)
    }
}

/// The windows after the snapshots were taken over, one after the other.
pub open spec fn with_snapshots(
    windows: Map<Entity, ExtractedWindow>,
    snapshots: Seq<WindowSnapshot>,
) -> Map<Entity, ExtractedWindow>
    decreases snapshots.len(),
{
    if snapshots.len() == 0 {
        windows
    } else {
        let before = with_snapshots(windows, snapshots.drop_last());
        before.insert(snapshots.last().entity, extracted_window(before, snapshots.last()))
    }
}

/// The last of the snapshots that is primary, or else the window that was primary before.
pub open spec fn last_primary(
    primary: Option<Entity>,
    snapshots: Seq<WindowSnapshot>,
) -> Option<Entity>
    decreases snapshots.len(),
{
    if snapshots.len() == 0 {
        primary
    } else if snapshots.last().primary {
        Some(snapshots.last().entity)
    } else {
        last_primary(primary, snapshots.drop_last())
    }
}

fn clamp_side(side: u32) -> (clamped: u32)
    ensures
        clamped == at_least_one(side),
{
    if side == 0 {
        1
    } else {
        side
    }
}

fn extract_window(extracted_windows: &mut ExtractedWindows, snapshot: &WindowSnapshot)
    ensures
        final(extracted_windows).primary == (if snapshot.primary {
            Some(snapshot.entity)
        } else {
            old(extracted_windows).primary
        }),
        final(extracted_windows)@ == old(extracted_windows)@.insert(
            snapshot.entity,
            extracted_window(old(extracted_windows)@, *snapshot),
        ),
{
    if snapshot.primary {
        extracted_windows.primary = Some(snapshot.entity);
    }
    let new_width = clamp_side(snapshot.physical_width);
    let new_height = clamp_side(snapshot.physical_height);
    let window = containers::window_or_insert(
        &mut extracted_windows.windows,
        snapshot.entity,
        ExtractedWindow {
            entity: snapshot.entity,
            handle: snapshot.handle,
            physical_width: new_width,
            physical_height: new_height,
            present_mode: snapshot.present_mode,
            desired_maximum_frame_latency: snapshot.desired_maximum_frame_latency,
            swap_chain_texture: None,
            swap_chain_texture_view: None,
            size_changed: false,
            swap_chain_texture_format: None,
            swap_chain_texture_view_format: None,
            present_mode_changed: false,
            alpha_mode: snapshot.composite_alpha_mode,
            needs_initial_present: true,
        },
    );
    if window.swap_chain_texture.is_none() {
        // The frame was presented since the last extraction. Otherwise both it and its view can
        // be kept: `prepare_windows` acquires a new frame only where one is needed.
        window.swap_chain_texture_view = None;
    }
    window.size_changed = new_width != window.physical_width || new_height
        != window.physical_height;
    window.present_mode_changed = !formats::same_window_present_mode(
        snapshot.present_mode,
        window.present_mode,
    );
    if window.size_changed {
        window.physical_width = new_width;
        window.physical_height = new_height;
    }
    if window.present_mode_changed {
        window.present_mode = snapshot.present_mode;
    }
}

fn forget_windows(
    extracted_windows: &mut ExtractedWindows,
    window_surfaces: &mut WindowSurfaces,
    gone: &Vec<Entity>,
)
    ensures
        final(extracted_windows).primary == old(extracted_windows).primary,
        final(extracted_windows)@ == old(extracted_windows)@.remove_keys(gone@.to_set()),
        final(window_surfaces).data() == old(window_surfaces).data().remove_keys(gone@.to_set()),
        final(window_surfaces).configured() == old(window_surfaces).configured().difference(
            gone@.to_set(),
        ),
{
    let mut i: usize = 0;
    proof {
        let none = gone@.take(0).to_set();
        assert(extracted_windows@ =~= old(extracted_windows)@.remove_keys(none));
        assert(window_surfaces.data() =~= old(window_surfaces).data().remove_keys(none));
        assert(window_surfaces.configured() =~= old(window_surfaces).configured().difference(none));
    }
    while i < gone.len()
        invariant
            i <= gone.len(),
            extracted_windows.primary == old(extracted_windows).primary,
            extracted_windows@ == old(extracted_windows)@.remove_keys(
                gone@.take(i as int).to_set(),
            ),
            window_surfaces.data() == old(window_surfaces).data().remove_keys(
                gone@.take(i as int).to_set(),
            ),
            window_surfaces.configured() == old(window_surfaces).configured().difference(
                gone@.take(i as int).to_set(),
            ),
        decreases gone.len() - i,
    {
        let window = gone[i];
        containers::window_remove(&mut extracted_windows.windows, window);
        window_surfaces.remove(window);
        proof {
            let before = gone@.take(i as int);
            let after = gone@.take(i as int + 1);
            assert(after =~= before.push(window));
            assert(after.to_set() =~= before.to_set().insert(window)) by {
                assert forall|e: Entity| #[trigger] after.to_set().contains(e) implies before.to_set().insert(
                    window,
                ).contains(e) by {
                    let j = choose|j: int| 0 <= j < after.len() && after[j] == e;
                    if j < before.len() {
                        assert(before[j] == e);
                    }
                }
                assert forall|e: Entity| #[trigger]
                    before.to_set().insert(window).contains(e) implies after.to_set().contains(
                    e,
                ) by {
                    if e == window {
                        assert(after[i as int] == e);
                    } else {
                        let j = choose|j: int| 0 <= j < before.len() && before[j] == e;
                        assert(after[j] == e);
                    }
                }
            }
            assert(extracted_windows@ =~= old(extracted_windows)@.remove_keys(after.to_set()));
            assert(window_surfaces.data() =~= old(window_surfaces).data().remove_keys(
                after.to_set(),
            ));
            assert(window_surfaces.configured() =~= old(window_surfaces).configured().difference(
                after.to_set(),
            ));
        }
        i = i + 1;
    }
    assert(gone@.take(gone@.len() as int) =~= gone@);
}

/// Takes over the windows of the application, and forgets the windows that are closing and those
/// that lost their handle, together with their surfaces.
pub fn extract_windows(
    extracted_windows: &mut ExtractedWindows,
    closing: &Vec<Entity>,
    windows: &Vec<WindowSnapshot>,
    removed: &Vec<Entity>,
    window_surfaces: &mut WindowSurfaces,
)
    ensures
        final(extracted_windows).primary == last_primary(old(extracted_windows).primary, windows@),
        final(extracted_windows)@ == with_snapshots(old(extracted_windows)@, windows@).remove_keys(
            (closing@ + removed@).to_set(),
        ),
        final(window_surfaces).data() == old(window_surfaces).data().remove_keys(
            (closing@ + removed@).to_set(),
        ),
        final(window_surfaces).configured() == old(window_surfaces).configured().difference(
            (closing@ + removed@).to_set(),
        ),
        old(extracted_windows).well_formed() ==> final(extracted_windows).well_formed(),
        old(window_surfaces).well_formed() ==> final(window_surfaces).well_formed(),
        old(window_surfaces).all_configured() ==> final(window_surfaces).all_configured(),
        window::latencies_positive(old(extracted_windows)@) && latencies_positive(windows@)
            ==> window::latencies_positive(final(extracted_windows)@),
        forall|e: Entity|
            #![trigger final(extracted_windows)@.dom().contains(e)]
            #![trigger final(window_surfaces).data().dom().contains(e)]
            #![trigger final(window_surfaces).configured().contains(e)]
            if closing@.contains(e) || removed@.contains(e) {
                &&& !final(extracted_windows)@.dom().contains(e)
                &&& !final(window_surfaces).data().dom().contains(e)
                &&& !final(window_surfaces).configured().contains(e)
            } else {
                &&& final(extracted_windows)@.dom().contains(e) <==> old(
                    extracted_windows,
                )@.dom().contains(e) || laws::extraction::is_shown(windows@, e)
                &&& final(window_surfaces).data().dom().contains(e) <==> old(
                    window_surfaces,
                ).data().dom().contains(e)
                &&& final(window_surfaces).configured().contains(e) <==> old(
                    window_surfaces,
                ).configured().contains(e)
            },
{
    let mut i: usize = 0;
    while i < windows.len()
        invariant
            i <= windows.len(),
            extracted_windows.primary == last_primary(
                old(extracted_windows).primary,
                windows@.take(i as int),
            ),
            extracted_windows@ == with_snapshots(
                old(extracted_windows)@,
                windows@.take(i as int),
            ),
        decreases windows.len() - i,
    {
        assert(windows@.take(i as int + 1).drop_last() =~= windows@.take(i as int));
        extract_window(extracted_windows, &windows[i]);
        i = i + 1;
    }
    assert(windows@.take(windows@.len() as int) =~= windows@);
    let ghost extracted = extracted_windows@;
    let ghost data = window_surfaces.data();
    let ghost configured = window_surfaces.configured();
    forget_windows(extracted_windows, window_surfaces, closing);
    forget_windows(extracted_windows, window_surfaces, removed);
    proof {
        let gone = (closing@ + removed@).to_set();
        lemma_set_of_concatenation(closing@, removed@);
        assert(extracted_windows@ =~= extracted.remove_keys(gone));
        assert(window_surfaces.data() =~= data.remove_keys(gone));
        assert(window_surfaces.configured() =~= configured.difference(gone));
        assert forall|e: Entity|
            gone.contains(e) <==> closing@.contains(e) || removed@.contains(e) by {
            assert(gone.contains(e) <==> closing@.to_set().union(removed@.to_set()).contains(e));
        }
        assert forall|e: Entity| #[trigger]
            extracted_windows@.dom().contains(e) <==> (old(extracted_windows)@.dom().contains(e)
                || laws::extraction::is_shown(windows@, e)) && !gone.contains(e) by {
            laws::extraction::extraction_knows_all_windows(
                old(extracted_windows)@,
                windows@,
                gone,
                e,
            );
        }
        if old(extracted_windows).well_formed() {
            laws::extraction::extraction_keeps_windows_well_formed(
                old(extracted_windows)@,
                windows@,
                gone,
            );
        }
        if window::latencies_positive(old(extracted_windows)@) && latencies_positive(windows@) {
            laws::extraction::extraction_keeps_latencies_positive(
                old(extracted_windows)@,
                windows@,
                gone,
            );
        }
        if old(window_surfaces).all_configured() {
            laws::extraction::forgetting_keeps_windows_configured(data, configured, gone);
        }
    }
}

proof fn lemma_set_of_concatenation(a: Seq<Entity>, b: Seq<Entity>)
    ensures
        (a + b).to_set() == a.to_set().union(b.to_set()),
{
    assert forall|e: Entity| #[trigger]
        (a + b).to_set().contains(e) <==> a.to_set().union(b.to_set()).contains(e) by {
        if a.contains(e) {
            let j = choose|j: int| 0 <= j < a.len() && a[j] == e;
            assert((a + b)[j] == e);
        }
        if b.contains(e) {
            let j = choose|j: int| 0 <= j < b.len() && b[j] == e;
            assert((a + b)[a.len() + j] == e);
        }
    }
    assert((a + b).to_set() =~= a.to_set().union(b.to_set()));
}

} // verus!
