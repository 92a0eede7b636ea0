//! Laws of the preparation of windows.

use bevy_ecs::entity::Entity;
use vstd::prelude::*;
use wgpu::SurfaceError;

use crate::containers;
use crate::extract;
use crate::extract::WindowSnapshot;
use crate::formats;
use crate::offscreen;
use crate::pending;
use crate::prepare;
use crate::prepare::{
    CameraTarget, FrameCommand, FrameEvent, FrameStage, Platform, WindowPreparation,
    WindowPreparationModel,
};
use crate::surface::WindowSurfaces;
use crate::window;
use crate::window::{ExtractedWindow, ExtractedWindows, SurfaceTexture, TextureView};

verus! {

/// A pass asks for a frame of the next window exactly where the window has a surface, takes part
/// in rendering, and has no frame to go on with.
pub proof fn frames_are_acquired_only_where_needed(pass: WindowPreparationModel)
    requires
        pass.well_formed(),
        pass.stage == FrameStage::NextWindow,
        pass.pending.len() > 0,
    ensures
        ({
            let e = pass.pending.last();
            pass.step(FrameEvent::Resume).1 is Acquire <==> {
                &&& pass.surfaces.dom().contains(e)
                &&& !prepare::is_idle(pass.windows[e], pass.cameras, pass.offscreen_blit is Some)
                &&& !prepare::keeps_frame(pass.windows[e])
            }
        }),
{
}

/// While the offscreen blit is active, a frame is asked for only where a camera targets the
/// window; a window that none targets is left to the blit, which then presents the first frame.
pub proof fn blit_owns_untargeted_windows(pass: WindowPreparationModel)
    requires
        pass.well_formed(),
        pass.stage == FrameStage::NextWindow,
        pass.pending.len() > 0,
        pass.offscreen_blit is Some,
        !prepare::is_targeted(pass.cameras, pass.pending.last()),
    ensures
        pass.step(FrameEvent::Resume).1 == FrameCommand::Continue,
        pass.surfaces.dom().contains(pass.pending.last()) ==> !pass.step(
            FrameEvent::Resume,
        ).0.windows[pass.pending.last()].needs_initial_present,
{
    assert(pass.windows.dom().contains(pass.pending[pass.pending.len() - 1]));
}

/// What the outside answers about one window during a pass.
pub struct FrameReplies {
    /// The first try to acquire a frame.
    pub first: Result<SurfaceTexture, SurfaceError>,
    /// The second try, after the surface was found outdated and was configured again.
    pub second: Result<SurfaceTexture, SurfaceError>,
    /// The names of the adapters.
    pub adapter_names: Vec<String>,
}

/// What becomes of a window in a pass, or the error with which the pass fails on it.
pub open spec fn prepared_window(pass: WindowPreparationModel, e: Entity, replies: FrameReplies) -> Result<
    ExtractedWindow,
    SurfaceError,
> {
    let window = pass.windows[e];
    let has_offscreen_blit = pass.offscreen_blit is Some;
    if !pass.surfaces.dom().contains(e) {
        Ok(window)
    } else if prepare::is_idle(window, pass.cameras, has_offscreen_blit) {
        Ok(
            ExtractedWindow {
                needs_initial_present: window.needs_initial_present && !has_offscreen_blit,
                ..pass.formatted(e, window)
            },
        )
    } else if prepare::keeps_frame(window) {
        Ok(window)
    } else {
        match (replies.first, replies.second) {
            (Ok(frame), _) => Ok(pass.formatted(e, window.with_frame(frame))),
            (Err(error), second) => if error is Outdated {
                match second {
                    Ok(frame) => Ok(pass.formatted(e, window.with_frame(frame))),
                    Err(_) => Ok(window),
                }
            } else if error is Timeout && pass.platform == Platform::Linux
                && prepare::timeout_is_excusable(replies.adapter_names@) {
                Ok(pass.formatted(e, window))
            } else {
                Err(error)
            },
        }
    }
}

/// The steps of a pass from one window to the next, when the outside answers so.
pub open spec fn run_preparation(pass: WindowPreparationModel, replies: FrameReplies) -> (
    WindowPreparationModel,
    FrameCommand,
) {
    let begun = pass.step(FrameEvent::Resume);
    if begun.0.stage is AwaitFrame {
        let tried = begun.0.step(FrameEvent::Frame(replies.first));
        if tried.0.stage is AwaitConfiguration {
            tried.0.step(FrameEvent::Configured).0.step(FrameEvent::Frame(replies.second))
        } else if tried.0.stage is AwaitAdapterNames {
            tried.0.step(FrameEvent::AdapterNames(replies.adapter_names))
        } else {
            tried
        }
    } else {
        begun
    }
}

/// The steps that a pass takes over a window come to this: either the window is as
/// `prepared_window` says and nothing else is touched, or the pass fails with the error that
/// `prepared_window` gives and no window is touched at all.
pub proof fn steps_prepare_a_window(pass: WindowPreparationModel, replies: FrameReplies)
    requires
        pass.well_formed(),
        pass.stage == FrameStage::NextWindow,
        pass.pending.len() > 0,
    ensures
        ({
            let e = pass.pending.last();
            let next = WindowPreparationModel { pending: pass.pending.drop_last(), ..pass };
            run_preparation(pass, replies) == match prepared_window(pass, e, replies) {
                Ok(window) => (
                    WindowPreparationModel { windows: pass.windows.insert(e, window), ..next },
                    FrameCommand::Continue,
                ),
                Err(error) => (
                    WindowPreparationModel { stage: FrameStage::Failed, ..next },
                    FrameCommand::Fail { window: e, error },
                ),
            }
        }),
{
    let e = pass.pending.last();
    assert(pass.windows.dom().contains(pass.pending[pass.pending.len() - 1]));
    let got = run_preparation(pass, replies).0.windows;
    assert(pass.windows.dom().contains(e));
    match prepared_window(pass, e, replies) {
        Ok(window) => {
            assert(got[e] == window);
            assert(got =~= pass.windows.insert(e, window));
        },
        Err(_) => {
            assert(got =~= pass.windows);
        },
    }
}

/// A window that took over a frame holds it, viewed in the sRGB twin of its format, with the
/// format of the surface noted; and as long as it does not change, a further pass leaves it as it
/// is and asks for nothing.
pub proof fn prepared_windows_stay_prepared(
    pass: WindowPreparationModel,
    frame: SurfaceTexture,
)
    requires
        pass.well_formed(),
        pass.stage == FrameStage::NextWindow,
        pass.pending.len() > 0,
        ({
            let e = pass.pending.last();
            &&& pass.surfaces.dom().contains(e)
            &&& !prepare::is_idle(pass.windows[e], pass.cameras, pass.offscreen_blit is Some)
            &&& !pass.windows[e].changed()
        }),
    ensures
        ({
            let e = pass.pending.last();
            let window = pass.formatted(e, pass.windows[e].with_frame(frame));
            let again = WindowPreparationModel { windows: pass.windows.insert(e, window), ..pass };
            &&& window.holds_frame()
            &&& window.swap_chain_texture == Some(frame)
            &&& window.swap_chain_texture_view->0.texture == frame.texture
            &&& window.swap_chain_texture_view->0.format == Some(
                formats::with_srgb_suffix(frame.format),
            )
            &&& window.swap_chain_texture_format == Some(pass.surfaces[e].configuration.format)
            &&& again.step(FrameEvent::Resume) == (
                WindowPreparationModel { pending: pass.pending.drop_last(), ..again },
                FrameCommand::Continue,
            )
        }),
{
}

/// Once a window's frame was presented and the window was extracted again, the next pass asks for
/// a new frame, if a camera targets the window.
pub proof fn presented_windows_get_new_frames(
    pass: WindowPreparationModel,
    window: ExtractedWindow,
    snapshot: WindowSnapshot,
)
    requires
        pass.well_formed(),
        pass.stage == FrameStage::NextWindow,
        pass.pending.len() > 0,
        pass.surfaces.dom().contains(pass.pending.last()),
        prepare::is_targeted(pass.cameras, pass.pending.last()),
        pass.windows[pass.pending.last()] == extract::refreshed_window(
            (ExtractedWindow { swap_chain_texture: None, ..window }),
            snapshot,
        ),
    ensures
        pass.step(FrameEvent::Resume).1 == (FrameCommand::Acquire {
            window: pass.pending.last(),
            surface: pass.surfaces[pass.pending.last()].surface,
        }),
{
    assert(pass.windows.dom().contains(pass.pending[pass.pending.len() - 1]));
}

/// A pass touches no window but the one at hand, and no window comes or goes.
pub proof fn preparation_touches_one_window(
    pass: WindowPreparationModel,
    event: FrameEvent,
    other: Entity,
)
    requires
        pass.well_formed(),
        pass.accepts(event),
        match pass.stage {
            FrameStage::NextWindow => pass.pending.len() > 0 ==> other != pass.pending.last(),
            FrameStage::AwaitFrame(e)
            | FrameStage::AwaitConfiguration(e)
            | FrameStage::AwaitFrameAgain(e)
            | FrameStage::AwaitAdapterNames(e) => other != e,
            _ => true,
        },
    ensures
        pass.step(event).0.windows.dom() == pass.windows.dom(),
        pass.step(event).0.windows[other] == pass.windows[other],
{
    if pass.stage == FrameStage::NextWindow && pass.pending.len() > 0 {
        assert(pass.windows.dom().contains(pass.pending[pass.pending.len() - 1]));
    }
    assert(pass.step(event).0.windows.dom() =~= pass.windows.dom());
}

/// A pass never changes the size, the presentation mode, the latency or the change flags of a
/// window, so it keeps the windows well formed.
pub proof fn preparation_keeps_windows_well_formed(pass: WindowPreparationModel, event: FrameEvent)
    requires
        pass.well_formed(),
        pass.accepts(event),
        window::windows_well_formed(pass.windows),
    ensures
        window::windows_well_formed(pass.step(event).0.windows),
        forall|e: Entity| #[trigger]
            pass.windows.dom().contains(e) ==> {
                let before = pass.windows[e];
                let after = pass.step(event).0.windows[e];
                &&& after.physical_width == before.physical_width
                &&& after.physical_height == before.physical_height
                &&& after.present_mode == before.present_mode
                &&& after.desired_maximum_frame_latency == before.desired_maximum_frame_latency
                &&& after.size_changed == before.size_changed
                &&& after.present_mode_changed == before.present_mode_changed
            },
{
    if pass.stage == FrameStage::NextWindow && pass.pending.len() > 0 {
        assert(pass.windows.dom().contains(pass.pending[pass.pending.len() - 1]));
    }
}

/// The shutdown flag is raised only on macOS, once all windows are gone while the offscreen blit
/// is active.
pub proof fn shutdown_starts_when_windows_are_gone(pass: WindowPreparationModel, event: FrameEvent)
    requires
        pass.well_formed(),
        pass.accepts(event),
    ensures
        pass.step(event).1 is RaiseShutdownFlag <==> {
            &&& pass.stage == FrameStage::Begin
            &&& pass.platform == Platform::MacOs
            &&& pass.pending.len() == 0
            &&& pass.offscreen_blit is Some
        },
{
}

/// A layer is detached exactly when a pass finds that the shutdown flag was not raised before, and
/// there is a layer.
pub proof fn layer_is_detached_on_first_raise(pass: WindowPreparationModel, event: FrameEvent)
    requires
        pass.well_formed(),
        pass.accepts(event),
    ensures
        pass.step(event).1 is DetachLayer <==> {
            &&& pass.stage == FrameStage::AwaitShutdownFlag
            &&& event == FrameEvent::ShutdownFlagWas(false)
            &&& pass.offscreen_blit->0.metal_state is Some
        },
        pass.step(event).1 is DetachLayer ==> pass.step(event).1 == FrameCommand::DetachLayer(
            pass.offscreen_blit->0.metal_state->0.layer,
        ),
{
}

/// What is done to the shutdown flag.
pub enum FlagUse {
    /// A pass raises it, and learns what it was.
    Raise,
    /// The application signals whether it is about to exit.
    Signal { exit_requested: bool },
}

/// The flag before the use at the index, if it was as `initial` says at first.
pub open spec fn flag_before(initial: bool, uses: Seq<FlagUse>, index: int) -> bool
    decreases index,
{
    if index <= 0 {
        initial
    } else {
        match uses[index - 1] {
            FlagUse::Raise => true,
            FlagUse::Signal { exit_requested } => offscreen::flag_after_signal(
                flag_before(initial, uses, index - 1),
                exit_requested,
            ),
        }
    }
}

/// A signal raises the shutdown flag where the application is about to exit, never lowers it, and
/// leaves it as it is otherwise.
pub proof fn signals_only_raise_the_flag(raised: bool)
    ensures
        offscreen::flag_after_signal(raised, true),
        raised ==> offscreen::flag_after_signal(raised, false),
        !raised ==> !offscreen::flag_after_signal(raised, false),
{
}

/// Once raised, the shutdown flag stays so: of all passes that raise it only the first can find it
/// down, so the layer is detached at most once.
pub proof fn layer_is_detached_once(
    initial: bool,
    uses: Seq<FlagUse>,
    first: int,
    later: int,
    pass: WindowPreparationModel,
)
    requires
        0 <= first < later < uses.len(),
        uses[first] is Raise,
        uses[later] is Raise,
        pass.well_formed(),
        pass.stage == FrameStage::AwaitShutdownFlag,
    ensures
        flag_before(initial, uses, later),
        pass.step(FrameEvent::ShutdownFlagWas(flag_before(initial, uses, later))).1
            == FrameCommand::Continue,
{
    lemma_flag_stays_up(initial, uses, first + 1, later);
}

proof fn lemma_flag_stays_up(initial: bool, uses: Seq<FlagUse>, i: int, j: int)
    requires
        0 <= i <= j <= uses.len(),
        flag_before(initial, uses, i),
    ensures
        flag_before(initial, uses, j),
    decreases j - i,
{
    if i < j {
        lemma_flag_stays_up(initial, uses, i, j - 1);
    }
}

/// A pass after it dealt with all its windows, where it fails on none.
pub open spec fn prepared_all(
    pass: WindowPreparationModel,
    replies: spec_fn(Entity) -> FrameReplies,
) -> WindowPreparationModel
    decreases pass.pending.len(),
{
    if pass.pending.len() == 0 {
        pass
    } else {
        let e = pass.pending.last();
        prepared_all(
            WindowPreparationModel {
                windows: pass.windows.insert(e, prepared_window(pass, e, replies(e))->Ok_0),
                pending: pass.pending.drop_last(),
                ..pass
            },
            replies,
        )
    }
}

/// A pass prepares each of its windows by what the outside answered about that window alone, and
/// leaves all others as they were.
pub proof fn pass_prepares_all_windows(
    pass: WindowPreparationModel,
    replies: spec_fn(Entity) -> FrameReplies,
)
    requires
        pass.pending.no_duplicates(),
    ensures
        ({
            let after = prepared_all(pass, replies);
            &&& after.pending.len() == 0
            &&& after.surfaces == pass.surfaces
            &&& forall|e: Entity| #[trigger]
                pass.pending.contains(e) ==> {
                    &&& after.windows.dom().contains(e)
                    &&& after.windows[e] == prepared_window(pass, e, replies(e))->Ok_0
                }
            &&& forall|e: Entity|
                !#[trigger] pass.pending.contains(e) ==> {
                    &&& after.windows.dom().contains(e) == pass.windows.dom().contains(e)
                    &&& after.windows[e] == pass.windows[e]
                }
        }),
    decreases pass.pending.len(),
{
    if pass.pending.len() > 0 {
        let last = pass.pending.last();
        let next = WindowPreparationModel {
            windows: pass.windows.insert(last, prepared_window(pass, last, replies(last))->Ok_0),
            pending: pass.pending.drop_last(),
            ..pass
        };
        pending::lemma_rest_holds_the_others(pass.pending);
        pass_prepares_all_windows(next, replies);
        assert forall|e: Entity| #[trigger] next.pending.contains(e) implies prepared_window(
            next,
            e,
            replies(e),
        ) == prepared_window(pass, e, replies(e)) by {}
    }
}

/// The steps of a pass over its next `count` windows, when the outside answers so.
pub open spec fn run_preparations(
    pass: WindowPreparationModel,
    replies: spec_fn(Entity) -> FrameReplies,
    count: nat,
) -> WindowPreparationModel
    decreases count,
{
    if count == 0 {
        pass
    } else {
        run_preparations(
            run_preparation(pass, replies(pass.pending.last())).0,
            replies,
            (count - 1) as nat,
        )
    }
}

/// Step by step, a pass that fails on no window comes to what `prepared_all` says, and is then
/// done.
pub proof fn steps_prepare_all_windows(
    pass: WindowPreparationModel,
    replies: spec_fn(Entity) -> FrameReplies,
)
    requires
        pass.well_formed(),
        pass.stage == FrameStage::NextWindow,
        pass.pending.no_duplicates(),
        forall|e: Entity| #[trigger]
            pass.pending.contains(e) ==> prepared_window(pass, e, replies(e)) is Ok,
    ensures
        run_preparations(pass, replies, pass.pending.len()) == prepared_all(pass, replies),
        prepared_all(pass, replies).step(FrameEvent::Resume).1 == FrameCommand::Done,
    decreases pass.pending.len(),
{
    if pass.pending.len() > 0 {
        let last = pass.pending.last();
        pending::lemma_rest_holds_the_others(pass.pending);
        assert(pass.windows.dom().contains(pass.pending[pass.pending.len() - 1]));
        let window = prepared_window(pass, last, replies(last))->Ok_0;
        let next = WindowPreparationModel {
            windows: pass.windows.insert(last, window),
            pending: pass.pending.drop_last(),
            ..pass
        };
        steps_prepare_a_window(pass, replies(last));
        assert(window.entity == last);
        assert forall|i: int| 0 <= i < next.pending.len() implies next.windows.dom().contains(
            #[trigger] next.pending[i],
        ) by {
            assert(pass.windows.dom().contains(pass.pending[i]));
        }
        assert forall|e: Entity| #[trigger] next.pending.contains(e) implies prepared_window(
            next,
            e,
            replies(e),
        ) is Ok by {
            assert(pass.pending.contains(e));
        }
        steps_prepare_all_windows(next, replies);
    }
}

/// Whether a window takes part in rendering, can be given a frame, and has none to go on with.
pub open spec fn needs_frame(pass: WindowPreparationModel, e: Entity) -> bool {
    &&& pass.surfaces.dom().contains(e)
    &&& !prepare::is_idle(pass.windows[e], pass.cameras, pass.offscreen_blit is Some)
    &&& !prepare::keeps_frame(pass.windows[e])
}

/// Whether acquiring ends in a frame, at once or after the surface was configured again.
pub open spec fn ends_in_frame(replies: FrameReplies) -> bool {
    ||| replies.first is Ok
    ||| replies.first == Err::<SurfaceTexture, SurfaceError>(SurfaceError::Outdated)
        && replies.second is Ok
}

/// A pass after `count` times the event `Resume`, and what it asked for.
pub open spec fn run_resumed(pass: WindowPreparationModel, count: nat) -> (
    WindowPreparationModel,
    Seq<FrameCommand>,
)
    decreases count,
{
    if count == 0 {
        (pass, seq![])
    } else {
        let (next, command) = pass.step(FrameEvent::Resume);
        let (last, rest) = run_resumed(next, (count - 1) as nat);
        (last, seq![command] + rest)
    }
}

/// Once a whole pass gave a frame to every window that needed one, and none of these is marked as
/// changed, a second pass asks for nothing and changes no window: it goes through its windows and
/// is done. Left out is the second pass that raises the shutdown flag, because there are no
/// windows.
pub proof fn second_pass_asks_for_nothing(
    first: WindowPreparationModel,
    replies: spec_fn(Entity) -> FrameReplies,
    second: WindowPreparationModel,
)
    requires
        first.well_formed(),
        first.stage == FrameStage::NextWindow,
        first.pending.no_duplicates(),
        forall|e: Entity| #[trigger]
            first.pending.contains(e) && needs_frame(first, e) ==> !first.windows[e].changed()
                && ends_in_frame(replies(e)),
        second.stage == FrameStage::Begin,
        second.windows == run_preparations(first, replies, first.pending.len()).windows,
        second.surfaces == first.surfaces,
        second.cameras == first.cameras,
        second.offscreen_blit == first.offscreen_blit,
        forall|i: int|
            0 <= i < second.pending.len() ==> first.pending.contains(#[trigger] second.pending[i]),
        !(second.platform == Platform::MacOs && second.pending.len() == 0
            && second.offscreen_blit is Some),
    ensures
        ({
            let (after, commands) = run_resumed(second, second.pending.len() + 2);
            &&& after == (WindowPreparationModel {
                pending: seq![],
                stage: FrameStage::NextWindow,
                ..second
            })
            &&& commands == Seq::new(
                second.pending.len() + 1,
                |i: int| FrameCommand::Continue,
            ).push(FrameCommand::Done)
        }),
{
    assert forall|e: Entity| #[trigger] first.pending.contains(e) implies prepared_window(
        first,
        e,
        replies(e),
    ) is Ok by {
        assert(first.pending.contains(e) && needs_frame(first, e) ==> ends_in_frame(replies(e)));
    }
    steps_prepare_all_windows(first, replies);
    pass_prepares_all_windows(first, replies);
    let begun = WindowPreparationModel { stage: FrameStage::NextWindow, ..second };
    assert(second.step(FrameEvent::Resume) == (begun, FrameCommand::Continue));
    assert forall|i: int| 0 <= i < begun.pending.len() implies rests(
        begun,
        #[trigger] begun.pending[i],
    ) by {
        let e = begun.pending[i];
        assert(first.pending.contains(second.pending[i]));
        let j = choose|j: int| 0 <= j < first.pending.len() && first.pending[j] == e;
        assert(first.windows.dom().contains(first.pending[j]));
        assert(first.windows[e].entity == e);
        let window = prepared_window(first, e, replies(e))->Ok_0;
        assert(begun.windows[e] == window);
        assert(begun.windows.insert(e, window) =~= begun.windows);
    }
    lemma_resting_windows_are_passed_over(begun);
    let n = second.pending.len();
    let (after, rest) = run_resumed(begun, n + 1);
    assert(run_resumed(second, n + 2) == (after, seq![FrameCommand::Continue] + rest));
    assert(seq![FrameCommand::Continue] + rest =~= Seq::new(
        n + 1,
        |i: int| FrameCommand::Continue,
    ).push(FrameCommand::Done));
}

/// Whether a pass goes past the window without a change or a request.
spec fn rests(pass: WindowPreparationModel, e: Entity) -> bool {
    pass.visit(e) == pass.next()
}

/// A pass over windows that rest asks for nothing and changes nothing.
proof fn lemma_resting_windows_are_passed_over(pass: WindowPreparationModel)
    requires
        pass.stage == FrameStage::NextWindow,
        forall|i: int| 0 <= i < pass.pending.len() ==> rests(pass, #[trigger] pass.pending[i]),
    ensures
        run_resumed(pass, pass.pending.len() + 1) == (
            WindowPreparationModel { pending: seq![], ..pass },
            Seq::new(pass.pending.len(), |i: int| FrameCommand::Continue).push(FrameCommand::Done),
        ),
    decreases pass.pending.len(),
{
    let n = pass.pending.len();
    let want = Seq::new(n, |i: int| FrameCommand::Continue).push(FrameCommand::Done);
    if n == 0 {
        reveal_with_fuel(run_resumed, 2);
        assert(pass.pending =~= seq![]);
        assert(seq![FrameCommand::Done] + seq![] =~= want);
    } else {
        let next = WindowPreparationModel { pending: pass.pending.drop_last(), ..pass };
        assert(rests(pass, pass.pending[n - 1]));
        assert(pass.step(FrameEvent::Resume) == (next, FrameCommand::Continue));
        assert forall|i: int| 0 <= i < next.pending.len() implies rests(
            next,
            #[trigger] next.pending[i],
        ) by {
            assert(rests(pass, pass.pending[i]));
        }
        lemma_resting_windows_are_passed_over(next);
        let rest = run_resumed(next, n).1;
        assert(run_resumed(pass, n + 1) == (
            run_resumed(next, n).0,
            seq![FrameCommand::Continue] + rest,
        ));
        assert(seq![FrameCommand::Continue] + rest =~= want);
    }
}

/// How many steps a pass can take at most until it is over.
pub open spec fn steps_left(pass: WindowPreparationModel) -> int {
    4 * pass.pending.len() + match pass.stage {
        FrameStage::Begin => 2int,
        FrameStage::AwaitShutdownFlag => 1,
        FrameStage::NextWindow => 0,
        FrameStage::AwaitFrame(_) => 3,
        FrameStage::AwaitConfiguration(_) => 2,
        FrameStage::AwaitFrameAgain(_) => 1,
        FrameStage::AwaitAdapterNames(_) => 1,
        FrameStage::Failed => 0,
    }
}

/// A pass ends, whatever the outside answers: each step that does not end it brings it closer to
/// its end.
pub proof fn pass_ends(pass: WindowPreparationModel, event: FrameEvent)
    requires
        pass.well_formed(),
        pass.accepts(event),
    ensures
        0 <= steps_left(pass),
        pass.step(event).1 is Done || pass.step(event).1 is Fail || steps_left(pass.step(event).0)
            < steps_left(pass),
        pass.step(event).1 is Done <==> pass.stage == FrameStage::NextWindow && pass.pending.len()
            == 0,
{
}

/// A window that some camera renders to, whichever place that camera has in the list and whatever
/// the others render to, is given a frame of its own surface, unless it goes on with one.
pub proof fn rendered_windows_are_given_frames(pass: WindowPreparationModel, i: int)
    requires
        pass.well_formed(),
        pass.stage == FrameStage::NextWindow,
        pass.pending.len() > 0,
        0 <= i < pass.cameras.len(),
        pass.cameras[i] == Some(CameraTarget::Window(pass.pending.last())),
        pass.surfaces.dom().contains(pass.pending.last()),
    ensures
        ({
            let e = pass.pending.last();
            let window = pass.windows[e];
            let (after, command) = pass.step(FrameEvent::Resume);
            let kept = window.swap_chain_texture is Some && window.swap_chain_texture_view is Some
                && !window.size_changed && !window.present_mode_changed;
            &&& after.windows == pass.windows
            &&& after.pending == pass.pending.drop_last()
            &&& kept ==> command == FrameCommand::Continue && after.stage
                == FrameStage::NextWindow
            &&& !kept ==> after.stage == FrameStage::AwaitFrame(e) && command == (
            FrameCommand::Acquire { window: e, surface: pass.surfaces[e].surface })
        }),
{
    assert(pass.windows.dom().contains(pass.pending[pass.pending.len() - 1]));
    assert(pass.cameras.contains(pass.cameras[i]));
}

/// A window that no camera renders to is given its first frame, unless the offscreen blit is
/// active. Otherwise it only has the format of its surface noted, and does not wait for its first
/// frame any more where the blit will present to it.
pub proof fn windows_that_none_renders_to_get_a_first_frame_only(pass: WindowPreparationModel)
    requires
        pass.well_formed(),
        pass.stage == FrameStage::NextWindow,
        pass.pending.len() > 0,
        forall|i: int|
            0 <= i < pass.cameras.len() ==> #[trigger] pass.cameras[i] != Some(
                CameraTarget::Window(pass.pending.last()),
            ),
        pass.surfaces.dom().contains(pass.pending.last()),
    ensures
        ({
            let e = pass.pending.last();
            let window = pass.windows[e];
            let (after, command) = pass.step(FrameEvent::Resume);
            let kept = window.swap_chain_texture is Some && window.swap_chain_texture_view is Some
                && !window.size_changed && !window.present_mode_changed;
            let first = window.needs_initial_present && pass.offscreen_blit is None;
            &&& after.pending == pass.pending.drop_last()
            &&& first && !kept ==> after.windows == pass.windows && after.stage
                == FrameStage::AwaitFrame(e) && command == (FrameCommand::Acquire {
                window: e,
                surface: pass.surfaces[e].surface,
            })
            &&& first && kept ==> after.windows == pass.windows && after.stage
                == FrameStage::NextWindow && command == FrameCommand::Continue
            &&& !first ==> after.stage == FrameStage::NextWindow && command
                == FrameCommand::Continue && after.windows == pass.windows.insert(
                e,
                (ExtractedWindow {
                    swap_chain_texture_format: Some(pass.surfaces[e].configuration.format),
                    needs_initial_present: false,
                    ..window
                }),
            )
        }),
{
    assert(pass.windows.dom().contains(pass.pending[pass.pending.len() - 1]));
}

/// A window without a surface is passed over, and a pass without windows to come is done.
pub proof fn windows_without_surface_are_passed_over(pass: WindowPreparationModel)
    requires
        pass.well_formed(),
        pass.stage == FrameStage::NextWindow,
    ensures
        pass.pending.len() == 0 ==> pass.step(FrameEvent::Resume) == (pass, FrameCommand::Done),
        pass.pending.len() > 0 && !pass.surfaces.dom().contains(pass.pending.last()) ==> pass.step(
            FrameEvent::Resume,
        ) == (
            (WindowPreparationModel { pending: pass.pending.drop_last(), ..pass }),
            FrameCommand::Continue,
        ),
{
}

/// Neither the order of the cameras nor how many of them render to the same target matters: two
/// passes whose cameras have the same targets do the same.
pub proof fn order_of_cameras_does_not_matter(
    pass: WindowPreparationModel,
    event: FrameEvent,
    cameras: Seq<Option<CameraTarget>>,
)
    requires
        pass.well_formed(),
        pass.accepts(event),
        forall|target: Option<CameraTarget>| #[trigger]
            cameras.contains(target) <==> pass.cameras.contains(target),
    ensures
        ({
            let other = WindowPreparationModel { cameras, ..pass };
            &&& other.step(event).1 == pass.step(event).1
            &&& other.step(event).0 == (WindowPreparationModel { cameras, ..pass.step(event).0 })
        }),
{
}

/// A frame that is acquired, at the first or the second try, becomes the window's, with a view of
/// it in the sRGB twin of its format, and the format of the surface is noted. Nothing else of the
/// window or of any other changes.
pub proof fn acquired_frames_become_the_windows(
    pass: WindowPreparationModel,
    e: Entity,
    frame: SurfaceTexture,
)
    requires
        pass.well_formed(),
        pass.stage == FrameStage::AwaitFrame(e) || pass.stage == FrameStage::AwaitFrameAgain(e),
    ensures
        ({
            let (after, command) = pass.step(FrameEvent::Frame(Ok(frame)));
            let twin = formats::with_srgb_suffix(frame.format);
            &&& command == FrameCommand::Continue
            &&& after.stage == FrameStage::NextWindow
            &&& after.pending == pass.pending
            &&& after.windows == pass.windows.insert(
                e,
                (ExtractedWindow {
                    swap_chain_texture: Some(frame),
                    swap_chain_texture_view: Some(
                        TextureView { texture: frame.texture, format: Some(twin) },
                    ),
                    swap_chain_texture_view_format: Some(twin),
                    swap_chain_texture_format: Some(pass.surfaces[e].configuration.format),
                    ..pass.windows[e]
                }),
            )
        }),
{
}

/// What a failure to acquire a frame leads to: an outdated surface is configured again as it is
/// kept, and a frame is tried for once more; a timeout on Linux has the adapters listed; anything
/// else is fatal at the first try, and passed over at the second. No window changes.
pub proof fn failures_are_told_apart(
    pass: WindowPreparationModel,
    e: Entity,
    error: SurfaceError,
)
    requires
        pass.well_formed(),
        pass.stage == FrameStage::AwaitFrame(e) || pass.stage == FrameStage::AwaitFrameAgain(e),
    ensures
        ({
            let (after, command) = pass.step(FrameEvent::Frame(Err(error)));
            &&& after.windows == pass.windows
            &&& after.pending == pass.pending
            &&& pass.stage == FrameStage::AwaitFrameAgain(e) ==> command
                == FrameCommand::Continue && after.stage == FrameStage::NextWindow
            &&& pass.stage == FrameStage::AwaitFrame(e) ==> {
                &&& error is Outdated ==> after.stage == FrameStage::AwaitConfiguration(e)
                    && command == (FrameCommand::Configure {
                    window: e,
                    surface: pass.surfaces[e].surface,
                    configuration: pass.surfaces[e].configuration,
                })
                &&& error is Timeout && pass.platform is Linux ==> after.stage
                    == FrameStage::AwaitAdapterNames(e) && command == FrameCommand::ListAdapters(e)
                &&& !(error is Outdated) && !(error is Timeout && pass.platform is Linux)
                    ==> after.stage == FrameStage::Failed && command == (FrameCommand::Fail {
                    window: e,
                    error,
                })
            }
        }),
{
}

/// After a surface was configured again, a frame of it is tried for.
pub proof fn frames_are_tried_for_again(pass: WindowPreparationModel, e: Entity)
    requires
        pass.well_formed(),
        pass.stage == FrameStage::AwaitConfiguration(e),
    ensures
        pass.step(FrameEvent::Configured) == (
            (WindowPreparationModel { stage: FrameStage::AwaitFrameAgain(e), ..pass }),
            FrameCommand::Acquire { window: e, surface: pass.surfaces[e].surface },
        ),
{
}

/// A timeout is excused where the name of some adapter, whichever place it has in the list, starts
/// with `Radeon`, `AMD` or `Intel`; then only the format of the surface is noted. It is fatal
/// where no name starts so.
pub proof fn timeouts_are_excused_by_name(
    pass: WindowPreparationModel,
    e: Entity,
    names: Vec<String>,
)
    requires
        pass.well_formed(),
        pass.stage == FrameStage::AwaitAdapterNames(e),
    ensures
        ({
            let (after, command) = pass.step(FrameEvent::AdapterNames(names));
            &&& after.pending == pass.pending
            &&& forall|i: int|
                0 <= i < names@.len() && ("Radeon"@.is_prefix_of((#[trigger] names@[i])@)
                    || "AMD"@.is_prefix_of(names@[i]@) || "Intel"@.is_prefix_of(names@[i]@))
                    ==> command == FrameCommand::Continue && after.stage == FrameStage::NextWindow
                    && after.windows == pass.windows.insert(
                    e,
                    (ExtractedWindow {
                        swap_chain_texture_format: Some(pass.surfaces[e].configuration.format),
                        ..pass.windows[e]
                    }),
                )
            &&& (forall|i: int|
                0 <= i < names@.len() ==> !("Radeon"@.is_prefix_of((#[trigger] names@[i])@)
                    || "AMD"@.is_prefix_of(names@[i]@) || "Intel"@.is_prefix_of(names@[i]@)))
                ==> after.windows == pass.windows && after.stage == FrameStage::Failed && command
                == (FrameCommand::Fail { window: e, error: SurfaceError::Timeout })
        }),
{
    assert forall|i: int|
        0 <= i < names@.len() && ("Radeon"@.is_prefix_of((#[trigger] names@[i])@)
            || "AMD"@.is_prefix_of(names@[i]@) || "Intel"@.is_prefix_of(
            names@[i]@,
        )) implies prepare::timeout_is_excusable(names@) by {
        assert(prepare::may_erroneously_timeout(names@[i]@));
    }
}

/// The opening of a pass changes no window. It raises the shutdown flag where all windows are gone
/// on macOS while the blit is active, and detaches the layer of the blit if the flag was down.
pub proof fn opening_takes_down_the_layer(pass: WindowPreparationModel, was_raised: bool)
    requires
        pass.well_formed(),
    ensures
        pass.stage == FrameStage::Begin && pass.platform is MacOs && pass.pending.len() == 0
            && pass.offscreen_blit is Some ==> pass.step(FrameEvent::Resume) == (
            (WindowPreparationModel { stage: FrameStage::AwaitShutdownFlag, ..pass }),
            FrameCommand::RaiseShutdownFlag,
        ),
        pass.stage == FrameStage::Begin && !(pass.platform is MacOs && pass.pending.len() == 0
            && pass.offscreen_blit is Some) ==> pass.step(FrameEvent::Resume) == (
            (WindowPreparationModel { stage: FrameStage::NextWindow, ..pass }),
            FrameCommand::Continue,
        ),
        pass.stage == FrameStage::AwaitShutdownFlag ==> ({
            let (after, command) = pass.step(FrameEvent::ShutdownFlagWas(was_raised));
            let layer = pass.offscreen_blit->0.metal_state;
            &&& after == (WindowPreparationModel { stage: FrameStage::NextWindow, ..pass })
            &&& !was_raised && layer is Some ==> command == FrameCommand::DetachLayer(
                layer->0.layer,
            )
            &&& was_raised || layer is None ==> command == FrameCommand::Continue
        }),
{
}

/// A pass takes every answer to what it asked for.
pub proof fn every_answer_is_taken(
    pass: WindowPreparationModel,
    event: FrameEvent,
    was_raised: bool,
    frame: Result<SurfaceTexture, SurfaceError>,
    names: Vec<String>,
)
    requires
        pass.well_formed(),
        pass.accepts(event),
    ensures
        ({
            let (after, command) = pass.step(event);
            &&& command is RaiseShutdownFlag ==> after.accepts(
                FrameEvent::ShutdownFlagWas(was_raised),
            )
            &&& command is DetachLayer ==> after.accepts(FrameEvent::Resume)
            &&& command is Acquire ==> after.accepts(FrameEvent::Frame(frame))
            &&& command is Configure ==> after.accepts(FrameEvent::Configured)
            &&& command is ListAdapters ==> after.accepts(FrameEvent::AdapterNames(names))
            &&& command is Continue ==> after.accepts(FrameEvent::Resume)
        }),
        pass.stage == FrameStage::Begin ==> pass.accepts(FrameEvent::Resume),
{
}

/// A pass changes neither surfaces nor cameras, neither the blit nor the platform.
pub proof fn preparation_changes_windows_only(pass: WindowPreparationModel, event: FrameEvent)
    requires
        pass.well_formed(),
        pass.accepts(event),
    ensures
        pass.step(event).0.surfaces == pass.surfaces,
        pass.step(event).0.cameras == pass.cameras,
        pass.step(event).0.offscreen_blit == pass.offscreen_blit,
        pass.step(event).0.platform == pass.platform,
{
}

/// A pass stands for what its caller holds, part by part.
pub proof fn passes_show_all_they_work_on(
    pass: WindowPreparation,
    windows: ExtractedWindows,
    window_surfaces: WindowSurfaces,
)
    ensures
        ({
            let model = pass.model(&windows, &window_surfaces);
            &&& model.windows == containers::window_entries(windows.windows)
            &&& model.surfaces == containers::surface_entries(window_surfaces.surfaces)
            &&& model.pending == pass.pending@
            &&& model.stage == pass.stage
            &&& model.cameras == pass.cameras@
            &&& model.offscreen_blit == pass.offscreen_blit
            &&& model.platform == pass.platform
        }),
{
}

} // verus!
