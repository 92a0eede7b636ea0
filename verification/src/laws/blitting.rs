//! Laws of the offscreen blit.

use bevy_ecs::entity::Entity;
use vstd::prelude::*;
use wgpu::SurfaceError;

use crate::blit;
use crate::blit::{
    BlitCommand, BlitEvent, BlitTarget, MetalBlit, MetalBlitCommand, MetalBlitEvent, OffscreenBlit,
    OffscreenBlitModel,
};
use crate::containers;
use crate::surface::WindowSurfaces;
use crate::window::ExtractedWindows;

verus! {

/// What is copied lies within both the source and the frame, and is as large as both allow.
pub proof fn blit_stays_in_bounds(pass: OffscreenBlitModel, event: BlitEvent)
    requires
        pass.well_formed(),
        pass.accepts(event),
        pass.step(event).1 is CopyAndPresent,
    ensures
        event is Frame,
        event->Frame_0 is Ok,
        ({
            let target = event->Frame_0->Ok_0;
            let width = pass.step(event).1->CopyAndPresent_width;
            let height = pass.step(event).1->CopyAndPresent_height;
            &&& width <= pass.source_width && width <= target.width
            &&& height <= pass.source_height && height <= target.height
            &&& width == pass.source_width || width == target.width
            &&& height == pass.source_height || height == target.height
        }),
{
}

/// A window that holds a frame, because a camera renders to it, is never blitted to.
pub proof fn rendered_windows_are_not_blitted(pass: OffscreenBlitModel)
    requires
        pass.well_formed(),
        pass.stage is NextWindow,
        pass.pending.len() > 0,
        pass.windows[pass.pending.last()].swap_chain_texture is Some,
    ensures
        pass.step(BlitEvent::Resume) == (
            OffscreenBlitModel { pending: pass.pending.drop_last(), ..pass },
            BlitCommand::Skip(pass.pending.last()),
        ),
{
}

/// A copy to a Metal layer never asks for a drawable once it finds the shutdown flag raised, and
/// asks for one only after it found the flag down twice.
pub proof fn no_drawable_during_shutdown(copy: MetalBlit, first: bool, second: bool)
    requires
        copy.well_formed(),
        copy.stage == blit::MetalBlitStage::FirstCheck,
    ensures
        first ==> copy.transition(MetalBlitEvent::ShutdownFlag(first)).1 == MetalBlitCommand::Done,
        !(copy.transition(MetalBlitEvent::ShutdownFlag(first)).1 is NextDrawable),
        !first && copy.state->0.metal_state is Some ==> {
            let checked = copy.transition(MetalBlitEvent::ShutdownFlag(first)).0;
            &&& checked.well_formed()
            &&& checked.accepts(MetalBlitEvent::ShutdownFlag(second))
            &&& checked.transition(MetalBlitEvent::ShutdownFlag(second)).1 is NextDrawable
                <==> !second
        },
{
}

/// What is copied to a Metal layer lies within both the source and the drawable.
pub proof fn metal_blit_stays_in_bounds(
    copy: MetalBlit,
    target: blit::MetalSize,
    source: blit::MetalSize,
)
    requires
        copy.well_formed(),
        copy.stage == blit::MetalBlitStage::AwaitDrawable,
    ensures
        ({
            let command = copy.transition(
                MetalBlitEvent::Drawable { target: Some(target), source },
            ).1;
            &&& command is CopyAndPresent
            &&& command->width <= source.width && command->width <= target.width
            &&& command->height <= source.height && command->height <= target.height
        }),
{
}

/// What the outside answers about one window during a pass.
pub struct BlitReplies {
    /// The first try to acquire a frame.
    pub first: Result<BlitTarget, SurfaceError>,
    /// The second try, after the surface was found outdated and was configured again.
    pub second: Result<BlitTarget, SurfaceError>,
}

/// The frame of a window that the offscreen texture is copied to, if any is.
pub open spec fn blit_target(pass: OffscreenBlitModel, e: Entity, replies: BlitReplies) -> Option<
    BlitTarget,
> {
    if !pass.surfaces.dom().contains(e) || pass.windows[e].swap_chain_texture is Some {
        None
    } else {
        match replies.first {
            Ok(target) => Some(target),
            Err(error) => if error is Outdated {
                match replies.second {
                    Ok(target) => Some(target),
                    Err(_) => None,
                }
            } else {
                None
            },
        }
    }
}

/// What a pass asks for last for a window: to copy, as far as both reach, to the frame that was
/// acquired, or to skip the window where there is none.
pub open spec fn final_command(
    pass: OffscreenBlitModel,
    e: Entity,
    replies: BlitReplies,
) -> BlitCommand {
    match blit_target(pass, e, replies) {
        Some(target) => BlitCommand::CopyAndPresent {
            window: e,
            source: pass.source,
            target: target.texture,
            width: blit::lesser(pass.source_width, target.width),
            height: blit::lesser(pass.source_height, target.height),
        },
        None => BlitCommand::Skip(e),
    }
}

/// The steps of a pass from one window to the next, when the outside answers so.
pub open spec fn run_blit(pass: OffscreenBlitModel, replies: BlitReplies) -> (
    OffscreenBlitModel,
    BlitCommand,
) {
    let begun = pass.step(BlitEvent::Resume);
    if begun.0.stage is AwaitFrame {
        let tried = begun.0.step(BlitEvent::Frame(replies.first));
        if tried.0.stage is AwaitConfiguration {
            tried.0.step(BlitEvent::Configured).0.step(BlitEvent::Frame(replies.second))
        } else {
            tried
        }
    } else {
        begun
    }
}

/// The steps that a pass takes over a window come to this: the offscreen texture is copied, as far
/// as both reach, to the frame that was acquired, or the window is skipped where there is none.
pub proof fn steps_blit_a_window(pass: OffscreenBlitModel, replies: BlitReplies)
    requires
        pass.well_formed(),
        pass.stage is NextWindow,
        pass.pending.len() > 0,
    ensures
        ({
            let e = pass.pending.last();
            let next = OffscreenBlitModel { pending: pass.pending.drop_last(), ..pass };
            run_blit(pass, replies) == (next, final_command(pass, e, replies))
        }),
{
}

/// What a pass asks for last for each of its windows, in the order in which it comes to them.
pub open spec fn run_blits(
    pass: OffscreenBlitModel,
    replies: spec_fn(Entity) -> BlitReplies,
    count: nat,
) -> Seq<BlitCommand>
    decreases count,
{
    if count == 0 {
        seq![]
    } else {
        let (next, command) = run_blit(pass, replies(pass.pending.last()));
        seq![command] + run_blits(next, replies, (count - 1) as nat)
    }
}

/// A pass comes to each of its windows once, and copies to it or skips it by what the outside
/// answered about that window alone.
pub proof fn steps_blit_all_windows(
    pass: OffscreenBlitModel,
    replies: spec_fn(Entity) -> BlitReplies,
)
    requires
        pass.well_formed(),
        pass.stage is NextWindow,
    ensures
        run_blits(pass, replies, pass.pending.len()).len() == pass.pending.len(),
        forall|i: int|
            0 <= i < pass.pending.len() ==> {
                let e = #[trigger] pass.pending[i];
                run_blits(pass, replies, pass.pending.len())[pass.pending.len() - 1 - i]
                    == final_command(pass, e, replies(e))
            },
    decreases pass.pending.len(),
{
    if pass.pending.len() > 0 {
        let last = pass.pending.last();
        let next = OffscreenBlitModel { pending: pass.pending.drop_last(), ..pass };
        assert forall|i: int| 0 <= i < next.pending.len() implies next.windows.dom().contains(
            #[trigger] next.pending[i],
        ) by {
            assert(pass.windows.dom().contains(pass.pending[i]));
        }
        steps_blit_a_window(pass, replies(last));
        steps_blit_all_windows(next, replies);
        let got = run_blits(pass, replies, pass.pending.len());
        let rest = run_blits(next, replies, next.pending.len());
        assert(got == seq![final_command(pass, last, replies(last))] + rest);
        assert forall|i: int| 0 <= i < pass.pending.len() implies ({
            let e = #[trigger] pass.pending[i];
            got[pass.pending.len() - 1 - i] == final_command(pass, e, replies(e))
        }) by {
            if i < next.pending.len() {
                let e = next.pending[i];
                assert(rest[next.pending.len() - 1 - i] == final_command(next, e, replies(e)));
                assert(got[pass.pending.len() - 1 - i] == rest[next.pending.len() - 1 - i]);
            }
        }
    }
}

/// How many steps a pass can take at most until it is over.
pub open spec fn steps_left(pass: OffscreenBlitModel) -> int {
    4 * pass.pending.len() + match pass.stage {
        blit::BlitStage::NextWindow => 0int,
        blit::BlitStage::AwaitFrame(_) => 3,
        blit::BlitStage::AwaitConfiguration(_) => 2,
        blit::BlitStage::AwaitFrameAgain(_) => 1,
    }
}

/// A pass ends, whatever the outside answers: each step that does not end it brings it closer to
/// its end.
pub proof fn pass_ends(pass: OffscreenBlitModel, event: BlitEvent)
    requires
        pass.well_formed(),
        pass.accepts(event),
    ensures
        0 <= steps_left(pass),
        pass.step(event).1 is Done || steps_left(pass.step(event).0) < steps_left(pass),
        pass.step(event).1 is Done <==> pass.stage is NextWindow && pass.pending.len() == 0,
{
}

/// A window is copied to where it has a surface and holds no frame, and is skipped otherwise; a
/// pass without windows to come is done.
pub proof fn windows_without_frame_are_blitted(pass: OffscreenBlitModel)
    requires
        pass.well_formed(),
        pass.stage is NextWindow,
    ensures
        pass.pending.len() == 0 ==> pass.step(BlitEvent::Resume) == (pass, BlitCommand::Done),
        pass.pending.len() > 0 ==> ({
            let e = pass.pending.last();
            let rest = pass.pending.drop_last();
            let copied = pass.surfaces.dom().contains(e)
                && pass.windows[e].swap_chain_texture is None;
            &&& copied ==> pass.step(BlitEvent::Resume) == (
                (OffscreenBlitModel {
                    pending: rest,
                    stage: blit::BlitStage::AwaitFrame(e),
                    ..pass
                }),
                BlitCommand::Acquire { window: e, surface: pass.surfaces[e].surface },
            )
            &&& !copied ==> pass.step(BlitEvent::Resume) == (
                (OffscreenBlitModel { pending: rest, ..pass }),
                BlitCommand::Skip(e),
            )
        }),
{
}

/// A frame that is acquired, at the first or the second try, has the source copied to it: as wide
/// as the narrower and as high as the lower of the two.
pub proof fn frames_are_copied_to(pass: OffscreenBlitModel, e: Entity, target: BlitTarget)
    requires
        pass.well_formed(),
        pass.stage == blit::BlitStage::AwaitFrame(e) || pass.stage
            == blit::BlitStage::AwaitFrameAgain(e),
    ensures
        ({
            let (after, command) = pass.step(BlitEvent::Frame(Ok(target)));
            &&& after == (OffscreenBlitModel { stage: blit::BlitStage::NextWindow, ..pass })
            &&& command is CopyAndPresent
            &&& command->CopyAndPresent_window == e
            &&& command->CopyAndPresent_source == pass.source
            &&& command->CopyAndPresent_target == target.texture
            &&& pass.source_width <= target.width ==> command->CopyAndPresent_width
                == pass.source_width
            &&& target.width <= pass.source_width ==> command->CopyAndPresent_width
                == target.width
            &&& pass.source_height <= target.height ==> command->CopyAndPresent_height
                == pass.source_height
            &&& target.height <= pass.source_height ==> command->CopyAndPresent_height
                == target.height
        }),
{
}

/// A failure to acquire a frame never ends a pass: an outdated surface is configured again as it
/// is kept, and any other failure, and any at the second try, has the window skipped.
pub proof fn failures_skip_or_configure(
    pass: OffscreenBlitModel,
    e: Entity,
    error: SurfaceError,
)
    requires
        pass.well_formed(),
        pass.stage == blit::BlitStage::AwaitFrame(e) || pass.stage
            == blit::BlitStage::AwaitFrameAgain(e),
    ensures
        ({
            let first = pass.stage == blit::BlitStage::AwaitFrame(e);
            let (after, command) = pass.step(BlitEvent::Frame(Err(error)));
            &&& first && error is Outdated ==> after == (OffscreenBlitModel {
                stage: blit::BlitStage::AwaitConfiguration(e),
                ..pass
            }) && command == (BlitCommand::Configure {
                window: e,
                surface: pass.surfaces[e].surface,
                configuration: pass.surfaces[e].configuration,
            })
            &&& !(first && error is Outdated) ==> after == (OffscreenBlitModel {
                stage: blit::BlitStage::NextWindow,
                ..pass
            }) && command == BlitCommand::Skip(e)
        }),
{
}

/// After a surface was configured again, a frame of it is tried for.
pub proof fn frames_are_tried_for_again(pass: OffscreenBlitModel, e: Entity)
    requires
        pass.well_formed(),
        pass.stage == blit::BlitStage::AwaitConfiguration(e),
    ensures
        pass.step(BlitEvent::Configured) == (
            (OffscreenBlitModel { stage: blit::BlitStage::AwaitFrameAgain(e), ..pass }),
            BlitCommand::Acquire { window: e, surface: pass.surfaces[e].surface },
        ),
{
}

/// A pass takes every answer to what it asked for.
pub proof fn every_answer_is_taken(
    pass: OffscreenBlitModel,
    event: BlitEvent,
    frame: Result<BlitTarget, SurfaceError>,
)
    requires
        pass.well_formed(),
        pass.accepts(event),
    ensures
        ({
            let (after, command) = pass.step(event);
            &&& command is Acquire ==> after.accepts(BlitEvent::Frame(frame))
            &&& command is Configure ==> after.accepts(BlitEvent::Configured)
            &&& command is CopyAndPresent || command is Skip ==> after.accepts(BlitEvent::Resume)
        }),
        pass.stage is NextWindow ==> pass.accepts(BlitEvent::Resume),
{
}

/// A pass stands for what its caller holds, part by part.
pub proof fn passes_show_all_they_read(
    pass: OffscreenBlit,
    windows: ExtractedWindows,
    window_surfaces: WindowSurfaces,
)
    ensures
        ({
            let model = pass.model(&windows, &window_surfaces);
            &&& model.windows == containers::window_entries(windows.windows)
            &&& model.surfaces == containers::surface_entries(window_surfaces.surfaces)
            &&& model.pending == pass.pending@
            &&& model.stage == pass.stage
            &&& model.source == pass.source
            &&& model.source_width == pass.source_width
            &&& model.source_height == pass.source_height
        }),
{
}

/// What is copied to a Metal layer is as large as both the source and the drawable allow, also
/// where they are of the same size; without a drawable nothing is. Either way the copy is over.
pub proof fn metal_blit_copies_all_that_fits(
    copy: MetalBlit,
    target: blit::MetalSize,
    source: blit::MetalSize,
)
    requires
        copy.well_formed(),
        copy.stage == blit::MetalBlitStage::AwaitDrawable,
    ensures
        ({
            let (after, command) = copy.transition(
                MetalBlitEvent::Drawable { target: Some(target), source },
            );
            &&& after == (MetalBlit { stage: blit::MetalBlitStage::Finished, ..copy })
            &&& command is CopyAndPresent
            &&& command->width <= source.width && command->width <= target.width
            &&& command->height <= source.height && command->height <= target.height
            &&& command->width == source.width || command->width == target.width
            &&& command->height == source.height || command->height == target.height
        }),
        copy.transition(MetalBlitEvent::Drawable { target: None, source }) == (
            (MetalBlit { stage: blit::MetalBlitStage::Finished, ..copy }),
            MetalBlitCommand::Done,
        ),
{
}

/// A copy to a Metal layer goes on past a check exactly while the shutdown flag is down: it reads
/// the flag where there is a blit, reads it again where that has a layer, and then asks that very
/// layer for a drawable. Otherwise it is over.
pub proof fn metal_blit_asks_its_own_layer(copy: MetalBlit, raised: bool)
    requires
        copy.well_formed(),
    ensures
        ({
            let over = (
                (MetalBlit { stage: blit::MetalBlitStage::Finished, ..copy }),
                MetalBlitCommand::Done,
            );
            let layer = copy.state->0.metal_state;
            &&& copy.stage is Begin && copy.state is None ==> copy.transition(
                MetalBlitEvent::Begin,
            ) == over
            &&& copy.stage is Begin && copy.state is Some ==> copy.transition(
                MetalBlitEvent::Begin,
            ) == (
                (MetalBlit { stage: blit::MetalBlitStage::FirstCheck, ..copy }),
                MetalBlitCommand::ReadShutdownFlag,
            )
            &&& copy.stage is FirstCheck && !raised && layer is Some ==> copy.transition(
                MetalBlitEvent::ShutdownFlag(raised),
            ) == (
                (MetalBlit { stage: blit::MetalBlitStage::SecondCheck, ..copy }),
                MetalBlitCommand::ReadShutdownFlag,
            )
            &&& copy.stage is FirstCheck && (raised || layer is None) ==> copy.transition(
                MetalBlitEvent::ShutdownFlag(raised),
            ) == over
            &&& copy.stage is SecondCheck && raised ==> copy.transition(
                MetalBlitEvent::ShutdownFlag(raised),
            ) == over
            &&& copy.stage is SecondCheck && !raised ==> copy.transition(
                MetalBlitEvent::ShutdownFlag(raised),
            ) == (
                (MetalBlit { stage: blit::MetalBlitStage::AwaitDrawable, ..copy }),
                MetalBlitCommand::NextDrawable(layer->0.layer),
            )
        }),
{
}

/// A copy to a Metal layer takes every answer to what it asked for.
pub proof fn every_metal_answer_is_taken(
    copy: MetalBlit,
    event: MetalBlitEvent,
    raised: bool,
    target: Option<blit::MetalSize>,
    source: blit::MetalSize,
)
    requires
        copy.well_formed(),
        copy.accepts(event),
    ensures
        ({
            let (after, command) = copy.transition(event);
            &&& command is ReadShutdownFlag ==> after.accepts(MetalBlitEvent::ShutdownFlag(raised))
            &&& command is NextDrawable ==> after.accepts(
                MetalBlitEvent::Drawable { target, source },
            )
        }),
        copy.stage is Begin ==> copy.accepts(MetalBlitEvent::Begin),
{
}

} // verus!
