//! What holds of every state and every transition of the renderer.

use vstd::prelude::*;
use crate::event::{Command, WindowEvent};
use crate::state::{StateView, ANGLE_STEP_MILLIRAD};
use crate::surface::{AcquireError, PhysicalSize};

verus! {

/// After the window reported a size with an area, the stored size and the
/// extent of the configuration are exactly that size, nothing else has
/// changed, and the surface is to be configured with the new configuration.
pub proof fn lemma_resize_with_area(state: StateView, new_size: PhysicalSize)
    requires
        new_size.has_area(),
    ensures
        state.resized(new_size).size == new_size,
        state.resized(new_size).config.width == new_size.width,
        state.resized(new_size).config.height == new_size.height,
        state.resized(new_size).config.desired_maximum_frame_latency
            == state.config.desired_maximum_frame_latency,
        state.resized(new_size).angle_millirad == state.angle_millirad,
        state.after_event(WindowEvent::Resized(new_size)) == state.resized(new_size),
        state.command_for(WindowEvent::Resized(new_size)) == Command::Configure(
            state.resized(new_size).config,
        ),
{
}

/// A size without area changes neither the stored size nor the configuration,
/// and the surface is left as it is.
pub proof fn lemma_resize_without_area(state: StateView, new_size: PhysicalSize)
    requires
        !new_size.has_area(),
    ensures
        state.resized(new_size) == state,
        state.reconfiguration(new_size) is None,
        state.after_event(WindowEvent::Resized(new_size)) == state,
        state.command_for(WindowEvent::Resized(new_size)) == Command::Continue,
{
}

/// A renderer starts with its surface configured for the size of the window,
/// and no event and no error ever separates the two.
pub proof fn lemma_consistency_is_invariant(
    state: StateView,
    size: PhysicalSize,
    event: WindowEvent,
    error: AcquireError,
)
    ensures
        StateView::initial(size).consistent(),
        state.consistent() ==> state.after_event(event).consistent(),
        state.consistent() ==> state.after_error(error).consistent(),
{
}

/// Every frame adds exactly the fixed step to the angle.
pub proof fn lemma_frame_adds_step(state: StateView)
    ensures
        state.advanced().angle_millirad == state.angle_millirad + ANGLE_STEP_MILLIRAD,
        state.advanced().angle_millirad > state.angle_millirad,
        state.advanced().size == state.size,
        state.advanced().config == state.config,
        state.after_event(WindowEvent::RedrawRequested) == state.advanced(),
{
}

/// The angle never decreases: a redraw adds the step, and every other event
/// and every error leaves the angle alone.
pub proof fn lemma_angle_never_decreases(state: StateView, event: WindowEvent, error: AcquireError)
    ensures
        state.after_event(event).angle_millirad >= state.angle_millirad,
        !(event is RedrawRequested) ==> state.after_event(event).angle_millirad
            == state.angle_millirad,
        state.after_error(error).angle_millirad == state.angle_millirad,
{
}

/// After any number of frames the angle has grown by that many steps, and
/// size and configuration are what they were.
pub proof fn lemma_frames_accumulate(state: StateView, frames: nat)
    ensures
        state.advanced_by(frames).angle_millirad == state.angle_millirad + frames
            * ANGLE_STEP_MILLIRAD,
        state.advanced_by(frames).size == state.size,
        state.advanced_by(frames).config == state.config,
    decreases frames,
{
    if frames > 0 {
        lemma_frames_accumulate(state, (frames - 1) as nat);
    }
}

/// The angle after more frames is never the smaller one.
pub proof fn lemma_frames_monotonic(state: StateView, fewer: nat, more: nat)
    requires
        fewer <= more,
    ensures
        state.advanced_by(fewer).angle_millirad <= state.advanced_by(more).angle_millirad,
{
    lemma_frames_accumulate(state, fewer);
    lemma_frames_accumulate(state, more);
}

/// When a surface with an area is lost or outdated, the surface is
/// configured anew with the stored size and the loop goes on. Of a state in
/// which size and configuration agree, nothing changes.
pub proof fn lemma_lost_surface_is_reconfigured(state: StateView, error: AcquireError)
    requires
        error.is_recoverable(),
        state.size.has_area(),
    ensures
        state.command_after_error(error) == Command::Configure(
            state.config.with_extent(state.size),
        ),
        state.after_error(error).size == state.size,
        state.after_error(error).config.extent() == state.size,
        state.consistent() ==> state.after_error(error) == state,
        state.consistent() ==> state.command_after_error(error) == Command::Configure(
            state.config,
        ),
{
}

/// The frame loop ends on memory exhaustion, and on no other error.
pub proof fn lemma_only_out_of_memory_exits(state: StateView, error: AcquireError)
    ensures
        state.command_after_error(AcquireError::OutOfMemory) == Command::Exit,
        state.command_after_error(error) == Command::Exit <==> error.is_fatal(),
        !error.is_recoverable() ==> state.after_error(error) == state,
        state.command_after_error(AcquireError::Timeout) == Command::SkipFrame,
{
}

/// An event ends the frame loop exactly when it asks for it, and such an
/// event changes nothing.
pub proof fn lemma_exit_on_request_only(state: StateView, event: WindowEvent)
    ensures
        state.command_for(event) == Command::Exit <==> event.requests_exit(),
        event.requests_exit() ==> state.after_event(event) == state,
{
}

} // verus!
