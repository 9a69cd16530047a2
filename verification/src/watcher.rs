//! The platform-independent watch loop, one round at a time: a result of the
//! backend is delivered to the caller's handler, and the handler's answer
//! decides whether the loop goes on.

use vstd::prelude::*;
use crate::error::ReadError;
use crate::event::{ClipboardChangeEvent, HandlerDirective};

verus! {

/// The callbacks through which the watcher hands its results to the caller.
/// What a callback answers is up to the caller, so nothing is promised of it.
pub trait ClipboardHandler {
    /// Called with every detected change.
    fn on_change(&mut self, event: ClipboardChangeEvent) -> HandlerDirective;

    /// Called with every error of the backend, cancellation included.
    fn on_error(&mut self, error: ReadError) -> HandlerDirective;
}

/// Whether the watch loop goes on after a round.
#[derive(Clone, Copy, Debug, PartialEq, Eq, Structural)]
pub enum LoopControl {
    /// Ask the backend for the next change.
    KeepWatching,
    /// Leave the loop; the watch has ended in good order.
    Exit,
}

/// The loop ends when the backend was cancelled, whatever the handler said,
/// or when the handler said to stop. Any other error leaves it running.
pub open spec fn control_after(cancelled: bool, directive: HandlerDirective) -> LoopControl {
    if cancelled || directive == HandlerDirective::Stop {
        LoopControl::Exit
    } else {
        LoopControl::KeepWatching
    }
}

/// Whether a result of the backend reports cancellation.
pub open spec fn reports_cancellation(outcome: Result<ClipboardChangeEvent, ReadError>) -> bool {
    outcome matches Err(error) && error@ is Cancelled
}

/// Decides whether the loop goes on, from whether the backend reported
/// cancellation and from what the handler answered.
pub fn loop_control(cancelled: bool, directive: HandlerDirective) -> (control: LoopControl)
    ensures
        control == control_after(cancelled, directive),
{
    if cancelled {
        LoopControl::Exit
    } else {
        match directive {
            HandlerDirective::Stop => LoopControl::Exit,
            HandlerDirective::Continue => LoopControl::KeepWatching,
        }
    }
}

/// Runs one round of the watch loop: hands a change to `on_change` and an
/// error to `on_error`, and decides from the answer whether the loop goes
/// on. After cancellation the loop ends whatever the handler answers.
pub fn deliver<H: ClipboardHandler>(
    handler: &mut H,
    outcome: Result<ClipboardChangeEvent, ReadError>,
) -> (control: LoopControl)
    ensures
        reports_cancellation(outcome) ==> control == LoopControl::Exit,
        exists|directive: HandlerDirective|
            control == #[trigger] control_after(reports_cancellation(outcome), directive),
{
    let ghost ends_watch = reports_cancellation(outcome);
    match outcome {
        Ok(event) => {
            let directive = handler.on_change(event);
            assert(control_after(ends_watch, directive) == control_after(false, directive));
            loop_control(false, directive)
        },
        Err(error) => {
            let cancelled = error.is_cancelled();
            let directive = handler.on_error(error);
            assert(control_after(ends_watch, directive) == control_after(cancelled, directive));
            loop_control(cancelled, directive)
        },
    }
}

} // verus!
