//! One turn of the render loop: draw, wait, dispatch.
//!
//! The loop itself is caller-driven: whoever owns the control thread calls
//! `run_frame` again exactly when it answered `Continue`. Each turn draws
//! the current state against the live terminal area, blocks for one input
//! event, and dispatches it. The contract says precisely when a turn ends
//! the loop: on a quit request or on an error, and never otherwise.

use vstd::prelude::*;
use crate::render::build_frame;
use crate::session::AppError;
use crate::session::TerminalDevice;
use crate::session::TerminalSession;
use crate::state::ApplicationState;

verus! {

/// What one turn of the loop decided.
#[derive(Clone, Copy, PartialEq, Eq, Structural, Debug)]
pub enum FrameOutcome {
    /// Nothing asked to stop: the caller runs the next turn.
    Continue,
    /// A quit or cancel key arrived: the loop is over, successfully.
    Quit,
}

/// One turn: draw the state, block for one event, dispatch it.
///
/// The turn answers `Quit` exactly when termination is requested
/// afterwards, `Continue` exactly when it is not, and an error exactly when
/// the device failed — drawing problems as a render failure, the blocking
/// wait as an input-read failure, each aborting the turn at once. On an
/// error the state is exactly as it was, so an ignored key, a resize or a
/// mouse event alone never ends the loop.
pub fn run_frame<D: TerminalDevice>(
    session: &mut TerminalSession<D>,
    state: &mut ApplicationState,
) -> (r: Result<FrameOutcome, AppError>)
    requires
        old(session).is_active(),
    ensures
        final(session).is_active(),
        final(state).snapshot == old(state).snapshot,
        r == Ok::<FrameOutcome, AppError>(FrameOutcome::Quit) ==> final(state).should_quit,
        r == Ok::<FrameOutcome, AppError>(FrameOutcome::Continue) ==> !final(state).should_quit
            && !old(state).should_quit,
        r is Err ==> final(state).should_quit == old(state).should_quit && (r == Err::<
            FrameOutcome,
            AppError,
        >(AppError::RenderFailure) || r == Err::<FrameOutcome, AppError>(
            AppError::InputReadFailure,
        )),
{
    let area = match session.screen_area() {
        Ok(a) => a,
        Err(e) => {
            return Err(e);
        },
    };
    let frame = build_frame(area, &state.snapshot);
    if let Err(e) = session.draw(&frame) {
        return Err(e);
    }
    let event = match session.next_event() {
        Ok(ev) => ev,
        Err(e) => {
            return Err(e);
        },
    };
    state.step(event);
    if state.should_quit {
        Ok(FrameOutcome::Quit)
    } else {
        Ok(FrameOutcome::Continue)
    }
}

} // verus!
