//! The input-event state machine that drives the render loop.
//!
//! The loop's decisions are a pure transition function from state and event
//! to the next state: a quit or cancel key requests termination, every other
//! event leaves the state unchanged. The I/O that produces events and the
//! I/O that draws the state stand elsewhere.

use vstd::prelude::*;
use crate::snapshot::DirectorySnapshot;

verus! {

/// A key press, as the input layer reports it.
#[derive(Clone, Copy, PartialEq, Eq, Structural, Debug)]
pub enum Key {
    /// A printable character.
    Char(char),
    /// The escape key.
    Esc,
    /// Any other key.
    Other,
}

/// One input event from the terminal.
#[derive(Clone, Copy, PartialEq, Eq, Structural, Debug)]
pub enum InputEvent {
    /// A key press.
    Key(Key),
    /// The terminal was resized; the next frame recomputes the layout.
    Resize,
    /// A mouse event.
    Mouse,
    /// Any other event.
    Other,
}

/// The event asks the application to stop: the quit key `q` or the cancel
/// key (escape).
pub open spec fn is_quit_event(e: InputEvent) -> bool {
    e == InputEvent::Key(Key::Char('q')) || e == InputEvent::Key(Key::Esc)
}

/// The whole state the render loop draws and updates.
pub struct ApplicationState {
    /// The directory listing shown; never mutated while the loop runs.
    pub snapshot: DirectorySnapshot,
    /// Whether a quit or cancel key has been observed.
    pub should_quit: bool,
}

impl ApplicationState {
    /// The state the loop starts from: nothing has asked to quit yet.
    pub fn new(snapshot: DirectorySnapshot) -> (s: ApplicationState)
        ensures
            s.snapshot == snapshot,
            !s.should_quit,
    {
        ApplicationState { snapshot, should_quit: false }
    }

    /// One dispatch step. Termination is requested exactly when a quit or
    /// cancel key arrives, or was already requested; no other event changes
    /// the state, and the snapshot is never touched.
    pub fn step(&mut self, event: InputEvent)
        ensures
            final(self).snapshot == old(self).snapshot,
            final(self).should_quit == (old(self).should_quit || is_quit_event(event)),
    {
        match event {
            InputEvent::Key(Key::Char(c)) => {
                if c == 'q' {
                    self.should_quit = true;
                }
            },
            InputEvent::Key(Key::Esc) => {
                self.should_quit = true;
            },
            _ => {},
        }
    }
}

/// Whether termination is requested after dispatching `events` in order,
/// starting from a state whose quit flag is `start`.
pub open spec fn quit_after(start: bool, events: Seq<InputEvent>) -> bool
    decreases events.len(),
{
    if events.len() == 0 {
        start
    } else {
        quit_after(start || is_quit_event(events[0]), events.skip(1))
    }
}

/// The loop stops on exactly the right inputs: a run of dispatch steps
/// requests termination if and only if it was already requested or some
/// event of the run is a quit or cancel key. Ignored keys, resizes and
/// mouse events alone never request it.
pub proof fn lemma_quit_after_iff(start: bool, events: Seq<InputEvent>)
    ensures
        quit_after(start, events) <==> (start || exists|i: int|
            0 <= i < events.len() && is_quit_event(#[trigger] events[i])),
    decreases events.len(),
{
    if events.len() == 0 {
    } else {
        lemma_quit_after_iff(start || is_quit_event(events[0]), events.skip(1));
        if exists|i: int| 0 <= i < events.skip(1).len() && is_quit_event(
            #[trigger] events.skip(1)[i],
        ) {
            let i = choose|i: int|
                0 <= i < events.skip(1).len() && is_quit_event(#[trigger] events.skip(1)[i]);
            assert(events.skip(1)[i] == events[i + 1]);
        }
        if exists|i: int| 0 <= i < events.len() && is_quit_event(#[trigger] events[i]) {
            let i = choose|i: int| 0 <= i < events.len() && is_quit_event(#[trigger] events[i]);
            if i > 0 {
                assert(events.skip(1)[i - 1] == events[i]);
            }
        }
    }
}

} // verus!
