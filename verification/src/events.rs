//! Per-key dispatch of the interaction loop: from the current state and one
//! input key to the next state and what the loop should do. The loop itself
//! (drawing, blocking reads, terminal teardown) lives outside the verified
//! core and obeys the outcome returned here.

use vstd::prelude::*;
use crate::app::{next_selection, prev_selection, App};

verus! {

/// An input event, abstracted to the keys the loop reacts to.
#[derive(Clone, Copy, Debug, PartialEq, Eq, Structural)]
pub enum InputKey {
    Quit,
    Down,
    Up,
    Enter,
    Other,
}

/// What the interaction loop must do after one key is dispatched.
#[derive(Clone, Copy, Debug, PartialEq, Eq, Structural)]
pub enum Outcome {
    KeepRunning,
    ReportSelection,
    Terminate,
}

/// Dispatches one input key: quit terminates the loop, the arrow keys move
/// the selection with wraparound, Enter asks the loop to report the current
/// selection, and anything else is ignored. The row list never changes.
pub fn handle_key(app: &mut App, key: InputKey) -> (out: Outcome)
    requires
        old(app).wf(),
    ensures
        final(app).wf(),
        final(app).items@ == old(app).items@,
        (match key {
            InputKey::Quit => out == Outcome::Terminate && *final(app) == *old(app),
            InputKey::Down => out == Outcome::KeepRunning && final(app).selected == Some(
                next_selection(old(app).selected, old(app).items@.len() as int) as usize,
            ),
            InputKey::Up => out == Outcome::KeepRunning && final(app).selected == Some(
                prev_selection(old(app).selected, old(app).items@.len() as int) as usize,
            ),
            InputKey::Enter => out == Outcome::ReportSelection && *final(app) == *old(app),
            InputKey::Other => out == Outcome::KeepRunning && *final(app) == *old(app),
        }),
{
    match key {
        InputKey::Quit => Outcome::Terminate,
        InputKey::Down => {
            app.next();
            Outcome::KeepRunning
        },
        InputKey::Up => {
            app.previous();
            Outcome::KeepRunning
        },
        InputKey::Enter => Outcome::ReportSelection,
        InputKey::Other => Outcome::KeepRunning,
    }
}

} // verus!
