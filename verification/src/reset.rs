//! The hardware reset of the display, as a sequence of steps.
//!
//! Driving the reset line and waiting are the caller's business. The library
//! decides what is to be done next and what a failure means: the caller asks
//! for the next action, performs it, and reports how it went.

use vstd::prelude::*;

use crate::error::Error;

verus! {

/// One thing to do to the display's reset line.
#[derive(Clone, Copy, Debug, PartialEq, Eq, Structural)]
pub enum ResetAction {
    /// Drive the reset line high.
    SetHigh,
    /// Drive the reset line low.
    SetLow,
    /// Wait for at least this many milliseconds.
    DelayMs(u8),
}

/// The reset sequence: the line is driven high and held for a millisecond,
/// driven low and held for ten, and driven high again.
pub open spec fn reset_actions() -> Seq<ResetAction> {
    seq![
        ResetAction::SetHigh,
        ResetAction::DelayMs(1),
        ResetAction::SetLow,
        ResetAction::DelayMs(10),
        ResetAction::SetHigh,
    ]
}

/// How far a reset has come.
#[derive(Clone, Copy, Debug)]
pub struct ResetSequence {
    done: u8,
}

impl ResetSequence {
    /// Number of actions of [`reset_actions`] that were performed.
    pub closed spec fn done(&self) -> nat {
        if self.done as nat <= reset_actions().len() {
            self.done as nat
        } else {
            reset_actions().len()
        }
    }

    /// A reset of which nothing was done yet.
    pub fn start() -> (sequence: ResetSequence)
        ensures
            sequence.done() == 0,
    {
        ResetSequence { done: 0 }
    }

    /// What is to be done next, or `None` when the reset is complete.
    pub fn action(&self) -> (action: Option<ResetAction>)
        ensures
            action == if self.done() < reset_actions().len() {
                Some(reset_actions()[self.done() as int])
            } else {
                None
            },
    {
        match self.done {
            0 => Some(ResetAction::SetHigh),
            1 => Some(ResetAction::DelayMs(1)),
            2 => Some(ResetAction::SetLow),
            3 => Some(ResetAction::DelayMs(10)),
            4 => Some(ResetAction::SetHigh),
            _ => None,
        }
    }

    /// Takes note of how the action handed out last went. After a success
    /// the next action is due. A failure ends the reset with the pin's error.
    /// Reported to a complete reset, a success changes nothing.
    pub fn advance<PinE>(self, outcome: Result<(), PinE>) -> (next: Result<
        ResetSequence,
        Error<(), PinE>,
    >)
        ensures
            match outcome {
                Ok(_) => next matches Ok(sequence) && sequence.done() == if self.done()
                    < reset_actions().len() {
                    self.done() + 1
                } else {
                    self.done()
                },
                Err(e) => next == Err::<ResetSequence, Error<(), PinE>>(Error::Pin(e)),
            },
    {
        match outcome {
            Ok(()) => {
                if self.done < 5 {
                    Ok(ResetSequence { done: self.done + 1 })
                } else {
                    Ok(ResetSequence { done: 5 })
                }
            },
            Err(e) => Err(Error::Pin(e)),
        }
    }
}

} // verus!
