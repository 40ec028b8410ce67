//! Errors that the display hands on from the hardware.

use vstd::prelude::*;

verus! {

/// What went wrong below the library. Both kinds are handed on as they came;
/// the library neither retries nor recovers.
#[derive(Debug)]
pub enum Error<CommE, PinE> {
    /// The transport failed.
    Comm(CommE),
    /// A pin could not be driven.
    Pin(PinE),
}

} // verus!
