//! What the event poll answers, and what a frame asks of the display.
use vstd::prelude::*;

verus! {

/// One answer of the event poll.
#[derive(Clone, Copy, Debug, PartialEq, Eq, Structural)]
pub enum Event {
    /// The user asked to leave.
    Quit,
    /// Nothing is pending.
    NoEvent,
    /// Any other input; the session takes no notice of it.
    Other,
}

/// One call on the display surface.
#[derive(Clone, Copy, Debug, PartialEq, Eq, Structural)]
pub enum DrawCall {
    /// Copy the image onto the display surface at its origin.
    Blit,
    /// Present the back buffer.
    Flip,
}

} // verus!
