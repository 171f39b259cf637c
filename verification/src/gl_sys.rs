//! What a graphics back end offers to the program that drives it.

use vstd::prelude::*;

verus! {

/// A graphics back end: it is set up once and then runs the frame loop.
pub trait GLSys {
    /// Sets the back end up, or says why it could not be.
    fn new() -> Result<Self, String> where Self: Sized;

    /// Hands control to the back end's frame loop.
    fn start_loop(self);
}

} // verus!
