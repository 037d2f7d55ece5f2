//! The shape of a state that can render through some backend.

use vstd::prelude::*;

verus! {

/// A state that can render using some backend.
pub trait RenderableState {
    type ErrType;

    /// Runs the backend's side of one frame. `redraw_request` says that the
    /// host asked for a redraw now, rather than the loop merely being idle.
    fn api_loop(&mut self, redraw_request: bool) -> Result<(), Self::ErrType>;
}

} // verus!
