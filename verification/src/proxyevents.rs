//! Events that the framework sends to its own event loop.

use vstd::prelude::*;

verus! {

#[derive(Clone, Copy, Debug, PartialEq, Eq, Structural)]
pub enum ProxyEvent {
    /// Call `update` for the renderer with this index.
    Update(usize),
    /// Wake the event loop; nothing else.
    Bump,
    /// Ask the conductor whether the application may close.
    CloseRequest,
}

} // verus!
