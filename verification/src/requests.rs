//! The wire-level request shape consumed by the transport layer around the
//! library.  Decoding from the transport's format happens outside; the core
//! sees only the plain values.

use vstd::prelude::*;

verus! {

/// The body of a request that starts a game or adds a move to one.
pub struct GameUpdateRequest {
    /// The requested move, or for a start request the optional first move.
    pub move_position: Option<u32>,
    /// The identifier of the human player making the request.
    pub player_id: String,
}

} // verus!
