//! The realtime operations.

use crate::kuzzle::Kuzzle;
use crate::protocols::Protocol;
use crate::types::{KuzzleRequest, QueryOptions};
use vstd::prelude::*;

verus! {

/// The realtime operations. Each takes the facade it dispatches through as an
/// explicit argument.
pub struct RealtimeController;

impl RealtimeController {
    /// Dispatches the realtime subscription operation, discarding the reply: the caller
    /// observes only that the call completed.
    pub fn subscribe<P: Protocol>(k: &Kuzzle<P>, options: QueryOptions) {
        let req = KuzzleRequest::new("realtime", "subscribe");
        let _ = k.query(req, options);
    }
}

} // verus!
