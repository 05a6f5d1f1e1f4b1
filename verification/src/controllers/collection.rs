//! The collection operations.

use crate::kuzzle::Kuzzle;
use crate::protocols::Protocol;
use crate::types::{KuzzleRequest, QueryOptions};
use vstd::prelude::*;

verus! {

/// The collection operations. Each takes the facade it dispatches through as an
/// explicit argument.
pub struct CollectionController;

impl CollectionController {
    /// Dispatches the collection creation operation, discarding the reply: the caller
    /// observes only that the call completed.
    pub fn create<P: Protocol>(k: &Kuzzle<P>, options: QueryOptions) {
        let req = KuzzleRequest::new("collection", "create");
        let _ = k.query(req, options);
    }
}

} // verus!
