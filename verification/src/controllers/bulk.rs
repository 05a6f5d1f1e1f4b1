//! The bulk operations.

use crate::kuzzle::Kuzzle;
use crate::protocols::Protocol;
use crate::types::{KuzzleRequest, QueryOptions};
use vstd::prelude::*;

verus! {

/// The bulk operations. Each takes the facade it dispatches through as an
/// explicit argument.
pub struct BulkController;

impl BulkController {
    /// Dispatches the bulk import operation, discarding the reply: the caller
    /// observes only that the call completed.
    pub fn import<P: Protocol>(k: &Kuzzle<P>, options: QueryOptions) {
        let req = KuzzleRequest::new("bulk", "import");
        let _ = k.query(req, options);
    }
}

} // verus!
