//! The document operations.

use crate::kuzzle::Kuzzle;
use crate::protocols::Protocol;
use crate::types::{KuzzleRequest, QueryOptions};
use vstd::prelude::*;

verus! {

/// The document operations. Each takes the facade it dispatches through as an
/// explicit argument.
pub struct DocumentController;

impl DocumentController {
    /// Dispatches the document creation operation, discarding the reply: the caller
    /// observes only that the call completed.
    pub fn create<P: Protocol>(k: &Kuzzle<P>, options: QueryOptions) {
        let req = KuzzleRequest::new("document", "create");
        let _ = k.query(req, options);
    }
}

} // verus!
