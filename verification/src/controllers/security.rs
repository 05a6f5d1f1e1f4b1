//! The security operations.

use crate::kuzzle::Kuzzle;
use crate::protocols::Protocol;
use crate::types::{KuzzleRequest, QueryOptions};
use vstd::prelude::*;

verus! {

/// The security operations. Each takes the facade it dispatches through as an
/// explicit argument.
pub struct SecurityController;

impl SecurityController {
    /// Dispatches the security credential operation, discarding the reply: the caller
    /// observes only that the call completed.
    pub fn create_credentials<P: Protocol>(k: &Kuzzle<P>, options: QueryOptions) {
        let req = KuzzleRequest::new("security", "createCredentials");
        let _ = k.query(req, options);
    }
}

} // verus!
