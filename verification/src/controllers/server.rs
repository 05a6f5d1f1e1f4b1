//! The server information operations.

use vstd::prelude::*;

verus! {

/// The server information operations: none is part of this design's scope;
/// the type keeps the facade's controller surface complete.
pub struct ServerController;

} // verus!
