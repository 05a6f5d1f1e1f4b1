//! The memory storage operations.

use vstd::prelude::*;

verus! {

/// The memory storage operations: none is part of this design's scope;
/// the type keeps the facade's controller surface complete.
pub struct MemoryStorageController;

} // verus!
