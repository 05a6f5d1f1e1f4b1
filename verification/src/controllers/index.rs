//! The index operations.

use vstd::prelude::*;

verus! {

/// The index operations: none is part of this design's scope; the type
/// keeps the facade's controller surface complete.
pub struct IndexController;

} // verus!
