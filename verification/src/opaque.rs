//! The marker that borrowed types are built around.

use vstd::prelude::*;

verus! {

/// What stands for the contents of a foreign resource: nothing that this side
/// can see.
///
/// A borrowed type carries this marker to say that it is a view of memory
/// which someone else manages and may change, also behind a shared view. The
/// marker holds no data, has no operations, and no value of it is ever made:
/// it is used as a type only.
pub struct Opaque {
    sealed: (),
}

} // verus!
