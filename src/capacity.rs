use vstd::layout::size_of;
use vstd::prelude::*;

verus! {

/// Whether a value of type `V` fits into an inline buffer of `capacity` bytes.
pub open spec fn fits<V>(capacity: nat) -> bool {
    size_of::<V>() <= capacity
}

} // verus!
