//! Bindings that give way to later bindings of the same name.

use vstd::prelude::*;

verus! {

/// Binds a name to `start`, then binds the same name anew to one more than
/// it held. The later binding is the one that is handed back.
pub fn shadowed(start: i32) -> (z: i32)
    requires
        start < i32::MAX,
    ensures
        z == start + 1,
{
    let z: i32 = start;
    let z: i32 = z + 1;
    z
}

} // verus!
