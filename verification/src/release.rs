//! What is owed to the automation runtime when a value goes out of use.

use vstd::prelude::*;

verus! {

/// The foreign release that the holder of a value has to make when the value
/// goes out of scope. Whoever drives the runtime makes the call once and
/// discards its status: there is nobody left to report it to.
#[derive(Debug, Clone, Copy, PartialEq, Eq, Hash, Structural)]
pub enum Release {
    /// Nothing is owned: no call is made.
    Nothing,
    /// The value record still owns its payload: it is cleared.
    ClearVariant,
    /// The array memory behind this handle is owned: it is destroyed.
    DestroyArray(usize),
}

} // verus!
