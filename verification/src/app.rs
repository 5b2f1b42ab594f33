use vstd::prelude::*;

verus! {

/// Advances the interface by one turn of the event loop. The interface has
/// no state to advance yet, so a turn changes nothing.
pub fn update() {
}

} // verus!
