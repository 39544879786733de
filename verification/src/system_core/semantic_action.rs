//! Native semantic action bits.

use vstd::prelude::*;

verus! {

/// Move semantic focus to the object.
pub const FOCUS: u64 = 1;
/// Invoke/activate the object.
pub const INVOKE: u64 = 2;
/// Set the object's value.
pub const SET_VALUE: u64 = 4;
/// Toggle state.
pub const TOGGLE: u64 = 8;
/// Select the object.
pub const SELECT: u64 = 16;
/// Expand the object.
pub const EXPAND: u64 = 32;
/// Collapse the object.
pub const COLLAPSE: u64 = 64;
/// Perform semantic movement/navigation.
pub const MOVE: u64 = 128;

} // verus!
