//! Native semantic state bits.

use vstd::prelude::*;

verus! {

/// Object can currently be interacted with.
pub const ENABLED: u64 = 1;
/// Object owns semantic focus.
pub const FOCUSED: u64 = 2;
/// Object is selected.
pub const SELECTED: u64 = 4;
/// Object is expanded.
pub const EXPANDED: u64 = 8;
/// Object is busy updating.
pub const BUSY: u64 = 16;
/// Value is read-only.
pub const READ_ONLY: u64 = 32;
/// Input/value is required.
pub const REQUIRED: u64 = 64;
/// Content is sensitive and requires protected presentation.
pub const SENSITIVE: u64 = 128;

} // verus!
