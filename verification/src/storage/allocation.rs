//! Block extents and allocation records.

use vstd::prelude::*;
use crate::storage::{BlockAddress, ObjectId};

verus! {

#[derive(Clone, Copy, Debug, PartialEq, Eq, Structural)]
pub enum ExtentError {
    ReservedBlockZero,
    EmptyExtent,
    AddressOverflow,
}

/// A run of blocks starting at `start`.
#[derive(Clone, Copy, Debug, PartialEq, Eq, Structural)]
pub struct ExtentV1 {
    pub start: BlockAddress,
    pub block_count: u64,
}

/// Why an extent is malformed, if it is.
pub open spec fn spec_extent_error(e: ExtentV1) -> Option<ExtentError> {
    if e.start.spec_index() == 0 {
        Some(ExtentError::ReservedBlockZero)
    } else if e.block_count == 0 {
        Some(ExtentError::EmptyExtent)
    } else if e.start.spec_index() + e.block_count > u64::MAX {
        Some(ExtentError::AddressOverflow)
    } else {
        None
    }
}

impl ExtentV1 {
    pub fn new(start: BlockAddress, block_count: u64) -> (r: Self)
        ensures
            r == (ExtentV1 { start, block_count }),
    {
        Self { start, block_count }
    }

    pub fn end_exclusive(self) -> (r: Result<u64, ExtentError>)
        ensures
            match r {
                Ok(end) => spec_extent_error(self) is None && end == self.start.spec_index()
                    + self.block_count,
                Err(e) => spec_extent_error(self) == Some(e),
            },
    {
        if self.start.index() == 0 {
            return Err(ExtentError::ReservedBlockZero);
        }
        if self.block_count == 0 {
            return Err(ExtentError::EmptyExtent);
        }
        match self.start.index().checked_add(self.block_count) {
            Some(end) => Ok(end),
            None => Err(ExtentError::AddressOverflow),
        }
    }

    pub fn validate_structure(self) -> (r: Result<(), ExtentError>)
        ensures
            match r {
                Ok(()) => spec_extent_error(self) is None,
                Err(e) => spec_extent_error(self) == Some(e),
            },
    {
        match self.end_exclusive() {
            Ok(_) => Ok(()),
            Err(e) => Err(e),
        }
    }

    /// Whether two well-formed extents share a block.
    pub fn overlaps(self, other: Self) -> (r: Result<bool, ExtentError>)
        ensures
            spec_extent_error(self) is Some ==> r == Err::<bool, _>(spec_extent_error(self)->0),
            spec_extent_error(self) is None && spec_extent_error(other) is Some ==> r == Err::<bool, _>(
                spec_extent_error(other)->0,
            ),
            spec_extent_error(self) is None && spec_extent_error(other) is None ==> r == Ok::<bool, ExtentError>(
                self.start.spec_index() < other.start.spec_index() + other.block_count
                    && other.start.spec_index() < self.start.spec_index() + self.block_count,
            ),
    {
        let self_end = match self.end_exclusive() {
            Ok(e) => e,
            Err(e) => return Err(e),
        };
        let other_end = match other.end_exclusive() {
            Ok(e) => e,
            Err(e) => return Err(e),
        };
        Ok(self.start.index() < other_end && other.start.index() < self_end)
    }
}

#[derive(Clone, Copy, Debug, PartialEq, Eq, Structural)]
pub enum AllocationRecordError {
    MissingAllocationId,
    MissingOwner,
    InvalidGeneration,
    ReservedFieldsSet,
    InvalidExtent(ExtentError),
}

/// One allocation of blocks to an owner.
#[derive(Clone, Copy, Debug, PartialEq, Eq)]
pub struct AllocationRecordV1 {
    pub allocation_id: ObjectId,
    pub owner: ObjectId,
    pub generation: u64,
    pub extent: ExtentV1,
    pub flags: u32,
    pub reserved: u32,
}

/// Why an allocation record is malformed, if it is.
pub open spec fn spec_allocation_error(a: AllocationRecordV1) -> Option<AllocationRecordError> {
    if a.allocation_id.spec_is_zero() {
        Some(AllocationRecordError::MissingAllocationId)
    } else if a.owner.spec_is_zero() {
        Some(AllocationRecordError::MissingOwner)
    } else if a.generation == 0 {
        Some(AllocationRecordError::InvalidGeneration)
    } else if a.flags != 0 || a.reserved != 0 {
        Some(AllocationRecordError::ReservedFieldsSet)
    } else {
        match spec_extent_error(a.extent) {
            Some(e) => Some(AllocationRecordError::InvalidExtent(e)),
            None => None,
        }
    }
}

impl AllocationRecordV1 {
    pub fn new(allocation_id: ObjectId, owner: ObjectId, generation: u64, extent: ExtentV1) -> (r: Self)
        ensures
            r == (AllocationRecordV1 { allocation_id, owner, generation, extent, flags: 0, reserved: 0 }),
    {
        Self { allocation_id, owner, generation, extent, flags: 0, reserved: 0 }
    }

    pub fn validate_structure(&self) -> (r: Result<(), AllocationRecordError>)
        ensures
            match r {
                Ok(()) => spec_allocation_error(*self) is None,
                Err(e) => spec_allocation_error(*self) == Some(e),
            },
    {
        if self.allocation_id.is_zero() {
            return Err(AllocationRecordError::MissingAllocationId);
        }
        if self.owner.is_zero() {
            return Err(AllocationRecordError::MissingOwner);
        }
        if self.generation == 0 {
            return Err(AllocationRecordError::InvalidGeneration);
        }
        if self.flags != 0 || self.reserved != 0 {
            return Err(AllocationRecordError::ReservedFieldsSet);
        }
        match self.extent.validate_structure() {
            Ok(()) => Ok(()),
            Err(e) => Err(AllocationRecordError::InvalidExtent(e)),
        }
    }
}

#[derive(Clone, Copy, Debug, PartialEq, Eq, Structural)]
pub enum AllocationPairError {
    FirstInvalid(AllocationRecordError),
    SecondInvalid(AllocationRecordError),
    Overlap,
}

/// Whether the block ranges of two allocations share a block.
pub open spec fn spec_blocks_intersect(a: AllocationRecordV1, b: AllocationRecordV1) -> bool {
    &&& a.extent.start.spec_index() < b.extent.start.spec_index() + b.extent.block_count
    &&& b.extent.start.spec_index() < a.extent.start.spec_index() + a.extent.block_count
}

/// The verdict on a pair of allocations: the first one's error, then the
/// second one's, then whether their blocks intersect.
pub open spec fn spec_pair_verdict(first: AllocationRecordV1, second: AllocationRecordV1) -> Result<
    (),
    AllocationPairError,
> {
    match spec_allocation_error(first) {
        Some(e) => Err(AllocationPairError::FirstInvalid(e)),
        None => match spec_allocation_error(second) {
            Some(e) => Err(AllocationPairError::SecondInvalid(e)),
            None => if spec_blocks_intersect(first, second) {
                Err(AllocationPairError::Overlap)
            } else {
                Ok(())
            },
        },
    }
}

/// For two well-formed allocations the verdict does not depend on which is
/// named first.
pub proof fn lemma_pair_verdict_is_symmetric(a: AllocationRecordV1, b: AllocationRecordV1)
    requires
        spec_allocation_error(a) is None,
        spec_allocation_error(b) is None,
    ensures
        spec_pair_verdict(a, b) == spec_pair_verdict(b, a),
{
}

/// Whether block `x` belongs to an allocation's extent.
pub open spec fn holds_block(a: AllocationRecordV1, x: int) -> bool {
    a.extent.start.spec_index() <= x < a.extent.start.spec_index() + a.extent.block_count
}

/// Two well-formed allocations are accepted exactly when no block belongs to
/// both: any shared block gives `Overlap`, and acceptance means every block
/// belongs to at most one of them.
pub proof fn lemma_pair_verdict_is_block_disjointness(a: AllocationRecordV1, b: AllocationRecordV1)
    requires
        spec_allocation_error(a) is None,
        spec_allocation_error(b) is None,
    ensures
        (exists|x: int| holds_block(a, x) && holds_block(b, x)) ==> spec_pair_verdict(a, b) == Err::<
            (),
            AllocationPairError,
        >(AllocationPairError::Overlap),
        spec_pair_verdict(a, b) is Ok ==> forall|x: int| !(holds_block(a, x) && #[trigger] holds_block(b, x)),
        spec_pair_verdict(a, b) is Ok || spec_pair_verdict(a, b) == Err::<(), AllocationPairError>(
            AllocationPairError::Overlap,
        ),
{
    if !spec_blocks_intersect(a, b) {
        assert forall|x: int| !(holds_block(a, x) && #[trigger] holds_block(b, x)) by {}
    } else {
        let x = if a.extent.start.spec_index() < b.extent.start.spec_index() {
            b.extent.start.spec_index() as int
        } else {
            a.extent.start.spec_index() as int
        };
        assert(holds_block(a, x) && holds_block(b, x));
    }
}

/// Accepts two allocations only when both are well formed and share no block.
pub fn validate_disjoint_allocations(first: &AllocationRecordV1, second: &AllocationRecordV1) -> (r: Result<
    (),
    AllocationPairError,
>)
    ensures
        r == spec_pair_verdict(*first, *second),
{
    match first.validate_structure() {
        Ok(()) => {},
        Err(e) => return Err(AllocationPairError::FirstInvalid(e)),
    }
    match second.validate_structure() {
        Ok(()) => {},
        Err(e) => return Err(AllocationPairError::SecondInvalid(e)),
    }
    match first.extent.overlaps(second.extent) {
        Ok(true) => Err(AllocationPairError::Overlap),
        Ok(false) => Ok(()),
        Err(e) => Err(AllocationPairError::FirstInvalid(AllocationRecordError::InvalidExtent(e))),
    }
}

/// Overlap of extents is symmetric.
pub proof fn lemma_overlap_is_symmetric(a: ExtentV1, b: ExtentV1)
    ensures
        (a.start.spec_index() < b.start.spec_index() + b.block_count && b.start.spec_index()
            < a.start.spec_index() + a.block_count) == (b.start.spec_index() < a.start.spec_index()
            + a.block_count && a.start.spec_index() < b.start.spec_index() + b.block_count),
{
}

} // verus!
