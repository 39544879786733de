use awos::storage::allocation::{
    validate_disjoint_allocations, AllocationPairError, AllocationRecordError, AllocationRecordV1,
    ExtentError, ExtentV1,
};
use awos::storage::{BlockAddress, ObjectId, OBJECT_ID_BYTES};

fn allocation_a() -> ObjectId {
    ObjectId::new([0x11; OBJECT_ID_BYTES])
}

fn allocation_b() -> ObjectId {
    ObjectId::new([0x22; OBJECT_ID_BYTES])
}

fn owner_a() -> ObjectId {
    ObjectId::new([0xA1; OBJECT_ID_BYTES])
}

fn owner_b() -> ObjectId {
    ObjectId::new([0xB2; OBJECT_ID_BYTES])
}

fn record(id: ObjectId, owner: ObjectId, start: u64, count: u64) -> AllocationRecordV1 {
    AllocationRecordV1::new(id, owner, 7, ExtentV1::new(BlockAddress::new(start), count))
}

#[test]
fn allocation_rejects_reserved_block_zero() {
    let allocation = record(allocation_a(), owner_a(), 0, 1);
    assert_eq!(
        allocation.validate_structure(),
        Err(AllocationRecordError::InvalidExtent(
            ExtentError::ReservedBlockZero
        ))
    );
}

#[test]
fn allocation_rejects_empty_extent() {
    let allocation = record(allocation_a(), owner_a(), 10, 0);
    assert_eq!(
        allocation.validate_structure(),
        Err(AllocationRecordError::InvalidExtent(
            ExtentError::EmptyExtent
        ))
    );
}

#[test]
fn allocation_rejects_address_overflow() {
    let allocation = record(allocation_a(), owner_a(), u64::MAX, 1);
    assert_eq!(
        allocation.validate_structure(),
        Err(AllocationRecordError::InvalidExtent(
            ExtentError::AddressOverflow
        ))
    );
}

#[test]
fn allocation_detects_overlap() {
    let first = record(allocation_a(), owner_a(), 100, 8);
    let second = record(allocation_b(), owner_b(), 107, 4);
    assert_eq!(
        validate_disjoint_allocations(&first, &second),
        Err(AllocationPairError::Overlap)
    );
}

#[test]
fn allocation_accepts_adjacent_extents() {
    let first = record(allocation_a(), owner_a(), 100, 8);
    let second = record(allocation_b(), owner_b(), 108, 4);
    assert_eq!(validate_disjoint_allocations(&first, &second), Ok(()));
}

#[test]
fn allocation_requires_owner_and_generation() {
    let missing_owner = record(allocation_a(), ObjectId::zero(), 100, 8);
    assert_eq!(
        missing_owner.validate_structure(),
        Err(AllocationRecordError::MissingOwner)
    );

    let invalid_generation = AllocationRecordV1 {
        generation: 0,
        ..record(allocation_a(), owner_a(), 100, 8)
    };
    assert_eq!(
        invalid_generation.validate_structure(),
        Err(AllocationRecordError::InvalidGeneration)
    );
}

#[test]
fn disjointness_verdict_does_not_depend_on_argument_order() {
    let first = record(allocation_a(), owner_a(), 100, 8);
    let overlapping = record(allocation_b(), owner_b(), 107, 4);
    let adjacent = record(allocation_b(), owner_b(), 108, 4);
    assert_eq!(
        validate_disjoint_allocations(&overlapping, &first),
        Err(AllocationPairError::Overlap)
    );
    assert_eq!(
        validate_disjoint_allocations(&first, &overlapping),
        Err(AllocationPairError::Overlap)
    );
    assert_eq!(validate_disjoint_allocations(&adjacent, &first), Ok(()));
    assert_eq!(validate_disjoint_allocations(&first, &adjacent), Ok(()));
}
