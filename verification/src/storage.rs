//! Crash-consistent storage anchors: superblocks, transactions and publication.

pub mod allocation;

use vstd::prelude::*;

verus! {

pub const STORAGE_MAGIC: u64 = 0x4157_5354_4F52_4531;
pub const STORAGE_FORMAT_VERSION: u32 = 1;
pub const LOGICAL_BLOCK_SIZE: u32 = 4096;
pub const OBJECT_ID_BYTES: usize = 32;
/// Size in bytes of the C layout of `SuperblockV1`.
pub const SUPERBLOCK_SIZE: u32 = 80;

/// A 32-byte object identity; all zero means "none".
#[derive(Clone, Copy, Debug, PartialEq, Eq)]
pub struct ObjectId([u8; OBJECT_ID_BYTES]);

impl ObjectId {
    /// The all-zero identity, meaning "none".
    pub fn zero() -> (r: Self)
        ensures
            r.spec_is_zero(),
            r.spec_bytes().len() == OBJECT_ID_BYTES,
    {
        let r = Self([0u8; 32]);
        assert(r.spec_is_zero());
        r
    }

    /// The identity bytes.
    pub closed spec fn spec_bytes(self) -> Seq<u8> {
        self.0@
    }

    /// True when every byte is zero.
    pub open spec fn spec_is_zero(self) -> bool {
        forall|i: int| 0 <= i < self.spec_bytes().len() ==> self.spec_bytes()[i] == 0
    }

    pub fn new(bytes: [u8; OBJECT_ID_BYTES]) -> (r: Self)
        ensures
            r.spec_bytes() == bytes@,
    {
        Self(bytes)
    }

    pub fn is_zero(self) -> (r: bool)
        ensures
            r == self.spec_is_zero(),
    {
        let mut i: usize = 0;
        while i < OBJECT_ID_BYTES
            invariant
                i <= OBJECT_ID_BYTES,
                self.0@.len() == OBJECT_ID_BYTES,
                forall|j: int| 0 <= j < i ==> self.0@[j] == 0,
            decreases OBJECT_ID_BYTES - i,
        {
            if self.0[i] != 0 {
                assert(self.spec_bytes()[i as int] != 0);
                return false;
            }
            i = i + 1;
        }
        true
    }

    pub fn bytes(self) -> (r: [u8; OBJECT_ID_BYTES])
        ensures
            r@ == self.spec_bytes(),
    {
        self.0
    }
}

impl Default for ObjectId {
    fn default() -> (r: Self)
        ensures
            r.spec_is_zero(),
    {
        let r = Self([0u8; 32]);
        assert(r.spec_is_zero());
        r
    }
}

/// Index of a logical storage block.
#[derive(Clone, Copy, Debug, PartialEq, Eq, Structural)]
pub struct BlockAddress(u64);

impl BlockAddress {
    /// Block zero.
    pub fn zero() -> (r: Self)
        ensures
            r.spec_index() == 0,
    {
        Self(0)
    }

    pub closed spec fn spec_index(self) -> u64 {
        self.0
    }

    pub fn new(index: u64) -> (r: Self)
        ensures
            r.spec_index() == index,
    {
        Self(index)
    }

    pub fn index(self) -> (r: u64)
        ensures
            r == self.spec_index(),
    {
        self.0
    }

    /// Byte offset of the block, if it is representable.
    pub fn byte_offset(self) -> (r: Option<u64>)
        ensures
            r is Some <==> self.spec_index() * LOGICAL_BLOCK_SIZE <= u64::MAX,
            r matches Some(o) ==> o == self.spec_index() * LOGICAL_BLOCK_SIZE,
    {
        self.0.checked_mul(LOGICAL_BLOCK_SIZE as u64)
    }
}

impl Default for BlockAddress {
    fn default() -> (r: Self)
        ensures
            r.spec_index() == 0,
    {
        Self(0)
    }
}

#[derive(Clone, Copy, Debug, PartialEq, Eq, Structural)]
pub enum SuperblockError {
    BadMagic,
    UnsupportedVersion,
    BadStructureSize,
    BadBlockSize,
    InvalidGeneration,
    MissingCommittedRoot,
    MissingIntegrityRoot,
}

/// The committed storage anchor.
#[derive(Clone, Copy, Debug, PartialEq, Eq)]
pub struct SuperblockV1 {
    pub magic: u64,
    pub format_version: u32,
    pub struct_size: u32,
    pub logical_block_size: u32,
    pub flags: u32,
    pub generation: u64,
    pub committed_root: BlockAddress,
    pub previous_root: BlockAddress,
    pub integrity_root: ObjectId,
}

/// Why a superblock is structurally invalid, if it is.
pub open spec fn spec_superblock_error(s: SuperblockV1) -> Option<SuperblockError> {
    if s.magic != STORAGE_MAGIC {
        Some(SuperblockError::BadMagic)
    } else if s.format_version != STORAGE_FORMAT_VERSION {
        Some(SuperblockError::UnsupportedVersion)
    } else if s.struct_size != SUPERBLOCK_SIZE || s.flags != 0 {
        Some(SuperblockError::BadStructureSize)
    } else if s.logical_block_size != LOGICAL_BLOCK_SIZE {
        Some(SuperblockError::BadBlockSize)
    } else if s.generation == 0 {
        Some(SuperblockError::InvalidGeneration)
    } else if s.committed_root.spec_index() == 0 {
        Some(SuperblockError::MissingCommittedRoot)
    } else if s.integrity_root.spec_is_zero() {
        Some(SuperblockError::MissingIntegrityRoot)
    } else {
        None
    }
}

impl SuperblockV1 {
    pub fn new(
        generation: u64,
        committed_root: BlockAddress,
        previous_root: BlockAddress,
        integrity_root: ObjectId,
    ) -> (r: Self)
        ensures
            r == (SuperblockV1 {
                magic: STORAGE_MAGIC,
                format_version: STORAGE_FORMAT_VERSION,
                struct_size: SUPERBLOCK_SIZE,
                logical_block_size: LOGICAL_BLOCK_SIZE,
                flags: 0,
                generation,
                committed_root,
                previous_root,
                integrity_root,
            }),
    {
        Self {
            magic: STORAGE_MAGIC,
            format_version: STORAGE_FORMAT_VERSION,
            struct_size: SUPERBLOCK_SIZE,
            logical_block_size: LOGICAL_BLOCK_SIZE,
            flags: 0,
            generation,
            committed_root,
            previous_root,
            integrity_root,
        }
    }

    pub fn validate_structure(&self) -> (r: Result<(), SuperblockError>)
        ensures
            match r {
                Ok(()) => spec_superblock_error(*self) is None,
                Err(e) => spec_superblock_error(*self) == Some(e),
            },
    {
        if self.magic != STORAGE_MAGIC {
            return Err(SuperblockError::BadMagic);
        }
        if self.format_version != STORAGE_FORMAT_VERSION {
            return Err(SuperblockError::UnsupportedVersion);
        }
        if self.struct_size != SUPERBLOCK_SIZE || self.flags != 0 {
            return Err(SuperblockError::BadStructureSize);
        }
        if self.logical_block_size != LOGICAL_BLOCK_SIZE {
            return Err(SuperblockError::BadBlockSize);
        }
        if self.generation == 0 {
            return Err(SuperblockError::InvalidGeneration);
        }
        if self.committed_root.index() == 0 {
            return Err(SuperblockError::MissingCommittedRoot);
        }
        if self.integrity_root.is_zero() {
            return Err(SuperblockError::MissingIntegrityRoot);
        }
        Ok(())
    }
}

/// Chooses the anchor to recover from: the newer of the structurally valid
/// copies, the first one on a tie, or none when both are invalid.
pub fn newest_structurally_valid<'a>(a: &'a SuperblockV1, b: &'a SuperblockV1) -> (r: Option<&'a SuperblockV1>)
    ensures
        ({
            let a_valid = spec_superblock_error(*a) is None;
            let b_valid = spec_superblock_error(*b) is None;
            &&& !a_valid && !b_valid ==> r is None
            &&& a_valid && !b_valid ==> r == Some(a)
            &&& !a_valid && b_valid ==> r == Some(b)
            &&& a_valid && b_valid ==> r == if b.generation > a.generation {
                Some(b)
            } else {
                Some(a)
            }
        }),
{
    let a_valid = a.validate_structure().is_ok();
    let b_valid = b.validate_structure().is_ok();
    if !a_valid && !b_valid {
        None
    } else if a_valid && !b_valid {
        Some(a)
    } else if !a_valid && b_valid {
        Some(b)
    } else if b.generation > a.generation {
        Some(b)
    } else {
        Some(a)
    }
}

#[derive(Clone, Copy, Debug, PartialEq, Eq, Structural)]
pub enum TransactionPhase {
    Prepared,
    Committed,
    Aborted,
}

/// A storage transaction that moves the anchor from one generation to the next.
#[derive(Clone, Copy, Debug, PartialEq, Eq)]
pub struct TransactionRecordV1 {
    pub transaction_id: ObjectId,
    pub base_generation: u64,
    pub next_generation: u64,
    pub new_root: BlockAddress,
    pub new_integrity_root: ObjectId,
    pub phase: TransactionPhase,
    pub reserved: u32,
}

impl TransactionRecordV1 {
    /// A transaction is well formed when it names itself, advances the
    /// generation by exactly one, and points at a real root.
    pub open spec fn spec_is_structurally_valid(&self) -> bool {
        &&& !self.transaction_id.spec_is_zero()
        &&& self.base_generation != u64::MAX
        &&& self.next_generation == self.base_generation + 1
        &&& self.new_root.spec_index() != 0
        &&& !self.new_integrity_root.spec_is_zero()
        &&& self.reserved == 0
    }

    pub fn is_structurally_valid(&self) -> (r: bool)
        ensures
            r == self.spec_is_structurally_valid(),
    {
        let next_ok = if self.base_generation == u64::MAX {
            self.next_generation == u64::MAX
        } else {
            self.next_generation == self.base_generation + 1
        };
        !self.transaction_id.is_zero() && next_ok && self.base_generation != u64::MAX
            && self.new_root.index() != 0 && !self.new_integrity_root.is_zero() && self.reserved == 0
    }
}

#[derive(Clone, Copy, Debug, PartialEq, Eq, Structural)]
pub enum PublicationError {
    CurrentAnchorInvalid(SuperblockError),
    InvalidTransaction,
    TransactionNotPrepared,
    GenerationMismatch,
}

/// Why a transaction cannot be published over an anchor, if it cannot.
pub open spec fn spec_publication_error(current: SuperblockV1, t: TransactionRecordV1) -> Option<PublicationError> {
    match spec_superblock_error(current) {
        Some(e) => Some(PublicationError::CurrentAnchorInvalid(e)),
        None => if !t.spec_is_structurally_valid() {
            Some(PublicationError::InvalidTransaction)
        } else if t.phase != TransactionPhase::Prepared {
            Some(PublicationError::TransactionNotPrepared)
        } else if current.generation == u64::MAX || t.base_generation != current.generation
            || t.next_generation != current.generation + 1 {
            Some(PublicationError::GenerationMismatch)
        } else {
            None
        },
    }
}

/// Builds the next anchor from the current one and a prepared transaction.
/// The previous committed root is kept as the known-good fallback.
pub fn prepare_publication(current: &SuperblockV1, transaction: &TransactionRecordV1) -> (r: Result<
    SuperblockV1,
    PublicationError,
>)
    ensures
        match r {
            Ok(next) => spec_publication_error(*current, *transaction) is None && next
                == SuperblockV1 {
                magic: STORAGE_MAGIC,
                format_version: STORAGE_FORMAT_VERSION,
                struct_size: SUPERBLOCK_SIZE,
                logical_block_size: LOGICAL_BLOCK_SIZE,
                flags: 0,
                generation: transaction.next_generation,
                committed_root: transaction.new_root,
                previous_root: current.committed_root,
                integrity_root: transaction.new_integrity_root,
            },
            Err(e) => spec_publication_error(*current, *transaction) == Some(e),
        },
{
    match current.validate_structure() {
        Ok(()) => {},
        Err(e) => return Err(PublicationError::CurrentAnchorInvalid(e)),
    }
    if !transaction.is_structurally_valid() {
        return Err(PublicationError::InvalidTransaction);
    }
    if transaction.phase != TransactionPhase::Prepared {
        return Err(PublicationError::TransactionNotPrepared);
    }
    if current.generation == u64::MAX {
        return Err(PublicationError::GenerationMismatch);
    }
    let expected_next = current.generation + 1;
    if transaction.base_generation != current.generation || transaction.next_generation != expected_next {
        return Err(PublicationError::GenerationMismatch);
    }
    Ok(
        SuperblockV1::new(
            transaction.next_generation,
            transaction.new_root,
            current.committed_root,
            transaction.new_integrity_root,
        ),
    )
}

/// A published anchor is itself structurally valid and strictly newer, so
/// recovery after the write prefers it, and before the write keeps the old one.
pub proof fn lemma_publication_is_valid_and_newer(current: SuperblockV1, t: TransactionRecordV1, next: SuperblockV1)
    requires
        spec_publication_error(current, t) is None,
        next == (SuperblockV1 {
            magic: STORAGE_MAGIC,
            format_version: STORAGE_FORMAT_VERSION,
            struct_size: SUPERBLOCK_SIZE,
            logical_block_size: LOGICAL_BLOCK_SIZE,
            flags: 0,
            generation: t.next_generation,
            committed_root: t.new_root,
            previous_root: current.committed_root,
            integrity_root: t.new_integrity_root,
        }),
    ensures
        spec_superblock_error(next) is None,
        next.generation == current.generation + 1,
        next.previous_root == current.committed_root,
{
}

} // verus!
