//! Per-chunk Merkle verification of AWStoreFS objects: a proof names the
//! siblings on a leaf's path, and a chunk is accepted only when that path
//! recomputes the object's root digest.

use vstd::prelude::*;
use crate::fs_core::Digest;
use crate::storefs::{AWSTOREFS_BLOCK_BYTES, ObjectDescriptor, ReadWindow, spec_min};

verus! {

/// The hash functions of a Merkle tree, supplied by a cryptographic layer.
///
/// Each implementation defines `spec_hash_leaf` and `spec_hash_parent`: its
/// hashes are functions of the hasher and their arguments.
pub trait MerkleHasher {
    /// The leaf digest of chunk `leaf_index` holding `bytes`. An implementation
    /// that does not define it has some fixed, unstated digest.
    open spec fn spec_hash_leaf(&self, leaf_index: u64, valid_bytes: u32, bytes: Seq<u8>) -> Digest {
        arbitrary()
    }

    /// The digest of a node of `level` over its two children. An implementation
    /// that does not define it has some fixed, unstated digest.
    open spec fn spec_hash_parent(&self, level: u32, left: Digest, right: Digest) -> Digest {
        arbitrary()
    }

    /// Hashes one logical object chunk with explicit position and logical length domain separation.
    fn hash_leaf(&self, leaf_index: u64, valid_bytes: u32, bytes: &[u8]) -> (r: Digest)
        ensures
            r == self.spec_hash_leaf(leaf_index, valid_bytes, bytes@),
    ;

    /// Hashes an internal node with explicit level domain separation.
    fn hash_parent(&self, level: u32, left: Digest, right: Digest) -> (r: Digest)
        ensures
            r == self.spec_hash_parent(level, left, right),
    ;
}

#[allow(inconsistent_fields)]
#[derive(Clone, Copy, Debug, PartialEq, Eq, Structural)]
pub enum MerkleProofError {
    ZeroLeafCount,
    LeafOutOfRange,
    DepthMismatch { expected: usize, actual: usize },
    MissingSibling { level: usize },
    UnexpectedSibling { level: usize },
    TrailingSibling { level: usize },
    ObjectShapeMismatch,
    ChunkLengthMismatch { expected: u32, actual: usize },
    RootMismatch,
}

/// Half of `n`, rounded up.
pub open spec fn spec_half_up(n: int) -> int {
    n / 2 + n % 2
}

/// Levels above `leaf_count` leaves, each level halving (rounding up) until
/// one node is left.
pub open spec fn spec_required_depth(leaf_count: int) -> nat
    decreases leaf_count,
{
    if leaf_count <= 1 {
        0
    } else {
        1 + spec_required_depth(spec_half_up(leaf_count))
    }
}

proof fn lemma_required_depth_bound(leaf_count: int, k: nat)
    requires
        1 <= leaf_count,
        leaf_count <= vstd::arithmetic::power2::pow2(k),
    ensures
        spec_required_depth(leaf_count) <= k,
    decreases k,
{
    vstd::arithmetic::power2::lemma_pow2_pos(k);
    if leaf_count > 1 {
        if k == 0 {
            vstd::arithmetic::power2::lemma2_to64();
        } else {
            vstd::arithmetic::power2::lemma_pow2_unfold(k);
            lemma_required_depth_bound(spec_half_up(leaf_count), (k - 1) as nat);
        }
    }
}

/// The depth of a tree with `leaf_count` leaves.
pub fn required_depth(leaf_count: u64) -> (r: usize)
    ensures
        r == spec_required_depth(leaf_count as int),
        r <= 64,
{
    proof {
        vstd::arithmetic::power2::lemma2_to64();
        lemma_required_depth_bound(if leaf_count == 0 { 1 } else { leaf_count as int }, 64);
    }
    let mut n = leaf_count;
    let mut depth: usize = 0;
    while n > 1
        invariant
            depth + spec_required_depth(n as int) == spec_required_depth(leaf_count as int),
            spec_required_depth(leaf_count as int) <= 64,
        decreases n,
    {
        n = n / 2 + n % 2;
        depth = depth + 1;
    }
    depth
}

/// Checks the siblings of levels `level..depth` for the node `index` of a
/// level with `nodes` nodes: a sibling is required exactly when the node has
/// one (it is a right child, or a left child that is not last).
pub open spec fn spec_sibling_error(siblings: Seq<Option<Digest>>, level: int, depth: int, index: int, nodes: int) -> Option<
    MerkleProofError,
>
    decreases depth - level,
{
    if level < 0 || level >= depth {
        None
    } else {
        let required = index % 2 == 1 || index + 1 < nodes;
        if required && siblings[level] is None {
            Some(MerkleProofError::MissingSibling { level: level as usize })
        } else if !required && siblings[level] is Some {
            Some(MerkleProofError::UnexpectedSibling { level: level as usize })
        } else {
            spec_sibling_error(siblings, level + 1, depth, index / 2, spec_half_up(nodes))
        }
    }
}

/// The first level at or after `from` that holds a sibling.
pub open spec fn spec_first_present(siblings: Seq<Option<Digest>>, from: int) -> Option<int>
    decreases siblings.len() - from,
{
    if from < 0 || from >= siblings.len() {
        None
    } else if siblings[from] is Some {
        Some(from)
    } else {
        spec_first_present(siblings, from + 1)
    }
}

/// Why `MerkleProof::new` refuses these arguments, if it does.
pub open spec fn spec_proof_error(leaf_index: u64, leaf_count: u64, siblings: Seq<Option<Digest>>, depth: usize) -> Option<
    MerkleProofError,
> {
    let expected = spec_required_depth(leaf_count as int);
    if leaf_count == 0 {
        Some(MerkleProofError::ZeroLeafCount)
    } else if leaf_index >= leaf_count {
        Some(MerkleProofError::LeafOutOfRange)
    } else if depth != expected || depth > siblings.len() {
        Some(MerkleProofError::DepthMismatch { expected: expected as usize, actual: depth })
    } else {
        match spec_sibling_error(siblings, 0, depth as int, leaf_index as int, leaf_count as int) {
            Some(e) => Some(e),
            None => match spec_first_present(siblings, depth as int) {
                Some(level) => Some(MerkleProofError::TrailingSibling { level: level as usize }),
                None => None,
            },
        }
    }
}

/// The path of one leaf to the root: its siblings, level by level, in the
/// canonical shape where an odd last node is paired with itself.
pub struct MerkleProof<const MAX_DEPTH: usize> {
    leaf_index: u64,
    leaf_count: u64,
    siblings: [Option<Digest>; MAX_DEPTH],
    depth: usize,
}

impl<const MAX_DEPTH: usize> MerkleProof<MAX_DEPTH> {
    pub closed spec fn spec_leaf_index(&self) -> u64 {
        self.leaf_index
    }

    pub closed spec fn spec_leaf_count(&self) -> u64 {
        self.leaf_count
    }

    pub closed spec fn spec_siblings(&self) -> Seq<Option<Digest>> {
        self.siblings@
    }

    pub closed spec fn spec_depth(&self) -> usize {
        self.depth
    }

    #[verifier::type_invariant]
    closed spec fn canonical(&self) -> bool {
        spec_proof_error(self.leaf_index, self.leaf_count, self.siblings@, self.depth) is None
    }

    pub fn new(leaf_index: u64, leaf_count: u64, siblings: [Option<Digest>; MAX_DEPTH], depth: usize) -> (r:
        Result<Self, MerkleProofError>)
        ensures
            match r {
                Ok(p) => spec_proof_error(leaf_index, leaf_count, siblings@, depth) is None
                    && p.spec_leaf_index() == leaf_index && p.spec_leaf_count() == leaf_count
                    && p.spec_siblings() == siblings@ && p.spec_depth() == depth,
                Err(e) => spec_proof_error(leaf_index, leaf_count, siblings@, depth) == Some(e),
            },
    {
        if leaf_count == 0 {
            return Err(MerkleProofError::ZeroLeafCount);
        }
        if leaf_index >= leaf_count {
            return Err(MerkleProofError::LeafOutOfRange);
        }
        let expected_depth = required_depth(leaf_count);
        if depth != expected_depth || depth > MAX_DEPTH {
            return Err(MerkleProofError::DepthMismatch { expected: expected_depth, actual: depth });
        }
        let mut index = leaf_index;
        let mut nodes = leaf_count;
        let mut level: usize = 0;
        while level < depth
            invariant
                level <= depth <= MAX_DEPTH,
                siblings@.len() == MAX_DEPTH,
                index < nodes,
                leaf_count != 0,
                leaf_index < leaf_count,
                depth == spec_required_depth(leaf_count as int),
                spec_sibling_error(siblings@, 0, depth as int, leaf_index as int, leaf_count as int)
                    == spec_sibling_error(siblings@, level as int, depth as int, index as int, nodes as int),
            decreases depth - level,
        {
            let required = index % 2 == 1 || index + 1 < nodes;
            if required && siblings[level].is_none() {
                return Err(MerkleProofError::MissingSibling { level });
            }
            if !required && siblings[level].is_some() {
                return Err(MerkleProofError::UnexpectedSibling { level });
            }
            index = index / 2;
            nodes = nodes / 2 + nodes % 2;
            level = level + 1;
        }
        let mut k: usize = depth;
        while k < MAX_DEPTH
            invariant
                depth <= k <= MAX_DEPTH,
                siblings@.len() == MAX_DEPTH,
                leaf_count != 0,
                leaf_index < leaf_count,
                depth == spec_required_depth(leaf_count as int),
                spec_sibling_error(siblings@, 0, depth as int, leaf_index as int, leaf_count as int) is None,
                spec_first_present(siblings@, depth as int) == spec_first_present(siblings@, k as int),
            decreases MAX_DEPTH - k,
        {
            if siblings[k].is_some() {
                return Err(MerkleProofError::TrailingSibling { level: k });
            }
            k = k + 1;
        }
        Ok(Self { leaf_index, leaf_count, siblings, depth })
    }

    pub fn leaf_index(&self) -> (r: u64)
        ensures
            r == self.spec_leaf_index(),
    {
        self.leaf_index
    }

    pub fn leaf_count(&self) -> (r: u64)
        ensures
            r == self.spec_leaf_count(),
    {
        self.leaf_count
    }

    pub fn depth(&self) -> (r: usize)
        ensures
            r == self.spec_depth(),
    {
        self.depth
    }
}

/// The children hashed into a node's parent, for the path node `index` of
/// `nodes` at its level: a right child goes after its sibling, a left child
/// before it, and a last odd node is paired with itself.
pub open spec fn spec_parent_inputs(index: u64, nodes: u64, current: Digest, sibling: Option<Digest>) -> (
    Digest,
    Digest,
) {
    if index % 2 == 1 {
        (sibling->Some_0, current)
    } else if index + 1 < nodes {
        (current, sibling->Some_0)
    } else {
        (current, current)
    }
}

/// The children hashed into the parent of path node `index` of `nodes`.
pub fn parent_inputs(index: u64, nodes: u64, current: Digest, sibling: Option<Digest>) -> (r: (
    Digest,
    Digest,
))
    requires
        index % 2 == 1 || index + 1 < nodes ==> sibling is Some,
    ensures
        r == spec_parent_inputs(index, nodes, current, sibling),
{
    if index % 2 == 1 {
        match sibling {
            Some(s) => (s, current),
            None => (current, current),
        }
    } else if index + 1 < nodes {
        match sibling {
            Some(s) => (current, s),
            None => (current, current),
        }
    } else {
        (current, current)
    }
}

/// The bytes of chunk `leaf_index` of an object of `logical_bytes` bytes.
pub open spec fn spec_chunk_len(logical_bytes: u64, leaf_index: u64) -> int {
    spec_min(logical_bytes - leaf_index * AWSTOREFS_BLOCK_BYTES, AWSTOREFS_BLOCK_BYTES as int)
}

/// Why a chunk cannot be checked against a descriptor and proof, if it cannot:
/// the proof must describe the object's shape and name one of its chunks, and
/// the bytes must be exactly that chunk's logical bytes.
pub open spec fn spec_chunk_shape_error<const MAX_DEPTH: usize>(
    descriptor: ObjectDescriptor,
    bytes: Seq<u8>,
    proof: MerkleProof<MAX_DEPTH>,
) -> Option<MerkleProofError> {
    let extent = descriptor.spec_extent();
    let valid = spec_chunk_len(extent.spec_logical_bytes(), proof.spec_leaf_index());
    if proof.spec_leaf_count() != extent.spec_block_count() {
        Some(MerkleProofError::ObjectShapeMismatch)
    } else if proof.spec_leaf_index() >= extent.spec_block_count() {
        Some(MerkleProofError::ObjectShapeMismatch)
    } else if bytes.len() != valid {
        Some(MerkleProofError::ChunkLengthMismatch { expected: valid as u32, actual: bytes.len() as usize })
    } else {
        None
    }
}

/// The digest reached from `current`, the path node `index` of the `nodes`
/// nodes of `level`, by hashing it with its siblings up to level `depth`.
pub open spec fn spec_path_root<H: MerkleHasher>(
    hasher: &H,
    siblings: Seq<Option<Digest>>,
    level: int,
    depth: int,
    index: u64,
    nodes: u64,
    current: Digest,
) -> Digest
    decreases depth - level,
{
    if level < 0 || level >= depth {
        current
    } else {
        let (left, right) = spec_parent_inputs(index, nodes, current, siblings[level]);
        spec_path_root(
            hasher,
            siblings,
            level + 1,
            depth,
            index / 2,
            (nodes / 2 + nodes % 2) as u64,
            hasher.spec_hash_parent(level as u32, left, right),
        )
    }
}

/// The root digest that `proof` computes for `bytes` as the chunk it names of
/// the object `descriptor` describes.
pub open spec fn spec_merkle_root<const MAX_DEPTH: usize, H: MerkleHasher>(
    hasher: &H,
    descriptor: ObjectDescriptor,
    bytes: Seq<u8>,
    proof: MerkleProof<MAX_DEPTH>,
) -> Digest {
    let leaf_index = proof.spec_leaf_index();
    let valid = spec_chunk_len(descriptor.spec_extent().spec_logical_bytes(), leaf_index);
    spec_path_root(
        hasher,
        proof.spec_siblings(),
        0,
        proof.spec_depth() as int,
        leaf_index,
        proof.spec_leaf_count(),
        hasher.spec_hash_leaf(leaf_index, valid as u32, bytes),
    )
}

/// A chunk whose Merkle path reached its object's root.
pub struct VerifiedChunk<'a> {
    descriptor: ObjectDescriptor,
    leaf_index: u64,
    bytes: &'a [u8],
}

impl<'a> VerifiedChunk<'a> {
    pub closed spec fn spec_descriptor(&self) -> ObjectDescriptor {
        self.descriptor
    }

    pub closed spec fn spec_leaf_index(&self) -> u64 {
        self.leaf_index
    }

    pub closed spec fn spec_bytes(&self) -> Seq<u8> {
        self.bytes@
    }

    pub fn descriptor(&self) -> (r: ObjectDescriptor)
        ensures
            r == self.spec_descriptor(),
    {
        self.descriptor
    }

    pub fn leaf_index(&self) -> (r: u64)
        ensures
            r == self.spec_leaf_index(),
    {
        self.leaf_index
    }

    pub fn bytes(&self) -> (r: &'a [u8])
        ensures
            r@ == self.spec_bytes(),
    {
        self.bytes
    }
}

fn validate_chunk_length(window: ReadWindow, bytes: &[u8]) -> (r: Result<(), MerkleProofError>)
    ensures
        bytes@.len() != window.spec_valid_bytes() ==> r == Err::<(), MerkleProofError>(
            MerkleProofError::ChunkLengthMismatch {
                expected: window.spec_valid_bytes(),
                actual: bytes@.len() as usize,
            },
        ),
        bytes@.len() == window.spec_valid_bytes() ==> r is Ok,
{
    if bytes.len() != window.valid_bytes() as usize {
        return Err(
            MerkleProofError::ChunkLengthMismatch { expected: window.valid_bytes(), actual: bytes.len() },
        );
    }
    Ok(())
}

/// The outcome once the path has been hashed up to `computed_root`: the chunk
/// verifies exactly when that is the descriptor's root digest.
pub fn chunk_outcome<'a>(descriptor: ObjectDescriptor, bytes: &'a [u8], leaf_index: u64, computed_root: Digest) -> (r:
    Result<VerifiedChunk<'a>, MerkleProofError>)
    ensures
        computed_root == descriptor.spec_digest() ==> (r matches Ok(c) && c.spec_descriptor()
            == descriptor && c.spec_leaf_index() == leaf_index && c.spec_bytes() == bytes@),
        computed_root != descriptor.spec_digest() ==> r == Err::<VerifiedChunk<'a>, MerkleProofError>(
            MerkleProofError::RootMismatch,
        ),
{
    if !computed_root.equals(&descriptor.digest()) {
        return Err(MerkleProofError::RootMismatch);
    }
    Ok(VerifiedChunk { descriptor, leaf_index, bytes })
}

/// Verifies one chunk of an object against its descriptor's root digest.
///
/// Shape and length errors are decided here. For a chunk of the right shape the
/// leaf is hashed, each level's parent is hashed from the children
/// `parent_inputs` names, and the chunk verifies exactly when the hasher's final
/// answer is the descriptor's root digest.
pub fn verify_chunk<'a, const MAX_DEPTH: usize, H: MerkleHasher>(
    descriptor: ObjectDescriptor,
    bytes: &'a [u8],
    proof: &MerkleProof<MAX_DEPTH>,
    hasher: &H,
) -> (r: Result<VerifiedChunk<'a>, MerkleProofError>)
    ensures
        match spec_chunk_shape_error(descriptor, bytes@, *proof) {
            Some(e) => r == Err::<VerifiedChunk<'a>, MerkleProofError>(e),
            None => if spec_merkle_root(hasher, descriptor, bytes@, *proof) == descriptor.spec_digest() {
                (r matches Ok(c) && c.spec_descriptor() == descriptor && c.spec_leaf_index()
                    == proof.spec_leaf_index() && c.spec_bytes() == bytes@)
            } else {
                r == Err::<VerifiedChunk<'a>, MerkleProofError>(MerkleProofError::RootMismatch)
            },
        },
{
    proof {
        use_type_invariant(proof);
    }
    if proof.leaf_count != descriptor.extent().block_count() {
        return Err(MerkleProofError::ObjectShapeMismatch);
    }
    let window = match descriptor.extent().read_window(proof.leaf_index) {
        Some(w) => w,
        None => return Err(MerkleProofError::ObjectShapeMismatch),
    };
    match validate_chunk_length(window, bytes) {
        Ok(()) => {},
        Err(e) => return Err(e),
    }
    let mut current = hasher.hash_leaf(proof.leaf_index, window.valid_bytes(), bytes);
    let mut index = proof.leaf_index;
    let mut nodes = proof.leaf_count;
    let mut level: usize = 0;
    let ghost root = spec_merkle_root(hasher, descriptor, bytes@, *proof);
    proof {
        vstd::arithmetic::power2::lemma2_to64();
        lemma_required_depth_bound(proof.leaf_count as int, 64);
    }
    while level < proof.depth
        invariant
            level <= proof.depth <= MAX_DEPTH,
            proof.depth <= 64,
            proof.siblings@.len() == MAX_DEPTH,
            index < nodes,
            spec_sibling_error(proof.siblings@, level as int, proof.depth as int, index as int, nodes as int)
                is None,
            spec_path_root(hasher, proof.siblings@, level as int, proof.depth as int, index, nodes, current)
                == root,
        decreases proof.depth - level,
    {
        let (left, right) = parent_inputs(index, nodes, current, proof.siblings[level]);
        current = hasher.hash_parent(level as u32, left, right);
        index = index / 2;
        nodes = nodes / 2 + nodes % 2;
        level = level + 1;
    }
    chunk_outcome(descriptor, bytes, proof.leaf_index, current)
}

} // verus!
