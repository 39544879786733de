//! The trust-producing paths of AWStoreFS: a manifest becomes trusted only
//! after its exact bytes are authenticated and its generation clears the
//! rollback floor, and an object only after it is found in such a manifest
//! and its bytes match the digest there.

pub mod chunk;
pub mod reader;

use vstd::prelude::*;
use crate::fs_core::Digest;
use crate::storefs::{
    DigestVerifier, ObjectDescriptor, ObjectVerificationError, StoreManifest, VerifiedObject,
    verify_resident_object, spec_find_by_digest, spec_object_length_error,
};
use crate::storefs::wire::{ManifestDecodeError, decode_manifest, spec_manifest_decode_error};
use crate::le_bytes::u64_le;

verus! {

/// Signature/provenance boundary for exact canonical manifest bytes.
///
/// Implementations bind the bytes to a trusted signing policy outside AWStoreFS. The verdict is
/// named by `spec_authenticates`, which each implementation defines: it is a function of the
/// authenticator and the bytes.
pub trait ManifestAuthenticator {
    /// Whether this authenticator accepts `canonical_manifest` as authentic. An
    /// implementation that does not define it has some fixed, unstated verdict.
    open spec fn spec_authenticates(&self, canonical_manifest: Seq<u8>) -> bool {
        arbitrary()
    }

    fn authenticate(&self, canonical_manifest: &[u8]) -> (r: bool)
        ensures
            r == self.spec_authenticates(canonical_manifest@),
    ;
}

#[derive(Clone, Copy, Debug, PartialEq, Eq, Structural)]
pub enum ManifestAuthenticationError {
    Rejected,
    Decode(ManifestDecodeError),
    RollbackRejected { declared: u64, minimum: u64 },
}

/// A manifest whose exact canonical bytes passed an external authenticity
/// check and the local generation rollback floor.
pub struct AuthenticatedManifest<const OBJECTS: usize> {
    manifest: StoreManifest<OBJECTS>,
}

impl<const OBJECTS: usize> AuthenticatedManifest<OBJECTS> {
    pub closed spec fn spec_generation(&self) -> u64 {
        self.manifest.spec_generation()
    }

    pub closed spec fn spec_volume_blocks(&self) -> u64 {
        self.manifest.spec_volume_blocks()
    }

    pub closed spec fn spec_objects(&self) -> Seq<ObjectDescriptor> {
        self.manifest.spec_objects()
    }

    pub fn generation(&self) -> (r: u64)
        ensures
            r == self.spec_generation(),
    {
        self.manifest.generation()
    }

    pub fn volume_blocks(&self) -> (r: u64)
        ensures
            r == self.spec_volume_blocks(),
    {
        self.manifest.volume_blocks()
    }

    pub fn len(&self) -> (r: usize)
        ensures
            r == self.spec_objects().len(),
    {
        self.manifest.len()
    }

    pub fn is_empty(&self) -> (r: bool)
        ensures
            r == (self.spec_objects().len() == 0),
    {
        self.manifest.is_empty()
    }

    pub fn object(&self, index: usize) -> (r: Option<ObjectDescriptor>)
        ensures
            index < self.spec_objects().len() ==> r == Some(self.spec_objects()[index as int]),
            index >= self.spec_objects().len() ==> r is None,
    {
        self.manifest.object(index)
    }

    pub fn find_by_digest(&self, digest: Digest) -> (r: Option<ObjectDescriptor>)
        ensures
            r == spec_find_by_digest(self.spec_objects(), digest, 0),
    {
        self.manifest.find_by_digest(digest)
    }
}

/// Why authentic canonical bytes still do not make a trusted manifest, if they
/// do not: they must decode, and the generation they declare must clear the
/// rollback floor.
pub open spec fn spec_admission_error(bytes: Seq<u8>, minimum_generation: u64, capacity: int) -> Option<
    ManifestAuthenticationError,
> {
    match spec_manifest_decode_error(bytes, capacity) {
        Some(e) => Some(ManifestAuthenticationError::Decode(e)),
        None => if u64_le(bytes, 16) < minimum_generation {
            Some(
                ManifestAuthenticationError::RollbackRejected {
                    declared: u64_le(bytes, 16),
                    minimum: minimum_generation,
                },
            )
        } else {
            None
        },
    }
}

/// The answer the bytes themselves decide once they are taken as authentic.
pub open spec fn admitted<const OBJECTS: usize>(
    r: Result<AuthenticatedManifest<OBJECTS>, ManifestAuthenticationError>,
    bytes: Seq<u8>,
    minimum_generation: u64,
) -> bool {
    match r {
        Ok(m) => spec_admission_error(bytes, minimum_generation, OBJECTS as int) is None
            && m.spec_generation() == u64_le(bytes, 16) && m.spec_generation() >= minimum_generation,
        Err(e) => spec_admission_error(bytes, minimum_generation, OBJECTS as int) == Some(e),
    }
}

/// The outcome for canonical bytes, given the authenticator's verdict on them:
/// refused when not authentic, otherwise what the bytes decide.
pub fn manifest_outcome<const OBJECTS: usize>(
    canonical_manifest: &[u8],
    minimum_generation: u64,
    authentic: bool,
) -> (r: Result<AuthenticatedManifest<OBJECTS>, ManifestAuthenticationError>)
    ensures
        !authentic ==> r == Err::<AuthenticatedManifest<OBJECTS>, ManifestAuthenticationError>(
            ManifestAuthenticationError::Rejected,
        ),
        authentic ==> admitted(r, canonical_manifest@, minimum_generation),
{
    if !authentic {
        return Err(ManifestAuthenticationError::Rejected);
    }
    let manifest = match decode_manifest::<OBJECTS>(canonical_manifest) {
        Ok(m) => m,
        Err(e) => return Err(ManifestAuthenticationError::Decode(e)),
    };
    if manifest.generation() < minimum_generation {
        return Err(
            ManifestAuthenticationError::RollbackRejected {
                declared: manifest.generation(),
                minimum: minimum_generation,
            },
        );
    }
    Ok(AuthenticatedManifest { manifest })
}

/// Authenticates opaque canonical bytes before parsing them into a trusted
/// semantic manifest; a manifest below the rollback floor is refused.
///
/// The authenticator sees exactly the canonical bytes, before any parsing; it
/// either refuses them, or the outcome is the one the bytes decide.
pub fn authenticate_manifest<const OBJECTS: usize, A: ManifestAuthenticator>(
    canonical_manifest: &[u8],
    minimum_generation: u64,
    authenticator: &A,
) -> (r: Result<AuthenticatedManifest<OBJECTS>, ManifestAuthenticationError>)
    ensures
        !authenticator.spec_authenticates(canonical_manifest@) ==> r == Err::<
            AuthenticatedManifest<OBJECTS>,
            ManifestAuthenticationError,
        >(ManifestAuthenticationError::Rejected),
        authenticator.spec_authenticates(canonical_manifest@) ==> admitted(
            r,
            canonical_manifest@,
            minimum_generation,
        ),
        r matches Ok(m) ==> m.spec_generation() >= minimum_generation,
{
    let authentic = authenticator.authenticate(canonical_manifest);
    manifest_outcome(canonical_manifest, minimum_generation, authentic)
}

#[derive(Clone, Copy, Debug, PartialEq, Eq, Structural)]
pub enum AuthenticatedObjectError {
    UnknownObject,
    Verification(ObjectVerificationError),
}

/// Bytes that belong to an authenticated manifest and match that manifest's
/// object digest. This does not grant execution authority.
pub struct AuthenticatedObject<'a> {
    generation: u64,
    verified: VerifiedObject<'a>,
}

impl<'a> AuthenticatedObject<'a> {
    pub closed spec fn spec_generation(&self) -> u64 {
        self.generation
    }

    pub closed spec fn spec_descriptor(&self) -> ObjectDescriptor {
        self.verified.spec_descriptor()
    }

    pub closed spec fn spec_bytes(&self) -> Seq<u8> {
        self.verified.spec_bytes()
    }

    pub fn generation(&self) -> (r: u64)
        ensures
            r == self.spec_generation(),
    {
        self.generation
    }

    pub fn descriptor(&self) -> (r: ObjectDescriptor)
        ensures
            r == self.spec_descriptor(),
    {
        self.verified.descriptor()
    }

    pub fn bytes(&self) -> (r: &'a [u8])
        ensures
            r@ == self.spec_bytes(),
    {
        self.verified.bytes()
    }
}

/// Finds the object in the authenticated manifest and checks the bytes
/// against it.
pub fn verify_authenticated_object<'a, const OBJECTS: usize, V: DigestVerifier>(
    manifest: &AuthenticatedManifest<OBJECTS>,
    digest: Digest,
    bytes: &'a [u8],
    verifier: &V,
) -> (r: Result<AuthenticatedObject<'a>, AuthenticatedObjectError>)
    ensures
        match spec_find_by_digest(manifest.spec_objects(), digest, 0) {
            None => r == Err::<AuthenticatedObject<'a>, AuthenticatedObjectError>(
                AuthenticatedObjectError::UnknownObject,
            ),
            Some(d) => match spec_object_length_error(d, bytes@) {
                Some(e) => r == Err::<AuthenticatedObject<'a>, AuthenticatedObjectError>(
                    AuthenticatedObjectError::Verification(e),
                ),
                None => if verifier.spec_verify(d.spec_digest(), bytes@) {
                    (r matches Ok(o) && o.spec_generation() == manifest.spec_generation()
                        && o.spec_descriptor() == d && o.spec_bytes() == bytes@)
                } else {
                    r == Err::<AuthenticatedObject<'a>, AuthenticatedObjectError>(
                        AuthenticatedObjectError::Verification(ObjectVerificationError::DigestMismatch),
                    )
                },
            },
        },
{
    let descriptor = match manifest.find_by_digest(digest) {
        Some(d) => d,
        None => return Err(AuthenticatedObjectError::UnknownObject),
    };
    let verified = match verify_resident_object(descriptor, bytes, verifier) {
        Ok(v) => v,
        Err(e) => return Err(AuthenticatedObjectError::Verification(e)),
    };
    Ok(AuthenticatedObject { generation: manifest.generation(), verified })
}

} // verus!
