//! # Multihash
//!
//! A multihash is a digest that says which algorithm made it: one byte of algorithm tag,
//! one byte of digest length, then the digest itself.
//!
//! A `Multihash` owns its bytes. A `MultihashRef` is the same thing over bytes that
//! somebody else owns. Either can only be had by hashing or by passing validation, so
//! whoever holds one holds well-formed bytes.

use vstd::prelude::*;
use vstd::slice::slice_to_vec;
use vstd::std_specs::cmp::PartialEqSpec;

pub mod digests;
pub mod errors;
pub mod hashes;
pub mod wire;

pub use errors::{DecodeError, DecodeOwnedError, EncodeError};

use digests::{
    keccak224_into, keccak256_into, keccak384_into, keccak512_into, sha1_into,
    sha2_256_into, sha2_512_into, sha3_224_into, sha3_256_into, sha3_384_into, sha3_512_into,
    SHA1_INPUT_LIMIT,
};
use wire::{
    algorithm_of, decode_failure, digest_part, encoding_of, is_multihash, HEADER_LEN,
};
use hashes::HEADER_BYTE_LIMIT;

verus! {

/// Encodes data into a multihash.
///
/// Allocates the `2 + size` bytes of the result, writes the header, and has the digest
/// routine of `hash` write the digest behind it. The result is well-formed by how it is
/// built, and is not validated again.
///
/// SHA-1 has no digest for a message of 2^64 bits or more: with `Hash::SHA1` the input
/// must be shorter than [`SHA1_INPUT_LIMIT`] bytes.
///
/// # Errors
///
/// Fails with `UnsupportedType`, and in no other way, if no digest routine is bound to
/// `hash`.
pub fn encode(hash: hashes::Hash, input: &[u8]) -> (res: Result<Multihash, EncodeError>)
    requires
        hash is SHA1 ==> input@.len() < SHA1_INPUT_LIMIT,
    ensures
        res is Ok <==> hash.has_encoder(),
        match encoding_of(hash, input@) {
            Some(bytes) => res matches Ok(multihash) && multihash@ == bytes,
            None => res matches Err(error) && error == EncodeError::UnsupportedType,
        },
{
    let size = hash.size();
    let mut output: Vec<u8> = Vec::new();
    output.resize(HEADER_LEN + size as usize, 0);
    output[0] = hash.code();
    output[1] = size;

    let (_, digest) = output.as_mut_slice().split_at_mut(HEADER_LEN);
    match hash {
        hashes::Hash::SHA1 => sha1_into(input, digest),
        hashes::Hash::SHA2256 => sha2_256_into(input, digest),
        hashes::Hash::SHA2512 => sha2_512_into(input, digest),
        hashes::Hash::SHA3224 => sha3_224_into(input, digest),
        hashes::Hash::SHA3256 => sha3_256_into(input, digest),
        hashes::Hash::SHA3384 => sha3_384_into(input, digest),
        hashes::Hash::SHA3512 => sha3_512_into(input, digest),
        hashes::Hash::Keccak224 => keccak224_into(input, digest),
        hashes::Hash::Keccak256 => keccak256_into(input, digest),
        hashes::Hash::Keccak384 => keccak384_into(input, digest),
        hashes::Hash::Keccak512 => keccak512_into(input, digest),
        _ => return Err(EncodeError::UnsupportedType),
    }

    proof {
        wire::lemma_encode_then_decode(hash, input@);
        assert(output@ =~= encoding_of(hash, input@).unwrap());
    }
    Ok(Multihash { bytes: output })
}

/// Represents a valid multihash, and owns its bytes.
#[derive(Debug, Eq, Hash)]
pub struct Multihash {
    bytes: Vec<u8>,
}

impl View for Multihash {
    type V = Seq<u8>;

    /// The bytes of the multihash, header and digest.
    closed spec fn view(&self) -> Seq<u8> {
        self.bytes@
    }
}

impl Multihash {
    #[verifier::type_invariant]
    spec fn well_formed(self) -> bool {
        is_multihash(self.bytes@)
    }

    /// Verifies whether `bytes` contains a valid multihash, and if so returns a `Multihash`.
    ///
    /// If not, the error says why and holds `bytes`, untouched.
    pub fn from_bytes(bytes: Vec<u8>) -> (res: Result<Multihash, DecodeOwnedError>)
        ensures
            match res {
                Ok(multihash) => is_multihash(bytes@) && multihash@ == bytes@,
                Err(rejected) => decode_failure(bytes@) == Some(rejected.error)
                    && rejected.data == bytes,
            },
    {
        if let Err(err) = MultihashRef::from_slice(bytes.as_slice()) {
            return Err(DecodeOwnedError { error: err, data: bytes });
        }
        Ok(Multihash { bytes })
    }

    /// Returns the bytes representation of the multihash.
    pub fn into_bytes(self) -> (bytes: Vec<u8>)
        ensures
            bytes@ == self@,
            is_multihash(bytes@),
    {
        proof {
            use_type_invariant(&self);
        }
        self.bytes
    }

    /// Returns the bytes representation of this multihash.
    pub fn as_bytes(&self) -> (bytes: &[u8])
        ensures
            bytes@ == self@,
            is_multihash(bytes@),
    {
        proof {
            use_type_invariant(self);
        }
        self.bytes.as_slice()
    }

    /// Builds a `MultihashRef` corresponding to this `Multihash`.
    pub fn as_ref(&self) -> (view: MultihashRef<'_>)
        ensures
            view@ == self@,
    {
        proof {
            use_type_invariant(self);
        }
        MultihashRef { bytes: self.bytes.as_slice() }
    }

    /// Returns which hashing algorithm is used in this multihash.
    pub fn algorithm(&self) -> (hash: hashes::Hash)
        ensures
            hash == algorithm_of(self@),
            is_multihash(self@),
    {
        self.as_ref().algorithm()
    }

    /// Returns the hashed data.
    pub fn digest(&self) -> (digest: &[u8])
        ensures
            digest@ == digest_part(self@),
            digest@.len() == algorithm_of(self@).spec_size(),
            is_multihash(self@),
    {
        self.as_ref().digest()
    }
}

/// Represents a valid multihash over bytes that it borrows. Nothing is copied: the view
/// lives no longer than the bytes it was made from.
#[derive(Debug, Copy, Clone, Eq, Hash)]
pub struct MultihashRef<'a> {
    bytes: &'a [u8],
}

impl<'a> View for MultihashRef<'a> {
    type V = Seq<u8>;

    /// The bytes of the multihash, header and digest.
    closed spec fn view(&self) -> Seq<u8> {
        self.bytes@
    }
}

impl<'a> MultihashRef<'a> {
    #[verifier::type_invariant]
    spec fn well_formed(self) -> bool {
        is_multihash(self.bytes@)
    }

    /// Verifies whether `bytes` contains a valid multihash, and if so returns a `MultihashRef`.
    ///
    /// The checks, of which the first to fail decides the error: there is a header; both
    /// header bytes are under 128; the tag is registered; the input is as long as header
    /// and digest together; the length byte is the digest's length.
    pub fn from_slice(input: &'a [u8]) -> (res: Result<MultihashRef<'a>, DecodeError>)
        ensures
            match res {
                Ok(view) => is_multihash(input@) && view@ == input@,
                Err(error) => decode_failure(input@) == Some(error),
            },
    {
        if input.len() < HEADER_LEN {
            return Err(DecodeError::BadInputLength);
        }
        let code = input[0];

        if code >= HEADER_BYTE_LIMIT || input[1] >= HEADER_BYTE_LIMIT {
            return Err(DecodeError::BadInputLength);
        }
        let alg = match hashes::Hash::from_code(code) {
            Some(alg) => alg,
            None => return Err(DecodeError::UnknownCode),
        };
        let hash_len = alg.size() as usize;

        // length of input should be exactly hash_len + 2
        if input.len() != hash_len + HEADER_LEN {
            return Err(DecodeError::BadInputLength);
        }
        if input[1] as usize != hash_len {
            return Err(DecodeError::BadInputLength);
        }
        Ok(MultihashRef { bytes: input })
    }

    /// Returns which hashing algorithm is used in this multihash.
    pub fn algorithm(&self) -> (hash: hashes::Hash)
        ensures
            hash == algorithm_of(self@),
            is_multihash(self@),
    {
        proof {
            use_type_invariant(self);
        }
        hashes::Hash::from_code(self.bytes[0]).expect("multihash is known to be valid")
    }

    /// Returns the hashed data.
    pub fn digest(&self) -> (digest: &'a [u8])
        ensures
            digest@ == digest_part(self@),
            digest@.len() == algorithm_of(self@).spec_size(),
            is_multihash(self@),
    {
        proof {
            use_type_invariant(self);
        }
        let bytes: &'a [u8] = self.bytes;
        &bytes[HEADER_LEN..bytes.len()]
    }

    /// Builds a `Multihash` that owns the data.
    ///
    /// This operation allocates.
    pub fn to_owned(&self) -> (owned: Multihash)
        ensures
            owned@ == self@,
    {
        proof {
            use_type_invariant(self);
        }
        Multihash { bytes: slice_to_vec(self.bytes) }
    }

    /// Returns the bytes representation of this multihash.
    pub fn as_bytes(&self) -> (bytes: &'a [u8])
        ensures
            bytes@ == self@,
            is_multihash(bytes@),
    {
        proof {
            use_type_invariant(self);
        }
        self.bytes
    }
}

/// Whether two byte strings are the same, byte for byte.
fn same_bytes(left: &[u8], right: &[u8]) -> (same: bool)
    ensures
        same == (left@ == right@),
{
    if left.len() != right.len() {
        return false;
    }
    let mut i: usize = 0;
    while i < left.len()
        invariant
            left@.len() == right@.len(),
            i <= left@.len(),
            forall|j: int| 0 <= j < i ==> left@[j] == right@[j],
        decreases left@.len() - i,
    {
        if left[i] != right[i] {
            return false;
        }
        i += 1;
    }
    assert(left@ =~= right@);
    true
}

impl Clone for Multihash {
    fn clone(&self) -> (copy: Multihash)
        ensures
            copy@ == self@,
    {
        proof {
            use_type_invariant(self);
        }
        Multihash { bytes: self.bytes.clone() }
    }
}

impl PartialEq for Multihash {
    fn eq(&self, other: &Multihash) -> (equal: bool) {
        same_bytes(self.bytes.as_slice(), other.bytes.as_slice())
    }
}

/// Two multihashes are equal exactly when their bytes are.
impl vstd::std_specs::cmp::PartialEqSpecImpl for Multihash {
    open spec fn obeys_eq_spec() -> bool {
        true
    }

    open spec fn eq_spec(&self, other: &Multihash) -> bool {
        self@ == other@
    }
}

impl<'a> PartialEq<MultihashRef<'a>> for Multihash {
    fn eq(&self, other: &MultihashRef<'a>) -> (equal: bool) {
        same_bytes(self.bytes.as_slice(), other.bytes)
    }
}

/// A multihash and a view are equal exactly when their bytes are.
impl<'a> vstd::std_specs::cmp::PartialEqSpecImpl<MultihashRef<'a>> for Multihash {
    open spec fn obeys_eq_spec() -> bool {
        true
    }

    open spec fn eq_spec(&self, other: &MultihashRef<'a>) -> bool {
        self@ == other@
    }
}

impl<'a> PartialEq for MultihashRef<'a> {
    fn eq(&self, other: &MultihashRef<'a>) -> (equal: bool) {
        same_bytes(self.bytes, other.bytes)
    }
}

/// Two views are equal exactly when their bytes are.
impl<'a> vstd::std_specs::cmp::PartialEqSpecImpl for MultihashRef<'a> {
    open spec fn obeys_eq_spec() -> bool {
        true
    }

    open spec fn eq_spec(&self, other: &MultihashRef<'a>) -> bool {
        self@ == other@
    }
}

impl<'a> PartialEq<Multihash> for MultihashRef<'a> {
    fn eq(&self, other: &Multihash) -> (equal: bool) {
        same_bytes(self.bytes, other.bytes.as_slice())
    }
}

/// A view and a multihash are equal exactly when their bytes are.
impl<'a> vstd::std_specs::cmp::PartialEqSpecImpl<Multihash> for MultihashRef<'a> {
    open spec fn obeys_eq_spec() -> bool {
        true
    }

    open spec fn eq_spec(&self, other: &Multihash) -> bool {
        self@ == other@
    }
}

/// A multihash and a view over the same bytes are equal, whichever is asked of the other.
pub proof fn lemma_owned_and_view_equal(owned: Multihash, view: MultihashRef<'_>)
    requires
        view@ == owned@,
    ensures
        owned.eq_spec(&view),
        view.eq_spec(&owned),
{
}

/// Equality between a multihash and a view does not depend on which is asked of the
/// other, and holds exactly when the bytes are the same.
pub proof fn lemma_mixed_equality_symmetric(owned: Multihash, view: MultihashRef<'_>)
    ensures
        owned.eq_spec(&view) <==> view.eq_spec(&owned),
        owned.eq_spec(&view) <==> owned@ == view@,
{
}

} // verus!
