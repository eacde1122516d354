//! The digest routines.
//!
//! The hash functions themselves are not this library's. Each routine below hands the
//! input to the crate that implements the algorithm. Verus does not read that crate: what
//! is said of a routine here is taken on trust. What a routine writes is given a name, a
//! function of the input's bytes that has no definition. All that is claimed of a name
//! is what its type says: how many bytes the digest has.

use vstd::prelude::*;

verus! {

/// The length in bytes from which on the `sha1` crate cannot hash an input: SHA-1 is
/// defined for messages of less than 2^64 bits, and the crate counts bits in a `u64`.
pub const SHA1_INPUT_LIMIT: u64 = 0x2000_0000_0000_0000;

/// What the `sha1` crate computes of `input`: its SHA-1 digest.
pub uninterp spec fn sha1_digest(input: Seq<u8>) -> [u8; 20];

/// What `sha2::Sha256` computes of `input`: its SHA-256 digest.
pub uninterp spec fn sha2_256_digest(input: Seq<u8>) -> [u8; 32];

/// What `sha2::Sha512` computes of `input`: its SHA-512 digest.
pub uninterp spec fn sha2_512_digest(input: Seq<u8>) -> [u8; 64];

/// What `tiny_keccak` computes of `input` as SHA3-224.
pub uninterp spec fn sha3_224_digest(input: Seq<u8>) -> [u8; 28];

/// What `tiny_keccak` computes of `input` as SHA3-256.
pub uninterp spec fn sha3_256_digest(input: Seq<u8>) -> [u8; 32];

/// What `tiny_keccak` computes of `input` as SHA3-384.
pub uninterp spec fn sha3_384_digest(input: Seq<u8>) -> [u8; 48];

/// What `tiny_keccak` computes of `input` as SHA3-512.
pub uninterp spec fn sha3_512_digest(input: Seq<u8>) -> [u8; 64];

/// What `tiny_keccak` computes of `input` as Keccak-224.
pub uninterp spec fn keccak224_digest(input: Seq<u8>) -> [u8; 28];

/// What `tiny_keccak` computes of `input` as Keccak-256.
pub uninterp spec fn keccak256_digest(input: Seq<u8>) -> [u8; 32];

/// What `tiny_keccak` computes of `input` as Keccak-384.
pub uninterp spec fn keccak384_digest(input: Seq<u8>) -> [u8; 48];

/// What `tiny_keccak` computes of `input` as Keccak-512.
pub uninterp spec fn keccak512_digest(input: Seq<u8>) -> [u8; 64];

/// The digest that `hash` computes of `input`, or `None` if no routine is bound to `hash`.
pub open spec fn digest_of(hash: crate::hashes::Hash, input: Seq<u8>) -> Option<Seq<u8>> {
    match hash {
        crate::hashes::Hash::SHA1 => Some(sha1_digest(input)@),
        crate::hashes::Hash::SHA2256 => Some(sha2_256_digest(input)@),
        crate::hashes::Hash::SHA2512 => Some(sha2_512_digest(input)@),
        crate::hashes::Hash::SHA3224 => Some(sha3_224_digest(input)@),
        crate::hashes::Hash::SHA3256 => Some(sha3_256_digest(input)@),
        crate::hashes::Hash::SHA3384 => Some(sha3_384_digest(input)@),
        crate::hashes::Hash::SHA3512 => Some(sha3_512_digest(input)@),
        crate::hashes::Hash::Keccak224 => Some(keccak224_digest(input)@),
        crate::hashes::Hash::Keccak256 => Some(keccak256_digest(input)@),
        crate::hashes::Hash::Keccak384 => Some(keccak384_digest(input)@),
        crate::hashes::Hash::Keccak512 => Some(keccak512_digest(input)@),
        crate::hashes::Hash::Blake2b => None,
        crate::hashes::Hash::Blake2s => None,
    }
}

/// A digest exists exactly for the algorithms with a routine, and it is as long as the
/// registry says digests of that algorithm are.
pub proof fn lemma_digest_of_has_registered_length(hash: crate::hashes::Hash, input: Seq<u8>)
    ensures
        digest_of(hash, input) is Some <==> hash.has_encoder(),
        digest_of(hash, input) matches Some(digest) ==> digest.len() == hash.spec_size(),
{
}

/// Feeds `input` to a fresh `sha1::Sha1` (`new`, `update`) and copies the 20 bytes of
/// `digest().bytes()` into `output`.
///
/// Trusted: that the 20 bytes written are a function of the bytes of `input` and of
/// nothing else. `digest` multiplies the input's length by 8 in a `u64`, so the length is
/// kept under [`SHA1_INPUT_LIMIT`]; `copy_from_slice` wants a destination as long as its
/// source.
#[verifier::external_body]
pub(crate) fn sha1_into(input: &[u8], output: &mut [u8])
    requires
        input@.len() < SHA1_INPUT_LIMIT,
        old(output)@.len() == 20,
    ensures
        final(output)@ == sha1_digest(input@)@,
{
    let mut hasher = sha1::Sha1::new();
    hasher.update(input);
    output.copy_from_slice(&hasher.digest().bytes());
}

/// Feeds `input` to a default `sha2::Sha256` (`Digest::input`) and copies the 32 bytes
/// of `Digest::result` into `output`.
///
/// Trusted: that the bytes written are a function of the bytes of `input` and of nothing
/// else. `copy_from_slice` wants a destination as long as its source.
#[verifier::external_body]
pub(crate) fn sha2_256_into(input: &[u8], output: &mut [u8])
    requires
        old(output)@.len() == 32,
    ensures
        final(output)@ == sha2_256_digest(input@)@,
{
    let mut hasher = sha2::Sha256::default();
    sha2::Digest::input(&mut hasher, input);
    output.copy_from_slice(sha2::Digest::result(hasher).as_ref());
}

/// Feeds `input` to a default `sha2::Sha512` (`Digest::input`) and copies the 64 bytes
/// of `Digest::result` into `output`.
///
/// Trusted: that the bytes written are a function of the bytes of `input` and of nothing
/// else. `copy_from_slice` wants a destination as long as its source.
#[verifier::external_body]
pub(crate) fn sha2_512_into(input: &[u8], output: &mut [u8])
    requires
        old(output)@.len() == 64,
    ensures
        final(output)@ == sha2_512_digest(input@)@,
{
    let mut hasher = sha2::Sha512::default();
    sha2::Digest::input(&mut hasher, input);
    output.copy_from_slice(sha2::Digest::result(hasher).as_ref());
}

/// Feeds `input` to `tiny_keccak::Keccak::new_sha3_224()` (`update`) and lets `finalize`
/// fill `output`.
///
/// Trusted: that the bytes written are a function of the bytes of `input` and of nothing
/// else. `finalize` squeezes as many bytes as `output` is long, so that length is fixed.
#[verifier::external_body]
pub(crate) fn sha3_224_into(input: &[u8], output: &mut [u8])
    requires
        old(output)@.len() == 28,
    ensures
        final(output)@ == sha3_224_digest(input@)@,
{
    let mut kec = tiny_keccak::Keccak::new_sha3_224();
    kec.update(input);
    kec.finalize(output);
}

/// Feeds `input` to `tiny_keccak::Keccak::new_sha3_256()` (`update`) and lets `finalize`
/// fill `output`.
///
/// Trusted: that the bytes written are a function of the bytes of `input` and of nothing
/// else. `finalize` squeezes as many bytes as `output` is long, so that length is fixed.
#[verifier::external_body]
pub(crate) fn sha3_256_into(input: &[u8], output: &mut [u8])
    requires
        old(output)@.len() == 32,
    ensures
        final(output)@ == sha3_256_digest(input@)@,
{
    let mut kec = tiny_keccak::Keccak::new_sha3_256();
    kec.update(input);
    kec.finalize(output);
}

/// Feeds `input` to `tiny_keccak::Keccak::new_sha3_384()` (`update`) and lets `finalize`
/// fill `output`.
///
/// Trusted: that the bytes written are a function of the bytes of `input` and of nothing
/// else. `finalize` squeezes as many bytes as `output` is long, so that length is fixed.
#[verifier::external_body]
pub(crate) fn sha3_384_into(input: &[u8], output: &mut [u8])
    requires
        old(output)@.len() == 48,
    ensures
        final(output)@ == sha3_384_digest(input@)@,
{
    let mut kec = tiny_keccak::Keccak::new_sha3_384();
    kec.update(input);
    kec.finalize(output);
}

/// Feeds `input` to `tiny_keccak::Keccak::new_sha3_512()` (`update`) and lets `finalize`
/// fill `output`.
///
/// Trusted: that the bytes written are a function of the bytes of `input` and of nothing
/// else. `finalize` squeezes as many bytes as `output` is long, so that length is fixed.
#[verifier::external_body]
pub(crate) fn sha3_512_into(input: &[u8], output: &mut [u8])
    requires
        old(output)@.len() == 64,
    ensures
        final(output)@ == sha3_512_digest(input@)@,
{
    let mut kec = tiny_keccak::Keccak::new_sha3_512();
    kec.update(input);
    kec.finalize(output);
}

/// Feeds `input` to `tiny_keccak::Keccak::new_keccak224()` (`update`) and lets
/// `finalize` fill `output`.
///
/// Trusted: that the bytes written are a function of the bytes of `input` and of nothing
/// else. `finalize` squeezes as many bytes as `output` is long, so that length is fixed.
#[verifier::external_body]
pub(crate) fn keccak224_into(input: &[u8], output: &mut [u8])
    requires
        old(output)@.len() == 28,
    ensures
        final(output)@ == keccak224_digest(input@)@,
{
    let mut kec = tiny_keccak::Keccak::new_keccak224();
    kec.update(input);
    kec.finalize(output);
}

/// Feeds `input` to `tiny_keccak::Keccak::new_keccak256()` (`update`) and lets
/// `finalize` fill `output`.
///
/// Trusted: that the bytes written are a function of the bytes of `input` and of nothing
/// else. `finalize` squeezes as many bytes as `output` is long, so that length is fixed.
#[verifier::external_body]
pub(crate) fn keccak256_into(input: &[u8], output: &mut [u8])
    requires
        old(output)@.len() == 32,
    ensures
        final(output)@ == keccak256_digest(input@)@,
{
    let mut kec = tiny_keccak::Keccak::new_keccak256();
    kec.update(input);
    kec.finalize(output);
}

/// Feeds `input` to `tiny_keccak::Keccak::new_keccak384()` (`update`) and lets
/// `finalize` fill `output`.
///
/// Trusted: that the bytes written are a function of the bytes of `input` and of nothing
/// else. `finalize` squeezes as many bytes as `output` is long, so that length is fixed.
#[verifier::external_body]
pub(crate) fn keccak384_into(input: &[u8], output: &mut [u8])
    requires
        old(output)@.len() == 48,
    ensures
        final(output)@ == keccak384_digest(input@)@,
{
    let mut kec = tiny_keccak::Keccak::new_keccak384();
    kec.update(input);
    kec.finalize(output);
}

/// Feeds `input` to `tiny_keccak::Keccak::new_keccak512()` (`update`) and lets
/// `finalize` fill `output`.
///
/// Trusted: that the bytes written are a function of the bytes of `input` and of nothing
/// else. `finalize` squeezes as many bytes as `output` is long, so that length is fixed.
#[verifier::external_body]
pub(crate) fn keccak512_into(input: &[u8], output: &mut [u8])
    requires
        old(output)@.len() == 64,
    ensures
        final(output)@ == keccak512_digest(input@)@,
{
    let mut kec = tiny_keccak::Keccak::new_keccak512();
    kec.update(input);
    kec.finalize(output);
}

} // verus!
