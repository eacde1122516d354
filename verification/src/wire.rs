//! The wire format, as mathematics over byte sequences.
//!
//! ```text
//! byte 0      : algorithm tag (0-127)
//! byte 1      : digest length in bytes (0-127)
//! bytes 2..N  : the digest, as long as byte 1 says
//! ```
//!
//! The header is two bytes wide, always. A value from 128 up in either byte is rejected,
//! not read as the first byte of a longer number.

use vstd::prelude::*;
use crate::digests::{digest_of, lemma_digest_of_has_registered_length};
use crate::errors::DecodeError;
use crate::hashes;
use crate::hashes::HEADER_BYTE_LIMIT;

verus! {

/// The number of bytes before the digest.
pub const HEADER_LEN: usize = 2;

/// The multihash that carries `digest` under the tag of `hash`.
pub open spec fn envelope(hash: hashes::Hash, digest: Seq<u8>) -> Seq<u8> {
    seq![hash.spec_code(), hash.spec_size()] + digest
}

/// Whether `bytes` is a multihash of the algorithm `hash`: tag and length byte are those
/// of `hash`, and a digest of exactly that length follows.
pub open spec fn is_multihash_of(bytes: Seq<u8>, hash: hashes::Hash) -> bool {
    &&& bytes.len() == HEADER_LEN + hash.spec_size()
    &&& bytes[0] == hash.spec_code()
    &&& bytes[1] == hash.spec_size()
}

/// Whether `bytes` is a multihash: whether its tag resolves to an algorithm that it is a
/// multihash of.
pub open spec fn is_multihash(bytes: Seq<u8>) -> bool {
    &&& bytes.len() >= HEADER_LEN
    &&& hashes::Hash::spec_from_code(bytes[0]) matches Some(hash)
    &&& is_multihash_of(bytes, hash)
}

/// The algorithm that the tag of the multihash `bytes` names.
pub open spec fn algorithm_of(bytes: Seq<u8>) -> hashes::Hash
    recommends
        is_multihash(bytes),
{
    hashes::Hash::spec_from_code(bytes[0]).unwrap()
}

/// The digest that the multihash `bytes` carries: all that follows the header.
pub open spec fn digest_part(bytes: Seq<u8>) -> Seq<u8>
    recommends
        is_multihash(bytes),
{
    bytes.skip(HEADER_LEN as int)
}

/// Whether `bytes` has a header that reads as two single-byte values, the first of
/// which is not the tag of any algorithm.
pub open spec fn has_unknown_code(bytes: Seq<u8>) -> bool {
    &&& bytes.len() >= HEADER_LEN
    &&& bytes[0] < HEADER_BYTE_LIMIT
    &&& bytes[1] < HEADER_BYTE_LIMIT
    &&& hashes::Hash::spec_from_code(bytes[0]) is None
}

/// Why `bytes` is rejected, or `None` if it is a multihash.
///
/// An unknown tag is reported as such only under a header that is otherwise readable.
/// Everything else that is wrong is a wrong length: no header, a header byte from 128 up,
/// a total length that is not the algorithm's, a length byte that is not the
/// algorithm's.
pub open spec fn decode_failure(bytes: Seq<u8>) -> Option<DecodeError> {
    if is_multihash(bytes) {
        None
    } else if has_unknown_code(bytes) {
        Some(DecodeError::UnknownCode)
    } else {
        Some(DecodeError::BadInputLength)
    }
}

/// What encoding `input` under `hash` yields: the envelope of the digest, or `None` if
/// no routine is bound to `hash`.
pub open spec fn encoding_of(hash: hashes::Hash, input: Seq<u8>) -> Option<Seq<u8>> {
    match digest_of(hash, input) {
        Some(digest) => Some(envelope(hash, digest)),
        None => None,
    }
}

/// The multihashes are the envelopes of digests of the registered length: wrapping such a
/// digest gives a multihash, and every multihash is the envelope of its own digest under
/// its own algorithm.
pub proof fn lemma_multihash_iff_envelope(bytes: Seq<u8>)
    ensures
        is_multihash(bytes) <==> exists|hash: hashes::Hash, digest: Seq<u8>|
            digest.len() == hash.spec_size() && bytes == #[trigger] envelope(hash, digest),
{
    if is_multihash(bytes) {
        let hash = algorithm_of(bytes);
        let digest = digest_part(bytes);
        assert(bytes =~= envelope(hash, digest));
    }
    if exists|hash: hashes::Hash, digest: Seq<u8>|
        digest.len() == hash.spec_size() && bytes == #[trigger] envelope(hash, digest) {
        let (hash, digest) = choose|hash: hashes::Hash, digest: Seq<u8>|
            digest.len() == hash.spec_size() && bytes == #[trigger] envelope(hash, digest);
        lemma_envelope_is_multihash(hash, digest);
    }
}

/// Wrapping a digest of the registered length gives a multihash, from which the
/// algorithm and the digest are read back unchanged.
pub proof fn lemma_envelope_is_multihash(hash: hashes::Hash, digest: Seq<u8>)
    requires
        digest.len() == hash.spec_size(),
    ensures
        is_multihash(envelope(hash, digest)),
        algorithm_of(envelope(hash, digest)) == hash,
        digest_part(envelope(hash, digest)) == digest,
{
    let bytes = envelope(hash, digest);
    assert(bytes[0] == hash.spec_code());
    assert(bytes[1] == hash.spec_size());
    assert(digest_part(bytes) =~= digest);
}

/// Encoding, then decoding: for every algorithm that has a routine and every input, what
/// `encode` yields is a multihash, its algorithm is the one that was asked for, and its
/// digest is the digest of the input.
pub proof fn lemma_encode_then_decode(hash: hashes::Hash, input: Seq<u8>)
    requires
        hash.has_encoder(),
    ensures
        encoding_of(hash, input) matches Some(bytes) && {
            &&& is_multihash(bytes)
            &&& decode_failure(bytes) is None
            &&& algorithm_of(bytes) == hash
            &&& Some(digest_part(bytes)) == digest_of(hash, input)
        },
{
    lemma_digest_of_has_registered_length(hash, input);
    lemma_envelope_is_multihash(hash, digest_of(hash, input).unwrap());
}

/// In whatever is a multihash, the digest is all but the two header bytes, and it is as
/// long as the registry says digests of the multihash's algorithm are.
pub proof fn lemma_multihash_lengths(bytes: Seq<u8>)
    requires
        is_multihash(bytes),
    ensures
        bytes.len() == 2 + digest_part(bytes).len(),
        digest_part(bytes).len() == algorithm_of(bytes).spec_size(),
        bytes[0] == algorithm_of(bytes).spec_code(),
        bytes[1] == algorithm_of(bytes).spec_size(),
        bytes[0] < HEADER_BYTE_LIMIT,
        bytes[1] < HEADER_BYTE_LIMIT,
{
}

/// Every byte string is exactly one of three things: a multihash, bytes with an unknown
/// tag, or bytes of a wrong length.
pub proof fn lemma_decode_outcomes_exclusive(bytes: Seq<u8>)
    ensures
        is_multihash(bytes) <==> decode_failure(bytes) is None,
        has_unknown_code(bytes) <==> decode_failure(bytes) == Some(DecodeError::UnknownCode),
        !(is_multihash(bytes) || has_unknown_code(bytes)) <==> decode_failure(bytes) == Some(
            DecodeError::BadInputLength,
        ),
        !(is_multihash(bytes) && has_unknown_code(bytes)),
{
}

} // verus!
