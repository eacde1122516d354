//! The algorithm registry: the closed set of hash algorithm identifiers, and for each one
//! its one-byte tag, the exact length of its digest, and its name.

use vstd::prelude::*;

verus! {

/// The hash algorithms that a multihash can name.
///
/// Every identifier has a tag and a digest length, so every identifier can be decoded.
/// Not every identifier can be encoded: see [`Hash::has_encoder`].
#[derive(PartialEq, Eq, Structural, Clone, Copy, Debug, Hash)]
pub enum Hash {
    /// SHA-1 (20-byte digest)
    SHA1,
    /// SHA-256 (32-byte digest)
    SHA2256,
    /// SHA-512 (64-byte digest)
    SHA2512,
    /// SHA3-512 (64-byte digest)
    SHA3512,
    /// SHA3-384 (48-byte digest)
    SHA3384,
    /// SHA3-256 (32-byte digest)
    SHA3256,
    /// SHA3-224 (28-byte digest)
    SHA3224,
    /// Keccak-224 (28-byte digest)
    Keccak224,
    /// Keccak-256 (32-byte digest)
    Keccak256,
    /// Keccak-384 (48-byte digest)
    Keccak384,
    /// Keccak-512 (64-byte digest)
    Keccak512,
    /// BLAKE2b (64-byte digest); decoding only
    Blake2b,
    /// BLAKE2s (32-byte digest); decoding only
    Blake2s,
}

/// What a header byte stays under. Tags and digest lengths are stored in a single byte
/// each, and values from 128 up are kept free for a wider encoding.
pub const HEADER_BYTE_LIMIT: u8 = 128;

impl Hash {
    /// The tag of this algorithm.
    pub open spec fn spec_code(self) -> u8 {
        match self {
            Hash::SHA1 => 0x11,
            Hash::SHA2256 => 0x12,
            Hash::SHA2512 => 0x13,
            Hash::SHA3512 => 0x14,
            Hash::SHA3384 => 0x15,
            Hash::SHA3256 => 0x16,
            Hash::SHA3224 => 0x17,
            Hash::Keccak224 => 0x1A,
            Hash::Keccak256 => 0x1B,
            Hash::Keccak384 => 0x1C,
            Hash::Keccak512 => 0x1D,
            Hash::Blake2b => 0x40,
            Hash::Blake2s => 0x41,
        }
    }

    /// The length in bytes of a digest of this algorithm.
    pub open spec fn spec_size(self) -> u8 {
        match self {
            Hash::SHA1 => 20,
            Hash::SHA2256 => 32,
            Hash::SHA2512 => 64,
            Hash::SHA3512 => 64,
            Hash::SHA3384 => 48,
            Hash::SHA3256 => 32,
            Hash::SHA3224 => 28,
            Hash::Keccak224 => 28,
            Hash::Keccak256 => 32,
            Hash::Keccak384 => 48,
            Hash::Keccak512 => 64,
            Hash::Blake2b => 64,
            Hash::Blake2s => 32,
        }
    }

    /// The human readable name of this algorithm.
    pub open spec fn spec_name(self) -> Seq<char> {
        match self {
            Hash::SHA1 => "SHA1"@,
            Hash::SHA2256 => "SHA2-256"@,
            Hash::SHA2512 => "SHA2-512"@,
            Hash::SHA3512 => "SHA3-512"@,
            Hash::SHA3384 => "SHA3-384"@,
            Hash::SHA3256 => "SHA3-256"@,
            Hash::SHA3224 => "SHA3-224"@,
            Hash::Keccak224 => "Keccak-224"@,
            Hash::Keccak256 => "Keccak-256"@,
            Hash::Keccak384 => "Keccak-384"@,
            Hash::Keccak512 => "Keccak-512"@,
            Hash::Blake2b => "Blake-2b"@,
            Hash::Blake2s => "Blake-2s"@,
        }
    }

    /// The algorithm that carries the tag `code`, if there is one.
    pub open spec fn spec_from_code(code: u8) -> Option<Hash> {
        if code == 0x11 {
            Some(Hash::SHA1)
        } else if code == 0x12 {
            Some(Hash::SHA2256)
        } else if code == 0x13 {
            Some(Hash::SHA2512)
        } else if code == 0x14 {
            Some(Hash::SHA3512)
        } else if code == 0x15 {
            Some(Hash::SHA3384)
        } else if code == 0x16 {
            Some(Hash::SHA3256)
        } else if code == 0x17 {
            Some(Hash::SHA3224)
        } else if code == 0x1A {
            Some(Hash::Keccak224)
        } else if code == 0x1B {
            Some(Hash::Keccak256)
        } else if code == 0x1C {
            Some(Hash::Keccak384)
        } else if code == 0x1D {
            Some(Hash::Keccak512)
        } else if code == 0x40 {
            Some(Hash::Blake2b)
        } else if code == 0x41 {
            Some(Hash::Blake2s)
        } else {
            None
        }
    }

    /// Whether a digest routine is bound to this algorithm, so that `encode` can hash
    /// with it. The BLAKE2 identifiers are registered without one.
    pub open spec fn has_encoder(self) -> bool {
        !(self is Blake2b) && !(self is Blake2s)
    }

    /// Get the corresponding hash code.
    pub fn code(&self) -> (code: u8)
        ensures
            code == self.spec_code(),
            code < HEADER_BYTE_LIMIT,
    {
        match self {
            Hash::SHA1 => 0x11,
            Hash::SHA2256 => 0x12,
            Hash::SHA2512 => 0x13,
            Hash::SHA3512 => 0x14,
            Hash::SHA3384 => 0x15,
            Hash::SHA3256 => 0x16,
            Hash::SHA3224 => 0x17,
            Hash::Keccak224 => 0x1A,
            Hash::Keccak256 => 0x1B,
            Hash::Keccak384 => 0x1C,
            Hash::Keccak512 => 0x1D,
            Hash::Blake2b => 0x40,
            Hash::Blake2s => 0x41,
        }
    }

    /// Get the hash length in bytes.
    pub fn size(&self) -> (size: u8)
        ensures
            size == self.spec_size(),
            size < HEADER_BYTE_LIMIT,
    {
        match self {
            Hash::SHA1 => 20,
            Hash::SHA2256 => 32,
            Hash::SHA2512 => 64,
            Hash::SHA3512 => 64,
            Hash::SHA3384 => 48,
            Hash::SHA3256 => 32,
            Hash::SHA3224 => 28,
            Hash::Keccak224 => 28,
            Hash::Keccak256 => 32,
            Hash::Keccak384 => 48,
            Hash::Keccak512 => 64,
            Hash::Blake2b => 64,
            Hash::Blake2s => 32,
        }
    }

    /// Get the human readable name.
    pub fn name(&self) -> (name: &'static str)
        ensures
            name@ == self.spec_name(),
    {
        match self {
            Hash::SHA1 => "SHA1",
            Hash::SHA2256 => "SHA2-256",
            Hash::SHA2512 => "SHA2-512",
            Hash::SHA3512 => "SHA3-512",
            Hash::SHA3384 => "SHA3-384",
            Hash::SHA3256 => "SHA3-256",
            Hash::SHA3224 => "SHA3-224",
            Hash::Keccak224 => "Keccak-224",
            Hash::Keccak256 => "Keccak-256",
            Hash::Keccak384 => "Keccak-384",
            Hash::Keccak512 => "Keccak-512",
            Hash::Blake2b => "Blake-2b",
            Hash::Blake2s => "Blake-2s",
        }
    }

    /// Returns the algorithm corresponding to a code, or `None` if no algorithm is matching.
    pub fn from_code(code: u8) -> (hash: Option<Hash>)
        ensures
            hash == Hash::spec_from_code(code),
    {
        match code {
            0x11 => Some(Hash::SHA1),
            0x12 => Some(Hash::SHA2256),
            0x13 => Some(Hash::SHA2512),
            0x14 => Some(Hash::SHA3512),
            0x15 => Some(Hash::SHA3384),
            0x16 => Some(Hash::SHA3256),
            0x17 => Some(Hash::SHA3224),
            0x1A => Some(Hash::Keccak224),
            0x1B => Some(Hash::Keccak256),
            0x1C => Some(Hash::Keccak384),
            0x1D => Some(Hash::Keccak512),
            0x40 => Some(Hash::Blake2b),
            0x41 => Some(Hash::Blake2s),
            _ => None,
        }
    }
}

/// Looking an algorithm's own tag up gives that algorithm back.
pub proof fn lemma_from_code_of_code(hash: Hash)
    ensures
        Hash::spec_from_code(hash.spec_code()) == Some(hash),
{
}

/// A tag resolves to an algorithm exactly when it is that algorithm's tag.
pub proof fn lemma_from_code_iff_code(code: u8, hash: Hash)
    ensures
        Hash::spec_from_code(code) == Some(hash) <==> hash.spec_code() == code,
{
}

/// A tag resolves to nothing exactly when no algorithm carries it.
pub proof fn lemma_from_code_none_iff_unassigned(code: u8)
    ensures
        Hash::spec_from_code(code) is None <==> forall|hash: Hash|
            #[trigger] hash.spec_code() != code,
{
    if Hash::spec_from_code(code) is Some {
        let hash = Hash::spec_from_code(code).unwrap();
        assert(hash.spec_code() == code);
    }
}

/// No two algorithms share a tag.
pub proof fn lemma_codes_unique(a: Hash, b: Hash)
    requires
        a.spec_code() == b.spec_code(),
    ensures
        a == b,
{
}

/// Every tag and every digest length fits the one-byte header field it is written to.
pub proof fn lemma_header_fields_fit(hash: Hash)
    ensures
        hash.spec_code() < HEADER_BYTE_LIMIT,
        hash.spec_size() < HEADER_BYTE_LIMIT,
{
}

} // verus!
