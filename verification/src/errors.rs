//! The ways encoding and decoding fail. Encoding and decoding fail for unrelated reasons,
//! so each has an error type of its own.

use vstd::prelude::*;

verus! {

/// Error that can happen when encoding some bytes into a multihash.
#[derive(Debug, Copy, Clone, PartialEq, Eq, Structural)]
pub enum EncodeError {
    /// The requested hash algorithm has no digest routine bound to it.
    UnsupportedType,
}

/// Error that can happen when decoding some bytes.
#[derive(Debug, Copy, Clone, PartialEq, Eq, Structural)]
pub enum DecodeError {
    /// The header is malformed, or the input is not as long as its algorithm's digest
    /// plus the header, or the length byte is not that digest's length.
    BadInputLength,
    /// The tag names no registered algorithm.
    UnknownCode,
}

/// Error that can happen when decoding some bytes that the caller gave away.
///
/// Holds the rejected bytes, so that the caller gets its allocation back.
#[derive(Debug, Eq)]
pub struct DecodeOwnedError {
    /// The actual error.
    pub error: DecodeError,
    /// The data whose decoding was attempted.
    pub data: Vec<u8>,
}

impl EncodeError {
    /// What [`EncodeError::message`] returns.
    pub open spec fn spec_message(self) -> Seq<char> {
        "This type is not supported yet"@
    }

    /// A sentence that describes the error.
    pub fn message(&self) -> (msg: &'static str)
        ensures
            msg@ == self.spec_message(),
    {
        "This type is not supported yet"
    }
}

impl DecodeError {
    /// What [`DecodeError::message`] returns.
    pub open spec fn spec_message(self) -> Seq<char> {
        match self {
            DecodeError::BadInputLength => "Not matching input length"@,
            DecodeError::UnknownCode => "Found unknown code"@,
        }
    }

    /// A sentence that describes the error.
    pub fn message(&self) -> (msg: &'static str)
        ensures
            msg@ == self.spec_message(),
    {
        match self {
            DecodeError::BadInputLength => "Not matching input length",
            DecodeError::UnknownCode => "Found unknown code",
        }
    }
}

impl Clone for DecodeOwnedError {
    fn clone(&self) -> (copy: DecodeOwnedError)
        ensures
            copy.error == self.error,
            copy.data@ == self.data@,
    {
        DecodeOwnedError { error: self.error, data: self.data.clone() }
    }
}

impl PartialEq for DecodeOwnedError {
    fn eq(&self, other: &DecodeOwnedError) -> (equal: bool) {
        let same_data = self.data == other.data;
        assert(same_data == (self.data@ =~= other.data@));
        self.error == other.error && same_data
    }
}

/// Two such errors are equal when they hold the same error and the same bytes.
impl vstd::std_specs::cmp::PartialEqSpecImpl for DecodeOwnedError {
    open spec fn obeys_eq_spec() -> bool {
        true
    }

    open spec fn eq_spec(&self, other: &DecodeOwnedError) -> bool {
        self.error == other.error && self.data@ == other.data@
    }
}

impl DecodeOwnedError {
    /// A sentence that describes the error: that of the error it holds.
    pub fn message(&self) -> (msg: &'static str)
        ensures
            msg@ == self.error.spec_message(),
    {
        self.error.message()
    }
}

} // verus!
