use multihash::hashes;
use multihash::{encode, DecodeError, DecodeOwnedError, Multihash, MultihashRef};

fn hex(text: &str) -> Vec<u8> {
    (0..text.len())
        .step_by(2)
        .map(|at| u8::from_str_radix(&text[at..at + 2], 16).unwrap())
        .collect()
}

fn all_algorithms() -> Vec<hashes::Hash> {
    vec![
        hashes::Hash::SHA1,
        hashes::Hash::SHA2256,
        hashes::Hash::SHA2512,
        hashes::Hash::SHA3512,
        hashes::Hash::SHA3384,
        hashes::Hash::SHA3256,
        hashes::Hash::SHA3224,
        hashes::Hash::Keccak224,
        hashes::Hash::Keccak256,
        hashes::Hash::Keccak384,
        hashes::Hash::Keccak512,
        hashes::Hash::Blake2b,
        hashes::Hash::Blake2s,
    ]
}

/// Header of `hash`, then a digest of the right length made of the bytes 0, 1, 2, ...
fn well_formed(hash: hashes::Hash) -> Vec<u8> {
    let mut bytes = vec![hash.code(), hash.size()];
    bytes.extend(0..hash.size());
    bytes
}

#[test]
fn decode_empty_input() {
    assert_eq!(MultihashRef::from_slice(&[]), Err(DecodeError::BadInputLength));
    assert_eq!(
        Multihash::from_bytes(Vec::new()),
        Err(DecodeOwnedError { error: DecodeError::BadInputLength, data: Vec::new() })
    );
}

#[test]
fn decode_unknown_tag() {
    assert_eq!(MultihashRef::from_slice(&[0x7F, 0x00]), Err(DecodeError::UnknownCode));
    assert_eq!(
        Multihash::from_bytes(vec![0x7F, 0x00]).unwrap_err().error,
        DecodeError::UnknownCode
    );
}

#[test]
fn decode_unknown_tag_whatever_follows() {
    assert_eq!(MultihashRef::from_slice(&[0x00, 0x00]), Err(DecodeError::UnknownCode));
    assert_eq!(MultihashRef::from_slice(&[0x10, 0x14]), Err(DecodeError::UnknownCode));
    assert_eq!(MultihashRef::from_slice(&[0x18, 0x7F, 1, 2, 3]), Err(DecodeError::UnknownCode));
    let mut bytes = well_formed(hashes::Hash::SHA2256);
    bytes[0] = 0x19;
    assert_eq!(MultihashRef::from_slice(&bytes), Err(DecodeError::UnknownCode));
}

#[test]
fn decode_sha2_256_with_31_bytes_of_digest() {
    let mut bytes = vec![0x12, 0x20];
    bytes.extend(std::iter::repeat(0xAB).take(31));
    assert_eq!(MultihashRef::from_slice(&bytes), Err(DecodeError::BadInputLength));
    assert_eq!(
        Multihash::from_bytes(bytes.clone()),
        Err(DecodeOwnedError { error: DecodeError::BadInputLength, data: bytes })
    );
}

#[test]
fn decode_sha2_256_with_33_bytes_of_digest() {
    let mut bytes = vec![0x12, 0x20];
    bytes.extend(std::iter::repeat(0xAB).take(33));
    assert_eq!(MultihashRef::from_slice(&bytes), Err(DecodeError::BadInputLength));
}

#[test]
fn decode_high_bit_in_tag() {
    assert_eq!(MultihashRef::from_slice(&[0x80, 0x00]), Err(DecodeError::BadInputLength));
    assert_eq!(MultihashRef::from_slice(&[0xFF, 0x00]), Err(DecodeError::BadInputLength));
    assert_eq!(
        MultihashRef::from_slice(&[0x80, 0x00, 1, 2, 3, 4]),
        Err(DecodeError::BadInputLength)
    );
    // the tag of SHA2-256 with the high bit set, over an otherwise well-formed body
    let mut bytes = well_formed(hashes::Hash::SHA2256);
    bytes[0] = 0x92;
    assert_eq!(MultihashRef::from_slice(&bytes), Err(DecodeError::BadInputLength));
}

#[test]
fn decode_high_bit_in_length() {
    assert_eq!(MultihashRef::from_slice(&[0x12, 0x80]), Err(DecodeError::BadInputLength));
    // checked before the tag is looked up
    assert_eq!(MultihashRef::from_slice(&[0x7F, 0x80]), Err(DecodeError::BadInputLength));
    assert_eq!(MultihashRef::from_slice(&[0x7F, 0xFF]), Err(DecodeError::BadInputLength));
}

#[test]
fn decode_header_cut_short() {
    assert_eq!(MultihashRef::from_slice(&[0x12]), Err(DecodeError::BadInputLength));
    assert_eq!(MultihashRef::from_slice(&[0x7F]), Err(DecodeError::BadInputLength));
    assert_eq!(MultihashRef::from_slice(&[0x80]), Err(DecodeError::BadInputLength));
    assert_eq!(
        Multihash::from_bytes(vec![0x12]),
        Err(DecodeOwnedError { error: DecodeError::BadInputLength, data: vec![0x12] })
    );
}

#[test]
fn decode_header_alone() {
    for hash in all_algorithms() {
        assert_eq!(
            MultihashRef::from_slice(&[hash.code(), hash.size()]),
            Err(DecodeError::BadInputLength),
            "{:?}",
            hash
        );
    }
}

#[test]
fn decode_length_byte_that_is_not_the_digest_length() {
    // as long as a SHA2-256 multihash must be, but the length byte says 31
    let mut bytes = well_formed(hashes::Hash::SHA2256);
    bytes[1] = 0x1F;
    assert_eq!(MultihashRef::from_slice(&bytes), Err(DecodeError::BadInputLength));
    // the length byte is true of what follows, but SHA2-256 digests are not that long
    let mut bytes = vec![0x12, 0x14];
    bytes.extend(0..20);
    assert_eq!(MultihashRef::from_slice(&bytes), Err(DecodeError::BadInputLength));
    // header of SHA1 over a SHA2-256 sized digest
    let mut bytes = well_formed(hashes::Hash::SHA2256);
    bytes[0] = 0x11;
    assert_eq!(MultihashRef::from_slice(&bytes), Err(DecodeError::BadInputLength));
}

#[test]
fn decode_accepts_every_registered_algorithm() {
    for hash in all_algorithms() {
        let bytes = well_formed(hash);
        let view = MultihashRef::from_slice(&bytes).unwrap();
        assert_eq!(view.algorithm(), hash);
        assert_eq!(view.as_bytes(), &bytes[..]);
        assert_eq!(view.digest(), &bytes[2..]);

        let owned = Multihash::from_bytes(bytes.clone()).unwrap();
        assert_eq!(owned.algorithm(), hash);
        assert_eq!(owned.as_bytes(), &bytes[..]);
        assert_eq!(owned.digest(), &bytes[2..]);
        assert_eq!(owned.into_bytes(), bytes);
    }
}

#[test]
fn decode_one_byte_more_or_less_is_rejected() {
    for hash in all_algorithms() {
        let mut long = well_formed(hash);
        long.push(0);
        assert_eq!(MultihashRef::from_slice(&long), Err(DecodeError::BadInputLength));
        let mut short = well_formed(hash);
        short.pop();
        assert_eq!(MultihashRef::from_slice(&short), Err(DecodeError::BadInputLength));
    }
}

#[test]
fn decode_known_multihashes() {
    let bytes = hex("11147c8357577f51d4f0a8d393aa1aaafb28863d9421");
    let view = MultihashRef::from_slice(&bytes).unwrap();
    assert_eq!(view.algorithm(), hashes::Hash::SHA1);
    assert_eq!(view.digest(), &hex("7c8357577f51d4f0a8d393aa1aaafb28863d9421")[..]);

    let bytes = hex("1b2047173285a8d7341e5e972fc677286384f802f8ef42a5ec5f03bbfa254cb01fad");
    let owned = Multihash::from_bytes(bytes).unwrap();
    assert_eq!(owned.algorithm(), hashes::Hash::Keccak256);
    assert_eq!(
        owned.digest(),
        &hex("47173285a8d7341e5e972fc677286384f802f8ef42a5ec5f03bbfa254cb01fad")[..]
    );
}

#[test]
fn decode_blake2_without_an_encoder() {
    let mut bytes = vec![0x40, 64];
    bytes.extend(std::iter::repeat(7).take(64));
    let view = MultihashRef::from_slice(&bytes).unwrap();
    assert_eq!(view.algorithm(), hashes::Hash::Blake2b);
    assert_eq!(view.digest().len(), 64);

    let mut bytes = vec![0x41, 32];
    bytes.extend(std::iter::repeat(7).take(32));
    let view = MultihashRef::from_slice(&bytes).unwrap();
    assert_eq!(view.algorithm(), hashes::Hash::Blake2s);
    assert_eq!(view.digest().len(), 32);
}

#[test]
fn from_bytes_gives_rejected_bytes_back() {
    let bytes = vec![0x7F, 0x00, 9, 8, 7];
    let rejected = Multihash::from_bytes(bytes.clone()).unwrap_err();
    assert_eq!(rejected.error, DecodeError::UnknownCode);
    assert_eq!(rejected.data, bytes);

    let bytes = vec![0x12, 0x20, 1, 2, 3];
    let rejected = Multihash::from_bytes(bytes.clone()).unwrap_err();
    assert_eq!(rejected.error, DecodeError::BadInputLength);
    assert_eq!(rejected.data, bytes);
}

#[test]
fn lengths_of_a_decoded_multihash() {
    for hash in all_algorithms() {
        let bytes = well_formed(hash);
        let view = MultihashRef::from_slice(&bytes).unwrap();
        assert_eq!(view.as_bytes().len(), 2 + view.digest().len());
        assert_eq!(view.digest().len(), view.algorithm().size() as usize);
        let owned = view.to_owned();
        assert_eq!(owned.as_bytes().len(), 2 + owned.digest().len());
        assert_eq!(owned.digest().len(), owned.algorithm().size() as usize);
    }
}

#[test]
fn owned_and_view_are_equal_both_ways() {
    let owned = encode(hashes::Hash::SHA2256, b"hello world").unwrap();
    let bytes = owned.as_bytes().to_vec();
    let view = MultihashRef::from_slice(&bytes).unwrap();
    assert!(owned == view);
    assert!(view == owned);
    assert!(owned == owned.as_ref());
    assert!(owned.as_ref() == owned);
    assert!(view == owned.as_ref());
    assert!(view.to_owned() == owned);
}

#[test]
fn different_bytes_are_unequal_both_ways() {
    let owned = encode(hashes::Hash::SHA2256, b"hello world").unwrap();
    let other = encode(hashes::Hash::SHA2256, b"beep boop").unwrap();
    let sha3 = encode(hashes::Hash::SHA3256, b"hello world").unwrap();
    assert!(owned != other);
    assert!(owned != other.as_ref());
    assert!(other.as_ref() != owned);
    assert!(owned.as_ref() != other.as_ref());
    assert!(owned != sha3.as_ref());
    assert!(sha3.as_ref() != owned);
    // same digest, different tag
    let mut bytes = owned.as_bytes().to_vec();
    bytes[0] = 0x16;
    let retagged = MultihashRef::from_slice(&bytes).unwrap();
    assert_eq!(retagged.digest(), owned.digest());
    assert!(retagged != owned);
    assert!(owned != retagged);
    // different lengths
    let sha1 = encode(hashes::Hash::SHA1, b"hello world").unwrap();
    assert!(sha1 != owned);
    assert!(sha1.as_ref() != owned);
}

#[test]
fn to_owned_copies_the_bytes() {
    let bytes = hex("11147c8357577f51d4f0a8d393aa1aaafb28863d9421");
    let owned = {
        let scratch = bytes.clone();
        let view = MultihashRef::from_slice(&scratch).unwrap();
        view.to_owned()
    };
    assert_eq!(owned.into_bytes(), bytes);
}

#[test]
fn as_ref_reads_the_same_multihash() {
    let owned = encode(hashes::Hash::Keccak512, b"hello world").unwrap();
    let view = owned.as_ref();
    assert_eq!(view.as_bytes(), owned.as_bytes());
    assert_eq!(view.digest(), owned.digest());
    assert_eq!(view.algorithm(), owned.algorithm());
    let copy = view;
    assert_eq!(copy, view);
}

#[test]
fn clone_is_equal_to_its_source() {
    let owned = encode(hashes::Hash::SHA1, b"hello world").unwrap();
    let copy = owned.clone();
    assert_eq!(copy, owned);
    assert_eq!(copy.into_bytes(), owned.into_bytes());
}

#[test]
fn rejected_bytes_compare_by_error_and_data() {
    let a = DecodeOwnedError { error: DecodeError::UnknownCode, data: vec![0x7F, 0] };
    let same = DecodeOwnedError { error: DecodeError::UnknownCode, data: vec![0x7F, 0] };
    let other_error = DecodeOwnedError { error: DecodeError::BadInputLength, data: vec![0x7F, 0] };
    let other_data = DecodeOwnedError { error: DecodeError::UnknownCode, data: vec![0x7F, 1] };
    let longer = DecodeOwnedError { error: DecodeError::UnknownCode, data: vec![0x7F, 0, 0] };
    assert!(a == same);
    assert!(a != other_error);
    assert!(a != other_data);
    assert!(a != longer);
    assert!(a.clone() == a);
    assert_eq!(a.clone().data, vec![0x7F, 0]);
}
