//! Content hashing: a streaming SHA-256 accumulator and lower-case hex text.
//!
//! The hash function itself is not defined here. Its result has a name,
//! [`sha256`], and everything the library states about a content hash is
//! stated over that name.

use vstd::prelude::*;

verus! {

/// The SHA-256 digest of a byte string, as `sha2::Sha256` computes it.
pub uninterp spec fn sha256(data: Seq<u8>) -> Seq<u8>;

/// The bytes a hasher has been fed since it was made, in order.
pub uninterp spec fn absorbed(hasher: Hasher) -> Seq<u8>;

/// A streaming SHA-256 accumulator around `sha2::Sha256`. What it holds
/// is known only as [`absorbed`]: the bytes it was fed.
#[verifier::external_body]
pub struct Hasher {
    inner: sha2::Sha256,
}

/// The lower-case hex digit of a value below 16.
pub open spec fn hex_digit(nibble: int) -> char {
    if nibble == 0 {
        '0'
    } else if nibble == 1 {
        '1'
    } else if nibble == 2 {
        '2'
    } else if nibble == 3 {
        '3'
    } else if nibble == 4 {
        '4'
    } else if nibble == 5 {
        '5'
    } else if nibble == 6 {
        '6'
    } else if nibble == 7 {
        '7'
    } else if nibble == 8 {
        '8'
    } else if nibble == 9 {
        '9'
    } else if nibble == 10 {
        'a'
    } else if nibble == 11 {
        'b'
    } else if nibble == 12 {
        'c'
    } else if nibble == 13 {
        'd'
    } else if nibble == 14 {
        'e'
    } else {
        'f'
    }
}

/// Lower-case hex text of a byte string: two digits per byte, the high
/// half first.
pub open spec fn hex_lower(bytes: Seq<u8>) -> Seq<char> {
    Seq::new(
        2 * bytes.len(),
        |i: int|
            if i % 2 == 0 {
                hex_digit(bytes[i / 2] as int / 16)
            } else {
                hex_digit(bytes[i / 2] as int % 16)
            },
    )
}

/// The content hash of a byte string as the store records it: the hex text
/// of its SHA-256 digest.
pub open spec fn content_hash(data: Seq<u8>) -> Seq<char> {
    hex_lower(sha256(data))
}

impl Hasher {
    /// Calls `sha2::Digest::new` for `Sha256`: a hasher that has been fed
    /// nothing.
    #[verifier::external_body]
    pub(crate) fn new() -> (hasher: Hasher)
        ensures
            absorbed(hasher) == Seq::<u8>::empty(),
    {
        Hasher { inner: <sha2::Sha256 as sha2::Digest>::new() }
    }

    /// Calls `sha2::Digest::update`: the chunk is appended to what the
    /// hasher has been fed.
    #[verifier::external_body]
    pub(crate) fn update(&mut self, chunk: &[u8])
        ensures
            absorbed(*final(self)) == absorbed(*old(self)) + chunk@,
    {
        sha2::Digest::update(&mut self.inner, chunk);
    }

    /// Calls `sha2::Digest::finalize`: the SHA-256 digest of everything the
    /// hasher was fed, which is 32 bytes long.
    #[verifier::external_body]
    pub(crate) fn finalize(self) -> (digest: Vec<u8>)
        ensures
            digest@ == sha256(absorbed(self)),
            digest@.len() == 32,
    {
        sha2::Digest::finalize(self.inner).to_vec()
    }
}

/// Calls `hex::encode`: each byte becomes two lower-case hex digits.
#[verifier::external_body]
pub(crate) fn hex_encode(bytes: &[u8]) -> (text: String)
    ensures
        text@ == hex_lower(bytes@),
{
    hex::encode(bytes)
}

} // verus!
