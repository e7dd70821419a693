//! Digest algorithms and the hex digest of an identifier.
//!
//! The digests themselves are computed by the `rocfl` crate; this module gives
//! the result a name that contracts can speak of, and records its width.

use vstd::prelude::*;
use crate::text::str_eq;

verus! {

/// The digest algorithms a hashed layout may be configured with.
#[derive(Clone, Copy, Debug, PartialEq, Eq, Structural)]
pub enum DigestAlgorithm {
    Md5,
    Sha1,
    Sha256,
    Sha512,
    Sha512_256,
    Blake2b512,
    Blake2b160,
    Blake2b256,
    Blake2b384,
}

/// Number of hex characters in a digest of the given algorithm.
pub open spec fn digest_width(algorithm: DigestAlgorithm) -> nat {
    match algorithm {
        DigestAlgorithm::Md5 => 32,
        DigestAlgorithm::Sha1 => 40,
        DigestAlgorithm::Sha256 => 64,
        DigestAlgorithm::Sha512 => 128,
        DigestAlgorithm::Sha512_256 => 64,
        DigestAlgorithm::Blake2b512 => 128,
        DigestAlgorithm::Blake2b160 => 40,
        DigestAlgorithm::Blake2b256 => 64,
        DigestAlgorithm::Blake2b384 => 96,
    }
}

/// The algorithm that a configuration name selects, if any.
pub open spec fn algorithm_of_name(name: Seq<char>) -> Option<DigestAlgorithm> {
    if name == "md5"@ {
        Some(DigestAlgorithm::Md5)
    } else if name == "sha1"@ {
        Some(DigestAlgorithm::Sha1)
    } else if name == "sha256"@ {
        Some(DigestAlgorithm::Sha256)
    } else if name == "sha512"@ {
        Some(DigestAlgorithm::Sha512)
    } else if name == "sha512/256"@ {
        Some(DigestAlgorithm::Sha512_256)
    } else if name == "blake2b-512"@ {
        Some(DigestAlgorithm::Blake2b512)
    } else if name == "blake2b-160"@ {
        Some(DigestAlgorithm::Blake2b160)
    } else if name == "blake2b-256"@ {
        Some(DigestAlgorithm::Blake2b256)
    } else if name == "blake2b-384"@ {
        Some(DigestAlgorithm::Blake2b384)
    } else {
        None
    }
}

/// The configuration name of an algorithm.
pub open spec fn name_of_algorithm(algorithm: DigestAlgorithm) -> Seq<char> {
    match algorithm {
        DigestAlgorithm::Md5 => "md5"@,
        DigestAlgorithm::Sha1 => "sha1"@,
        DigestAlgorithm::Sha256 => "sha256"@,
        DigestAlgorithm::Sha512 => "sha512"@,
        DigestAlgorithm::Sha512_256 => "sha512/256"@,
        DigestAlgorithm::Blake2b512 => "blake2b-512"@,
        DigestAlgorithm::Blake2b160 => "blake2b-160"@,
        DigestAlgorithm::Blake2b256 => "blake2b-256"@,
        DigestAlgorithm::Blake2b384 => "blake2b-384"@,
    }
}

/// A lowercase hexadecimal digit.
pub open spec fn is_lower_hex_char(c: char) -> bool {
    ('0' <= c && c <= '9') || ('a' <= c && c <= 'f')
}

/// Every character is a lowercase hexadecimal digit.
pub open spec fn is_lower_hex(s: Seq<char>) -> bool {
    forall|i: int| 0 <= i < s.len() ==> is_lower_hex_char(#[trigger] s[i])
}

/// The lowercase hex digest of the UTF-8 bytes of `data` under `algorithm`.
pub uninterp spec fn hex_digest(algorithm: DigestAlgorithm, data: Seq<char>) -> Seq<char>;

impl DigestAlgorithm {
    /// Looks an algorithm up by its configuration name.
    pub fn from_name(name: &str) -> (r: Option<DigestAlgorithm>)
        ensures
            r == algorithm_of_name(name@),
    {
        if str_eq(name, "md5") {
            Some(DigestAlgorithm::Md5)
        } else if str_eq(name, "sha1") {
            Some(DigestAlgorithm::Sha1)
        } else if str_eq(name, "sha256") {
            Some(DigestAlgorithm::Sha256)
        } else if str_eq(name, "sha512") {
            Some(DigestAlgorithm::Sha512)
        } else if str_eq(name, "sha512/256") {
            Some(DigestAlgorithm::Sha512_256)
        } else if str_eq(name, "blake2b-512") {
            Some(DigestAlgorithm::Blake2b512)
        } else if str_eq(name, "blake2b-160") {
            Some(DigestAlgorithm::Blake2b160)
        } else if str_eq(name, "blake2b-256") {
            Some(DigestAlgorithm::Blake2b256)
        } else if str_eq(name, "blake2b-384") {
            Some(DigestAlgorithm::Blake2b384)
        } else {
            None
        }
    }

    /// The configuration name of this algorithm.
    pub fn name(&self) -> (n: &'static str)
        ensures
            n@ == name_of_algorithm(*self),
    {
        match self {
            DigestAlgorithm::Md5 => "md5",
            DigestAlgorithm::Sha1 => "sha1",
            DigestAlgorithm::Sha256 => "sha256",
            DigestAlgorithm::Sha512 => "sha512",
            DigestAlgorithm::Sha512_256 => "sha512/256",
            DigestAlgorithm::Blake2b512 => "blake2b-512",
            DigestAlgorithm::Blake2b160 => "blake2b-160",
            DigestAlgorithm::Blake2b256 => "blake2b-256",
            DigestAlgorithm::Blake2b384 => "blake2b-384",
        }
    }

    /// Number of hex characters in a digest of this algorithm.
    pub fn width(&self) -> (w: usize)
        ensures
            w == digest_width(*self),
    {
        match self {
            DigestAlgorithm::Md5 => 32,
            DigestAlgorithm::Sha1 => 40,
            DigestAlgorithm::Sha256 => 64,
            DigestAlgorithm::Sha512 => 128,
            DigestAlgorithm::Sha512_256 => 64,
            DigestAlgorithm::Blake2b512 => 128,
            DigestAlgorithm::Blake2b160 => 40,
            DigestAlgorithm::Blake2b256 => 64,
            DigestAlgorithm::Blake2b384 => 96,
        }
    }
}

/// Calls `rocfl::ocfl::DigestAlgorithm::hash_hex` on the UTF-8 bytes of `data`.
///
/// Trusted: the result is the digest named by [`hex_digest`]; it is written in
/// lowercase hex digits, two per digest byte, so its length is the algorithm's
/// [`digest_width`]. The outside function can only fail when its reader fails,
/// and a byte slice in memory never does.
#[verifier::external_body]
pub(crate) fn hash_hex(algorithm: DigestAlgorithm, data: &str) -> (hex: String)
    ensures
        hex@ == hex_digest(algorithm, data@),
        hex@.len() == digest_width(algorithm),
        is_lower_hex(hex@),
{
    let outside = match algorithm {
        DigestAlgorithm::Md5 => rocfl::ocfl::DigestAlgorithm::Md5,
        DigestAlgorithm::Sha1 => rocfl::ocfl::DigestAlgorithm::Sha1,
        DigestAlgorithm::Sha256 => rocfl::ocfl::DigestAlgorithm::Sha256,
        DigestAlgorithm::Sha512 => rocfl::ocfl::DigestAlgorithm::Sha512,
        DigestAlgorithm::Sha512_256 => rocfl::ocfl::DigestAlgorithm::Sha512_256,
        DigestAlgorithm::Blake2b512 => rocfl::ocfl::DigestAlgorithm::Blake2b512,
        DigestAlgorithm::Blake2b160 => rocfl::ocfl::DigestAlgorithm::Blake2b160,
        DigestAlgorithm::Blake2b256 => rocfl::ocfl::DigestAlgorithm::Blake2b256,
        DigestAlgorithm::Blake2b384 => rocfl::ocfl::DigestAlgorithm::Blake2b384,
    };
    outside.hash_hex(&mut data.as_bytes()).map(String::from).unwrap_or_default()
}

} // verus!
