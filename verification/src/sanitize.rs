//! Turning object identifiers into filesystem-safe path segments.
//!
//! An identifier is percent-encoded byte by byte over its UTF-8 form. Letters,
//! digits, `-` and `_` are kept; `.` and space are kept except at either end;
//! every other byte becomes `%` followed by two lowercase hex digits. The
//! encoding can be undone, so two identifiers never share a segment.

use vstd::prelude::*;
use vstd::utf8::*;
use crate::error::{ErrorKind, PyRocflError};
use crate::text::push_char;

verus! {

/// Bytes that are always written as they are: ASCII letters, digits, `-`, `_`.
pub open spec fn is_unreserved(b: u8) -> bool {
    (0x30 <= b <= 0x39) || (0x41 <= b <= 0x5a) || (0x61 <= b <= 0x7a) || b == 0x2d || b == 0x5f
}

/// Bytes that are safe inside a segment but not at its ends: `.` and space.
pub open spec fn is_inner_only(b: u8) -> bool {
    b == 0x2e || b == 0x20
}

/// Whether the byte at position `i` is written as it is.
pub open spec fn is_kept(bytes: Seq<u8>, i: int) -> bool {
    is_unreserved(bytes[i]) || (is_inner_only(bytes[i]) && 0 < i < bytes.len() - 1)
}

/// The lowercase hex digit for a value below sixteen.
pub open spec fn hex_digit(n: u8) -> char {
    if n < 10 {
        (0x30 + n) as char
    } else {
        (0x57 + n) as char
    }
}

/// The escape sequence for a byte: `%` and two lowercase hex digits.
pub open spec fn escaped(b: u8) -> Seq<char> {
    seq!['%', hex_digit(b / 16), hex_digit(b % 16)]
}

/// What the byte at position `i` becomes.
pub open spec fn encoded_byte(bytes: Seq<u8>, i: int) -> Seq<char> {
    if is_kept(bytes, i) {
        seq![bytes[i] as char]
    } else {
        escaped(bytes[i])
    }
}

/// The encoding of the bytes from position `i` to the end.
pub open spec fn encoded_from(bytes: Seq<u8>, i: int) -> Seq<char>
    decreases bytes.len() - i,
{
    if 0 <= i < bytes.len() {
        encoded_byte(bytes, i) + encoded_from(bytes, i + 1)
    } else {
        Seq::empty()
    }
}

/// The path segment that stands for an identifier.
pub open spec fn sanitized(identifier: Seq<char>) -> Seq<char> {
    encoded_from(encode_utf8(identifier), 0)
}

/// The message carried by the error for an empty identifier.
pub open spec fn empty_identifier_message() -> Seq<char> {
    "object identifier must not be empty"@
}

/// What `sanitize` returns for an identifier.
pub open spec fn sanitize_result(identifier: Seq<char>, r: Result<String, PyRocflError>) -> bool {
    if identifier.len() == 0 {
        r matches Err(e) && e.kind == ErrorKind::InvalidIdentifier && e.message@
            == empty_identifier_message()
    } else {
        r matches Ok(p) && p@ == sanitized(identifier)
    }
}

/// The value of a lowercase hex digit; zero for any other character.
pub open spec fn hex_value(c: char) -> int {
    if '0' <= c && c <= '9' {
        c as int - 0x30
    } else if 'a' <= c && c <= 'f' {
        c as int - 0x57
    } else {
        0
    }
}

/// The bytes that a percent-encoded segment stands for.
pub open spec fn unescaped(path: Seq<char>) -> Seq<u8>
    decreases path.len(),
{
    if path.len() == 0 {
        Seq::empty()
    } else if path[0] == '%' && path.len() >= 3 {
        seq![(hex_value(path[1]) * 16 + hex_value(path[2])) as u8] + unescaped(path.skip(3))
    } else {
        seq![path[0] as u8] + unescaped(path.skip(1))
    }
}

/// The identifier that a segment stands for.
pub open spec fn desanitized(path: Seq<char>) -> Seq<char> {
    decode_utf8(unescaped(path))
}

/// Characters that may occur in a segment.
pub open spec fn is_segment_char(c: char) -> bool {
    ('0' <= c && c <= '9') || ('A' <= c && c <= 'Z') || ('a' <= c && c <= 'z') || c == '-' || c
        == '_' || c == '.' || c == ' ' || c == '%'
}

/// A non-empty run of segment characters that neither starts nor ends with
/// `.` or space. Such a run holds no path separator and is neither `.` nor `..`.
pub open spec fn is_safe_segment(s: Seq<char>) -> bool {
    &&& s.len() > 0
    &&& forall|i: int| 0 <= i < s.len() ==> is_segment_char(#[trigger] s[i])
    &&& s[0] != '.' && s[0] != ' '
    &&& s[s.len() - 1] != '.' && s[s.len() - 1] != ' '
}

proof fn lemma_hex_digit(n: u8)
    requires
        n < 16,
    ensures
        hex_value(hex_digit(n)) == n,
        is_segment_char(hex_digit(n)),
        hex_digit(n) != '.' && hex_digit(n) != ' ' && hex_digit(n) != '%',
{
}

proof fn lemma_encoded_byte(bytes: Seq<u8>, i: int)
    requires
        0 <= i < bytes.len(),
    ensures
        1 <= encoded_byte(bytes, i).len() <= 3,
        forall|k: int|
            0 <= k < encoded_byte(bytes, i).len() ==> is_segment_char(
                #[trigger] encoded_byte(bytes, i)[k],
            ),
        i == 0 ==> encoded_byte(bytes, i)[0] != '.' && encoded_byte(bytes, i)[0] != ' ',
        i == bytes.len() - 1 ==> encoded_byte(bytes, i).last() != '.' && encoded_byte(
            bytes,
            i,
        ).last() != ' ',
{
    let b = bytes[i];
    lemma_hex_digit(b / 16);
    lemma_hex_digit(b % 16);
}

proof fn lemma_unescape_step(bytes: Seq<u8>, i: int, rest: Seq<char>)
    requires
        0 <= i < bytes.len(),
    ensures
        unescaped(encoded_byte(bytes, i) + rest) == seq![bytes[i]] + unescaped(rest),
{
    let b = bytes[i];
    let whole = encoded_byte(bytes, i) + rest;
    lemma_hex_digit(b / 16);
    lemma_hex_digit(b % 16);
    if is_kept(bytes, i) {
        assert(whole[0] == b as char);
        assert(whole[0] != '%');
        assert(whole.skip(1) == rest);
        assert(whole[0] as u8 == b);
    } else {
        assert(whole[0] == '%');
        assert(whole[1] == hex_digit(b / 16));
        assert(whole[2] == hex_digit(b % 16));
        assert(whole.skip(3) == rest);
        assert((b / 16) * 16 + b % 16 == b);
    }
}

proof fn lemma_unescape_encoded(bytes: Seq<u8>, i: int)
    requires
        0 <= i <= bytes.len(),
    ensures
        unescaped(encoded_from(bytes, i)) == bytes.skip(i),
    decreases bytes.len() - i,
{
    if i < bytes.len() {
        lemma_unescape_encoded(bytes, i + 1);
        lemma_unescape_step(bytes, i, encoded_from(bytes, i + 1));
        assert(seq![bytes[i]] + bytes.skip(i + 1) == bytes.skip(i));
    } else {
        assert(bytes.skip(i) == Seq::<u8>::empty());
    }
}

proof fn lemma_encoded_from_shape(bytes: Seq<u8>, i: int)
    requires
        0 <= i <= bytes.len(),
    ensures
        bytes.len() - i <= encoded_from(bytes, i).len() <= 3 * (bytes.len() - i),
        forall|k: int|
            0 <= k < encoded_from(bytes, i).len() ==> is_segment_char(
                #[trigger] encoded_from(bytes, i)[k],
            ),
        i < bytes.len() ==> encoded_from(bytes, i)[0] == encoded_byte(bytes, i)[0],
        i < bytes.len() ==> encoded_from(bytes, i).last() == encoded_byte(
            bytes,
            bytes.len() - 1,
        ).last(),
    decreases bytes.len() - i,
{
    if i < bytes.len() {
        lemma_encoded_from_shape(bytes, i + 1);
        lemma_encoded_byte(bytes, i);
        lemma_encoded_byte(bytes, bytes.len() - 1);
        let head = encoded_byte(bytes, i);
        let tail = encoded_from(bytes, i + 1);
        assert forall|k: int| 0 <= k < (head + tail).len() implies is_segment_char(
            #[trigger] (head + tail)[k],
        ) by {
            if k < head.len() {
                assert((head + tail)[k] == head[k]);
            } else {
                assert((head + tail)[k] == tail[k - head.len()]);
            }
        }
        if i + 1 < bytes.len() {
            assert((head + tail).last() == tail.last());
        } else {
            assert(tail.len() == 0);
            assert(head + tail == head);
        }
    }
}

/// A non-empty string has a non-empty UTF-8 form.
pub proof fn lemma_utf8_nonempty(chars: Seq<char>)
    requires
        chars.len() > 0,
    ensures
        encode_utf8(chars).len() > 0,
{
    encode_utf8_decode_utf8(chars);
    if encode_utf8(chars).len() == 0 {
        assert(encode_utf8(chars) == Seq::<u8>::empty());
        assert(decode_utf8(Seq::<u8>::empty()) == Seq::<char>::empty());
    }
}

/// Sanitising can be undone: the identifier is recovered from its segment, so
/// two different identifiers never have the same segment.
pub proof fn lemma_sanitize_reversible(identifier: Seq<char>)
    ensures
        desanitized(sanitized(identifier)) == identifier,
{
    let bytes = encode_utf8(identifier);
    lemma_unescape_encoded(bytes, 0);
    assert(bytes.skip(0) == bytes);
    encode_utf8_decode_utf8(identifier);
}

/// Two identifiers with the same segment are the same identifier.
pub proof fn lemma_sanitize_injective(a: Seq<char>, b: Seq<char>)
    requires
        sanitized(a) == sanitized(b),
    ensures
        a == b,
{
    lemma_sanitize_reversible(a);
    lemma_sanitize_reversible(b);
}

/// The segment of a non-empty identifier is safe to use as one directory name,
/// and is at least as long as the identifier's UTF-8 form.
pub proof fn lemma_sanitized_is_safe(identifier: Seq<char>)
    requires
        identifier.len() > 0,
    ensures
        is_safe_segment(sanitized(identifier)),
        encode_utf8(identifier).len() <= sanitized(identifier).len() <= 3 * encode_utf8(
            identifier,
        ).len(),
{
    let bytes = encode_utf8(identifier);
    lemma_utf8_nonempty(identifier);
    lemma_encoded_from_shape(bytes, 0);
    lemma_encoded_byte(bytes, 0);
    lemma_encoded_byte(bytes, bytes.len() - 1);
}

/// Sanitising is a function of the identifier: whatever two calls on the same
/// identifier return, they return the same.
pub proof fn lemma_sanitize_deterministic(
    identifier: Seq<char>,
    first: Result<String, PyRocflError>,
    second: Result<String, PyRocflError>,
)
    requires
        sanitize_result(identifier, first),
        sanitize_result(identifier, second),
    ensures
        first is Ok <==> second is Ok,
        first is Ok ==> first->Ok_0@ == second->Ok_0@,
        first is Err ==> first->Err_0.kind == second->Err_0.kind && first->Err_0.message@
            == second->Err_0.message@,
{
}

fn hex_digit_of(n: u8) -> (c: char)
    requires
        n < 16,
    ensures
        c == hex_digit(n),
{
    if n < 10 {
        (0x30 + n) as char
    } else {
        (0x57 + n) as char
    }
}

fn keeps(bytes: &[u8], i: usize) -> (k: bool)
    requires
        i < bytes@.len(),
    ensures
        k == is_kept(bytes@, i as int),
{
    let b: u8 = bytes[i];
    let unreserved = (0x30 <= b && b <= 0x39) || (0x41 <= b && b <= 0x5a) || (0x61 <= b && b
        <= 0x7a) || b == 0x2d || b == 0x5f;
    let inner_only = b == 0x2e || b == 0x20;
    unreserved || (inner_only && 0 < i && i < bytes.len() - 1)
}

/// The error for an empty identifier.
pub(crate) fn empty_identifier() -> (e: PyRocflError)
    ensures
        e.kind == ErrorKind::InvalidIdentifier,
        e.message@ == empty_identifier_message(),
{
    PyRocflError::new(ErrorKind::InvalidIdentifier, "object identifier must not be empty")
}

/// Percent-encodes an identifier into one path segment.
///
/// The empty identifier is refused; every other identifier has a segment.
pub fn sanitize(identifier: &str) -> (r: Result<String, PyRocflError>)
    ensures
        sanitize_result(identifier@, r),
{
    if identifier.is_empty() {
        return Err(empty_identifier());
    }
    let bytes = identifier.as_bytes();
    let mut out = String::new();
    let mut i: usize = 0;
    while i < bytes.len()
        invariant
            i <= bytes@.len(),
            out@ + encoded_from(bytes@, i as int) == encoded_from(bytes@, 0),
        decreases bytes@.len() - i,
    {
        let b: u8 = bytes[i];
        let ghost before = out@;
        if keeps(bytes, i) {
            push_char(&mut out, b as char);
        } else {
            push_char(&mut out, '%');
            push_char(&mut out, hex_digit_of(b / 16));
            push_char(&mut out, hex_digit_of(b % 16));
        }
        assert(out@ == before + encoded_byte(bytes@, i as int));
        assert(out@ + encoded_from(bytes@, i + 1) == before + encoded_from(bytes@, i as int));
        i += 1;
    }
    assert(out@ == encoded_from(bytes@, 0));
    Ok(out)
}

} // verus!
