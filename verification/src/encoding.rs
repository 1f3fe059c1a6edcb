//! Executable helpers and proof lemmas about UTF-8 encodings.
//!
//! The specification vocabulary comes from `vstd::utf8`: `encode_utf8` turns a
//! character sequence into its UTF-8 bytes, `decode_utf8` recovers the
//! characters, `valid_utf8` says a byte sequence is a well-formed encoding,
//! and `is_char_boundary` marks the offsets where one character's encoding
//! ends and the next begins.
use vstd::prelude::*;
use vstd::string::StringSliceAdditionalSpecFns;
use vstd::utf8::{
    decode_utf8, encode_scalar, encode_utf8, is_char_boundary, is_continuation_byte,
    length_of_first_scalar, pop_first_scalar, valid_utf8,
};

verus! {

/// True exactly when `byte` can start the encoding of a scalar value: an
/// ASCII byte or a leading byte, never a continuation byte.
pub fn starts_well_formed_utf8_sequence(byte: u8) -> (r: bool)
    ensures
        r == !is_continuation_byte(byte),
{
    byte < 128 || byte >= 192
}

/// The number of bytes in the UTF-8 encoding of one character.
pub open spec fn char_utf8_len(c: char) -> int {
    encode_scalar(c as u32).len() as int
}

/// Compute the encoded length of a character: 1 to 4 bytes.
pub fn utf8_byte_length(c: char) -> (n: usize)
    ensures
        n == char_utf8_len(c),
        1 <= n <= 4,
{
    proof {
        vstd::utf8::char_is_scalar(c);
    }
    let u = c as u32;
    if u < 0x80 {
        1
    } else if u < 0x800 {
        2
    } else if u < 0x10000 {
        3
    } else {
        4
    }
}

/// Encode one character into the first bytes of a 4-byte scratch array,
/// returning the array and the encoded length.
pub fn encode_char_utf8(c: char) -> (r: ([u8; 4], usize))
    ensures
        1 <= r.1 <= 4,
        r.1 == char_utf8_len(c),
        r.0@.take(r.1 as int) == encode_scalar(c as u32),
{
    proof {
        vstd::utf8::char_is_scalar(c);
    }
    let u = c as u32;
    let mut buf: [u8; 4] = [0; 4];
    if u < 0x80 {
        buf[0] = (u & 0x7F) as u8;
        proof {
            assert(buf@.take(1) =~= encode_scalar(u));
        }
        (buf, 1)
    } else if u < 0x800 {
        buf[0] = 0xC0 | ((u >> 6) & 0x1F) as u8;
        buf[1] = 0x80 | (u & 0x3F) as u8;
        proof {
            assert(buf@.take(2) =~= encode_scalar(u));
        }
        (buf, 2)
    } else if u < 0x10000 {
        buf[0] = 0xE0 | ((u >> 12) & 0x0F) as u8;
        buf[1] = 0x80 | ((u >> 6) & 0x3F) as u8;
        buf[2] = 0x80 | (u & 0x3F) as u8;
        proof {
            assert(buf@.take(3) =~= encode_scalar(u));
        }
        (buf, 3)
    } else {
        buf[0] = 0xF0 | ((u >> 18) & 0x7) as u8;
        buf[1] = 0x80 | ((u >> 12) & 0x3F) as u8;
        buf[2] = 0x80 | ((u >> 6) & 0x3F) as u8;
        buf[3] = 0x80 | (u & 0x3F) as u8;
        proof {
            assert(buf@.take(4) =~= encode_scalar(u));
        }
        (buf, 4)
    }
}

/// The encoding of a single character is the encoding of the one-character
/// sequence.
pub proof fn lemma_encode_singleton(c: char)
    ensures
        encode_utf8(seq![c]) == encode_scalar(c as u32),
{
    assert(seq![c].drop_first() =~= Seq::<char>::empty());
    assert(encode_scalar(c as u32) + encode_utf8(Seq::<char>::empty()) =~= encode_scalar(
        c as u32,
    ));
}

/// Encoding a concatenation of character sequences concatenates their
/// encodings.
pub proof fn lemma_encode_utf8_concat(a: Seq<char>, b: Seq<char>)
    ensures
        encode_utf8(a + b) == encode_utf8(a) + encode_utf8(b),
    decreases a.len(),
{
    if a.len() == 0 {
        assert(a + b =~= b);
        assert(encode_utf8(a) + encode_utf8(b) =~= encode_utf8(b));
    } else {
        assert((a + b)[0] == a[0]);
        assert((a + b).drop_first() =~= a.drop_first() + b);
        lemma_encode_utf8_concat(a.drop_first(), b);
        assert(encode_scalar(a[0] as u32) + (encode_utf8(a.drop_first()) + encode_utf8(b))
            =~= (encode_scalar(a[0] as u32) + encode_utf8(a.drop_first())) + encode_utf8(b));
    }
}

/// Appending the encoding of further characters after a valid encoding keeps
/// it valid, and the decoding of the whole is the decoding of the prefix
/// followed by those characters.
pub proof fn lemma_text_append(prefix: Seq<u8>, added: Seq<char>)
    requires
        valid_utf8(prefix),
    ensures
        valid_utf8(prefix + encode_utf8(added)),
        decode_utf8(prefix + encode_utf8(added)) == decode_utf8(prefix) + added,
{
    broadcast use vstd::utf8::group_utf8_lib;

    assert(encode_utf8(decode_utf8(prefix)) == prefix);
    lemma_encode_utf8_concat(decode_utf8(prefix), added);
    assert(prefix + encode_utf8(added) == encode_utf8(decode_utf8(prefix) + added));
}

/// In a valid UTF-8 byte sequence, every offset has a character boundary at
/// most three bytes before it: encodings are at most four bytes long.
pub proof fn lemma_boundary_within_three(bytes: Seq<u8>, i: int)
    requires
        valid_utf8(bytes),
        0 <= i <= bytes.len(),
    ensures
        exists|j: int| i - 3 <= j <= i && #[trigger] is_char_boundary(bytes, j),
    decreases bytes.len(),
{
    if i == 0 {
        assert(is_char_boundary(bytes, 0));
    } else {
        let len = length_of_first_scalar(bytes);
        assert(1 <= len <= 4);
        if i < len {
            assert(i <= 3);
            assert(is_char_boundary(bytes, 0));
        } else {
            let rest = pop_first_scalar(bytes);
            assert(rest.len() == bytes.len() - len);
            lemma_boundary_within_three(rest, i - len);
            let j = choose|j: int| i - len - 3 <= j <= i - len && #[trigger] is_char_boundary(
                rest,
                j,
            );
            assert(is_char_boundary(bytes, j + len));
        }
    }
}

/// Relies on std's str::from_utf8: viewing bytes that hold a well-formed
/// UTF-8 encoding as a string borrows exactly those bytes.
#[verifier::external_body]
pub(crate) fn bytes_as_str(v: &[u8]) -> (r: &str)
    requires
        valid_utf8(v@),
    ensures
        r.spec_bytes() == v@,
{
    std::str::from_utf8(v).unwrap()
}

/// Round trip: a character sequence written into an empty buffer is read
/// back unchanged. Its encoding is well-formed UTF-8, and decoding the used
/// prefix that the write leaves behind yields exactly the characters that
/// were written.
pub proof fn lemma_text_round_trip(s: Seq<char>)
    ensures
        valid_utf8(encode_utf8(s)),
        decode_utf8(Seq::<u8>::empty() + encode_utf8(s)) == s,
{
    lemma_text_append(Seq::<u8>::empty(), s);
    assert(decode_utf8(Seq::<u8>::empty()) + s =~= s);
}

/// The decoding of a non-empty valid UTF-8 byte sequence is non-empty.
pub proof fn lemma_decode_nonempty(bytes: Seq<u8>)
    requires
        valid_utf8(bytes),
    ensures
        decode_utf8(bytes).len() == 0 <==> bytes.len() == 0,
{
}

} // verus!
