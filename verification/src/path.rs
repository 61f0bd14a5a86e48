//! The path normalizer: deciding whether a path string already ends in
//! a zero byte, and producing a zero-terminated byte form for the
//! platform `open` call.
//!
//! The contracts are stated over `vstd`'s model of UTF-8 encoding, so
//! the byte-level terminator check is tied to the character-level one:
//! a string's bytes end in zero exactly when its characters end in the
//! NUL character.

use vstd::prelude::*;
use vstd::string::StringSliceAdditionalSpecFns;
use vstd::utf8::encode_scalar;
use vstd::utf8::encode_utf8;
use vstd::utf8::has_width_1_encoding;
use vstd::utf8::has_width_2_encoding;
use vstd::utf8::has_width_3_encoding;
use vstd::utf8::last_continuation_byte;
use vstd::utf8::leading_byte_width_1;

verus! {

/// Whether a byte sequence is non-empty and ends in a zero byte.
pub open spec fn null_terminated_bytes(bytes: Seq<u8>) -> bool {
    bytes.len() > 0 && bytes.last() == 0u8
}

/// Whether a character sequence is non-empty and ends in the NUL
/// character.
pub open spec fn null_terminated(chars: Seq<char>) -> bool {
    chars.len() > 0 && chars.last() == '\0'
}

/// The zero-terminated byte form of a path string: its UTF-8 bytes,
/// with one zero byte appended when they do not already end in one.
pub open spec fn normalized_path(chars: Seq<char>) -> Seq<u8> {
    if null_terminated_bytes(encode_utf8(chars)) {
        encode_utf8(chars)
    } else {
        encode_utf8(chars).push(0u8)
    }
}

/// UTF-8 encoding peels off the last character as well as the first:
/// the encoding of a non-empty sequence is the encoding of all but the
/// last character followed by the encoding of the last one.
proof fn lemma_encode_utf8_unsnoc(chars: Seq<char>)
    requires
        chars.len() > 0,
    ensures
        encode_utf8(chars) == encode_utf8(chars.drop_last()) + encode_scalar(
            chars.last() as u32,
        ),
    decreases chars.len(),
{
    if chars.len() == 1 {
        assert(encode_utf8(chars.drop_first()) == Seq::<u8>::empty());
        assert(encode_utf8(chars.drop_last()) == Seq::<u8>::empty());
        assert(encode_utf8(chars) =~= encode_utf8(chars.drop_last()) + encode_scalar(
            chars.last() as u32,
        ));
    } else {
        let rest = chars.drop_first();
        lemma_encode_utf8_unsnoc(rest);
        assert(rest.last() == chars.last());
        assert(rest.drop_last() =~= chars.drop_last().drop_first());
        assert(chars.drop_last()[0] == chars[0]);
        assert(encode_utf8(chars.drop_last()) == encode_scalar(chars.drop_last()[0] as u32)
            + encode_utf8(chars.drop_last().drop_first()));
        assert(encode_utf8(chars) =~= encode_utf8(chars.drop_last()) + encode_scalar(
            chars.last() as u32,
        ));
    }
}

/// The encoding of a single character is non-empty, and its last byte
/// is zero exactly for the NUL character: NUL encodes as the one zero
/// byte, every other character's encoding ends in a non-zero byte.
proof fn lemma_encode_scalar_terminator(c: char)
    ensures
        encode_scalar(c as u32).len() > 0,
        (encode_scalar(c as u32).last() == 0u8) <==> (c == '\0'),
{
    vstd::utf8::char_is_scalar(c);
    let s = c as u32;
    if has_width_1_encoding(s) {
        assert(encode_scalar(s).last() == leading_byte_width_1(s));
        assert(((s & 0x7F) as u8 == 0) <==> (s == 0)) by (bit_vector)
            requires
                s <= 0x7F,
        ;
    } else {
        assert(encode_scalar(s).last() == last_continuation_byte(s));
        assert((0x80u8 | ((s & 0x3F) as u8)) != 0) by (bit_vector);
    }
    if s == 0 {
        vstd::utf8::char_u32_cast(c, 0u32);
        vstd::utf8::char_u32_cast('\0', 0u32);
        assert(c == '\0');
    }
}

/// The last byte of a non-empty string's UTF-8 encoding is zero
/// exactly when the string's last character is NUL.
pub proof fn lemma_last_byte_is_terminator(chars: Seq<char>)
    requires
        chars.len() > 0,
    ensures
        encode_utf8(chars).len() > 0,
        (encode_utf8(chars).last() == 0u8) <==> (chars.last() == '\0'),
{
    lemma_encode_utf8_unsnoc(chars);
    lemma_encode_scalar_terminator(chars.last());
    let a = encode_utf8(chars.drop_last());
    let b = encode_scalar(chars.last() as u32);
    assert((a + b).last() == b.last());
}

/// For every non-empty string whose bytes do not end in a zero byte the
/// terminator check is owed `false`, and after appending the NUL
/// character it is owed `true`.
pub proof fn lemma_terminator_check(chars: Seq<char>)
    requires
        chars.len() > 0,
    ensures
        chars.last() != '\0' ==> !null_terminated_bytes(encode_utf8(chars)),
        null_terminated_bytes(encode_utf8(chars.push('\0'))),
{
    lemma_last_byte_is_terminator(chars);
    lemma_last_byte_is_terminator(chars.push('\0'));
}

/// Normalizing a path that does not end in NUL and normalizing the
/// same path with a terminator already appended give the same bytes,
/// so both forms name the same file to the platform call.
pub proof fn lemma_normalized_path_agrees(chars: Seq<char>)
    requires
        chars.len() > 0,
        chars.last() != '\0',
    ensures
        normalized_path(chars.push('\0')) == normalized_path(chars),
{
    lemma_last_byte_is_terminator(chars);
    lemma_last_byte_is_terminator(chars.push('\0'));
    lemma_encode_utf8_unsnoc(chars.push('\0'));
    lemma_encode_scalar_terminator('\0');
    assert(chars.push('\0').drop_last() =~= chars);
    assert(encode_utf8(chars.push('\0')) =~= encode_utf8(chars).push(0u8));
    assert(normalized_path(chars.push('\0')) =~= normalized_path(chars));
}

/// Whether the string's final byte is the zero terminator.
///
/// The input must be non-empty: a zero-length string has no final byte
/// to inspect.
pub fn is_str_null_terminated(buffer: &str) -> (r: bool)
    requires
        buffer@.len() > 0,
    ensures
        r == null_terminated_bytes(encode_utf8(buffer@)),
        r == null_terminated(buffer@),
{
    proof {
        lemma_last_byte_is_terminator(buffer@);
    }
    let bytes = buffer.as_bytes();
    bytes[bytes.len() - 1] == 0
}

/// The byte form of `path` handed to the platform `open` call: the
/// path's UTF-8 bytes, with a zero terminator appended when the path
/// does not already end in one, and unchanged when it does.
pub fn terminated_path(path: &str) -> (r: Vec<u8>)
    requires
        path@.len() > 0,
    ensures
        r@ == normalized_path(path@),
        null_terminated(path@) ==> r@ == encode_utf8(path@),
        !null_terminated(path@) ==> r@ == encode_utf8(path@).push(0u8),
        null_terminated_bytes(r@),
{
    proof {
        lemma_last_byte_is_terminator(path@);
    }
    let bytes = path.as_bytes();
    let mut out: Vec<u8> = Vec::new();
    let mut i: usize = 0;
    while i < bytes.len()
        invariant
            i <= bytes.len(),
            out@ == bytes@.take(i as int),
        decreases bytes.len() - i,
    {
        out.push(bytes[i]);
        i += 1;
    }
    assert(out@ =~= bytes@);
    if out[out.len() - 1] != 0 {
        out.push(0);
    }
    out
}

} // verus!
