//! Matching on the bytes of paths, and why it is matching on their characters.
//!
//! Paths and patterns arrive as UTF-8. Matching reads their bytes and never
//! decodes them; the lemmas here show that it finds what the characters say.

use crate::path_matcher::is_wildcard;
use crate::path_matcher::pattern_matches;
use crate::path_matcher::SEPARATOR;
use crate::path_matcher::WILDCARD;
use vstd::prelude::*;
use vstd::utf8::char_is_scalar;
use vstd::utf8::char_u32_cast;
use vstd::utf8::decode_first_scalar;
use vstd::utf8::encode_scalar;
use vstd::utf8::encode_utf8;
use vstd::utf8::encode_utf8_decode_utf8;
use vstd::utf8::encode_utf8_first_scalar;
use vstd::utf8::has_width_1_encoding;

verus! {

/// The separator, as the one byte that encodes it.
pub const SEPARATOR_BYTE: u8 = 47;

/// The wildcard, as the one byte that encodes it.
pub const WILDCARD_BYTE: u8 = 42;

/// Whether the bytes of a pattern end in a segment that is the wildcard.
pub open spec fn is_wildcard_in_bytes(pattern: Seq<u8>) -> bool {
    &&& pattern.len() >= 1
    &&& pattern.last() == WILDCARD_BYTE
    &&& pattern.len() >= 2 ==> pattern[pattern.len() - 2] == SEPARATOR_BYTE
}

/// Whether a pattern matches a path, read off their bytes.
pub open spec fn matches_in_bytes(pattern: Seq<u8>, path: Seq<u8>) -> bool {
    if is_wildcard_in_bytes(pattern) {
        pattern.drop_last().is_prefix_of(path)
    } else {
        pattern == path || pattern.push(SEPARATOR_BYTE).is_prefix_of(path)
    }
}

/// Whether `path` begins with the first `len` bytes of `pattern`.
fn begins_with(path: &[u8], pattern: &[u8], len: usize) -> (r: bool)
    requires
        len <= pattern@.len(),
    ensures
        r == pattern@.take(len as int).is_prefix_of(path@),
{
    if path.len() < len {
        return false;
    }
    let mut i: usize = 0;
    while i < len
        invariant
            i <= len <= pattern@.len(),
            len <= path@.len(),
            forall|k: int| 0 <= k < i ==> path@[k] == pattern@[k],
        decreases len - i,
    {
        if path[i] != pattern[i] {
            assert(pattern@.take(len as int)[i as int] != path@.subrange(0, len as int)[i as int]);
            return false;
        }
        i += 1;
    }
    assert(pattern@.take(len as int) =~= path@.subrange(0, len as int));
    true
}

/// Whether the pattern with the bytes `pattern` matches the path with the bytes
/// `path`.
pub fn bytes_match(pattern: &[u8], path: &[u8]) -> (r: bool)
    ensures
        r == matches_in_bytes(pattern@, path@),
{
    let n: usize = pattern.len();
    let wildcard = n >= 1 && pattern[n - 1] == WILDCARD_BYTE && (n < 2 || pattern[n - 2]
        == SEPARATOR_BYTE);
    if wildcard {
        assert(pattern@.take(n - 1) =~= pattern@.drop_last());
        begins_with(path, pattern, n - 1)
    } else if !begins_with(path, pattern, n) {
        assert(pattern@.take(n as int) =~= pattern@);
        assert(pattern@.push(SEPARATOR_BYTE).is_prefix_of(path@) ==> pattern@.is_prefix_of(path@)) by {
            if pattern@.push(SEPARATOR_BYTE).is_prefix_of(path@) {
                assert(pattern@ =~= path@.subrange(0, n + 1).take(n as int));
                assert(pattern@ =~= path@.subrange(0, n as int));
            }
        }
        false
    } else {
        assert(pattern@.take(n as int) =~= pattern@);
        if path.len() == n {
            assert(pattern@ =~= path@.subrange(0, n as int));
            assert(path@.subrange(0, n as int) =~= path@);
            true
        } else {
            let behind = path[n] == SEPARATOR_BYTE;
            assert(behind == pattern@.push(SEPARATOR_BYTE).is_prefix_of(path@)) by {
                let longer = pattern@.push(SEPARATOR_BYTE);
                if behind {
                    assert(longer =~= path@.subrange(0, n + 1));
                } else if longer.is_prefix_of(path@) {
                    assert(longer[n as int] == path@.subrange(0, n + 1)[n as int]);
                }
            }
            assert(pattern@ != path@);
            behind
        }
    }
}

/// The encoding of a text is the encoding of its beginning followed by the
/// encoding of its rest, wherever the text is cut.
pub proof fn lemma_encoding_of_concat(head: Seq<char>, tail: Seq<char>)
    ensures
        encode_utf8(head + tail) == encode_utf8(head) + encode_utf8(tail),
    decreases head.len(),
{
    if head.len() == 0 {
        assert(head + tail =~= tail);
        assert(encode_utf8(head) + encode_utf8(tail) =~= encode_utf8(tail));
    } else {
        assert((head + tail).drop_first() =~= head.drop_first() + tail);
        lemma_encoding_of_concat(head.drop_first(), tail);
        assert(encode_scalar(head[0] as u32) + (encode_utf8(head.drop_first()) + encode_utf8(tail))
            =~= (encode_scalar(head[0] as u32) + encode_utf8(head.drop_first())) + encode_utf8(
            tail,
        ));
    }
}

/// The bytes that encode one character: at least one, and the last of them below
/// 128 only where it is the whole encoding and the character's own number.
proof fn lemma_encoding_of_char(c: char)
    ensures
        encode_utf8(seq![c]) == encode_scalar(c as u32),
        encode_scalar(c as u32).len() >= 1,
        encode_scalar(c as u32).last() < 128 <==> (c as u32) < 128,
        (c as u32) < 128 ==> encode_scalar(c as u32) == seq![(c as u32) as u8],
{
    let scalar = c as u32;
    char_is_scalar(c);
    assert(seq![c].drop_first() =~= Seq::<char>::empty());
    assert(encode_utf8(seq![c]) =~= encode_scalar(scalar)) by {
        reveal_with_fuel(encode_utf8, 2);
    }
    if has_width_1_encoding(scalar) {
        assert(((scalar & 0x7F) as u8) == (scalar as u8) && ((scalar & 0x7F) as u8) < 128u8)
            by (bit_vector)
            requires
                scalar <= 0x7F,
        ;
        assert(encode_scalar(scalar) =~= seq![scalar as u8]);
    } else {
        assert((0x80u8 | ((scalar & 0x3F) as u8)) >= 128u8) by (bit_vector);
    }
}

/// A text is empty exactly if its encoding is.
proof fn lemma_encoding_is_empty(text: Seq<char>)
    ensures
        encode_utf8(text).len() == 0 <==> text.len() == 0,
{
    if text.len() > 0 {
        lemma_encoding_of_char(text[0]);
    }
}

/// The encoding of a text ends in the byte of a character below 128 exactly if
/// the text ends in that character; the encoding before that byte is then the
/// encoding of the text before that character.
proof fn lemma_last_byte_of_encoding(text: Seq<char>, letter: char, byte: u8)
    requires
        text.len() >= 1,
        byte < 128,
        letter as u32 == byte as u32,
    ensures
        encode_utf8(text).len() >= 1,
        encode_utf8(text).last() == byte <==> text.last() == letter,
        text.last() == letter ==> encode_utf8(text).drop_last() == encode_utf8(text.drop_last()),
{
    let stem = text.drop_last();
    let last = text.last();
    let scalar = last as u32;
    assert(text =~= stem + seq![last]);
    lemma_encoding_of_concat(stem, seq![last]);
    lemma_encoding_of_char(last);
    let bytes = encode_utf8(stem) + encode_scalar(scalar);
    assert(bytes.last() == encode_scalar(scalar).last());
    if last == letter {
        assert(encode_scalar(scalar) == seq![scalar as u8]);
        assert(bytes.drop_last() =~= encode_utf8(stem));
    }
    if bytes.last() == byte {
        assert(scalar < 128);
        assert(encode_scalar(scalar) == seq![scalar as u8]);
        assert(scalar as u8 == byte);
        assert(scalar == byte as u32);
        char_u32_cast(last, scalar);
        char_u32_cast(letter, scalar);
    }
}

/// A text begins another exactly if its encoding begins the encoding of the
/// other.
pub proof fn lemma_prefix_by_encoding(start: Seq<char>, text: Seq<char>)
    ensures
        encode_utf8(start).is_prefix_of(encode_utf8(text)) <==> start.is_prefix_of(text),
    decreases start.len(),
{
    let start_bytes = encode_utf8(start);
    let text_bytes = encode_utf8(text);
    if start.is_prefix_of(text) {
        let rest = text.skip(start.len() as int);
        assert(text =~= start + rest);
        lemma_encoding_of_concat(start, rest);
        assert(start_bytes =~= text_bytes.subrange(0, start_bytes.len() as int));
    }
    if start_bytes.is_prefix_of(text_bytes) {
        if start.len() == 0 {
            assert(start =~= text.subrange(0, 0));
        } else {
            lemma_encoding_is_empty(start);
            lemma_encoding_is_empty(text);
            let width = start_bytes.len() as int;
            assert(start_bytes =~= text_bytes.subrange(0, width));
            lemma_first_char_by_encoding(start, text);
            let start_rest = start.drop_first();
            let text_rest = text.drop_first();
            let first = encode_scalar(start[0] as u32);
            assert(start_bytes == first + encode_utf8(start_rest));
            assert(text_bytes == first + encode_utf8(text_rest));
            assert(encode_utf8(start_rest) =~= encode_utf8(text_rest).subrange(
                0,
                encode_utf8(start_rest).len() as int,
            )) by {
                let short = encode_utf8(start_rest);
                let long = encode_utf8(text_rest);
                assert(short.len() <= long.len());
                assert forall|i: int| 0 <= i < short.len() implies short[i] == long[i] by {
                    assert(start_bytes[first.len() + i] == short[i]);
                    assert(text_bytes[first.len() + i] == long[i]);
                    assert(text_bytes.subrange(0, width)[first.len() + i] == text_bytes[first.len()
                        + i]);
                }
            }
            lemma_prefix_by_encoding(start_rest, text_rest);
            assert(start =~= text.subrange(0, start.len() as int)) by {
                assert(start_rest =~= text_rest.subrange(0, start_rest.len() as int));
                assert forall|i: int| 0 <= i < start.len() implies start[i] == text[i] by {
                    if i > 0 {
                        assert(start_rest[i - 1] == start[i]);
                        assert(text_rest.subrange(0, start_rest.len() as int)[i - 1] == text[i]);
                    }
                }
            }
        }
    }
}

/// Two texts of which the encoding of one begins the encoding of the other begin
/// with the same character.
proof fn lemma_first_char_by_encoding(start: Seq<char>, text: Seq<char>)
    requires
        start.len() >= 1,
        text.len() >= 1,
        encode_utf8(start).is_prefix_of(encode_utf8(text)),
    ensures
        start[0] == text[0],
{
    let start_bytes = encode_utf8(start);
    let text_bytes = encode_utf8(text);
    encode_utf8_first_scalar(start);
    encode_utf8_first_scalar(text);
    let width = start_bytes.len() as int;
    assert(start_bytes =~= text_bytes.subrange(0, width));
    assert(forall|i: int| 0 <= i < width ==> start_bytes[i] == text_bytes.subrange(0, width)[i]);
    assert(decode_first_scalar(start_bytes) == decode_first_scalar(text_bytes));
    let scalar = start[0] as u32;
    char_u32_cast(start[0], scalar);
    char_u32_cast(text[0], scalar);
}

/// Matching on bytes is matching on characters: the bytes of a pattern match the
/// bytes of a path exactly if the pattern matches the path.
pub proof fn lemma_bytes_match_as_text(pattern: Seq<char>, path: Seq<char>)
    ensures
        is_wildcard_in_bytes(encode_utf8(pattern)) == is_wildcard(pattern),
        matches_in_bytes(encode_utf8(pattern), encode_utf8(path)) == pattern_matches(pattern, path),
{
    let pattern_bytes = encode_utf8(pattern);
    let path_bytes = encode_utf8(path);
    lemma_encoding_is_empty(pattern);
    if pattern.len() >= 1 {
        lemma_last_byte_of_encoding(pattern, WILDCARD, WILDCARD_BYTE);
        let stem = pattern.drop_last();
        lemma_encoding_is_empty(stem);
        if pattern.last() == WILDCARD {
            assert(pattern_bytes.drop_last() == encode_utf8(stem));
            if stem.len() >= 1 {
                lemma_last_byte_of_encoding(stem, SEPARATOR, SEPARATOR_BYTE);
                assert(pattern_bytes[pattern_bytes.len() - 2] == encode_utf8(stem).last());
                assert(pattern[pattern.len() - 2] == stem.last());
            }
        }
    }
    if is_wildcard(pattern) {
        lemma_prefix_by_encoding(pattern.drop_last(), path);
    } else {
        assert(pattern.push(SEPARATOR) =~= pattern + seq![SEPARATOR]);
        lemma_encoding_of_concat(pattern, seq![SEPARATOR]);
        lemma_encoding_of_char(SEPARATOR);
        assert(encode_utf8(pattern.push(SEPARATOR)) =~= pattern_bytes.push(SEPARATOR_BYTE));
        lemma_prefix_by_encoding(pattern.push(SEPARATOR), path);
        encode_utf8_decode_utf8(pattern);
        encode_utf8_decode_utf8(path);
    }
}

} // verus!
