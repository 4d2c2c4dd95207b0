//! Where the NUL byte stands in UTF-8 text.
//!
//! UTF-8 spends the byte zero on one character only, the NUL character
//! itself. So text has a NUL-terminated form exactly when it holds no NUL
//! character, and that form spells the text again.

use vstd::prelude::*;
use vstd::utf8::decode_utf8;
use vstd::utf8::encode_scalar;
use vstd::utf8::encode_utf8;
use vstd::utf8::encode_utf8_decode_utf8;
use vstd::utf8::encode_utf8_valid_utf8;
use vstd::utf8::has_width_1_encoding;
use vstd::utf8::has_width_2_encoding;
use vstd::utf8::has_width_3_encoding;
use vstd::utf8::valid_utf8;

verus! {

/// The text that `bytes` spell, if they are valid UTF-8.
pub open spec fn text_of(bytes: Seq<u8>) -> Option<Seq<char>> {
    if valid_utf8(bytes) {
        Some(decode_utf8(bytes))
    } else {
        None
    }
}

proof fn lemma_encoded_byte_values(s: u32)
    by (bit_vector)
    ensures
        s <= 0x7F ==> (((s & 0x7F) as u8 == 0) <==> s == 0),
        (0xC0u8 | ((s >> 6) & 0x1F) as u8) != 0,
        (0xE0u8 | ((s >> 12) & 0x0F) as u8) != 0,
        (0xF0u8 | ((s >> 18) & 0x7) as u8) != 0,
        (0x80u8 | (s & 0x3F) as u8) != 0,
        (0x80u8 | ((s >> 6) & 0x3F) as u8) != 0,
        (0x80u8 | ((s >> 12) & 0x3F) as u8) != 0,
{
}

/// The UTF-8 encoding of a character holds a NUL byte exactly when the
/// character is NUL.
pub proof fn lemma_char_encoding_nul(c: char)
    ensures
        encode_scalar(c as u32).contains(0u8) <==> c == '\0',
{
    let s = c as u32;
    let bytes = encode_scalar(s);
    lemma_encoded_byte_values(s);
    assert(s == 0 <==> c == '\0');
    if has_width_1_encoding(s) {
        assert(bytes.len() == 1);
        if s == 0 {
            assert(bytes[0] == 0);
        }
    } else if has_width_2_encoding(s) {
        assert(bytes.len() == 2);
    } else if has_width_3_encoding(s) {
        assert(bytes.len() == 3);
    } else {
        assert(bytes.len() == 4);
    }
}

/// The UTF-8 encoding of text holds a NUL byte exactly when the text holds a
/// NUL character.
pub proof fn lemma_text_encoding_nul(text: Seq<char>)
    ensures
        encode_utf8(text).contains(0u8) <==> text.contains('\0'),
    decreases text.len(),
{
    if text.len() > 0 {
        let head = encode_scalar(text[0] as u32);
        let rest = text.drop_first();
        let tail = encode_utf8(rest);
        lemma_char_encoding_nul(text[0]);
        lemma_text_encoding_nul(rest);
        assert(encode_utf8(text) == head + tail);
        if head.contains(0u8) {
            let k = choose|k: int| 0 <= k < head.len() && head[k] == 0;
            assert((head + tail)[k] == 0);
        }
        if tail.contains(0u8) {
            let k = choose|k: int| 0 <= k < tail.len() && tail[k] == 0;
            assert((head + tail)[head.len() + k] == 0);
            let j = choose|j: int| 0 <= j < rest.len() && rest[j] == '\0';
            assert(text[j + 1] == '\0');
        }
        if (head + tail).contains(0u8) {
            let k = choose|k: int| 0 <= k < (head + tail).len() && (head + tail)[k] == 0;
            if k < head.len() {
                assert(head[k] == 0);
            } else {
                assert(tail[k - head.len()] == 0);
            }
        }
        if text.contains('\0') {
            let j = choose|j: int| 0 <= j < text.len() && text[j] == '\0';
            if j > 0 {
                assert(rest[j - 1] == '\0');
            }
        }
    }
}

/// Encoding text as UTF-8 and reading the bytes back gives the text again.
pub proof fn lemma_text_round_trip(text: Seq<char>)
    ensures
        text_of(encode_utf8(text)) == Some(text),
{
    encode_utf8_valid_utf8(text);
    encode_utf8_decode_utf8(text);
}

} // verus!
