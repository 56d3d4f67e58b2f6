//! The first word of a text.
//!
//! The search runs over the bytes of the text, the contract speaks of its
//! characters. The lemmas in between rest on one property of UTF-8: the byte
//! of a blank occurs in an encoded text only where a blank was encoded.

use vstd::prelude::*;
use vstd::string::StringSliceAdditionalSpecFns;
use vstd::utf8::*;

verus! {

/// The byte that encodes a blank.
pub const BLANK: u8 = 0x20;

/// `word` is the first word of `text`: the stretch of characters from the
/// start of the text up to its first blank, or all of the text where it
/// holds no blank.
pub open spec fn is_first_word(word: Seq<char>, text: Seq<char>) -> bool {
    &&& word.len() <= text.len()
    &&& word == text.take(word.len() as int)
    &&& forall|i: int| 0 <= i < word.len() ==> word[i] != ' '
    &&& (word.len() == text.len() || text[word.len() as int] == ' ')
}

/// A text has one first word only.
pub proof fn lemma_first_word_is_unique(a: Seq<char>, b: Seq<char>, text: Seq<char>)
    requires
        is_first_word(a, text),
        is_first_word(b, text),
    ensures
        a == b,
{
    if a.len() < b.len() {
        assert(b[a.len() as int] == text[a.len() as int]);
    } else if b.len() < a.len() {
        assert(a[b.len() as int] == text[b.len() as int]);
    }
}

/// The encoding of a character starts with the byte of a blank exactly when
/// the character is a blank, and a blank takes that one byte.
proof fn lemma_leading_byte(c: char)
    ensures
        encode_scalar(c as u32).len() >= 1,
        encode_scalar(c as u32)[0] == BLANK <==> c == ' ',
        c == ' ' ==> encode_scalar(c as u32).len() == 1,
{
    let scalar = c as u32;
    assert(is_scalar(scalar)) by {
        char_is_scalar(c);
    }
    assert(' ' as u32 == 0x20u32);
    assert(scalar == 0x20u32 <==> c == ' ') by {
        char_u32_cast(c, scalar);
        char_u32_cast(' ', 0x20u32);
    }
    assert(scalar <= 0x7F ==> ((scalar & 0x7F) as u8 == 0x20u8 <==> scalar == 0x20u32))
        by (bit_vector);
    assert((0xC0u8 | ((scalar >> 6) & 0x1F) as u8) != 0x20u8) by (bit_vector);
    assert((0xE0u8 | ((scalar >> 12) & 0x0F) as u8) != 0x20u8) by (bit_vector);
    assert((0xF0u8 | ((scalar >> 18) & 0x7) as u8) != 0x20u8) by (bit_vector);
}

/// A blank among the characters leaves its byte among the bytes. Hands back
/// a place where that byte stands.
proof fn lemma_blank_leaves_its_byte(chars: Seq<char>, at: int) -> (place: int)
    requires
        0 <= at < chars.len(),
        chars[at] == ' ',
    ensures
        0 <= place < encode_utf8(chars).len(),
        encode_utf8(chars)[place] == BLANK,
    decreases chars.len(),
{
    lemma_leading_byte(chars[0]);
    if at == 0 {
        0
    } else {
        let rest = chars.drop_first();
        let further = lemma_blank_leaves_its_byte(rest, at - 1);
        encode_scalar(chars[0] as u32).len() + further
    }
}

/// Bytes that start with the byte of a blank encode characters that start
/// with a blank.
proof fn lemma_leading_blank(chars: Seq<char>)
    requires
        encode_utf8(chars).len() > 0,
        encode_utf8(chars)[0] == BLANK,
    ensures
        chars.len() > 0,
        chars[0] == ' ',
{
    lemma_leading_byte(chars[0]);
}

/// Cutting a text in two at a byte that is no continuation byte cuts its
/// characters in two as well.
proof fn lemma_cut_between_characters(
    text: Seq<char>,
    head: Seq<char>,
    tail: Seq<char>,
    at: int,
)
    requires
        0 <= at < encode_utf8(text).len(),
        !is_continuation_byte(encode_utf8(text)[at]),
        encode_utf8(head) == encode_utf8(text).subrange(0, at),
        encode_utf8(tail) == encode_utf8(text).subrange(at, encode_utf8(text).len() as int),
    ensures
        text == head + tail,
{
    let bytes = encode_utf8(text);
    encode_utf8_valid_utf8(text);
    is_char_boundary_iff_not_is_continuation_byte(bytes, at);
    decode_utf8_split(bytes, at);
    encode_utf8_decode_utf8(text);
    encode_utf8_decode_utf8(head);
    encode_utf8_decode_utf8(tail);
}

/// The first word of a text: the part before its first blank, or all of it
/// where it holds no blank.
pub fn first_word(s: &str) -> (word: &str)
    ensures
        is_first_word(word@, s@),
{
    let bytes = s.as_bytes();
    let mut i: usize = 0;
    while i < bytes.len()
        invariant
            bytes@ == s.spec_bytes(),
            i <= bytes@.len(),
            forall|j: int| 0 <= j < i ==> bytes@[j] != BLANK,
        decreases bytes.len() - i,
    {
        if bytes[i] == BLANK {
            proof {
                encode_utf8_valid_utf8(s@);
                is_char_boundary_iff_not_is_continuation_byte(bytes@, i as int);
            }
            let (head, tail) = s.split_at(i);
            proof {
                lemma_cut_between_characters(s@, head@, tail@, i as int);
                lemma_leading_blank(tail@);
                assert(head@ == s@.take(head@.len() as int));
                assert forall|j: int| 0 <= j < head@.len() implies head@[j] != ' ' by {
                    if head@[j] == ' ' {
                        let place = lemma_blank_leaves_its_byte(head@, j);
                        assert(bytes@[place] == BLANK);
                    }
                }
                assert(s@[head@.len() as int] == tail@[0]);
            }
            return head;
        }
        i += 1;
    }
    proof {
        assert forall|j: int| 0 <= j < s@.len() implies s@[j] != ' ' by {
            if s@[j] == ' ' {
                let place = lemma_blank_leaves_its_byte(s@, j);
                assert(bytes@[place] == BLANK);
            }
        }
        assert(s@ == s@.take(s@.len() as int));
    }
    s
}

} // verus!
