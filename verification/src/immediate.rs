//! Values held entirely in a tagged word.

use vstd::prelude::*;
use crate::pointer::{lemma_tag_is_low_bits, tag_of, RawObjectPointer, Tag};

verus! {

/// The least integer that fits in a small-integer word.
pub const MIN_SMALL_INTEGER: i64 = -0x1000_0000_0000_0000;

/// The greatest integer that fits in a small-integer word.
pub const MAX_SMALL_INTEGER: i64 = 0x0FFF_FFFF_FFFF_FFFF;

/// The word of the small integer `value`: the value above the three tag
/// bits, and tag 1.
pub open spec fn small_integer_word(value: int) -> int {
    8 * value + 1
}

/// The word of the character with code `code`: the code above the three tag
/// bits, and tag 2.
pub open spec fn character_word(code: int) -> int {
    8 * code + 2
}

/// A tagged word whose tag is not zero: a value that needs no storage in the
/// heap.
#[derive(Clone, Copy, Debug, PartialEq, Eq, Structural)]
pub struct Immediate {
    word: i64,
}

impl View for Immediate {
    type V = i64;

    closed spec fn view(&self) -> i64 {
        self.word
    }
}

impl Immediate {
    /// The immediate whose word is `word`.
    pub closed spec fn of_word(word: i64) -> Immediate {
        Immediate { word }
    }

    /// Every immediate carries a tag other than zero.
    #[verifier::type_invariant]
    pub open spec fn wf(self) -> bool {
        tag_of(self@) != 0
    }

    /// The class of value that the tag bits select.
    pub open spec fn spec_tag(&self) -> Tag {
        Tag::of(tag_of(self@))
    }

    /// The small integer in the word, if its tag says it holds one.
    pub open spec fn integer_value(self) -> Option<int> {
        if tag_of(self@) == 1 {
            Some((self@ - 1) / 8)
        } else {
            None
        }
    }

    /// The character code in the word, if its tag says it holds one and the
    /// code fits in 32 bits.
    pub open spec fn character_code(self) -> Option<int> {
        if tag_of(self@) == 2 && 0 <= (self@ - 2) / 8 <= u32::MAX {
            Some((self@ - 2) / 8)
        } else {
            None
        }
    }

    /// An immediate is its word and nothing else.
    pub proof fn lemma_word(word: i64)
        ensures
            Self::of_word(word)@ == word,
    {
    }

    /// Two immediates with the same word are the same immediate.
    pub proof fn lemma_same_word(self, other: Immediate)
        requires
            self@ == other@,
        ensures
            self == other,
            Self::of_word(self@) == self,
    {
    }

    /// The immediate whose word is `word`.
    pub(crate) fn from_tagged(word: i64) -> (immediate: Immediate)
        requires
            tag_of(word) != 0,
        ensures
            immediate == Self::of_word(word),
    {
        Immediate { word }
    }

    /// The pointer as an immediate, unless it is a reference.
    pub fn new(pointer: RawObjectPointer) -> (immediate: Option<Immediate>)
        ensures
            pointer.is_immediate() ==> immediate == Some(Self::of_word(pointer@)),
            !pointer.is_immediate() ==> immediate is None,
    {
        if pointer.is_immediate() {
            Some(Immediate { word: pointer.0 })
        } else {
            None
        }
    }

    /// The small integer `value` as an immediate, if it fits in the bits
    /// above the tag.
    pub fn new_integer(value: i64) -> (immediate: Option<Immediate>)
        ensures
            MIN_SMALL_INTEGER <= value <= MAX_SMALL_INTEGER ==> immediate == Some(
                Self::of_word(small_integer_word(value as int) as i64),
            ),
            MIN_SMALL_INTEGER <= value <= MAX_SMALL_INTEGER ==> immediate.unwrap().integer_value()
                == Some(value as int),
            value < MIN_SMALL_INTEGER || value > MAX_SMALL_INTEGER ==> immediate is None,
    {
        if MIN_SMALL_INTEGER <= value && value <= MAX_SMALL_INTEGER {
            let word: i64 = value * 8 + 1;
            Some(Immediate { word })
        } else {
            None
        }
    }

    /// The character with code `code` as an immediate.
    pub fn new_character(code: u32) -> (immediate: Immediate)
        ensures
            immediate == Self::of_word(character_word(code as int) as i64),
            immediate.character_code() == Some(code as int),
    {
        let wide: i64 = code as i64;
        let word: i64 = wide * 8 + 2;
        Immediate { word }
    }

    /// The word itself.
    pub fn as_i64(&self) -> (word: i64)
        ensures
            word == self@,
            tag_of(word) != 0,
    {
        proof {
            use_type_invariant(self);
        }
        self.word
    }

    /// The word as a pointer.
    pub fn into_inner(self) -> (pointer: RawObjectPointer)
        ensures
            pointer@ == self@,
            pointer.is_immediate(),
    {
        proof {
            use_type_invariant(&self);
        }
        RawObjectPointer(self.word)
    }

    /// The class of value that the tag bits select; never a reference.
    #[verifier::when_used_as_spec(spec_tag)]
    pub fn tag(&self) -> (tag: Tag)
        ensures
            tag == self.spec_tag(),
            tag != Tag::Reference,
    {
        proof {
            use_type_invariant(self);
        }
        RawObjectPointer(self.word).tag()
    }

    /// The small integer in the word, if the word holds one.
    pub fn as_integer(&self) -> (value: Option<i64>)
        ensures
            match value {
                Some(integer) => self.integer_value() == Some(integer as int),
                None => self.integer_value() is None,
            },
    {
        let word = self.word;
        let bits: u64 = RawObjectPointer(word).bits() & 7;
        proof {
            lemma_tag_is_low_bits(word);
        }
        if bits == 1 {
            let value: i64 = word >> 3;
            assert(word as int % 8 == 1 ==> word == 8 * (word >> 3) + 1) by (bit_vector);
            Some(value)
        } else {
            None
        }
    }

    /// The character code in the word, if the word holds one that fits in
    /// 32 bits.
    pub fn as_character(&self) -> (code: Option<u32>)
        ensures
            match code {
                Some(character) => self.character_code() == Some(character as int),
                None => self.character_code() is None,
            },
    {
        let word = self.word;
        let bits: u64 = RawObjectPointer(word).bits() & 7;
        proof {
            lemma_tag_is_low_bits(word);
        }
        if bits == 2 {
            let value: i64 = word >> 3;
            assert(word as int % 8 == 2 ==> word == 8 * (word >> 3) + 2) by (bit_vector);
            if 0 <= value && value <= 0xFFFF_FFFF {
                Some(value as u32)
            } else {
                None
            }
        } else {
            None
        }
    }
}

/// A small integer written into a word is read back from it unchanged.
pub proof fn lemma_small_integer_round_trip(value: int)
    requires
        MIN_SMALL_INTEGER <= value <= MAX_SMALL_INTEGER,
    ensures
        i64::MIN <= small_integer_word(value) <= i64::MAX,
        tag_of(small_integer_word(value) as i64) == 1,
        Immediate::of_word(small_integer_word(value) as i64).integer_value() == Some(value),
{
}

/// A character code written into a word is read back from it unchanged.
pub proof fn lemma_character_round_trip(code: int)
    requires
        0 <= code <= u32::MAX,
    ensures
        i64::MIN <= character_word(code) <= i64::MAX,
        tag_of(character_word(code) as i64) == 2,
        Immediate::of_word(character_word(code) as i64).character_code() == Some(code),
{
}

} // verus!
