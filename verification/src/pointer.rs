//! Tagged machine words.

use vstd::prelude::*;
use vstd::std_specs::convert::FromSpecImpl;

verus! {

/// The tag of a word: its value modulo eight, that is, its three low-order
/// bits read as an unsigned number.
pub open spec fn tag_of(word: i64) -> int {
    word as int % 8
}

/// The 64 bits of a tagged word, as a word of memory holds them.
pub open spec fn bits_of_word(word: i64) -> u64 {
    #[verifier::truncate]
    (word as u64)
}

/// The tagged word that a word of memory holds: the same 64 bits, read as a
/// signed number.
pub open spec fn word_of_bits(bits: u64) -> i64 {
    #[verifier::truncate]
    (bits as i64)
}

/// The tag is what remains of the word's bit pattern under the mask `0b111`.
pub proof fn lemma_tag_is_low_bits(word: i64)
    ensures
        (bits_of_word(word) & 7) as int == tag_of(word),
        0 <= tag_of(word) < 8,
{
    assert(((word as u64) & 7) as int == (word as int) % 8) by (bit_vector);
}

/// A tagged word written to memory is read back from it unchanged.
pub proof fn lemma_word_round_trip(word: i64)
    ensures
        word_of_bits(bits_of_word(word)) == word,
{
    assert(((word as u64) as i64) == word) by (bit_vector);
}

/// A word of memory read as a tagged word is written back unchanged.
pub proof fn lemma_bits_round_trip(bits: u64)
    ensures
        bits_of_word(word_of_bits(bits)) == bits,
{
    assert(((bits as i64) as u64) == bits) by (bit_vector);
}

/// What the tag of a word says about the word.
#[derive(Clone, Copy, Debug, PartialEq, Eq, Structural)]
pub enum Tag {
    /// Tag 0: the word is the address of an object in the heap.
    Reference,
    /// Tag 1: the word holds a small integer.
    SmallInteger,
    /// Tag 2: the word holds a character.
    Character,
    /// Tags 3 to 7: immediate encodings set aside for other uses.
    Reserved,
}

impl Tag {
    /// The meaning of a tag value.
    pub open spec fn of(tag: int) -> Tag {
        if tag == 0 {
            Tag::Reference
        } else if tag == 1 {
            Tag::SmallInteger
        } else if tag == 2 {
            Tag::Character
        } else {
            Tag::Reserved
        }
    }
}

/// One machine word that is either an immediate value or the address of an
/// object. Any word is a pointer: nothing is checked about where a reference
/// leads.
#[derive(Clone, Copy, Debug, PartialEq, Eq, Structural)]
pub struct RawObjectPointer(pub i64);

impl View for RawObjectPointer {
    type V = i64;

    open spec fn view(&self) -> i64 {
        self.0
    }
}

impl RawObjectPointer {
    /// The class of value that the tag bits select.
    pub open spec fn spec_tag(&self) -> Tag {
        Tag::of(tag_of(self@))
    }

    /// Whether the tag is that of an immediate: any tag but zero.
    pub open spec fn spec_is_immediate(&self) -> bool {
        tag_of(self@) != 0
    }

    /// The pointer made of `word`.
    pub fn new(word: i64) -> (pointer: RawObjectPointer)
        ensures
            pointer@ == word,
    {
        RawObjectPointer(word)
    }

    /// The pointer that a word of memory holds.
    pub fn from_bits(bits: u64) -> (pointer: RawObjectPointer)
        ensures
            pointer@ == word_of_bits(bits),
    {
        RawObjectPointer(
            #[verifier::truncate]
            (bits as i64),
        )
    }

    /// The word itself.
    pub fn as_i64(&self) -> (word: i64)
        ensures
            word == self@,
    {
        self.0
    }

    /// The bits of the word, as a word of memory holds them.
    pub fn bits(&self) -> (bits: u64)
        ensures
            bits == bits_of_word(self@),
    {
        #[verifier::truncate]
        (self.0 as u64)
    }

    /// The class of value that the tag bits select.
    #[verifier::when_used_as_spec(spec_tag)]
    pub fn tag(&self) -> (tag: Tag)
        ensures
            tag == self.spec_tag(),
    {
        let bits: u64 = self.bits() & 7;
        proof {
            lemma_tag_is_low_bits(self.0);
        }
        if bits == 0 {
            Tag::Reference
        } else if bits == 1 {
            Tag::SmallInteger
        } else if bits == 2 {
            Tag::Character
        } else {
            Tag::Reserved
        }
    }

    /// Whether the word is an immediate value rather than a reference: its
    /// tag is not zero.
    #[verifier::when_used_as_spec(spec_is_immediate)]
    pub fn is_immediate(&self) -> (immediate: bool)
        ensures
            immediate == self.spec_is_immediate(),
            immediate == (self.tag() != Tag::Reference),
    {
        let bits: u64 = self.bits() & 7;
        proof {
            lemma_tag_is_low_bits(self.0);
        }
        bits != 0
    }
}

impl From<i64> for RawObjectPointer {
    /// The pointer made of `word`.
    fn from(word: i64) -> (pointer: RawObjectPointer) {
        RawObjectPointer(word)
    }
}

impl FromSpecImpl<i64> for RawObjectPointer {
    open spec fn obeys_from_spec() -> bool {
        true
    }

    open spec fn from_spec(word: i64) -> RawObjectPointer {
        RawObjectPointer(word)
    }
}

} // verus!
