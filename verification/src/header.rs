//! The header word that stands before the slots of every object.

use vstd::prelude::*;
use crate::format::ObjectFormat;

verus! {

/// The bits of the class index: the 22 low-order bits of the header.
pub const CLASS_INDEX_MASK: u64 = 0x3F_FFFF;

/// The greatest class index that a header can hold.
pub const MAX_CLASS_INDEX: u32 = 0x3F_FFFF;

/// The position of the lowest of the five format bits.
pub const FORMAT_SHIFT: u64 = 24;

/// The format bits, moved down to the low end of a word.
pub const FORMAT_MASK: u64 = 0x1F;

/// The position of the lowest bit of the slot count: it fills the top byte.
pub const NUM_SLOTS_SHIFT: u64 = 56;

/// The slot count that says that the true count did not fit in the header
/// and stands in the word before it.
pub const EXTENDED_NUM_SLOTS: u8 = 255;

/// The header of an object: one 64-bit word. From the low end it packs the
/// class index (22 bits), two bits not read here, the format (5 bits), 27
/// bits not read here, and the slot count (8 bits). Two headers are equal
/// when all their bits are.
#[derive(Clone, Copy, Debug, PartialEq, Eq, Structural)]
pub struct ObjectHeader(pub u64);

impl View for ObjectHeader {
    type V = u64;

    open spec fn view(&self) -> u64 {
        self.0
    }
}

impl ObjectHeader {
    /// The 22 low-order bits as a number.
    pub open spec fn spec_class_index(&self) -> u32 {
        (self@ & CLASS_INDEX_MASK) as u32
    }

    /// The top byte as a number.
    pub open spec fn spec_num_slots(&self) -> u8 {
        (self@ >> NUM_SLOTS_SHIFT) as u8
    }

    /// The five format bits as a number.
    pub open spec fn format_code(&self) -> u8 {
        ((self@ >> FORMAT_SHIFT) & FORMAT_MASK) as u8
    }

    /// The format that the five format bits select.
    pub open spec fn spec_format(&self) -> ObjectFormat {
        ObjectFormat::from_code(self.format_code())
    }

    /// The bits of the header that holds the three given fields and nothing
    /// else.
    pub open spec fn pack(class_index: u32, code: u8, num_slots: u8) -> u64 {
        (class_index as u64) | ((code as u64) << FORMAT_SHIFT) | ((num_slots as u64)
            << NUM_SLOTS_SHIFT)
    }

    /// Each bit field holds a number of its own width.
    pub proof fn lemma_field_ranges(self)
        ensures
            self.spec_class_index() <= MAX_CLASS_INDEX,
            self.spec_class_index() == self@ & CLASS_INDEX_MASK,
            self.format_code() < 32,
            self.format_code() == (self@ >> FORMAT_SHIFT) & FORMAT_MASK,
            self.spec_num_slots() == self@ >> NUM_SLOTS_SHIFT,
    {
        let bits = self@;
        assert(bits & 0x3F_FFFF <= 0x3F_FFFF) by (bit_vector);
        assert((bits >> 24) & 0x1F < 32) by (bit_vector);
        assert(bits >> 56 <= 0xFF) by (bit_vector);
    }

    /// What is packed into a header is read back from it unchanged.
    pub proof fn lemma_pack_round_trip(class_index: u32, code: u8, num_slots: u8)
        requires
            class_index <= MAX_CLASS_INDEX,
            code < 32,
        ensures
            ObjectHeader(Self::pack(class_index, code, num_slots)).spec_class_index()
                == class_index,
            ObjectHeader(Self::pack(class_index, code, num_slots)).format_code() == code,
            ObjectHeader(Self::pack(class_index, code, num_slots)).spec_num_slots() == num_slots,
    {
        let c = class_index as u64;
        let f = code as u64;
        let n = num_slots as u64;
        assert(c <= 0x3F_FFFF && f < 32 && n <= 0xFF ==> ((c | (f << 24) | (n << 56)) & 0x3F_FFFF)
            == c) by (bit_vector);
        assert(c <= 0x3F_FFFF && f < 32 && n <= 0xFF ==> (((c | (f << 24) | (n << 56)) >> 24)
            & 0x1F) == f) by (bit_vector);
        assert(c <= 0x3F_FFFF && f < 32 && n <= 0xFF ==> ((c | (f << 24) | (n << 56)) >> 56) == n)
            by (bit_vector);
    }

    /// The header with the given bits.
    pub fn from_bits(bits: u64) -> (header: ObjectHeader)
        ensures
            header@ == bits,
    {
        ObjectHeader(bits)
    }

    /// The header that holds the given class index, format and slot count,
    /// with every other bit clear.
    pub fn new(class_index: u32, format: ObjectFormat, num_slots: u8) -> (header: ObjectHeader)
        requires
            class_index <= MAX_CLASS_INDEX,
            format.code() < 32,
        ensures
            header@ == Self::pack(class_index, format.code(), num_slots),
            header.class_index() == class_index,
            header.format_code() == format.code(),
            format.wf() ==> header.format() == format,
            header.num_slots() == num_slots,
    {
        let code = format.code();
        proof {
            Self::lemma_pack_round_trip(class_index, code, num_slots);
        }
        ObjectHeader(
            (class_index as u64) | ((code as u64) << FORMAT_SHIFT) | ((num_slots as u64)
                << NUM_SLOTS_SHIFT),
        )
    }

    /// All 64 bits of the header.
    pub fn bits(&self) -> (bits: u64)
        ensures
            bits == self@,
    {
        self.0
    }

    /// The index of the object's class in the class table. The indices up to
    /// eight name no class: they mark memory that is free or an object that
    /// has moved.
    #[verifier::when_used_as_spec(spec_class_index)]
    pub fn class_index(&self) -> (class_index: u32)
        ensures
            class_index == self.spec_class_index(),
            class_index <= MAX_CLASS_INDEX,
    {
        proof {
            self.lemma_field_ranges();
        }
        (self.0 & CLASS_INDEX_MASK) as u32
    }

    /// The slot count as the header holds it: the number of slots if that is
    /// under 255, and 255 where the count stands in the word before the
    /// header.
    #[verifier::when_used_as_spec(spec_num_slots)]
    pub fn num_slots(&self) -> (num_slots: u8)
        ensures
            num_slots == self.spec_num_slots(),
    {
        proof {
            self.lemma_field_ranges();
        }
        (self.0 >> NUM_SLOTS_SHIFT) as u8
    }

    /// The format that the five format bits select.
    #[verifier::when_used_as_spec(spec_format)]
    pub fn format(&self) -> (format: ObjectFormat)
        ensures
            format == self.spec_format(),
            format.wf(),
            format.code() == self.format_code(),
    {
        proof {
            self.lemma_field_ranges();
            ObjectFormat::lemma_code_round_trip(self.format_code());
        }
        ObjectFormat::from_code(((self.0 >> FORMAT_SHIFT) & FORMAT_MASK) as u8)
    }
}

} // verus!
