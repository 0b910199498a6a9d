//! How the storage of an object is to be read.

use vstd::prelude::*;

verus! {

/// The layout of an object's slots, as the five format bits of its header
/// give it. Each slot is one 64-bit word; a format says how many indexable
/// units a slot holds, and how many of the units in the last slot are
/// padding.
#[derive(Clone, Copy, Debug, PartialEq, Eq, Structural)]
pub enum ObjectFormat {
    /// Code 0: an object without slots.
    ZeroSized,
    /// Code 1: a fixed number of pointer fields, one to a slot.
    FixedPointers,
    /// Code 2: indexable pointer fields only.
    VariablePointers,
    /// Code 3: fixed pointer fields followed by indexable ones.
    MixedPointers,
    /// Code 4: indexable pointer fields that do not keep their referents
    /// alive.
    WeakPointers,
    /// Code 5: fixed pointer fields, the first of which is held weakly.
    Ephemeron,
    /// Code 7: what the collector leaves behind where an object has moved.
    Forwarded,
    /// Code 9: indexable 64-bit words, one to a slot.
    Words,
    /// Codes 10 and 11: indexable 32-bit units, two to a slot.
    HalfWords { unused: u8 },
    /// Codes 12 to 15: indexable 16-bit units, four to a slot.
    Shorts { unused: u8 },
    /// Codes 16 to 23: indexable bytes, eight to a slot.
    Bytes { unused: u8 },
    /// Codes 24 to 31: pointer fields followed by bytes of code, counted in
    /// bytes. The count includes the pointer prefix: whoever wants the length
    /// of the code alone subtracts the size of the prefix.
    CompiledMethod { unused: u8 },
    /// Any code without a meaning.
    Reserved { code: u8 },
}

impl ObjectFormat {
    /// The format that a code stands for.
    pub open spec fn spec_from_code(code: u8) -> ObjectFormat {
        if code == 0 {
            ObjectFormat::ZeroSized
        } else if code == 1 {
            ObjectFormat::FixedPointers
        } else if code == 2 {
            ObjectFormat::VariablePointers
        } else if code == 3 {
            ObjectFormat::MixedPointers
        } else if code == 4 {
            ObjectFormat::WeakPointers
        } else if code == 5 {
            ObjectFormat::Ephemeron
        } else if code == 7 {
            ObjectFormat::Forwarded
        } else if code == 9 {
            ObjectFormat::Words
        } else if 10 <= code <= 11 {
            ObjectFormat::HalfWords { unused: (code - 10) as u8 }
        } else if 12 <= code <= 15 {
            ObjectFormat::Shorts { unused: (code - 12) as u8 }
        } else if 16 <= code <= 23 {
            ObjectFormat::Bytes { unused: (code - 16) as u8 }
        } else if 24 <= code <= 31 {
            ObjectFormat::CompiledMethod { unused: (code - 24) as u8 }
        } else {
            ObjectFormat::Reserved { code }
        }
    }

    /// The code of a format, when the format has one.
    pub open spec fn spec_code(&self) -> u8 {
        match *self {
            ObjectFormat::ZeroSized => 0,
            ObjectFormat::FixedPointers => 1,
            ObjectFormat::VariablePointers => 2,
            ObjectFormat::MixedPointers => 3,
            ObjectFormat::WeakPointers => 4,
            ObjectFormat::Ephemeron => 5,
            ObjectFormat::Forwarded => 7,
            ObjectFormat::Words => 9,
            ObjectFormat::HalfWords { unused } => (10 + unused % 2) as u8,
            ObjectFormat::Shorts { unused } => (12 + unused % 4) as u8,
            ObjectFormat::Bytes { unused } => (16 + unused % 8) as u8,
            ObjectFormat::CompiledMethod { unused } => (24 + unused % 8) as u8,
            ObjectFormat::Reserved { code } => code,
        }
    }

    /// Whether the format is one that a code decodes to: the padding is less
    /// than a slot, and a reserved code is none of the codes with a meaning.
    pub open spec fn wf(self) -> bool {
        match self {
            ObjectFormat::HalfWords { unused } => unused < 2,
            ObjectFormat::Shorts { unused } => unused < 4,
            ObjectFormat::Bytes { unused } => unused < 8,
            ObjectFormat::CompiledMethod { unused } => unused < 8,
            ObjectFormat::Reserved { code } => code == 6 || code == 8 || code >= 32,
            _ => true,
        }
    }

    /// How many indexable units one slot holds.
    pub open spec fn units_per_slot(self) -> nat {
        match self {
            ObjectFormat::HalfWords { .. } => 2,
            ObjectFormat::Shorts { .. } => 4,
            ObjectFormat::Bytes { .. } => 8,
            ObjectFormat::CompiledMethod { .. } => 8,
            ObjectFormat::Forwarded => 0,
            ObjectFormat::Reserved { .. } => 0,
            _ => 1,
        }
    }

    /// How many units at the end of the last slot are padding.
    pub open spec fn unused_units(self) -> nat {
        match self {
            ObjectFormat::HalfWords { unused } => unused as nat,
            ObjectFormat::Shorts { unused } => unused as nat,
            ObjectFormat::Bytes { unused } => unused as nat,
            ObjectFormat::CompiledMethod { unused } => unused as nat,
            _ => 0,
        }
    }

    /// The number of indexable units in `slots` slots: the units that the
    /// slots hold, less the padding; none where the padding is more than
    /// the slots hold.
    pub open spec fn indexable_units(self, slots: nat) -> nat {
        if slots * self.units_per_slot() >= self.unused_units() {
            (slots * self.units_per_slot() - self.unused_units()) as nat
        } else {
            0
        }
    }

    /// Decoding gives a format that encodes to the same code.
    pub proof fn lemma_code_round_trip(code: u8)
        ensures
            Self::spec_from_code(code).wf(),
            Self::spec_from_code(code).spec_code() == code,
    {
    }

    /// Encoding a well-formed format gives a code that decodes to it.
    pub proof fn lemma_format_round_trip(self)
        requires
            self.wf(),
        ensures
            Self::spec_from_code(self.spec_code()) == self,
    {
    }

    /// The format that a code stands for.
    #[verifier::when_used_as_spec(spec_from_code)]
    pub fn from_code(code: u8) -> (format: ObjectFormat)
        ensures
            format == Self::spec_from_code(code),
            format.wf(),
    {
        if code == 0 {
            ObjectFormat::ZeroSized
        } else if code == 1 {
            ObjectFormat::FixedPointers
        } else if code == 2 {
            ObjectFormat::VariablePointers
        } else if code == 3 {
            ObjectFormat::MixedPointers
        } else if code == 4 {
            ObjectFormat::WeakPointers
        } else if code == 5 {
            ObjectFormat::Ephemeron
        } else if code == 7 {
            ObjectFormat::Forwarded
        } else if code == 9 {
            ObjectFormat::Words
        } else if 10 <= code && code <= 11 {
            ObjectFormat::HalfWords { unused: code - 10 }
        } else if 12 <= code && code <= 15 {
            ObjectFormat::Shorts { unused: code - 12 }
        } else if 16 <= code && code <= 23 {
            ObjectFormat::Bytes { unused: code - 16 }
        } else if 24 <= code && code <= 31 {
            ObjectFormat::CompiledMethod { unused: code - 24 }
        } else {
            ObjectFormat::Reserved { code }
        }
    }

    /// The code of the format. A padding that is a slot or more counts
    /// modulo the units of a slot.
    #[verifier::when_used_as_spec(spec_code)]
    pub fn code(&self) -> (code: u8)
        ensures
            code == self.spec_code(),
            self.wf() ==> Self::spec_from_code(code) == *self,
    {
        match *self {
            ObjectFormat::ZeroSized => 0,
            ObjectFormat::FixedPointers => 1,
            ObjectFormat::VariablePointers => 2,
            ObjectFormat::MixedPointers => 3,
            ObjectFormat::WeakPointers => 4,
            ObjectFormat::Ephemeron => 5,
            ObjectFormat::Forwarded => 7,
            ObjectFormat::Words => 9,
            ObjectFormat::HalfWords { unused } => 10 + unused % 2,
            ObjectFormat::Shorts { unused } => 12 + unused % 4,
            ObjectFormat::Bytes { unused } => 16 + unused % 8,
            ObjectFormat::CompiledMethod { unused } => 24 + unused % 8,
            ObjectFormat::Reserved { code } => code,
        }
    }

    /// The layout of a byte object that holds `length` bytes: the format,
    /// which says how many bytes of the last slot are padding, and the
    /// number of slots, the least that holds the bytes.
    pub fn for_byte_length(length: usize) -> (layout: (ObjectFormat, usize))
        ensures
            layout.0 == (ObjectFormat::Bytes { unused: ((8 - length % 8) % 8) as u8 }),
            layout.1 == (length + 7) / 8,
            layout.0.wf(),
            layout.0.indexable_units(layout.1 as nat) == length,
    {
        let rest: usize = length % 8;
        if rest == 0 {
            (ObjectFormat::Bytes { unused: 0 }, length / 8)
        } else {
            (ObjectFormat::Bytes { unused: (8 - rest) as u8 }, length / 8 + 1)
        }
    }

    /// The number of indexable units in an object of `num_slots` slots.
    pub fn amount_of_indexable_units(&self, num_slots: usize) -> (units: usize)
        requires
            num_slots * self.units_per_slot() <= usize::MAX,
        ensures
            units == self.indexable_units(num_slots as nat),
    {
        let per_slot: usize = match *self {
            ObjectFormat::HalfWords { .. } => 2,
            ObjectFormat::Shorts { .. } => 4,
            ObjectFormat::Bytes { .. } => 8,
            ObjectFormat::CompiledMethod { .. } => 8,
            ObjectFormat::Forwarded => 0,
            ObjectFormat::Reserved { .. } => 0,
            _ => 1,
        };
        let unused: usize = match *self {
            ObjectFormat::HalfWords { unused } => unused as usize,
            ObjectFormat::Shorts { unused } => unused as usize,
            ObjectFormat::Bytes { unused } => unused as usize,
            ObjectFormat::CompiledMethod { unused } => unused as usize,
            _ => 0,
        };
        assert(per_slot == self.units_per_slot());
        let held: usize = num_slots * per_slot;
        if held >= unused {
            held - unused
        } else {
            0
        }
    }
}

} // verus!
