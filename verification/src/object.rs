//! Objects in the heap, and references to them.

use vstd::prelude::*;
use vstd::std_specs::convert::FromSpecImpl;
use vstd::std_specs::convert::TryFromSpecImpl;
use std::ops::Deref;
use crate::any_ref::AnyObjectRef;
use crate::error::Error;
use crate::format::ObjectFormat;
use crate::header::{ObjectHeader, EXTENDED_NUM_SLOTS};
use crate::heap::{Heap, WORD_SIZE};
use crate::pointer::{bits_of_word, lemma_word_round_trip, tag_of, word_of_bits, RawObjectPointer};

verus! {

/// The size of an object header in bytes.
pub const HEADER_SIZE: usize = 8;

/// The greatest class index that names no class: a header with a class index
/// up to this one marks free memory or an object that has moved.
pub const FORWARDED_OBJECT_CLASS_INDEX_PUN: u32 = 8;

/// The bits of the word before the header that hold the slot count of a
/// large object: all but the low byte.
pub const EXTENDED_SLOT_COUNT_MASK: u64 = 0xFFFF_FFFF_FFFF_FF00;

/// The slot count that the word before the header stands for: the word with
/// its low byte cleared.
pub open spec fn extended_slot_count(word: u64) -> nat {
    (word & EXTENDED_SLOT_COUNT_MASK) as nat
}

/// An object in a heap: a header word and, after it, the slots. The value
/// is the place of the object, the address of its first slot; the words
/// themselves are in the heap, which every operation that reads or writes
/// them takes as an argument. Nothing ties an object to one heap or keeps
/// the heap from changing under it: an operation that reads the words asks
/// that the heap holds the object.
#[derive(Clone, Copy, Debug, PartialEq, Eq, Structural)]
pub struct Object {
    address: i64,
}

impl View for Object {
    type V = i64;

    closed spec fn view(&self) -> i64 {
        self.address
    }
}

impl Object {
    /// The address of an object is that of a word.
    #[verifier::type_invariant]
    pub open spec fn wf(self) -> bool {
        tag_of(self@) == 0
    }

    /// The address of the first slot: what a reference to the object holds.
    pub open spec fn first_field_address(self) -> int {
        self@ as int
    }

    /// The address of the header: it ends where the first slot begins.
    pub open spec fn header_address(self) -> int {
        self.first_field_address() - HEADER_SIZE
    }

    /// The address of the word before the header.
    pub open spec fn extended_count_address(self) -> int {
        self.header_address() - WORD_SIZE
    }

    /// The address of the slot with the given index: slots follow the header
    /// one word after another.
    pub open spec fn field_address(self, index: int) -> int {
        self.header_address() + HEADER_SIZE + index * WORD_SIZE
    }

    /// The header: the word of the heap at the header's address.
    pub open spec fn spec_header(&self, heap: &Heap) -> ObjectHeader {
        ObjectHeader(heap.word(self.header_address()))
    }

    /// The number of slots: what the header holds, or, where the header
    /// holds 255, what the word before the header stands for.
    pub open spec fn slot_count(&self, heap: &Heap) -> nat {
        if self.spec_header(heap).num_slots() == EXTENDED_NUM_SLOTS {
            extended_slot_count(heap.word(self.extended_count_address()))
        } else {
            self.spec_header(heap).num_slots() as nat
        }
    }

    /// Whether the class index in the header names no class.
    pub open spec fn spec_is_forwarded(&self, heap: &Heap) -> bool {
        self.spec_header(heap).class_index() <= FORWARDED_OBJECT_CLASS_INDEX_PUN
    }

    /// The format in the header.
    pub open spec fn spec_object_format(&self, heap: &Heap) -> ObjectFormat {
        self.spec_header(heap).format()
    }

    /// The number of indexable units that the format finds in the slots.
    pub open spec fn indexable_units(&self, heap: &Heap) -> nat {
        self.spec_object_format(heap).indexable_units(self.slot_count(heap))
    }

    /// What the slot with the given index holds, if the object has such a
    /// slot.
    pub open spec fn field(&self, heap: &Heap, index: int) -> Option<AnyObjectRef> {
        if 0 <= index < self.slot_count(heap) {
            Some(AnyObjectRef::of_word(word_of_bits(heap.word(self.field_address(index)))))
        } else {
            None
        }
    }

    /// Whether two objects are one and the same: they are at one address.
    /// Undecided where either has moved.
    pub open spec fn identical(&self, heap: &Heap, second: &Object) -> Option<bool> {
        if self.spec_is_forwarded(heap) || second.spec_is_forwarded(heap) {
            None
        } else {
            Some(self@ == second@)
        }
    }

    /// Whether two objects have the same header, bit for bit. An error where
    /// the second has moved.
    pub open spec fn same_header(&self, heap: &Heap, other: &Object) -> Result<bool, Error> {
        if other.spec_is_forwarded(heap) {
            Err(Error::ForwardedUnsupported(ObjectRef::of_word(self@), other.spec_header(heap)))
        } else {
            Ok(self.spec_header(heap)@ == other.spec_header(heap)@)
        }
    }

    /// Two objects at the same address are the same object.
    pub proof fn lemma_same_address(self, other: Object)
        requires
            self@ == other@,
        ensures
            self == other,
    {
    }

    /// The index in the heap of the word at the object's first slot.
    fn first_field_index(&self, heap: &Heap) -> (index: usize)
        requires
            heap.holds(self),
        ensures
            index == self.first_field_address() / (WORD_SIZE as int),
            index * WORD_SIZE == self.first_field_address(),
            1 <= index <= heap@.len(),
            index + self.slot_count(heap) <= heap@.len() <= usize::MAX,
            self.spec_header(heap).num_slots() == EXTENDED_NUM_SLOTS ==> index >= 2,
            self.spec_header(heap)@ == heap@[index - 1],
            heap.word(self.extended_count_address()) == heap@[index - 2],
            forall|i: int| heap.word(#[trigger] self.field_address(i)) == heap@[index + i],
    {
        proof {
            use_type_invariant(heap);
        }
        let index = (self.address / (WORD_SIZE as i64)) as usize;
        assert forall|i: int| heap.word(#[trigger] self.field_address(i)) == heap@[index + i] by {
            assert(self.field_address(i) == (index + i) * 8);
        }
        index
    }

    /// The header of the object.
    #[verifier::when_used_as_spec(spec_header)]
    pub fn header(&self, heap: &Heap) -> (header: ObjectHeader)
        requires
            heap.holds(self),
        ensures
            header == self.spec_header(heap),
    {
        let first = self.first_field_index(heap);
        ObjectHeader::from_bits(heap.read(first - 1))
    }

    /// The number of slots of an object that is neither free memory nor an
    /// object that has moved.
    pub fn amount_of_slots(&self, heap: &Heap) -> (slots: usize)
        requires
            heap.holds(self),
            !self.is_forwarded(heap),
        ensures
            slots == self.slot_count(heap),
    {
        self.amount_of_slots_unchecked(heap)
    }

    /// The number of slots, whatever the object is: the count in the header
    /// if that is under 255, else the count in the word before the header,
    /// without its low byte.
    pub fn amount_of_slots_unchecked(&self, heap: &Heap) -> (slots: usize)
        requires
            heap.holds(self),
        ensures
            slots == self.slot_count(heap),
            self.header(heap).num_slots() < EXTENDED_NUM_SLOTS ==> slots == self.header(
                heap,
            ).num_slots(),
            self.header(heap).num_slots() == EXTENDED_NUM_SLOTS ==> slots == extended_slot_count(
                heap.word(self.extended_count_address()),
            ),
    {
        let first = self.first_field_index(heap);
        let num_slots = ObjectHeader::from_bits(heap.read(first - 1)).num_slots();
        if num_slots == EXTENDED_NUM_SLOTS {
            (heap.read(first - 2) & EXTENDED_SLOT_COUNT_MASK) as usize
        } else {
            num_slots as usize
        }
    }

    /// The format of the object.
    #[verifier::when_used_as_spec(spec_object_format)]
    pub fn object_format(&self, heap: &Heap) -> (format: ObjectFormat)
        requires
            heap.holds(self),
        ensures
            format == self.spec_object_format(heap),
    {
        self.header(heap).format()
    }

    /// The number of indexable units in the object. For a compiled method
    /// the count takes in the pointer fields before the code: whoever wants
    /// the length of the code subtracts their size in bytes.
    pub fn amount_of_indexable_units(&self, heap: &Heap) -> (units: usize)
        requires
            heap.holds(self),
        ensures
            units == self.indexable_units(heap),
    {
        let slots = self.amount_of_slots_unchecked(heap);
        let format = self.object_format(heap);
        proof {
            use_type_invariant(heap);
            assert(slots * format.units_per_slot() <= heap@.len() * WORD_SIZE) by (nonlinear_arith)
                requires
                    slots <= heap@.len(),
                    format.units_per_slot() <= WORD_SIZE,
            ;
        }
        format.amount_of_indexable_units(slots)
    }

    /// The address of the object: that of its header.
    pub fn as_ptr(&self) -> (address: i64)
        requires
            self.header_address() >= i64::MIN,
        ensures
            address == self.header_address(),
    {
        self.address - HEADER_SIZE as i64
    }

    /// The address of the first slot, right after the header.
    pub fn first_fixed_field_ptr(&self) -> (address: i64)
        ensures
            address == self.first_field_address(),
            address == self@,
            tag_of(address) == 0,
    {
        proof {
            use_type_invariant(self);
        }
        self.address
    }

    /// Whether the header marks free memory or an object that has moved: its
    /// class index names no class.
    #[verifier::when_used_as_spec(spec_is_forwarded)]
    pub fn is_forwarded(&self, heap: &Heap) -> (forwarded: bool)
        requires
            heap.holds(self),
        ensures
            forwarded == self.spec_is_forwarded(heap),
            forwarded == (self.header(heap).class_index() <= FORWARDED_OBJECT_CLASS_INDEX_PUN),
    {
        self.header(heap).class_index() <= FORWARDED_OBJECT_CLASS_INDEX_PUN
    }

    /// Whether `self` and `second` are one object: `Some` of whether their
    /// addresses are equal, and `None` where either has moved.
    pub fn is_identical(&self, heap: &Heap, second: &Object) -> (identical: Option<bool>)
        requires
            heap.holds(self),
            heap.holds(second),
        ensures
            identical == self.identical(heap, second),
    {
        if self.is_forwarded(heap) {
            return None;
        }
        if second.is_forwarded(heap) {
            return None;
        }
        Some(self.address == second.address)
    }

    /// Whether the headers of `self` and `other` are equal bit for bit. Where
    /// `other` has moved there is no answer, and the error holds a reference
    /// to `self` and the header found at `other`. Whether `self` has moved is
    /// not asked: the header of a moved object differs from that of any
    /// object that has not moved, so the answer is then `Ok(false)`.
    pub fn equals(&self, heap: &Heap, other: &Object) -> (same: Result<bool, Error>)
        requires
            heap.holds(self),
            heap.holds(other),
        ensures
            same == self.same_header(heap, other),
            self.is_forwarded(heap) && !other.is_forwarded(heap) ==> same == Ok::<bool, Error>(
                false,
            ),
    {
        if other.is_forwarded(heap) {
            return Err(Error::ForwardedUnsupported(ObjectRef::from(self), other.header(heap)));
        }
        Ok(self.header(heap).bits() == other.header(heap).bits())
    }

    /// What the slot with index `field_index` holds, or `None` where the
    /// object has no such slot.
    pub fn inst_var_at(&self, heap: &Heap, field_index: usize) -> (value: Option<AnyObjectRef>)
        requires
            heap.holds(self),
        ensures
            value == self.field(heap, field_index as int),
            value is Some <==> field_index < self.slot_count(heap),
    {
        if field_index >= self.amount_of_slots_unchecked(heap) {
            return None;
        }
        let first = self.first_field_index(heap);
        let word = heap.read(first + field_index);
        Some(AnyObjectRef::from(RawObjectPointer::from_bits(word)))
    }

    /// Writes `object` into the slot with index `field_index`. Where the
    /// object has no such slot nothing is written. No other word of the heap
    /// changes, so the object keeps its header and its slot count, and the
    /// slot then holds `object`.
    pub fn inst_var_at_put(&self, heap: &mut Heap, field_index: usize, object: AnyObjectRef)
        requires
            old(heap).holds(self),
        ensures
            field_index < self.slot_count(old(heap)) ==> final(heap)@ == old(heap)@.update(
                self.field_address(field_index as int) / (WORD_SIZE as int),
                bits_of_word(object@),
            ),
            field_index >= self.slot_count(old(heap)) ==> final(heap)@ == old(heap)@,
            final(heap).holds(self),
            self.header(final(heap)) == self.header(old(heap)),
            self.slot_count(final(heap)) == self.slot_count(old(heap)),
            field_index < self.slot_count(old(heap)) ==> self.field(
                final(heap),
                field_index as int,
            ) == Some(object),
    {
        if field_index >= self.amount_of_slots_unchecked(heap) {
            return ;
        }
        let first = self.first_field_index(heap);
        let pointer = object.into_inner();
        proof {
            lemma_word_round_trip(pointer@);
        }
        heap.write(first + field_index, pointer.bits());
    }
}

/// A reference to an object: a tagged word shown not to be an immediate.
/// That is all it shows: the address may lie outside any heap, and what it
/// led to may since have moved or gone.
#[derive(Clone, Copy, Debug, PartialEq, Eq, Structural)]
pub struct ObjectRef {
    object: Object,
}

impl View for ObjectRef {
    type V = i64;

    closed spec fn view(&self) -> i64 {
        self.object@
    }
}

impl ObjectRef {
    /// The reference whose word is `word`.
    pub closed spec fn of_word(word: i64) -> ObjectRef {
        ObjectRef { object: Object { address: word } }
    }

    /// The object that the reference leads to: the one at the address that
    /// the word gives.
    pub closed spec fn object(&self) -> Object {
        self.object
    }

    /// The word of a reference carries the tag zero.
    #[verifier::type_invariant]
    pub open spec fn wf(self) -> bool {
        tag_of(self@) == 0
    }

    /// A reference is its word and nothing else, and leads to the object at
    /// the address that the word gives.
    pub proof fn lemma_word(word: i64)
        ensures
            Self::of_word(word)@ == word,
            Self::of_word(word).object()@ == word,
    {
    }

    /// Two references with the same word are the same reference.
    pub proof fn lemma_same_word(self, other: ObjectRef)
        requires
            self@ == other@,
        ensures
            self == other,
            Self::of_word(self@) == self,
            self.object()@ == self@,
    {
    }

    /// The word as a pointer.
    pub fn into_inner(self) -> (pointer: RawObjectPointer)
        ensures
            pointer@ == self@,
            !pointer.is_immediate(),
    {
        proof {
            use_type_invariant(&self);
        }
        RawObjectPointer(self.object.address)
    }
}

impl Deref for ObjectRef {
    type Target = Object;

    /// The object that the reference leads to. Nothing is checked: whether a
    /// heap holds the object is for the caller to know.
    fn deref(&self) -> (object: &Object)
        ensures
            *object == self.object(),
            object@ == self@,
    {
        &self.object
    }
}

impl TryFrom<RawObjectPointer> for ObjectRef {
    type Error = Error;

    /// The pointer as a reference, unless it is an immediate.
    fn try_from(pointer: RawObjectPointer) -> (reference: Result<ObjectRef, Error>) {
        if !pointer.is_immediate() {
            Ok(ObjectRef { object: Object { address: pointer.0 } })
        } else {
            Err(Error::NotAnObject(pointer))
        }
    }
}

impl TryFromSpecImpl<RawObjectPointer> for ObjectRef {
    open spec fn obeys_try_from_spec() -> bool {
        true
    }

    open spec fn try_from_spec(pointer: RawObjectPointer) -> Result<ObjectRef, Error> {
        if !pointer.is_immediate() {
            Ok(ObjectRef::of_word(pointer@))
        } else {
            Err(Error::NotAnObject(pointer))
        }
    }
}

impl From<&Object> for ObjectRef {
    /// The reference that leads to the object.
    fn from(object: &Object) -> (reference: ObjectRef) {
        proof {
            use_type_invariant(object);
        }
        ObjectRef { object: *object }
    }
}

impl FromSpecImpl<&Object> for ObjectRef {
    open spec fn obeys_from_spec() -> bool {
        true
    }

    open spec fn from_spec(object: &Object) -> ObjectRef {
        ObjectRef::of_word(object@)
    }
}

} // verus!
