//! What holds of the operations on objects taken together.

use vstd::prelude::*;
use crate::any_ref::AnyObjectRef;
use crate::error::Error;
use crate::header::EXTENDED_NUM_SLOTS;
use crate::heap::{Heap, WORD_SIZE};
use crate::object::{Object, FORWARDED_OBJECT_CLASS_INDEX_PUN};
use crate::pointer::{bits_of_word, lemma_word_round_trip};

verus! {

/// The slots of an object are words of the heap that holds it, one after
/// another, and none of them is the header or the word before it.
pub proof fn lemma_slots_lie_in_heap(object: Object, heap: Heap, index: int)
    requires
        heap.holds(&object),
        0 <= index < object.slot_count(&heap),
    ensures
        heap.has_word(object.field_address(index)),
        object.field_address(index) / (WORD_SIZE as int) == object.header_address() / (WORD_SIZE
            as int) + 1 + index,
        object.field_address(index) != object.header_address(),
        object.field_address(index) != object.extended_count_address(),
{
}

/// A slot that has been written holds what was written, the other slots of
/// the object hold what they held, and the object keeps its header and its
/// slot count.
pub proof fn lemma_write_then_read(
    object: Object,
    before: Heap,
    after: Heap,
    index: int,
    value: AnyObjectRef,
)
    requires
        before.holds(&object),
        0 <= index < object.slot_count(&before),
        value.wf(),
        after@ == before@.update(
            object.field_address(index) / (WORD_SIZE as int),
            bits_of_word(value@),
        ),
    ensures
        after.holds(&object),
        object.spec_header(&after) == object.spec_header(&before),
        object.slot_count(&after) == object.slot_count(&before),
        object.field(&after, index) == Some(value),
        forall|other: int|
            other != index ==> #[trigger] object.field(&after, other) == object.field(
                &before,
                other,
            ),
{
    lemma_slots_lie_in_heap(object, before, index);
    lemma_word_round_trip(value@);
    value.lemma_word_round_trip();
    assert forall|other: int| other != index implies #[trigger] object.field(&after, other)
        == object.field(&before, other) by {
        if 0 <= other < object.slot_count(&before) {
            lemma_slots_lie_in_heap(object, before, other);
        }
    }
}

/// An index at or past the slot count names no slot.
pub proof fn lemma_out_of_range(object: Object, heap: Heap, index: int)
    requires
        index >= object.slot_count(&heap),
    ensures
        object.field(&heap, index) is None,
{
}

/// A write into a slot of one object leaves every other object in the heap
/// as it was, so long as the slot is not a word of that object's header or
/// of the slot count before it: the object is still held, with the same
/// header and slot count, and each of its slots but the written word holds
/// what it held.
pub proof fn lemma_write_leaves_others(
    object: Object,
    other: Object,
    before: Heap,
    after: Heap,
    index: int,
    bits: u64,
)
    requires
        before.holds(&object),
        before.holds(&other),
        0 <= index < object.slot_count(&before),
        after@ == before@.update(object.field_address(index) / (WORD_SIZE as int), bits),
        object.field_address(index) != other.header_address(),
        other.spec_header(&before).num_slots() == EXTENDED_NUM_SLOTS ==> object.field_address(index)
            != other.extended_count_address(),
    ensures
        after.holds(&other),
        other.spec_header(&after) == other.spec_header(&before),
        other.slot_count(&after) == other.slot_count(&before),
        forall|slot: int|
            other.field_address(slot) != object.field_address(index) ==> #[trigger] other.field(
                &after,
                slot,
            ) == other.field(&before, slot),
{
    lemma_slots_lie_in_heap(object, before, index);
    assert forall|slot: int|
        other.field_address(slot) != object.field_address(index) implies #[trigger] other.field(
        &after,
        slot,
    ) == other.field(&before, slot) by {
        if 0 <= slot < other.slot_count(&before) {
            lemma_slots_lie_in_heap(other, before, slot);
        }
    }
}

/// An object that has not moved is identical to itself.
pub proof fn lemma_identical_to_itself(object: Object, heap: Heap)
    requires
        !object.is_forwarded(&heap),
    ensures
        object.identical(&heap, &object) == Some(true),
{
}

/// Two objects at different addresses, neither of which has moved, are not
/// identical, whatever their headers and slots hold.
pub proof fn lemma_distinct_objects_differ(first: Object, second: Object, heap: Heap)
    requires
        first@ != second@,
        !first.is_forwarded(&heap),
        !second.is_forwarded(&heap),
    ensures
        first.identical(&heap, &second) == Some(false),
{
}

/// Identity is undecided as soon as either object has moved.
pub proof fn lemma_identity_of_moved_is_undecided(first: Object, second: Object, heap: Heap)
    requires
        first.is_forwarded(&heap) || second.is_forwarded(&heap),
    ensures
        first.identical(&heap, &second) is None,
{
}

/// Identity does not depend on the order of the two objects.
pub proof fn lemma_identity_is_symmetric(first: Object, second: Object, heap: Heap)
    ensures
        first.identical(&heap, &second) == second.identical(&heap, &first),
{
}

/// Comparing with an object that has not moved says whether the two headers
/// are the same bit for bit; comparing with one that has moved is an error,
/// whatever the headers hold.
pub proof fn lemma_equality_is_of_headers(first: Object, second: Object, heap: Heap)
    ensures
        first.same_header(&heap, &second) == Ok::<bool, Error>(true) <==> !second.is_forwarded(
            &heap,
        ) && first.spec_header(&heap)@ == second.spec_header(&heap)@,
        first.same_header(&heap, &second) == Ok::<bool, Error>(false) <==> !second.is_forwarded(
            &heap,
        ) && first.spec_header(&heap)@ != second.spec_header(&heap)@,
        first.same_header(&heap, &second) is Err <==> second.is_forwarded(&heap),
{
}

/// An object that has moved equals no object that has not.
pub proof fn lemma_moved_equals_no_live_object(first: Object, second: Object, heap: Heap)
    requires
        first.is_forwarded(&heap),
        !second.is_forwarded(&heap),
    ensures
        first.same_header(&heap, &second) == Ok::<bool, Error>(false),
{
}

/// Whether an object has moved is a matter of its class index alone: the
/// indices from 0 to 8 mark it as moved or free, every other as live.
pub proof fn lemma_forwarded_by_class_index(object: Object, heap: Heap)
    ensures
        object.is_forwarded(&heap) <==> 0 <= object.spec_header(&heap).class_index()
            <= FORWARDED_OBJECT_CLASS_INDEX_PUN,
{
}

} // verus!
