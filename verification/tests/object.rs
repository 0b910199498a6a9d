use vm_object_model::{
    AnyObjectRef, Error, Heap, Immediate, ObjectFormat, ObjectHeader, ObjectRef,
    RawObjectPointer,
};

fn object_at(address: i64) -> ObjectRef {
    ObjectRef::try_from(RawObjectPointer::new(address)).unwrap()
}

fn integer(value: i64) -> AnyObjectRef {
    AnyObjectRef::Immediate(Immediate::new_integer(value).unwrap())
}

fn integer_bits(value: i64) -> u64 {
    Immediate::new_integer(value).unwrap().into_inner().bits()
}

fn words_of(heap: &Heap) -> Vec<u64> {
    (0..heap.len()).map(|index| heap.word_at(index).unwrap()).collect()
}

/// One object of three slots holding the small integers 1, 2 and 3, with a
/// word of other data on either side.
fn three_slot_heap(class_index: u32) -> Heap {
    let header = ObjectHeader::new(class_index, ObjectFormat::FixedPointers, 3).bits();
    Heap::new(vec![0xAAAA, header, integer_bits(1), integer_bits(2), integer_bits(3), 0xBBBB])
        .unwrap()
}

#[test]
fn fixed_size_object_of_three_small_integers() {
    let heap = three_slot_heap(100);
    let object = object_at(16);
    assert!(heap.holds_object(&object));
    assert_eq!(object.amount_of_slots(&heap), 3);
    assert_eq!(object.inst_var_at(&heap, 0), Some(integer(1)));
    assert_eq!(object.inst_var_at(&heap, 1), Some(integer(2)));
    assert_eq!(object.inst_var_at(&heap, 2), Some(integer(3)));
    assert_eq!(object.inst_var_at(&heap, 3), None);
    assert_eq!(object.object_format(&heap), ObjectFormat::FixedPointers);
    assert_eq!(object.amount_of_indexable_units(&heap), 3);
    assert_eq!(object.header(&heap), ObjectHeader::new(100, ObjectFormat::FixedPointers, 3));
}

#[test]
fn byte_object_of_ten_bytes() {
    let (format, num_slots) = ObjectFormat::for_byte_length(10);
    let header = ObjectHeader::new(100, format, num_slots as u8).bits();
    let heap = Heap::new(vec![header, 0x6F77_206F_6C6C_6568, 0x646C]).unwrap();
    let object = object_at(8);
    assert!(heap.holds_object(&object));
    assert_eq!(object.amount_of_slots(&heap), 2);
    assert_eq!(object.amount_of_indexable_units(&heap), 10);
}

#[test]
fn slot_count_under_255_is_read_from_the_header() {
    for num_slots in [0u8, 1, 2, 100, 254] {
        let header = ObjectHeader::new(100, ObjectFormat::VariablePointers, num_slots).bits();
        let mut words = vec![u64::MAX, header];
        words.resize(2 + num_slots as usize, 0);
        let heap = Heap::new(words).unwrap();
        let object = object_at(16);
        assert!(heap.holds_object(&object));
        assert_eq!(object.amount_of_slots_unchecked(&heap), num_slots as usize);
        assert_eq!(object.amount_of_slots(&heap), num_slots as usize);
    }
}

#[test]
fn slot_count_of_255_is_read_from_the_word_before_the_header() {
    let header = ObjectHeader::new(100, ObjectFormat::VariablePointers, 255).bits();
    let mut words = vec![0x300, header];
    words.resize(2 + 0x300, 0);
    words[2 + 0x2FF] = integer_bits(7);
    let heap = Heap::new(words).unwrap();
    let object = object_at(16);
    assert!(heap.holds_object(&object));
    assert_eq!(object.amount_of_slots_unchecked(&heap), 0x300);
    assert_eq!(object.amount_of_slots(&heap), 0x300);
    assert_eq!(object.inst_var_at(&heap, 0x2FF), Some(integer(7)));
    assert_eq!(object.inst_var_at(&heap, 0x300), None);
}

#[test]
fn low_byte_of_the_extended_count_is_masked_off() {
    let header = ObjectHeader::new(100, ObjectFormat::VariablePointers, 255).bits();
    for low_byte in [0x01, 0x2A, 0xFF] {
        let mut words = vec![0x300 | low_byte, header];
        words.resize(2 + 0x300, 0);
        let heap = Heap::new(words).unwrap();
        let object = object_at(16);
        assert!(heap.holds_object(&object));
        assert_eq!(object.amount_of_slots_unchecked(&heap), 0x300);
    }
    let heap = Heap::new(vec![0xFF, header]).unwrap();
    let object = object_at(16);
    assert!(heap.holds_object(&object));
    assert_eq!(object.amount_of_slots_unchecked(&heap), 0);
}

#[test]
fn class_indices_up_to_eight_mark_a_moved_object() {
    for class_index in 0..=8 {
        let heap = three_slot_heap(class_index);
        let object = object_at(16);
        assert!(object.is_forwarded(&heap));
        assert_eq!(object.amount_of_slots_unchecked(&heap), 3);
    }
}

#[test]
fn class_indices_above_eight_mark_a_live_object() {
    for class_index in [9, 10, 100, 0x3F_FFFF] {
        let heap = three_slot_heap(class_index);
        let object = object_at(16);
        assert!(!object.is_forwarded(&heap));
        assert_eq!(object.amount_of_slots(&heap), object.amount_of_slots_unchecked(&heap));
    }
}

#[test]
fn written_slot_reads_back() {
    let mut heap = three_slot_heap(100);
    let object = object_at(16);
    let values = [
        integer(42),
        integer(-42),
        AnyObjectRef::Immediate(Immediate::new_character(65)),
        AnyObjectRef::Object(object_at(0x1000)),
        AnyObjectRef::Object(object_at(-0x1000)),
        AnyObjectRef::from(RawObjectPointer::new(-1)),
        AnyObjectRef::from(RawObjectPointer::new(i64::MIN)),
    ];
    for value in values {
        for index in 0..3 {
            object.inst_var_at_put(&mut heap, index, value);
            assert_eq!(object.inst_var_at(&heap, index), Some(value));
        }
    }
}

#[test]
fn write_changes_one_word_only() {
    let mut heap = three_slot_heap(100);
    let object = object_at(16);
    let before = words_of(&heap);
    object.inst_var_at_put(&mut heap, 1, integer(42));
    let after = words_of(&heap);
    assert_eq!(after[3], integer_bits(42));
    for index in [0, 1, 2, 4, 5] {
        assert_eq!(after[index], before[index]);
    }
    assert_eq!(object.inst_var_at(&heap, 0), Some(integer(1)));
    assert_eq!(object.inst_var_at(&heap, 1), Some(integer(42)));
    assert_eq!(object.inst_var_at(&heap, 2), Some(integer(3)));
    assert_eq!(object.amount_of_slots(&heap), 3);
}

#[test]
fn read_out_of_range_finds_nothing() {
    let heap = three_slot_heap(100);
    let object = object_at(16);
    assert_eq!(object.inst_var_at(&heap, 3), None);
    assert_eq!(object.inst_var_at(&heap, 4), None);
    assert_eq!(object.inst_var_at(&heap, usize::MAX), None);
}

#[test]
fn write_out_of_range_changes_nothing() {
    let mut heap = three_slot_heap(100);
    let object = object_at(16);
    let before = words_of(&heap);
    object.inst_var_at_put(&mut heap, 3, integer(42));
    assert_eq!(words_of(&heap), before);
    object.inst_var_at_put(&mut heap, 4, integer(42));
    assert_eq!(words_of(&heap), before);
    object.inst_var_at_put(&mut heap, usize::MAX, integer(42));
    assert_eq!(words_of(&heap), before);
    assert_eq!(heap.word_at(5), Some(0xBBBB));
}

#[test]
fn object_without_slots_has_nothing_to_read_or_write() {
    let header = ObjectHeader::new(100, ObjectFormat::ZeroSized, 0).bits();
    let mut heap = Heap::new(vec![header, 0xBBBB]).unwrap();
    let object = object_at(8);
    assert!(heap.holds_object(&object));
    assert_eq!(object.amount_of_slots(&heap), 0);
    assert_eq!(object.inst_var_at(&heap, 0), None);
    object.inst_var_at_put(&mut heap, 0, integer(42));
    assert_eq!(words_of(&heap), vec![header, 0xBBBB]);
}

/// Two objects with the same header and the same slots, one after the other.
fn twin_heap(first_class: u32, second_class: u32) -> Heap {
    let first = ObjectHeader::new(first_class, ObjectFormat::FixedPointers, 1).bits();
    let second = ObjectHeader::new(second_class, ObjectFormat::FixedPointers, 1).bits();
    Heap::new(vec![first, integer_bits(5), second, integer_bits(5)]).unwrap()
}

#[test]
fn live_object_is_identical_to_itself() {
    let heap = twin_heap(100, 100);
    let object = object_at(8);
    assert_eq!(object.is_identical(&heap, &object), Some(true));
    assert_eq!(object.is_identical(&heap, &object_at(8)), Some(true));
}

#[test]
fn distinct_objects_with_equal_contents_are_not_identical() {
    let heap = twin_heap(100, 100);
    let first = object_at(8);
    let second = object_at(24);
    assert_eq!(first.header(&heap), second.header(&heap));
    assert_eq!(first.inst_var_at(&heap, 0), second.inst_var_at(&heap, 0));
    assert_eq!(first.is_identical(&heap, &second), Some(false));
    assert_eq!(second.is_identical(&heap, &first), Some(false));
    assert_eq!(first.equals(&heap, &second), Ok(true));
}

#[test]
fn identity_with_a_moved_object_is_undecided() {
    let heap = twin_heap(100, 8);
    let live = object_at(8);
    let moved = object_at(24);
    assert_eq!(live.is_identical(&heap, &moved), None);
    assert_eq!(moved.is_identical(&heap, &live), None);
    assert_eq!(moved.is_identical(&heap, &moved), None);
    let heap = twin_heap(0, 5);
    assert_eq!(object_at(8).is_identical(&heap, &object_at(24)), None);
}

#[test]
fn objects_with_the_same_header_are_equal() {
    let heap = twin_heap(100, 100);
    let first = object_at(8);
    let second = object_at(24);
    assert_eq!(first.equals(&heap, &second), Ok(true));
    assert_eq!(second.equals(&heap, &first), Ok(true));
    assert_eq!(first.equals(&heap, &first), Ok(true));
}

#[test]
fn objects_with_different_headers_are_not_equal() {
    let heap = twin_heap(100, 101);
    assert_eq!(object_at(8).equals(&heap, &object_at(24)), Ok(false));
    let first = ObjectHeader::new(100, ObjectFormat::FixedPointers, 1).bits();
    let heap = Heap::new(vec![first, 0, first | (1 << 40), 0]).unwrap();
    assert_eq!(object_at(8).equals(&heap, &object_at(24)), Ok(false));
}

#[test]
fn equality_with_a_moved_object_is_unsupported() {
    let heap = twin_heap(100, 8);
    let live = object_at(8);
    let moved = object_at(24);
    assert_eq!(
        live.equals(&heap, &moved),
        Err(Error::ForwardedUnsupported(
            live,
            ObjectHeader::new(8, ObjectFormat::FixedPointers, 1)
        ))
    );
    assert_eq!(
        moved.equals(&heap, &moved),
        Err(Error::ForwardedUnsupported(
            moved,
            ObjectHeader::new(8, ObjectFormat::FixedPointers, 1)
        ))
    );
}

#[test]
fn moved_object_equals_no_live_object() {
    let heap = twin_heap(8, 100);
    assert_eq!(object_at(8).equals(&heap, &object_at(24)), Ok(false));
}

#[test]
fn moved_object_still_counts_and_reads_its_slots() {
    let heap = three_slot_heap(8);
    let object = object_at(16);
    assert!(object.is_forwarded(&heap));
    assert_eq!(object.amount_of_slots_unchecked(&heap), 3);
    assert_eq!(object.inst_var_at(&heap, 0), Some(integer(1)));
    assert_eq!(object.inst_var_at(&heap, 3), None);
}

#[test]
fn addresses_of_header_and_first_slot() {
    let object = object_at(16);
    assert_eq!(object.first_fixed_field_ptr(), 16);
    assert_eq!(object.as_ptr(), 8);
    assert_eq!(object.first_fixed_field_ptr() - object.as_ptr(), 8);
}

#[test]
fn slot_holding_a_reference_reads_as_a_reference() {
    let header = ObjectHeader::new(100, ObjectFormat::FixedPointers, 1).bits();
    let heap = Heap::new(vec![header, 8]).unwrap();
    let object = object_at(8);
    let value = object.inst_var_at(&heap, 0).unwrap();
    assert!(!value.is_immediate());
    assert_eq!(value.as_object(), Ok(object_at(8)));
    assert_eq!(value.as_object().unwrap().is_identical(&heap, &object), Some(true));
}

#[test]
fn indexable_units_follow_the_format() {
    let cases = [
        (ObjectFormat::Words, 4u8, 4usize),
        (ObjectFormat::HalfWords { unused: 1 }, 4, 7),
        (ObjectFormat::Shorts { unused: 3 }, 4, 13),
        (ObjectFormat::Bytes { unused: 5 }, 4, 27),
        (ObjectFormat::CompiledMethod { unused: 2 }, 4, 30),
        (ObjectFormat::Forwarded, 4, 0),
        (ObjectFormat::VariablePointers, 4, 4),
    ];
    for (format, num_slots, units) in cases {
        let header = ObjectHeader::new(100, format, num_slots).bits();
        let heap = Heap::new(vec![header, 0, 0, 0, 0]).unwrap();
        let object = object_at(8);
        assert!(heap.holds_object(&object));
        assert_eq!(object.object_format(&heap), format);
        assert_eq!(object.amount_of_indexable_units(&heap), units);
    }
}
