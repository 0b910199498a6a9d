use vm_object_model::{RawObjectPointer, Tag};

#[test]
fn tag_of_aligned_word_is_reference() {
    let pointer = RawObjectPointer::from(16);
    assert_eq!(pointer.tag(), Tag::Reference);
    assert!(!pointer.is_immediate());
}

#[test]
fn null_is_a_reference() {
    let pointer = RawObjectPointer::new(0);
    assert_eq!(pointer.tag(), Tag::Reference);
    assert!(!pointer.is_immediate());
}

#[test]
fn each_tag_selects_its_class() {
    assert_eq!(RawObjectPointer::new(0x1000).tag(), Tag::Reference);
    assert_eq!(RawObjectPointer::new(0x1001).tag(), Tag::SmallInteger);
    assert_eq!(RawObjectPointer::new(0x1002).tag(), Tag::Character);
    assert_eq!(RawObjectPointer::new(0x1003).tag(), Tag::Reserved);
    assert_eq!(RawObjectPointer::new(0x1004).tag(), Tag::Reserved);
    assert_eq!(RawObjectPointer::new(0x1005).tag(), Tag::Reserved);
    assert_eq!(RawObjectPointer::new(0x1006).tag(), Tag::Reserved);
    assert_eq!(RawObjectPointer::new(0x1007).tag(), Tag::Reserved);
}

#[test]
fn every_nonzero_tag_is_immediate() {
    for tag in 1..8 {
        assert!(RawObjectPointer::new(0x2000 + tag).is_immediate());
    }
    assert!(!RawObjectPointer::new(0x2000).is_immediate());
}

#[test]
fn tag_of_negative_word_is_its_low_bits() {
    assert_eq!(RawObjectPointer::new(-8).tag(), Tag::Reference);
    assert_eq!(RawObjectPointer::new(-7).tag(), Tag::SmallInteger);
    assert_eq!(RawObjectPointer::new(-6).tag(), Tag::Character);
    assert_eq!(RawObjectPointer::new(-1).tag(), Tag::Reserved);
    assert!(!RawObjectPointer::new(i64::MIN).is_immediate());
    assert!(RawObjectPointer::new(i64::MAX).is_immediate());
}

#[test]
fn pointer_keeps_its_word() {
    assert_eq!(RawObjectPointer::new(12345).as_i64(), 12345);
    assert_eq!(RawObjectPointer::from(-12345).as_i64(), -12345);
    assert_eq!(RawObjectPointer::new(7), RawObjectPointer::from(7));
    assert_ne!(RawObjectPointer::new(7), RawObjectPointer::new(8));
}

#[test]
fn bits_are_the_word_read_unsigned() {
    assert_eq!(RawObjectPointer::new(9).bits(), 9);
    assert_eq!(RawObjectPointer::new(-1).bits(), u64::MAX);
    assert_eq!(RawObjectPointer::new(i64::MIN).bits(), 1 << 63);
    assert_eq!(RawObjectPointer::from_bits(u64::MAX).as_i64(), -1);
    assert_eq!(RawObjectPointer::from_bits(1 << 63).as_i64(), i64::MIN);
    assert_eq!(RawObjectPointer::from_bits(41).as_i64(), 41);
}

#[test]
fn bits_round_trip() {
    for word in [0, 1, -1, 8, -8, i64::MAX, i64::MIN, 0x1234_5678_9ABC] {
        assert_eq!(RawObjectPointer::from_bits(RawObjectPointer::new(word).bits()).as_i64(), word);
    }
}
