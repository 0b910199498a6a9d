//! The object memory of a dynamic-language virtual machine.
//!
//! Values are tagged machine words: either an immediate, held entirely in
//! the word, or the address of an object in the heap. Every object is a
//! bit-packed header word followed by its slots. The heap is an explicit
//! arena of words, handed to each operation that reads or writes an object.

pub mod any_ref;
pub mod error;
pub mod format;
pub mod header;
pub mod heap;
pub mod immediate;
pub mod laws;
pub mod object;
pub mod pointer;

pub use any_ref::AnyObjectRef;
pub use error::Error;
pub use format::ObjectFormat;
pub use header::{
    ObjectHeader, CLASS_INDEX_MASK, EXTENDED_NUM_SLOTS, FORMAT_MASK, FORMAT_SHIFT, MAX_CLASS_INDEX,
    NUM_SLOTS_SHIFT,
};
pub use heap::{Heap, WORD_SIZE};
pub use immediate::{Immediate, MAX_SMALL_INTEGER, MIN_SMALL_INTEGER};
pub use object::{
    Object, ObjectRef, EXTENDED_SLOT_COUNT_MASK, FORWARDED_OBJECT_CLASS_INDEX_PUN, HEADER_SIZE,
};
pub use pointer::{RawObjectPointer, Tag};
