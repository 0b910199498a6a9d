//! The memory that objects live in.

use vstd::prelude::*;
use crate::header::{ObjectHeader, EXTENDED_NUM_SLOTS};
use crate::object::{Object, EXTENDED_SLOT_COUNT_MASK, HEADER_SIZE};

verus! {

/// The size of a word of the heap, and so of a slot, in bytes.
pub const WORD_SIZE: usize = 8;

/// An arena of 64-bit words. An address is a byte offset from the start of
/// the arena, so the word with index `k` has address `8 * k`. The heap knows
/// nothing of the objects in it: whoever allocates and collects writes the
/// words, and the object model reads them where a reference points.
#[derive(Debug)]
pub struct Heap {
    words: Vec<u64>,
}

impl View for Heap {
    type V = Seq<u64>;

    closed spec fn view(&self) -> Seq<u64> {
        self.words@
    }
}

impl Heap {
    /// Every byte of the heap has an address that fits in a machine word.
    #[verifier::type_invariant]
    pub open spec fn wf(self) -> bool {
        self@.len() * WORD_SIZE <= usize::MAX
    }

    /// The word at a byte address.
    pub open spec fn word(self, address: int) -> u64 {
        self@[address / (WORD_SIZE as int)]
    }

    /// Whether a word-aligned address is that of a word of the heap.
    pub open spec fn has_word(self, address: int) -> bool {
        &&& address % (WORD_SIZE as int) == 0
        &&& 0 <= address / (WORD_SIZE as int) < self@.len()
    }

    /// Whether the object lies in the heap: its header, the word before the
    /// header where the slot count stands there, and every one of its slots
    /// are words of the heap.
    pub open spec fn holds(&self, object: &Object) -> bool {
        &&& self.has_word(object.header_address())
        &&& object.spec_header(self).num_slots() == EXTENDED_NUM_SLOTS ==> self.has_word(
            object.extended_count_address(),
        )
        &&& object.first_field_address() / (WORD_SIZE as int) + object.slot_count(self)
            <= self@.len()
    }

    /// The heap made of the given words, unless they are more than can be
    /// addressed by byte.
    pub fn new(words: Vec<u64>) -> (heap: Option<Heap>)
        ensures
            words@.len() * WORD_SIZE <= usize::MAX ==> heap is Some && heap.unwrap()@ == words@,
            words@.len() * WORD_SIZE > usize::MAX ==> heap is None,
    {
        if words.len() <= usize::MAX / WORD_SIZE {
            Some(Heap { words })
        } else {
            None
        }
    }

    /// The number of words in the heap.
    pub fn len(&self) -> (len: usize)
        ensures
            len == self@.len(),
            len * WORD_SIZE <= usize::MAX,
    {
        proof {
            use_type_invariant(self);
        }
        self.words.len()
    }

    /// The word with the given index, if the heap has one.
    pub fn word_at(&self, index: usize) -> (word: Option<u64>)
        ensures
            index < self@.len() ==> word == Some(self@[index as int]),
            index >= self@.len() ==> word is None,
    {
        if index < self.words.len() {
            Some(self.words[index])
        } else {
            None
        }
    }

    /// Writes the word with the given index, if the heap has one, and says
    /// whether it did. No other word changes.
    pub fn put_word(&mut self, index: usize, word: u64) -> (written: bool)
        ensures
            written == (index < old(self)@.len()),
            written ==> final(self)@ == old(self)@.update(index as int, word),
            !written ==> final(self)@ == old(self)@,
    {
        if index < self.words.len() {
            self.write(index, word);
            true
        } else {
            false
        }
    }

    /// Whether the object lies in the heap.
    pub fn holds_object(&self, object: &Object) -> (held: bool)
        ensures
            held == self.holds(object),
    {
        let address = object.first_fixed_field_ptr();
        let len = self.len();
        if address < HEADER_SIZE as i64 {
            return false;
        }
        let first_wide: u64 = (address / (WORD_SIZE as i64)) as u64;
        if first_wide > len as u64 {
            return false;
        }
        let first: usize = first_wide as usize;
        let header = ObjectHeader::from_bits(self.words[first - 1]);
        let num_slots = header.num_slots();
        let count: u64 = if num_slots == EXTENDED_NUM_SLOTS {
            if first < 2 {
                return false;
            }
            self.words[first - 2] & EXTENDED_SLOT_COUNT_MASK
        } else {
            num_slots as u64
        };
        count <= (len - first) as u64
    }

    /// The word with the given index.
    pub(crate) fn read(&self, index: usize) -> (word: u64)
        requires
            index < self@.len(),
        ensures
            word == self@[index as int],
    {
        self.words[index]
    }

    /// Writes the word with the given index.
    pub(crate) fn write(&mut self, index: usize, word: u64)
        requires
            index < old(self)@.len(),
        ensures
            final(self)@ == old(self)@.update(index as int, word),
    {
        proof {
            use_type_invariant(&*self);
        }
        self.words[index] = word;
    }
}

} // verus!
