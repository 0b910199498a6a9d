//! Whatever a slot can hold.

use vstd::prelude::*;
use vstd::std_specs::convert::FromSpecImpl;
use crate::error::Error;
use crate::immediate::Immediate;
use crate::object::{Object, ObjectRef};
use crate::pointer::{tag_of, RawObjectPointer};

verus! {

/// An immediate value or a reference to an object: what a tagged word turns
/// out to be once its tag is read.
#[derive(Clone, Copy, Debug, PartialEq, Eq, Structural)]
pub enum AnyObjectRef {
    /// A value held in the word itself.
    Immediate(Immediate),
    /// A reference to an object in the heap.
    Object(ObjectRef),
}

impl View for AnyObjectRef {
    type V = i64;

    /// The tagged word.
    open spec fn view(&self) -> i64 {
        match *self {
            AnyObjectRef::Immediate(immediate) => immediate@,
            AnyObjectRef::Object(reference) => reference@,
        }
    }
}

impl AnyObjectRef {
    /// What a word is: an immediate where its tag is not zero, else a
    /// reference.
    pub open spec fn of_word(word: i64) -> AnyObjectRef {
        if tag_of(word) != 0 {
            AnyObjectRef::Immediate(Immediate::of_word(word))
        } else {
            AnyObjectRef::Object(ObjectRef::of_word(word))
        }
    }

    /// Whether the word is of the kind that the variant says.
    pub open spec fn wf(self) -> bool {
        match self {
            AnyObjectRef::Immediate(immediate) => immediate.wf(),
            AnyObjectRef::Object(reference) => reference.wf(),
        }
    }

    /// Whether the value is an immediate.
    pub open spec fn spec_is_immediate(&self) -> bool {
        *self is Immediate
    }

    /// Reading the word of a value gives the value back.
    pub proof fn lemma_word_round_trip(self)
        requires
            self.wf(),
        ensures
            Self::of_word(self@) == self,
    {
        match self {
            AnyObjectRef::Immediate(immediate) => {
                immediate.lemma_same_word(immediate);
            },
            AnyObjectRef::Object(reference) => {
                reference.lemma_same_word(reference);
            },
        }
    }

    /// The value of a word holds that word.
    pub proof fn lemma_of_word(word: i64)
        ensures
            Self::of_word(word)@ == word,
            Self::of_word(word).wf(),
            Self::of_word(word) is Immediate <==> tag_of(word) != 0,
    {
        Immediate::lemma_word(word);
        ObjectRef::lemma_word(word);
    }

    /// The tagged word. A value in hand is always of the kind that its
    /// variant says, so the word gives the value back.
    pub fn as_i64(&self) -> (word: i64)
        ensures
            word == self@,
            self.wf(),
            Self::of_word(word) == *self,
    {
        proof {
            match *self {
                AnyObjectRef::Immediate(immediate) => {
                    immediate.lemma_same_word(immediate);
                },
                AnyObjectRef::Object(reference) => {
                    reference.lemma_same_word(reference);
                },
            }
        }
        match self {
            AnyObjectRef::Immediate(immediate) => immediate.as_i64(),
            AnyObjectRef::Object(reference) => reference.into_inner().as_i64(),
        }
    }

    /// The tagged word as a pointer.
    pub fn into_inner(self) -> (pointer: RawObjectPointer)
        ensures
            pointer@ == self@,
            pointer.is_immediate() == self.is_immediate(),
            self.wf(),
            Self::of_word(pointer@) == self,
    {
        proof {
            match self {
                AnyObjectRef::Immediate(immediate) => {
                    immediate.lemma_same_word(immediate);
                },
                AnyObjectRef::Object(reference) => {
                    reference.lemma_same_word(reference);
                },
            }
        }
        match self {
            AnyObjectRef::Immediate(immediate) => immediate.into_inner(),
            AnyObjectRef::Object(reference) => reference.into_inner(),
        }
    }

    /// Whether the value is an immediate.
    #[verifier::when_used_as_spec(spec_is_immediate)]
    pub fn is_immediate(&self) -> (immediate: bool)
        ensures
            immediate == self.spec_is_immediate(),
    {
        match self {
            AnyObjectRef::Immediate(_) => true,
            AnyObjectRef::Object(_) => false,
        }
    }

    /// The reference, unless the value is an immediate.
    pub fn as_object(&self) -> (reference: Result<ObjectRef, Error>)
        ensures
            match *self {
                AnyObjectRef::Object(object) => reference == Ok::<ObjectRef, Error>(object),
                AnyObjectRef::Immediate(immediate) => reference == Err::<ObjectRef, Error>(
                    Error::NotAnObject(RawObjectPointer(immediate@)),
                ),
            },
    {
        match self {
            AnyObjectRef::Object(object) => Ok(*object),
            AnyObjectRef::Immediate(immediate) => Err(Error::NotAnObject(immediate.into_inner())),
        }
    }

    /// The immediate, unless the value is a reference.
    pub fn as_immediate(&self) -> (immediate: Option<Immediate>)
        ensures
            match *self {
                AnyObjectRef::Immediate(value) => immediate == Some(value),
                AnyObjectRef::Object(_) => immediate is None,
            },
    {
        match self {
            AnyObjectRef::Immediate(value) => Some(*value),
            AnyObjectRef::Object(_) => None,
        }
    }
}

impl From<RawObjectPointer> for AnyObjectRef {
    /// What the pointer is: an immediate or a reference, by its tag.
    fn from(pointer: RawObjectPointer) -> (value: AnyObjectRef) {
        match ObjectRef::try_from(pointer) {
            Ok(reference) => AnyObjectRef::Object(reference),
            Err(_) => AnyObjectRef::Immediate(Immediate::from_tagged(pointer.0)),
        }
    }
}

impl FromSpecImpl<RawObjectPointer> for AnyObjectRef {
    open spec fn obeys_from_spec() -> bool {
        true
    }

    open spec fn from_spec(pointer: RawObjectPointer) -> AnyObjectRef {
        AnyObjectRef::of_word(pointer@)
    }
}

impl From<ObjectRef> for AnyObjectRef {
    /// The reference as a value.
    fn from(reference: ObjectRef) -> (value: AnyObjectRef) {
        AnyObjectRef::Object(reference)
    }
}

impl FromSpecImpl<ObjectRef> for AnyObjectRef {
    open spec fn obeys_from_spec() -> bool {
        true
    }

    open spec fn from_spec(reference: ObjectRef) -> AnyObjectRef {
        AnyObjectRef::Object(reference)
    }
}

impl From<Immediate> for AnyObjectRef {
    /// The immediate as a value.
    fn from(immediate: Immediate) -> (value: AnyObjectRef) {
        AnyObjectRef::Immediate(immediate)
    }
}

impl FromSpecImpl<Immediate> for AnyObjectRef {
    open spec fn obeys_from_spec() -> bool {
        true
    }

    open spec fn from_spec(immediate: Immediate) -> AnyObjectRef {
        AnyObjectRef::Immediate(immediate)
    }
}

impl From<&mut Object> for AnyObjectRef {
    /// The reference that leads to the object, as a value.
    fn from(object: &mut Object) -> (value: AnyObjectRef) {
        AnyObjectRef::Object(ObjectRef::from(&*object))
    }
}

impl FromSpecImpl<&mut Object> for AnyObjectRef {
    open spec fn obeys_from_spec() -> bool {
        true
    }

    open spec fn from_spec(object: &mut Object) -> AnyObjectRef {
        AnyObjectRef::Object(ObjectRef::of_word(object@))
    }
}

} // verus!

