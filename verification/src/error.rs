//! What the fallible operations report.

use vstd::prelude::*;
use crate::header::ObjectHeader;
use crate::object::ObjectRef;
use crate::pointer::RawObjectPointer;

verus! {

/// Why an operation on the object memory gave no result.
#[derive(Clone, Copy, Debug, PartialEq, Eq, Structural)]
pub enum Error {
    /// The pointer was to be taken for a reference, and is an immediate.
    NotAnObject(RawObjectPointer),
    /// The object was to be compared with one that has moved: the second
    /// field is the header found in the place of that other object.
    ForwardedUnsupported(ObjectRef, ObjectHeader),
}

} // verus!
