use vstd::prelude::*;

use crate::xla::element_type::PrimitiveType;

verus! {

/// What can go wrong when element types are converted.
#[derive(Debug, Clone, Copy, PartialEq, Eq, Structural)]
pub enum Error {
    /// A numeric type code that names no element type.
    UnexpectedElementType(i32),
    /// A primitive type that cannot be the type of an array element.
    NotAnElementType { got: PrimitiveType },
}

} // verus!
