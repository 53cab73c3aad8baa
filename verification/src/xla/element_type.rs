use std::str::FromStr;
use vstd::prelude::*;
use vstd::string::StrSliceExecFns;

use crate::xla::error::Error;

verus! {

/// Primitive types of the backend, in the order of the backend's own
/// numbering (`Invalid` is 0, `Token` is 5).
#[derive(Debug, Clone, Copy, PartialEq, Eq, Structural)]
pub enum PrimitiveType {
    Invalid,
    F32,
    F64,
    Tuple,
    OpaqueType,
    Token,
}

/// The primitive types that an array element can have.
#[derive(Debug, Clone, Copy, PartialEq, Eq, Structural)]
pub enum ElementType {
    F32,
    F64,
}

impl PrimitiveType {
    /// The element type that this primitive type is, if it is one.
    pub open spec fn as_element_type(self) -> Option<ElementType> {
        match self {
            PrimitiveType::F32 => Some(ElementType::F32),
            PrimitiveType::F64 => Some(ElementType::F64),
            _ => None,
        }
    }

    /// Convert the primitive type to the corresponding element type.
    pub fn element_type(self) -> (r: Result<ElementType, Error>)
        ensures
            r == match self.as_element_type() {
                Some(e) => Ok::<ElementType, Error>(e),
                None => Err(Error::NotAnElementType { got: self }),
            },
    {
        match self {
            PrimitiveType::F32 => Ok(ElementType::F32),
            PrimitiveType::F64 => Ok(ElementType::F64),
            PrimitiveType::Invalid
            | PrimitiveType::Tuple
            | PrimitiveType::OpaqueType
            | PrimitiveType::Token => Err(Error::NotAnElementType { got: self }),
        }
    }
}

impl ElementType {
    /// The element type that a name denotes: `float32` and `float64` are the
    /// only names.
    pub open spec fn named(name: Seq<char>) -> Option<ElementType> {
        if name == "float32"@ {
            Some(ElementType::F32)
        } else if name == "float64"@ {
            Some(ElementType::F64)
        } else {
            None
        }
    }

    /// The primitive type of this element type.
    pub open spec fn as_primitive_type(self) -> PrimitiveType {
        match self {
            ElementType::F32 => PrimitiveType::F32,
            ElementType::F64 => PrimitiveType::F64,
        }
    }

    /// Convert the element type to the corresponding primitive type.
    pub fn primitive_type(&self) -> (r: PrimitiveType)
        ensures
            r == self.as_primitive_type(),
            r.as_element_type() == Some(*self),
    {
        match self {
            ElementType::F32 => PrimitiveType::F32,
            ElementType::F64 => PrimitiveType::F64,
        }
    }
}

impl FromStr for ElementType {
    type Err = ();

    /// Read an element type from its name.
    fn from_str(s: &str) -> (r: Result<Self, ()>)
        ensures
            r == match ElementType::named(s@) {
                Some(e) => Ok::<ElementType, ()>(e),
                None => Err(()),
            },
    {
        if same_text(s, "float32") {
            Ok(ElementType::F32)
        } else if same_text(s, "float64") {
            Ok(ElementType::F64)
        } else {
            Err(())
        }
    }
}

/// Whether two strings hold the same characters.
fn same_text(a: &str, b: &str) -> (same: bool)
    ensures
        same == (a@ == b@),
{
    let n = a.unicode_len();
    if n != b.unicode_len() {
        return false;
    }
    let mut i: usize = 0;
    while i < n
        invariant
            i <= n,
            n == a@.len(),
            n == b@.len(),
            forall|j: int| 0 <= j < i ==> a@[j] == b@[j],
        decreases n - i,
    {
        if a.get_char(i) != b.get_char(i) {
            return false;
        }
        i += 1;
    }
    assert(a@ =~= b@);
    true
}

/// Converting an element type to a primitive type and back gives the element
/// type again; the other way round, a primitive type comes back exactly when it
/// is an element type.
pub proof fn lemma_element_type_round_trip(e: ElementType, p: PrimitiveType)
    ensures
        e.as_primitive_type().as_element_type() == Some(e),
        p.as_element_type() matches Some(back) ==> back.as_primitive_type() == p,
{
}

} // verus!
