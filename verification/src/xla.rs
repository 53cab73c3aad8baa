//! The element types of the tensor-compiler backend that expressions are
//! lowered to.

pub mod element_type;
pub mod error;

pub use element_type::{ElementType, PrimitiveType};
pub use error::Error;
