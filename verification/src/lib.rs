//! Symbolic arithmetic expressions as an immutable, shareable graph, and the
//! visitors that interpret them.

use vstd::prelude::*;

pub mod ident;
pub mod node;
pub mod tracer;
pub mod visitor;
pub mod xla;

pub use ident::{ExprId, IdGenerator, IdentifierExhausted};
pub use node::{Expr, ExprNode, Term};
pub use tracer::{ParameterUnbound, Tracer};
pub use visitor::ExprVisitor;

verus! {

/// The sum of two counts.
pub fn add(left: u64, right: u64) -> (sum: u64)
    requires
        left + right <= u64::MAX,
    ensures
        sum == left + right,
{
    left + right
}

} // verus!
