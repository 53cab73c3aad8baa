//! Interpreters of expressions: one callback per kind of node, and what a
//! traversal that drives them amounts to.

use vstd::prelude::*;

use crate::node::Term;

verus! {

/// Visitor trait that defines how to process each node type of an expression
/// graph. `S` is the scalar type of the graph, `T` what the visitor computes.
///
/// Each callback comes with a relation between the visitor before the call,
/// the arguments, the visitor after the call and the result. An
/// implementation states what its callback does by giving the relation a body,
/// and the callback then has to keep to it. A relation that is left as it is
/// here holds of everything, and says nothing.
///
/// There is a callback for every kind of node and none has a default: a
/// visitor that leaves a kind out does not compile.
pub trait ExprVisitor<S, T>: Sized {
    /// What `visit_constant` does.
    open spec fn constant_step(&self, value: S, after: &Self, out: T) -> bool {
        true
    }

    /// What `visit_parameter` does.
    open spec fn parameter_step(&self, index: u32, name: Seq<char>, after: &Self, out: T) -> bool {
        true
    }

    /// What `visit_add` does with the results of the two operands.
    open spec fn add_step(&self, lhs: T, rhs: T, after: &Self, out: T) -> bool {
        true
    }

    /// What `visit_mul` does with the results of the two operands.
    open spec fn mul_step(&self, lhs: T, rhs: T, after: &Self, out: T) -> bool {
        true
    }

    fn visit_constant(&mut self, value: S) -> (out: T)
        ensures
            old(self).constant_step(value, final(self), out),
    ;

    fn visit_parameter(&mut self, index: u32, name: &str) -> (out: T)
        ensures
            old(self).parameter_step(index, name@, final(self), out),
    ;

    fn visit_add(&mut self, lhs: T, rhs: T) -> (out: T)
        ensures
            old(self).add_step(lhs, rhs, final(self), out),
    ;

    fn visit_mul(&mut self, lhs: T, rhs: T) -> (out: T)
        ensures
            old(self).mul_step(lhs, rhs, final(self), out),
    ;
}

/// The values that pass from one step of the traversal of a sum or a product
/// to the next: the visitor and the result after the left operand, then the
/// visitor and the result after the right operand.
///
/// It holds of any four values. Its use is to name them: a proof that a
/// traversal took place states it of the values that the traversal went through.
pub open spec fn passage<T, V>(mid: V, l: T, last: V, r: T) -> bool {
    true
}

/// Whether a traversal of `term` can take the visitor from `before` to `after`
/// and give `out`.
///
/// A leaf is one call of its callback. A sum or a product is the traversal of
/// the left operand, then from the state that it left the traversal of the
/// right operand, then the callback of the node on the two results. The term
/// holds a shared node once for each path that leads to it, so such a node is
/// traversed once for each path.
pub open spec fn walked<S, T, V: ExprVisitor<S, T>>(
    term: Term<S>,
    before: V,
    after: V,
    out: T,
) -> bool
    decreases term,
{
    match term {
        Term::Constant { value } => before.constant_step(value, &after, out),
        Term::Parameter { index, name } => before.parameter_step(index, name, &after, out),
        Term::Add { lhs, rhs } => exists|mid: V, l: T, last: V, r: T|
            #![trigger passage(mid, l, last, r)]
            passage(mid, l, last, r) && walked::<S, T, V>(*lhs, before, mid, l) && walked::<S, T, V>(*rhs, mid, last, r)
                && last.add_step(l, r, &after, out),
        Term::Mul { lhs, rhs } => exists|mid: V, l: T, last: V, r: T|
            #![trigger passage(mid, l, last, r)]
            passage(mid, l, last, r) && walked::<S, T, V>(*lhs, before, mid, l) && walked::<S, T, V>(*rhs, mid, last, r)
                && last.mul_step(l, r, &after, out),
    }
}

/// A node that is both operands of a sum is traversed twice, the second time
/// from the state that the first traversal left: nothing is kept from the
/// first visit.
pub proof fn lemma_shared_operand_is_walked_twice<S, T, V: ExprVisitor<S, T>>(
    operand: Term<S>,
    before: V,
    after: V,
    out: T,
)
    requires
        walked(Term::Add { lhs: Box::new(operand), rhs: Box::new(operand) }, before, after, out),
    ensures
        exists|mid: V, l: T, last: V, r: T|
            #![trigger passage(mid, l, last, r)]
            walked(operand, before, mid, l) && walked(operand, mid, last, r) && last.add_step(
                l,
                r,
                &after,
                out,
            ),
{
}

} // verus!
