//! Expression nodes, the shareable handles to them, and the functions that
//! build a graph from them.

use std::ops::Deref;
use std::sync::Arc;
use vstd::prelude::*;

use crate::ident::{ExprId, IdGenerator, IdentifierExhausted};
use crate::visitor::{passage, walked, ExprVisitor};

verus! {

/// What an expression denotes: the graph below a handle, unfolded along every
/// path from the root. A node that is reachable along two paths occurs twice.
///
/// A term is finite, so a graph that has one holds no cycle.
pub ghost enum Term<S> {
    Constant { value: S },
    Parameter { index: u32, name: Seq<char> },
    Add { lhs: Box<Term<S>>, rhs: Box<Term<S>> },
    Mul { lhs: Box<Term<S>>, rhs: Box<Term<S>> },
}

/// Represents different types of nodes in the expression graph.
///
/// Leaf nodes contain data whereas internal nodes contain other
/// expressions.
#[derive(Debug)]
pub enum ExprNode<S> {
    /// A literal of the scalar type `S`.
    Constant { value: S },
    /// A value that is supplied when the expression is interpreted. `index`
    /// is the key by which it is looked up; `name` only serves diagnostics.
    Parameter { index: u32, name: String },
    Add { lhs: Expr<S>, rhs: Expr<S> },
    Mul { lhs: Expr<S>, rhs: Expr<S> },
}

/// Core structure for representing computational expressions: an identifier
/// and a shared, immutable node.
///
/// Multiple expressions can share the same sub-expression allowing computations
/// to reuse intermediate results.
#[derive(Debug)]
pub struct Expr<S> {
    node: Arc<ExprNode<S>>,
    id: ExprId,
}

impl<S> ExprNode<S> {
    /// The term that the node denotes.
    pub open spec fn term(&self) -> Term<S>
        decreases self,
    {
        match self {
            ExprNode::Constant { value } => Term::Constant { value: *value },
            ExprNode::Parameter { index, name } => Term::Parameter { index: *index, name: name@ },
            ExprNode::Add { lhs, rhs } => Term::Add {
                lhs: Box::new(lhs.term()),
                rhs: Box::new(rhs.term()),
            },
            ExprNode::Mul { lhs, rhs } => Term::Mul {
                lhs: Box::new(lhs.term()),
                rhs: Box::new(rhs.term()),
            },
        }
    }
}

impl<S> View for ExprNode<S> {
    type V = Term<S>;

    open spec fn view(&self) -> Term<S> {
        self.term()
    }
}

impl<S> View for Expr<S> {
    type V = Term<S>;

    open spec fn view(&self) -> Term<S> {
        self.term()
    }
}

impl<S> Expr<S> {
    /// The node that the expression holds, operands with their identifiers
    /// included.
    pub closed spec fn node(&self) -> ExprNode<S> {
        *self.node
    }

    /// The term that the expression denotes: the term of its node.
    pub closed spec fn term(&self) -> Term<S>
        decreases self,
    {
        self.node.term()
    }

    /// The identifier that the expression was given when it was built.
    pub closed spec fn spec_id(&self) -> ExprId {
        self.id
    }

    /// Wrap a node into an expression with a fresh identifier.
    ///
    /// Fails, and leaves the generator as it was, exactly when the generator
    /// is exhausted.
    pub fn new(ids: &mut IdGenerator, node: ExprNode<S>) -> (r: Result<Self, IdentifierExhausted>)
        ensures
            match r {
                Ok(expr) => expr.node() == node && expr@ == node@ && old(ids).issues(
                    expr.id(),
                    final(ids),
                ),
                Err(_) => old(ids).exhausted() && *final(ids) == *old(ids),
            },
    {
        match ids.next_id() {
            Ok(id) => Ok(Expr { node: Arc::new(node), id }),
            Err(e) => Err(e),
        }
    }

    /// An expression that stands for the value bound to `index`.
    pub fn parameter(ids: &mut IdGenerator, index: u32, name: String) -> (r: Result<
        Self,
        IdentifierExhausted,
    >)
        ensures
            match r {
                Ok(expr) => expr.node() == (ExprNode::<S>::Parameter { index, name })
                    && expr@ == (Term::<S>::Parameter { index, name: name@ })
                    && old(ids).issues(expr.id(), final(ids)),
                Err(_) => old(ids).exhausted() && *final(ids) == *old(ids),
            },
    {
        Self::new(ids, ExprNode::Parameter { index, name })
    }

    /// An expression that stands for `value`. Every value of `S` is accepted.
    pub fn constant(ids: &mut IdGenerator, value: S) -> (r: Result<Self, IdentifierExhausted>)
        ensures
            match r {
                Ok(expr) => expr.node() == (ExprNode::Constant { value })
                    && expr@ == (Term::Constant { value })
                    && old(ids).issues(expr.id(), final(ids)),
                Err(_) => old(ids).exhausted() && *final(ids) == *old(ids),
            },
    {
        Self::new(ids, ExprNode::Constant { value })
    }

    /// The sum of two expressions. The new node holds the two handles as they
    /// are given, each with its own identifier.
    pub fn add(ids: &mut IdGenerator, lhs: Expr<S>, rhs: Expr<S>) -> (r: Result<
        Self,
        IdentifierExhausted,
    >)
        ensures
            match r {
                Ok(expr) => expr.node() == (ExprNode::Add { lhs, rhs })
                    && expr@ == (Term::Add { lhs: Box::new(lhs@), rhs: Box::new(rhs@) })
                    && old(ids).issues(expr.id(), final(ids)),
                Err(_) => old(ids).exhausted() && *final(ids) == *old(ids),
            },
    {
        Self::new(ids, ExprNode::Add { lhs, rhs })
    }

    /// The product of two expressions. The new node holds the two handles as
    /// they are given, each with its own identifier.
    pub fn mul(ids: &mut IdGenerator, lhs: Expr<S>, rhs: Expr<S>) -> (r: Result<
        Self,
        IdentifierExhausted,
    >)
        ensures
            match r {
                Ok(expr) => expr.node() == (ExprNode::Mul { lhs, rhs })
                    && expr@ == (Term::Mul { lhs: Box::new(lhs@), rhs: Box::new(rhs@) })
                    && old(ids).issues(expr.id(), final(ids)),
                Err(_) => old(ids).exhausted() && *final(ids) == *old(ids),
            },
    {
        Self::new(ids, ExprNode::Mul { lhs, rhs })
    }

    /// The identifier of the expression.
    #[verifier::when_used_as_spec(spec_id)]
    pub fn id(&self) -> (id: ExprId)
        ensures
            id == self.spec_id(),
    {
        self.id
    }
}

/// Dereference and return the node
impl<S> Deref for Expr<S> {
    type Target = ExprNode<S>;

    fn deref(&self) -> (node: &ExprNode<S>)
        ensures
            *node == self.node(),
            node@ == self@,
    {
        &*self.node
    }
}

impl<S: Copy> Expr<S> {
    /// Drive a visitor over the expression.
    ///
    /// The operands of a node are walked before the node's own callback runs,
    /// the left one first. Nothing is remembered between two visits of a
    /// shared node: it is walked again on every path that reaches it.
    ///
    /// The traversal calls itself once for each level of the expression, so
    /// the longest path from the root to a leaf has to fit on the call stack.
    pub fn walk<T, V: ExprVisitor<S, T>>(&self, visitor: &mut V) -> (out: T)
        ensures
            walked(self@, *old(visitor), *final(visitor), out),
        decreases self,
    {
        match &*self.node {
            ExprNode::Constant { value } => {
                assert(self@ == Term::Constant { value: *value });
                visitor.visit_constant(*value)
            },
            ExprNode::Parameter { index, name } => {
                assert(self@ == Term::<S>::Parameter { index: *index, name: name@ });
                visitor.visit_parameter(*index, name.as_str())
            },
            ExprNode::Add { lhs, rhs } => {
                assert(self@ == Term::Add { lhs: Box::new(lhs@), rhs: Box::new(rhs@) });
                let lhs_result = lhs.walk(visitor);
                let ghost (mid, l) = (*visitor, lhs_result);
                let rhs_result = rhs.walk(visitor);
                let ghost (last, r) = (*visitor, rhs_result);
                assert(passage(mid, l, last, r));
                visitor.visit_add(lhs_result, rhs_result)
            },
            ExprNode::Mul { lhs, rhs } => {
                assert(self@ == Term::Mul { lhs: Box::new(lhs@), rhs: Box::new(rhs@) });
                let lhs_result = lhs.walk(visitor);
                let ghost (mid, l) = (*visitor, lhs_result);
                let rhs_result = rhs.walk(visitor);
                let ghost (last, r) = (*visitor, rhs_result);
                assert(passage(mid, l, last, r));
                visitor.visit_mul(lhs_result, rhs_result)
            },
        }
    }
}

/// The term of an expression is the term of the node that it holds.
pub proof fn lemma_term_is_term_of_node<S>(expr: Expr<S>)
    ensures
        expr@ == expr.node()@,
{
}

/// A second handle to the same node, with the same identifier.
impl<S> Clone for Expr<S> {
    fn clone(&self) -> (copy: Self)
        ensures
            copy == *self,
    {
        Expr { node: self.node.clone(), id: self.id }
    }
}

} // verus!
