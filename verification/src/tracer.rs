//! The numeric evaluator: a visitor that computes the value of an expression
//! from the values bound to its parameters.

use core::ops::{Add, Mul};
use std::collections::HashMap;
use vstd::prelude::*;
use vstd::std_specs::ops::{AddSpec, MulSpec};

use crate::node::{Expr, Term};
use crate::visitor::{passage, walked, ExprVisitor};

verus! {

/// The failure of an evaluation that reaches a parameter to which no value is
/// bound. `name` is there for the message only.
#[derive(Debug, PartialEq, Eq)]
pub struct ParameterUnbound {
    pub index: u32,
    pub name: String,
}

impl Clone for ParameterUnbound {
    fn clone(&self) -> (copy: Self)
        ensures
            copy == *self,
    {
        ParameterUnbound { index: self.index, name: self.name.clone() }
    }
}

/// Whether `+` and `*` of the scalar type can be applied to any two values,
/// as they can for floating-point numbers.
pub open spec fn total_arithmetic<S: Add<Output = S> + Mul<Output = S>>() -> bool {
    &&& forall|a: S, b: S| #[trigger] a.add_req(b)
    &&& forall|a: S, b: S| #[trigger] a.mul_req(b)
}

/// Whether `out` can be what `l + r` gives. Where Verus has a model of the
/// type's `+`, that is the sum; of a type whose `+` it has no model of,
/// nothing is known.
pub open spec fn is_sum<S: Add<Output = S>>(l: S, r: S, out: S) -> bool {
    S::obeys_add_spec() ==> out == l.add_spec(r)
}

/// Whether `out` can be what `l * r` gives; see `is_sum`.
pub open spec fn is_product<S: Mul<Output = S>>(l: S, r: S, out: S) -> bool {
    S::obeys_mul_spec() ==> out == l.mul_spec(r)
}

/// The first parameter of `term`, operands taken from left to right, that
/// `bindings` gives no value: its index and its name.
pub open spec fn first_unbound<S>(term: Term<S>, bindings: Map<u32, S>) -> Option<
    (u32, Seq<char>),
>
    decreases term,
{
    match term {
        Term::Constant { .. } => None,
        Term::Parameter { index, name } => if bindings.contains_key(index) {
            None
        } else {
            Some((index, name))
        },
        Term::Add { lhs, rhs } | Term::Mul { lhs, rhs } => match first_unbound(*lhs, bindings) {
            Some(found) => Some(found),
            None => first_unbound(*rhs, bindings),
        },
    }
}

/// Whether `out` can be the value of `term` under `bindings`: a constant is
/// its value, a parameter the value bound to its index, a sum or a product
/// what `+` or `*` gives of values of the two operands.
pub open spec fn evaluates_to<S: Add<Output = S> + Mul<Output = S>>(
    term: Term<S>,
    bindings: Map<u32, S>,
    out: S,
) -> bool
    decreases term,
{
    match term {
        Term::Constant { value } => out == value,
        Term::Parameter { index, .. } => bindings.contains_key(index) && out == bindings[index],
        Term::Add { lhs, rhs } => exists|l: S, r: S|
            #![trigger is_sum(l, r, out)]
            evaluates_to(*lhs, bindings, l) && evaluates_to(*rhs, bindings, r) && is_sum(l, r, out),
        Term::Mul { lhs, rhs } => exists|l: S, r: S|
            #![trigger is_product(l, r, out)]
            evaluates_to(*lhs, bindings, l) && evaluates_to(*rhs, bindings, r) && is_product(
                l,
                r,
                out,
            ),
    }
}

/// The value of `term` under `bindings` by the model that Verus has of the
/// scalar type's `+` and `*`. It means something where every parameter of
/// `term` is bound.
pub open spec fn value_of<S: Add<Output = S> + Mul<Output = S>>(
    term: Term<S>,
    bindings: Map<u32, S>,
) -> S
    decreases term,
{
    match term {
        Term::Constant { value } => value,
        Term::Parameter { index, .. } => bindings[index],
        Term::Add { lhs, rhs } => value_of(*lhs, bindings).add_spec(value_of(*rhs, bindings)),
        Term::Mul { lhs, rhs } => value_of(*lhs, bindings).mul_spec(value_of(*rhs, bindings)),
    }
}

/// What an evaluation owes: the first unbound parameter as an error where
/// there is one, and a value of the term where there is none.
pub open spec fn evaluated<S: Add<Output = S> + Mul<Output = S>>(
    term: Term<S>,
    bindings: Map<u32, S>,
    out: Result<S, ParameterUnbound>,
) -> bool {
    match first_unbound(term, bindings) {
        Some((index, name)) => out matches Err(e) && e.index == index && e.name@ == name,
        None => out matches Ok(value) && evaluates_to(term, bindings, value),
    }
}

/// Evaluates expressions over the scalar type `S` under the values that it
/// holds for their parameters.
#[verifier::reject_recursive_types(S)]
pub struct Tracer<S: Copy + Add<Output = S> + Mul<Output = S>> {
    context: HashMap<u32, S>,
}

impl<S: Copy + Add<Output = S> + Mul<Output = S>> Tracer<S> {
    #[verifier::type_invariant]
    spec fn scalars_are_total(self) -> bool {
        total_arithmetic::<S>()
    }

    /// The value bound to each parameter index.
    pub closed spec fn bindings(&self) -> Map<u32, S> {
        self.context@
    }

    /// An evaluator in which no parameter is bound.
    pub fn new() -> (tracer: Self)
        requires
            total_arithmetic::<S>(),
        ensures
            tracer.bindings() == Map::<u32, S>::empty(),
    {
        Tracer { context: HashMap::new() }
    }

    /// The evaluator with `value` bound to `index`, in place of what was bound
    /// to it before.
    pub fn bind(self, index: u32, value: S) -> (tracer: Self)
        ensures
            tracer.bindings() == self.bindings().insert(index, value),
    {
        proof {
            use_type_invariant(&self);
        }
        let mut context = self.context;
        context.insert(index, value);
        Tracer { context }
    }

    /// Evaluate `expr`.
    ///
    /// Fails exactly when a parameter of `expr` is unbound, with the first
    /// such parameter. The bindings stay as they are.
    pub fn visit(&mut self, expr: &Expr<S>) -> (r: Result<S, ParameterUnbound>)
        ensures
            final(self).bindings() == old(self).bindings(),
            evaluated(expr@, old(self).bindings(), r),
            S::obeys_add_spec() && S::obeys_mul_spec() ==> (r matches Ok(value) ==> value
                == value_of(expr@, old(self).bindings())),
    {
        let r = expr.walk(self);
        proof {
            lemma_walk_evaluates(expr@, *old(self), *self, r);
            if r is Ok && S::obeys_add_spec() && S::obeys_mul_spec() {
                lemma_value_is_determined(expr@, old(self).bindings(), r->Ok_0);
            }
        }
        r
    }
}

impl<S: Copy + Add<Output = S> + Mul<Output = S>> ExprVisitor<S, Result<S, ParameterUnbound>> for Tracer<S> {
    open spec fn constant_step(&self, value: S, after: &Self, out: Result<S, ParameterUnbound>) -> bool {
        *after == *self && out == Ok::<S, ParameterUnbound>(value)
    }

    open spec fn parameter_step(
        &self,
        index: u32,
        name: Seq<char>,
        after: &Self,
        out: Result<S, ParameterUnbound>,
    ) -> bool {
        &&& *after == *self
        &&& if self.bindings().contains_key(index) {
            out == Ok::<S, ParameterUnbound>(self.bindings()[index])
        } else {
            out matches Err(e) && e.index == index && e.name@ == name
        }
    }

    open spec fn add_step(
        &self,
        lhs: Result<S, ParameterUnbound>,
        rhs: Result<S, ParameterUnbound>,
        after: &Self,
        out: Result<S, ParameterUnbound>,
    ) -> bool {
        &&& *after == *self
        &&& match (lhs, rhs) {
            (Err(e), _) => out == Err::<S, ParameterUnbound>(e),
            (Ok(_), Err(e)) => out == Err::<S, ParameterUnbound>(e),
            (Ok(l), Ok(r)) => out matches Ok(sum) && is_sum(l, r, sum),
        }
    }

    open spec fn mul_step(
        &self,
        lhs: Result<S, ParameterUnbound>,
        rhs: Result<S, ParameterUnbound>,
        after: &Self,
        out: Result<S, ParameterUnbound>,
    ) -> bool {
        &&& *after == *self
        &&& match (lhs, rhs) {
            (Err(e), _) => out == Err::<S, ParameterUnbound>(e),
            (Ok(_), Err(e)) => out == Err::<S, ParameterUnbound>(e),
            (Ok(l), Ok(r)) => out matches Ok(product) && is_product(l, r, product),
        }
    }

    /// A constant evaluates to its value.
    fn visit_constant(&mut self, value: S) -> (out: Result<S, ParameterUnbound>) {
        Ok(value)
    }

    /// A parameter evaluates to the value bound to its index, and fails where
    /// none is bound.
    fn visit_parameter(&mut self, index: u32, name: &str) -> (out: Result<S, ParameterUnbound>) {
        match self.context.get(&index) {
            Some(value) => Ok(*value),
            None => Err(ParameterUnbound { index, name: name.to_owned() }),
        }
    }

    /// The sum of two values; the failure of the left operand, else that of
    /// the right one, where one of them failed.
    fn visit_add(&mut self, lhs: Result<S, ParameterUnbound>, rhs: Result<S, ParameterUnbound>) -> (out:
        Result<S, ParameterUnbound>) {
        proof {
            use_type_invariant(&*self);
        }
        match lhs {
            Err(e) => Err(e),
            Ok(l) => match rhs {
                Err(e) => Err(e),
                Ok(r) => Ok(l + r),
            },
        }
    }

    /// The product of two values; the failure of the left operand, else that
    /// of the right one, where one of them failed.
    fn visit_mul(&mut self, lhs: Result<S, ParameterUnbound>, rhs: Result<S, ParameterUnbound>) -> (out:
        Result<S, ParameterUnbound>) {
        proof {
            use_type_invariant(&*self);
        }
        match lhs {
            Err(e) => Err(e),
            Ok(l) => match rhs {
                Err(e) => Err(e),
                Ok(r) => Ok(l * r),
            },
        }
    }
}

/// A constant evaluates to its own value, unchanged, whatever is bound.
pub proof fn lemma_constant_evaluates_to_itself<S: Add<Output = S> + Mul<Output = S>>(
    value: S,
    bindings: Map<u32, S>,
    out: Result<S, ParameterUnbound>,
)
    requires
        evaluated(Term::Constant { value }, bindings, out),
    ensures
        out == Ok::<S, ParameterUnbound>(value),
{
}

/// A parameter evaluates to the value bound to its index; where none is
/// bound, the evaluation fails with the parameter's index and name.
pub proof fn lemma_parameter_evaluates_to_its_binding<S: Add<Output = S> + Mul<Output = S>>(
    index: u32,
    name: Seq<char>,
    bindings: Map<u32, S>,
    out: Result<S, ParameterUnbound>,
)
    requires
        evaluated(Term::Parameter { index, name }, bindings, out),
    ensures
        bindings.contains_key(index) ==> out == Ok::<S, ParameterUnbound>(bindings[index]),
        !bindings.contains_key(index) ==> (out matches Err(e) && e.index == index && e.name@
            == name),
{
}

/// An evaluation fails exactly when some parameter of the term is unbound.
pub proof fn lemma_fails_iff_unbound<S: Add<Output = S> + Mul<Output = S>>(
    term: Term<S>,
    bindings: Map<u32, S>,
    out: Result<S, ParameterUnbound>,
)
    requires
        evaluated(term, bindings, out),
    ensures
        out is Err <==> first_unbound(term, bindings) is Some,
{
}

/// A traversal by a tracer is an evaluation: it leaves the tracer as it was,
/// and what it gives is what an evaluation of the term under the tracer's
/// bindings owes.
pub proof fn lemma_walk_evaluates<S: Copy + Add<Output = S> + Mul<Output = S>>(
    term: Term<S>,
    before: Tracer<S>,
    after: Tracer<S>,
    out: Result<S, ParameterUnbound>,
)
    requires
        walked(term, before, after, out),
    ensures
        after == before,
        evaluated(term, before.bindings(), out),
    decreases term,
{
    let bindings = before.bindings();
    match term {
        Term::Constant { value } => {},
        Term::Parameter { index, name } => {},
        Term::Add { lhs, rhs } => {
            let (mid, l, last, r) = choose|
                mid: Tracer<S>,
                l: Result<S, ParameterUnbound>,
                last: Tracer<S>,
                r: Result<S, ParameterUnbound>,
            |
                #![trigger passage(mid, l, last, r)]
                passage(mid, l, last, r) && walked(*lhs, before, mid, l) && walked(*rhs, mid, last, r) && last.add_step(
                    l,
                    r,
                    &after,
                    out,
                );
            lemma_walk_evaluates(*lhs, before, mid, l);
            lemma_walk_evaluates(*rhs, mid, last, r);
            if let (Ok(a), Ok(b)) = (l, r) {
                assert(is_sum(a, b, out->Ok_0));
            }
        },
        Term::Mul { lhs, rhs } => {
            let (mid, l, last, r) = choose|
                mid: Tracer<S>,
                l: Result<S, ParameterUnbound>,
                last: Tracer<S>,
                r: Result<S, ParameterUnbound>,
            |
                #![trigger passage(mid, l, last, r)]
                passage(mid, l, last, r) && walked(*lhs, before, mid, l) && walked(*rhs, mid, last, r) && last.mul_step(
                    l,
                    r,
                    &after,
                    out,
                );
            lemma_walk_evaluates(*lhs, before, mid, l);
            lemma_walk_evaluates(*rhs, mid, last, r);
            if let (Ok(a), Ok(b)) = (l, r) {
                assert(is_product(a, b, out->Ok_0));
            }
        },
    }
}

/// Where Verus has a model of the scalar type's `+` and `*`, a term has one
/// value only: the one that the model gives.
pub proof fn lemma_value_is_determined<S: Add<Output = S> + Mul<Output = S>>(
    term: Term<S>,
    bindings: Map<u32, S>,
    out: S,
)
    requires
        evaluates_to(term, bindings, out),
        S::obeys_add_spec(),
        S::obeys_mul_spec(),
    ensures
        out == value_of(term, bindings),
    decreases term,
{
    match term {
        Term::Constant { value } => {},
        Term::Parameter { index, name } => {},
        Term::Add { lhs, rhs } => {
            let (l, r) = choose|l: S, r: S|
                #![trigger is_sum(l, r, out)]
                evaluates_to(*lhs, bindings, l) && evaluates_to(*rhs, bindings, r) && is_sum(
                    l,
                    r,
                    out,
                );
            lemma_value_is_determined(*lhs, bindings, l);
            lemma_value_is_determined(*rhs, bindings, r);
        },
        Term::Mul { lhs, rhs } => {
            let (l, r) = choose|l: S, r: S|
                #![trigger is_product(l, r, out)]
                evaluates_to(*lhs, bindings, l) && evaluates_to(*rhs, bindings, r) && is_product(
                    l,
                    r,
                    out,
                );
            lemma_value_is_determined(*lhs, bindings, l);
            lemma_value_is_determined(*rhs, bindings, r);
        },
    }
}

} // verus!
