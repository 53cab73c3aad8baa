//! Identifiers of graph nodes, and the counter that hands them out.

use vstd::prelude::*;

verus! {

/// The identifier of one node of an expression graph.
///
/// Two expressions carry the same identifier only when one is a shared handle
/// to the node of the other.
///
/// An identifier is opaque: it is made by a generator only, and all that can
/// be read of it is its number.
#[derive(Debug, Clone, Copy, PartialEq, Eq, Hash, Structural)]
pub struct ExprId(u64);

impl View for ExprId {
    type V = nat;

    /// The number of the identifier.
    closed spec fn view(&self) -> nat {
        self.0 as nat
    }
}

impl ExprId {
    /// The number of the identifier.
    pub fn value(&self) -> (number: u64)
        ensures
            number == self@,
    {
        self.0
    }
}

/// The failure of a generator that has no identifier left to give.
#[derive(Debug, Clone, Copy, PartialEq, Eq, Structural)]
pub struct IdentifierExhausted;

/// A counter that hands out identifiers in increasing order, each one once.
pub struct IdGenerator {
    next: u64,
}

impl IdGenerator {
    /// How many identifiers the generator has handed out. They are the numbers
    /// below this one.
    pub closed spec fn issued(&self) -> nat {
        self.next as nat
    }

    /// Whether every identifier that the generator can give has been given.
    pub open spec fn exhausted(&self) -> bool {
        self.issued() >= u64::MAX
    }

    /// The step of a successful request: `self` hands out `id` and becomes
    /// `after`.
    pub open spec fn issues(&self, id: ExprId, after: &IdGenerator) -> bool {
        &&& !self.exhausted()
        &&& id@ == self.issued()
        &&& after.issued() == self.issued() + 1
    }

    /// Whether `later` can be a later state of `self`: a generator never takes
    /// back what it has handed out.
    pub open spec fn precedes(&self, later: &IdGenerator) -> bool {
        self.issued() <= later.issued()
    }

    /// A generator that has handed out nothing yet.
    pub fn new() -> (fresh: Self)
        ensures
            fresh.issued() == 0,
    {
        IdGenerator { next: 0 }
    }

    /// A generator that counts on from `first`, as if the identifiers below it
    /// had been handed out already.
    pub fn starting_at(first: u64) -> (resumed: Self)
        ensures
            resumed.issued() == first,
    {
        IdGenerator { next: first }
    }

    /// Whether the next request will fail.
    pub fn is_exhausted(&self) -> (full: bool)
        ensures
            full == self.exhausted(),
    {
        self.next == u64::MAX
    }

    /// Hand out the next identifier. The request fails, and leaves the
    /// generator as it was, exactly when the generator is exhausted.
    pub fn next_id(&mut self) -> (r: Result<ExprId, IdentifierExhausted>)
        ensures
            match r {
                Ok(id) => old(self).issues(id, final(self)),
                Err(_) => old(self).exhausted() && *final(self) == *old(self),
            },
    {
        if self.next == u64::MAX {
            Err(IdentifierExhausted)
        } else {
            let id = ExprId(self.next);
            self.next = self.next + 1;
            Ok(id)
        }
    }
}

impl Default for IdGenerator {
    fn default() -> (fresh: Self)
        ensures
            fresh.issued() == 0,
    {
        IdGenerator::new()
    }
}

/// A request never moves a generator backwards: whether it succeeds or fails,
/// the state before it precedes the state after it.
pub proof fn lemma_request_moves_forward(
    before: IdGenerator,
    r: Result<ExprId, IdentifierExhausted>,
    after: IdGenerator,
)
    requires
        match r {
            Ok(id) => before.issues(id, &after),
            Err(_) => after == before,
        },
    ensures
        before.precedes(&after),
{
}

/// Being a later state is transitive.
pub proof fn lemma_precedes_is_transitive(a: IdGenerator, b: IdGenerator, c: IdGenerator)
    requires
        a.precedes(&b),
        b.precedes(&c),
    ensures
        a.precedes(&c),
{
}

/// Two identifiers that one generator hands out on two separate requests are
/// different, and the later one is the greater: if `first` was issued in the
/// step from `g0` to `g1`, and `second` in a step from any later state `g2`,
/// then `first < second`.
pub proof fn lemma_identifiers_never_repeat(
    g0: IdGenerator,
    first: ExprId,
    g1: IdGenerator,
    g2: IdGenerator,
    second: ExprId,
    g3: IdGenerator,
)
    requires
        g0.issues(first, &g1),
        g1.precedes(&g2),
        g2.issues(second, &g3),
    ensures
        first@ < second@,
        first != second,
{
}

/// Two identifiers are the same exactly when their numbers are.
pub proof fn lemma_identifier_is_its_number(a: ExprId, b: ExprId)
    ensures
        a == b <==> a@ == b@,
{
}

} // verus!
