use vstd::prelude::*;

verus! {

/// The closure convention: a single-argument callable value with a declared
/// pre- and postcondition. A multi-argument operation is a chain of these,
/// each returning the next link until the last argument arrives; every link
/// lives in the arena, so a partially applied operation stays valid exactly
/// as long as the arena does.
pub trait Apply<A, B> {
    /// When the callable may be invoked.
    spec fn pre(self, a: A) -> bool;

    /// What holds of a result of invoking the callable.
    spec fn post(self, a: A, r: B) -> bool;

    fn apply(&self, a: A) -> (r: B)
        requires
            self.pre(a),
        ensures
            self.post(a, r),
    ;
}

/// An ordinary function value as a callable: its pre- and postcondition are
/// the function's own.
pub struct FnValue<F> {
    pub f: F,
}

impl<A, B, F: Fn(A) -> B> Apply<A, B> for FnValue<F> {
    open spec fn pre(self, a: A) -> bool {
        call_requires(self.f, (a,))
    }

    open spec fn post(self, a: A, r: B) -> bool {
        call_ensures(self.f, (a,), r)
    }

    fn apply(&self, a: A) -> (r: B) {
        (self.f)(a)
    }
}

/// A typing hint: hands a callable back unchanged.
pub fn hint_app<'a, TArg, TRet, F: Apply<TArg, TRet>>(f: &'a F) -> (r: &'a F)
    ensures
        r == f,
{
    f
}

/// Builds a pair from its two components.
pub fn __mk_pair<A: Copy, B: Copy>(a: A, b: B) -> (r: (A, B))
    ensures
        r.0 == a,
        r.1 == b,
{
    (a, b)
}

} // verus!
