use vstd::prelude::*;

use crate::arena::Program;
use crate::callable::Apply;
use crate::list::Coq_Init_Datatypes_list;
use crate::numerals::__nat_succ;

verus! {

impl Program {
    /// Boolean negation, the transform of the sample computation.
    pub fn Coq_Init_Datatypes_negb(&self, b: bool) -> (r: bool)
        ensures
            r == !b,
    {
        match b {
            true => false,
            false => true,
        }
    }

    /// Boolean negation as an arena-allocated callable.
    pub fn Coq_Init_Datatypes_negb__curried<'a>(&'a self) -> (r: &'a NegbCurried<'a>)
        ensures
            r.prog == self,
    {
        self.allocate(NegbCurried { prog: self })
    }

    /// Builds the list `[x, y, x, y, ...]` of length `2 * n` by structural
    /// recursion on `n`: each step allocates the tail first, then the two
    /// cells in front of it, so every tail reference points at an
    /// already-built cell.
    pub fn CertiCoq_Benchmarks_rust_tests_repeat2<'a, A: Copy>(
        &'a self,
        _ty: (),
        x: A,
        y: A,
        n: u64,
    ) -> (r: &'a Coq_Init_Datatypes_list<'a, A>)
        ensures
            r@.len() == 2 * n,
            forall|i: int| 0 <= i < r@.len() ==> r@[i] == (if i % 2 == 0 { x } else { y }),
        decreases n,
    {
        if n == 0 {
            self.allocate(Coq_Init_Datatypes_list::nil)
        } else {
            let tail = self.CertiCoq_Benchmarks_rust_tests_repeat2((), x, y, n - 1);
            let inner = self.allocate(Coq_Init_Datatypes_list::cons(y, tail));
            let r = self.allocate(Coq_Init_Datatypes_list::cons(x, inner));
            proof {
                assert(inner@ == seq![y].add(tail@));
                assert(r@ == seq![x].add(inner@));
                assert forall|i: int| 0 <= i < r@.len() implies r@[i] == (
                if i % 2 == 0 {
                    x
                } else {
                    y
                }) by {
                    if i >= 2 {
                        assert(r@[i] == tail@[i - 2]);
                    }
                }
            }
            r
        }
    }

    /// The two-element repetition as an arena-allocated callable chain.
    pub fn CertiCoq_Benchmarks_rust_tests_repeat2__curried<'a>(&'a self) -> (r: &'a
        Repeat2Curried<'a>)
        ensures
            r.prog == self,
    {
        self.allocate(Repeat2Curried { prog: self })
    }

    /// The sample computation: a 140-element alternating boolean list,
    /// negated element-wise, so the result alternates the other way.
    pub fn CertiCoq_Benchmarks_rust_tests_demo2<'a>(&'a self) -> (r: &'a Coq_Init_Datatypes_list<
        'a,
        bool,
    >)
        ensures
            r@.len() == 140,
            forall|i: int| 0 <= i < r@.len() ==> r@[i] == (i % 2 != 0),
    {
        let mut n: u64 = 0;
        let mut k: u64 = 0;
        while k < 70
            invariant
                n == k,
                k <= 70,
            decreases 70 - k,
        {
            n = match __nat_succ(n) {
                Ok(m) => m,
                Err(_) => vstd::pervasive::unreached(),
            };
            k = k + 1;
        }
        let f = self.Coq_Init_Datatypes_negb__curried();
        let l = self.CertiCoq_Benchmarks_rust_tests_repeat2((), true, false, n);
        let r = self.Coq_Lists_List_map(f, l);
        proof {
            assert forall|i: int| 0 <= i < r@.len() implies r@[i] == (i % 2 != 0) by {
                assert((*f).post(l@[i], r@[i]));
            }
        }
        r
    }
}

/// Boolean negation as a callable value: its contract pins the result to the
/// logical negation of the argument.
pub struct NegbCurried<'a> {
    pub prog: &'a Program,
}

impl<'a> Apply<bool, bool> for NegbCurried<'a> {
    open spec fn pre(self, b: bool) -> bool {
        true
    }

    open spec fn post(self, b: bool, r: bool) -> bool {
        r == !b
    }

    fn apply(&self, b: bool) -> (r: bool) {
        self.prog.Coq_Init_Datatypes_negb(b)
    }
}

/// First link of the curried repetition: awaits the element type's unit
/// placeholder argument.
pub struct Repeat2Curried<'a> {
    pub prog: &'a Program,
}

/// Second link: awaits the element placed at even positions.
pub struct Repeat2Curried1<'a> {
    pub prog: &'a Program,
}

/// Third link: holds the even-position element and awaits the odd-position
/// one.
pub struct Repeat2Curried2<'a, A> {
    pub prog: &'a Program,
    pub x: A,
}

/// Last link: holds both elements and awaits the repetition count.
pub struct Repeat2Curried3<'a, A> {
    pub prog: &'a Program,
    pub x: A,
    pub y: A,
}

impl<'a> Apply<(), &'a Repeat2Curried1<'a>> for Repeat2Curried<'a> {
    open spec fn pre(self, u: ()) -> bool {
        true
    }

    open spec fn post(self, u: (), r: &'a Repeat2Curried1<'a>) -> bool {
        r.prog == self.prog
    }

    fn apply(&self, u: ()) -> (r: &'a Repeat2Curried1<'a>) {
        self.prog.allocate(Repeat2Curried1 { prog: self.prog })
    }
}

impl<'a, A: Copy> Apply<A, &'a Repeat2Curried2<'a, A>> for Repeat2Curried1<'a> {
    open spec fn pre(self, x: A) -> bool {
        true
    }

    open spec fn post(self, x: A, r: &'a Repeat2Curried2<'a, A>) -> bool {
        r.prog == self.prog && r.x == x
    }

    fn apply(&self, x: A) -> (r: &'a Repeat2Curried2<'a, A>) {
        self.prog.allocate(Repeat2Curried2 { prog: self.prog, x })
    }
}

impl<'a, A: Copy> Apply<A, &'a Repeat2Curried3<'a, A>> for Repeat2Curried2<'a, A> {
    open spec fn pre(self, y: A) -> bool {
        true
    }

    open spec fn post(self, y: A, r: &'a Repeat2Curried3<'a, A>) -> bool {
        r.prog == self.prog && r.x == self.x && r.y == y
    }

    fn apply(&self, y: A) -> (r: &'a Repeat2Curried3<'a, A>) {
        self.prog.allocate(Repeat2Curried3 { prog: self.prog, x: self.x, y })
    }
}

impl<'a, A: Copy> Apply<u64, &'a Coq_Init_Datatypes_list<'a, A>> for Repeat2Curried3<'a, A> {
    open spec fn pre(self, n: u64) -> bool {
        true
    }

    open spec fn post(self, n: u64, r: &'a Coq_Init_Datatypes_list<'a, A>) -> bool {
        r@.len() == 2 * n && forall|i: int|
            0 <= i < r@.len() ==> r@[i] == (if i % 2 == 0 {
                self.x
            } else {
                self.y
            })
    }

    fn apply(&self, n: u64) -> (r: &'a Coq_Init_Datatypes_list<'a, A>) {
        self.prog.CertiCoq_Benchmarks_rust_tests_repeat2((), self.x, self.y, n)
    }
}

} // verus!
