use vstd::prelude::*;

use crate::arena::Program;
use crate::callable::Apply;
use crate::callable::hint_app;

verus! {

/// An inductive list: either empty, or an element together with a reference
/// to a tail cell. Every cell lives in one arena; a tail always points at a
/// cell that was allocated before it, so the structure is acyclic by
/// construction and valid as long as the arena is.
#[allow(non_camel_case_types)]
pub enum Coq_Init_Datatypes_list<'a, A> {
    nil,
    cons(A, &'a Coq_Init_Datatypes_list<'a, A>),
}

impl<'a, A> Coq_Init_Datatypes_list<'a, A> {
    /// The mathematical sequence of elements, head first.
    pub open spec fn seq(self) -> Seq<A>
        decreases self,
    {
        match self {
            Coq_Init_Datatypes_list::nil => Seq::empty(),
            Coq_Init_Datatypes_list::cons(a, t) => seq![a].add(t.seq()),
        }
    }
}

impl<'a, A> View for Coq_Init_Datatypes_list<'a, A> {
    type V = Seq<A>;

    open spec fn view(&self) -> Seq<A> {
        self.seq()
    }
}

impl Program {
    /// Structural recursion over a list: rebuilds it cell by cell, applying
    /// the callable to every element in list order. The result has the same
    /// length, and each output element satisfies the callable's contract on
    /// the corresponding input element.
    pub fn Coq_Lists_List_map<'a, A: Copy, B: Copy, F: Apply<A, B>>(
        &'a self,
        f: &'a F,
        l: &'a Coq_Init_Datatypes_list<'a, A>,
    ) -> (r: &'a Coq_Init_Datatypes_list<'a, B>)
        requires
            forall|i: int| 0 <= i < l@.len() ==> (*f).pre(#[trigger] l@[i]),
        ensures
            r@.len() == l@.len(),
            forall|i: int| 0 <= i < l@.len() ==> (*f).post(l@[i], #[trigger] r@[i]),
        decreases l@.len(),
    {
        match l {
            Coq_Init_Datatypes_list::nil => self.allocate(Coq_Init_Datatypes_list::nil),
            Coq_Init_Datatypes_list::cons(a, t) => {
                proof {
                    assert(l@ == seq![*a].add(t@));
                    assert(l@[0] == *a);
                    assert(forall|i: int| 0 <= i < t@.len() ==> t@[i] == l@[i + 1]);
                }
                let b = hint_app(f).apply(*a);
                let mt = self.Coq_Lists_List_map(f, *t);
                let r = self.allocate(Coq_Init_Datatypes_list::cons(b, mt));
                proof {
                    assert(r@ == seq![b].add(mt@));
                    assert(forall|i: int| 0 < i < r@.len() ==> r@[i] == mt@[i - 1]);
                }
                r
            },
        }
    }

    /// The map operation as an arena-allocated callable awaiting its
    /// transform argument.
    pub fn Coq_Lists_List_map__curried<'a>(&'a self) -> (r: &'a MapCurried<'a>)
        ensures
            r.prog == self,
    {
        self.allocate(MapCurried { prog: self })
    }
}

/// The first link of the curried map: applying it to a callable yields a
/// link that awaits the list.
pub struct MapCurried<'a> {
    pub prog: &'a Program,
}

/// The second link of the curried map: holds the transform and awaits the
/// list to traverse.
pub struct MapCurried1<'a, F> {
    pub prog: &'a Program,
    pub f: &'a F,
}

impl<'a, F> Apply<&'a F, &'a MapCurried1<'a, F>> for MapCurried<'a> {
    open spec fn pre(self, f: &'a F) -> bool {
        true
    }

    open spec fn post(self, f: &'a F, r: &'a MapCurried1<'a, F>) -> bool {
        r.prog == self.prog && r.f == f
    }

    fn apply(&self, f: &'a F) -> (r: &'a MapCurried1<'a, F>) {
        self.prog.allocate(MapCurried1 { prog: self.prog, f })
    }
}

impl<'a, A: Copy, B: Copy, F: Apply<A, B>> Apply<
    &'a Coq_Init_Datatypes_list<'a, A>,
    &'a Coq_Init_Datatypes_list<'a, B>,
> for MapCurried1<'a, F> {
    open spec fn pre(self, l: &'a Coq_Init_Datatypes_list<'a, A>) -> bool {
        forall|i: int| 0 <= i < l@.len() ==> (*self.f).pre(#[trigger] l@[i])
    }

    open spec fn post(
        self,
        l: &'a Coq_Init_Datatypes_list<'a, A>,
        r: &'a Coq_Init_Datatypes_list<'a, B>,
    ) -> bool {
        r@.len() == l@.len() && forall|i: int|
            0 <= i < l@.len() ==> (*self.f).post(l@[i], #[trigger] r@[i])
    }

    fn apply(
        &self,
        l: &'a Coq_Init_Datatypes_list<'a, A>,
    ) -> (r: &'a Coq_Init_Datatypes_list<'a, B>) {
        self.prog.Coq_Lists_List_map(self.f, l)
    }
}

} // verus!
