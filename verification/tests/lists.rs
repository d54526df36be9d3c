use inductive_arena::Apply;
use inductive_arena::Coq_Init_Datatypes_list;
use inductive_arena::FnValue;
use inductive_arena::Program;
use inductive_arena::hint_app;

fn to_vec<A: Copy>(list: &Coq_Init_Datatypes_list<'_, A>) -> Vec<A> {
    let mut out: Vec<A> = Vec::new();
    let mut cur: &Coq_Init_Datatypes_list<'_, A> = list;
    loop {
        match cur {
            Coq_Init_Datatypes_list::nil => return out,
            Coq_Init_Datatypes_list::cons(a, t) => {
                out.push(*a);
                cur = t;
            },
        }
    }
}

#[test]
fn allocate_stores_the_value() {
    let p = Program::new();
    let r: &u64 = p.allocate(42);
    assert_eq!(*r, 42);
    let s: &(bool, u64) = p.allocate((true, 7));
    assert_eq!(*s, (true, 7));
}

#[test]
fn repeat2_alternates() {
    let p = Program::new();
    let l = p.CertiCoq_Benchmarks_rust_tests_repeat2((), 1u64, 2u64, 3);
    assert_eq!(to_vec(l), vec![1, 2, 1, 2, 1, 2]);
}

#[test]
fn repeat2_zero_is_empty() {
    let p = Program::new();
    let l = p.CertiCoq_Benchmarks_rust_tests_repeat2((), 1u64, 2u64, 0);
    assert_eq!(to_vec(l), Vec::<u64>::new());
}

#[test]
fn negb_negates() {
    let p = Program::new();
    assert_eq!(p.Coq_Init_Datatypes_negb(true), false);
    assert_eq!(p.Coq_Init_Datatypes_negb(false), true);
    let f = p.Coq_Init_Datatypes_negb__curried();
    assert_eq!(f.apply(true), false);
    assert_eq!(f.apply(false), true);
}

#[test]
fn map_length_preserved() {
    let p = Program::new();
    let l = p.CertiCoq_Benchmarks_rust_tests_repeat2((), 5u64, 6u64, 17);
    let f = FnValue { f: |x: u64| x + 1 };
    let m = p.Coq_Lists_List_map(&f, l);
    assert_eq!(to_vec(m).len(), to_vec(l).len());
    assert_eq!(to_vec(m).len(), 34);
}

#[test]
fn map_applies_elementwise_in_order() {
    let p = Program::new();
    let l = p.CertiCoq_Benchmarks_rust_tests_repeat2((), 10u64, 20u64, 2);
    let f = FnValue { f: |x: u64| x * 3 };
    let m = p.Coq_Lists_List_map(&f, l);
    assert_eq!(to_vec(m), vec![30, 60, 30, 60]);
}

#[test]
fn map_of_empty_is_empty() {
    let p = Program::new();
    let empty: &Coq_Init_Datatypes_list<'_, u64> = p.allocate(Coq_Init_Datatypes_list::nil);
    let f = FnValue { f: |x: u64| x + 1 };
    let m = p.Coq_Lists_List_map(&f, empty);
    assert_eq!(to_vec(m), Vec::<u64>::new());
}

#[test]
fn map_identity_returns_equal_list() {
    let p = Program::new();
    let l = p.CertiCoq_Benchmarks_rust_tests_repeat2((), 8u64, 9u64, 5);
    let ident = FnValue { f: |x: u64| x };
    let m = p.Coq_Lists_List_map(&ident, l);
    assert_eq!(to_vec(m), to_vec(l));
}

#[test]
fn map_composes() {
    let p = Program::new();
    let l = p.CertiCoq_Benchmarks_rust_tests_repeat2((), 2u64, 7u64, 4);
    let f = FnValue { f: |x: u64| x + 1 };
    let g = FnValue { f: |x: u64| x * 10 };
    let two_passes = p.Coq_Lists_List_map(&g, p.Coq_Lists_List_map(&f, l));
    let composed = FnValue { f: |x: u64| (x + 1) * 10 };
    let one_pass = p.Coq_Lists_List_map(&composed, l);
    assert_eq!(to_vec(two_passes), to_vec(one_pass));
    assert_eq!(to_vec(one_pass)[0], 30);
    assert_eq!(to_vec(one_pass)[1], 80);
}

#[test]
fn demo_negates_140_alternating_booleans() {
    let p = Program::new();
    let r = p.CertiCoq_Benchmarks_rust_tests_demo2();
    let v = to_vec(r);
    assert_eq!(v.len(), 140);
    for (i, b) in v.iter().enumerate() {
        assert_eq!(*b, i % 2 != 0);
    }
}

#[test]
fn demo_matches_direct_map_of_negation() {
    let p = Program::new();
    let l = p.CertiCoq_Benchmarks_rust_tests_repeat2((), true, false, 70);
    let f = p.Coq_Init_Datatypes_negb__curried();
    let m = p.Coq_Lists_List_map(f, l);
    let d = p.CertiCoq_Benchmarks_rust_tests_demo2();
    assert_eq!(to_vec(m), to_vec(d));
    for (a, b) in to_vec(l).iter().zip(to_vec(m).iter()) {
        assert_eq!(*b, !*a);
    }
}

#[test]
fn curried_repeat2_applies_one_argument_at_a_time() {
    let p = Program::new();
    let chain = p.CertiCoq_Benchmarks_rust_tests_repeat2__curried();
    let partial = chain.apply(()).apply(true).apply(false);
    let l = partial.apply(2);
    assert_eq!(to_vec(l), vec![true, false, true, false]);
    // A partially applied chain stays usable.
    let l2 = partial.apply(1);
    assert_eq!(to_vec(l2), vec![true, false]);
}

#[test]
fn curried_map_applies_one_argument_at_a_time() {
    let p = Program::new();
    let l = p.CertiCoq_Benchmarks_rust_tests_repeat2((), true, true, 2);
    let f = p.Coq_Init_Datatypes_negb__curried();
    let m = p.Coq_Lists_List_map__curried().apply(f).apply(l);
    assert_eq!(to_vec(m), vec![false, false, false, false]);
}

#[test]
fn hint_app_hands_the_callable_back() {
    let f = FnValue { f: |b: bool| !b };
    let g = hint_app(&f);
    assert_eq!(g.apply(true), false);
}
