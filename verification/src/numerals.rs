use vstd::prelude::*;

verus! {

/// The failure every checked numeral constructor raises when its result does
/// not fit the host integer width. The encodings require exact values, so
/// this is a hard failure, never a wraparound.
#[derive(Clone, Copy, Debug, PartialEq, Eq, Structural)]
pub struct ArithmeticOverflow;

/// The predecessor that eliminating a non-zero unary natural hands out.
pub open spec fn nat_pred(n: u64) -> u64
    recommends
        n > 0,
{
    (n - 1) as u64
}

/// The sub-structure that eliminating a binary positive other than one hands
/// out: the value with its lowest binary digit removed.
pub open spec fn pos_shift(n: u64) -> u64 {
    n / 2
}

/// Successor of a unary-encoded natural. The encoding is a plain host
/// integer, so the successor is a checked increment: at the width's maximum
/// there is no representable successor and the construction fails.
pub fn __nat_succ(x: u64) -> (r: Result<u64, ArithmeticOverflow>)
    ensures
        x < u64::MAX ==> r == Ok::<u64, ArithmeticOverflow>((x + 1) as u64),
        x == u64::MAX ==> r == Err::<u64, ArithmeticOverflow>(ArithmeticOverflow),
{
    match x.checked_add(1) {
        Some(v) => Ok(v),
        None => Err(ArithmeticOverflow),
    }
}

/// Odd constructor of a binary positive: appends a one digit, so the result
/// is `2x + 1`. Fails when that does not fit the host width.
pub fn __pos_onebit(x: u64) -> (r: Result<u64, ArithmeticOverflow>)
    ensures
        2 * x + 1 <= u64::MAX ==> r == Ok::<u64, ArithmeticOverflow>((2 * x + 1) as u64),
        2 * x + 1 > u64::MAX ==> r == Err::<u64, ArithmeticOverflow>(ArithmeticOverflow),
{
    match x.checked_mul(2) {
        Some(v) => {
            proof {
                assert((2 * x) % 2 == 0 && (u64::MAX as int) % 2 == 1) by (nonlinear_arith);
            }
            Ok(v + 1)
        },
        None => Err(ArithmeticOverflow),
    }
}

/// Even constructor of a binary positive: appends a zero digit, so the
/// result is `2x`. Fails when that does not fit the host width.
pub fn __pos_zerobit(x: u64) -> (r: Result<u64, ArithmeticOverflow>)
    ensures
        2 * x <= u64::MAX ==> r == Ok::<u64, ArithmeticOverflow>((2 * x) as u64),
        2 * x > u64::MAX ==> r == Err::<u64, ArithmeticOverflow>(ArithmeticOverflow),
{
    match x.checked_mul(2) {
        Some(v) => Ok(v),
        None => Err(ArithmeticOverflow),
    }
}

/// Signed integer from a positive magnitude. The narrowing is checked: a
/// magnitude beyond the signed width's maximum fails.
pub fn __Z_frompos(z: u64) -> (r: Result<i64, ArithmeticOverflow>)
    ensures
        z <= i64::MAX ==> r == Ok::<i64, ArithmeticOverflow>(z as i64),
        z > i64::MAX ==> r == Err::<i64, ArithmeticOverflow>(ArithmeticOverflow),
{
    if z <= i64::MAX as u64 {
        Ok(z as i64)
    } else {
        Err(ArithmeticOverflow)
    }
}

/// Negated signed integer from a positive magnitude. The magnitude is first
/// narrowed to the signed width and then negated, so a magnitude beyond the
/// signed maximum fails even though its negation would be representable.
pub fn __Z_fromneg(z: u64) -> (r: Result<i64, ArithmeticOverflow>)
    ensures
        z <= i64::MAX ==> (r is Ok && r->Ok_0 == -(z as int)),
        z > i64::MAX ==> r == Err::<i64, ArithmeticOverflow>(ArithmeticOverflow),
{
    if z <= i64::MAX as u64 {
        Ok(-(z as i64))
    } else {
        Err(ArithmeticOverflow)
    }
}

/// Unsigned binary natural from a positive: the encodings coincide, the
/// positive is already the natural.
pub fn __N_frompos(z: u64) -> (r: u64)
    ensures
        r == z,
{
    z
}

/// Elimination of a unary natural: exactly one case runs; the successor case
/// receives the true predecessor.
pub fn __nat_elim<R, FZ: FnOnce() -> R, FS: FnOnce(u64) -> R>(
    zero_case: FZ,
    succ_case: FS,
    n: u64,
) -> (r: R)
    requires
        n == 0 ==> call_requires(zero_case, ()),
        n > 0 ==> call_requires(succ_case, (nat_pred(n),)),
    ensures
        n == 0 ==> call_ensures(zero_case, (), r),
        n > 0 ==> call_ensures(succ_case, (nat_pred(n),), r),
{
    if n == 0 {
        zero_case()
    } else {
        succ_case(n - 1)
    }
}

/// Elimination of a binary positive. The terminal value one is checked
/// first; otherwise the lowest digit selects the odd or even case, and the
/// case receives the value with that digit removed.
pub fn __pos_elim<R, F1: FnOnce(u64) -> R, F0: FnOnce(u64) -> R, FT: FnOnce() -> R>(
    onebit_case: F1,
    zerobit_case: F0,
    one_case: FT,
    n: u64,
) -> (r: R)
    requires
        n >= 1,
        n == 1 ==> call_requires(one_case, ()),
        n > 1 && n % 2 == 0 ==> call_requires(zerobit_case, (pos_shift(n),)),
        n > 1 && n % 2 == 1 ==> call_requires(onebit_case, (pos_shift(n),)),
    ensures
        n == 1 ==> call_ensures(one_case, (), r),
        n > 1 && n % 2 == 0 ==> call_ensures(zerobit_case, (pos_shift(n),), r),
        n > 1 && n % 2 == 1 ==> call_ensures(onebit_case, (pos_shift(n),), r),
{
    proof {
        assert(n & 1 == n % 2) by (bit_vector);
        assert(n >> 1u64 == n / 2) by (bit_vector);
    }
    if n == 1 {
        one_case()
    } else if (n & 1) == 0 {
        zerobit_case(n >> 1)
    } else {
        onebit_case(n >> 1)
    }
}

/// Elimination of a signed integer: zero is checked first, then the sign;
/// either signed case receives the positive magnitude.
pub fn __Z_elim<R, FZ: FnOnce() -> R, FP: FnOnce(u64) -> R, FN: FnOnce(u64) -> R>(
    zero_case: FZ,
    pos_case: FP,
    neg_case: FN,
    n: i64,
) -> (r: R)
    requires
        n == 0 ==> call_requires(zero_case, ()),
        n > 0 ==> call_requires(pos_case, (n as u64,)),
        n < 0 ==> call_requires(neg_case, ((-(n as int)) as u64,)),
    ensures
        n == 0 ==> call_ensures(zero_case, (), r),
        n > 0 ==> call_ensures(pos_case, (n as u64,), r),
        n < 0 ==> call_ensures(neg_case, ((-(n as int)) as u64,), r),
{
    if n == 0 {
        zero_case()
    } else if n < 0 {
        let m: u64 = if n == i64::MIN {
            9223372036854775808u64
        } else {
            (-n) as u64
        };
        neg_case(m)
    } else {
        pos_case(n as u64)
    }
}

/// Elimination of an unsigned binary natural: zero is checked first, and the
/// positive case receives the value itself, which is its own encoding as a
/// positive.
pub fn __N_elim<R, FZ: FnOnce() -> R, FP: FnOnce(u64) -> R>(
    zero_case: FZ,
    pos_case: FP,
    n: u64,
) -> (r: R)
    requires
        n == 0 ==> call_requires(zero_case, ()),
        n > 0 ==> call_requires(pos_case, (n,)),
    ensures
        n == 0 ==> call_ensures(zero_case, (), r),
        n > 0 ==> call_ensures(pos_case, (n,), r),
{
    if n == 0 {
        zero_case()
    } else {
        pos_case(n)
    }
}

/// Law: eliminating the successor of a representable natural hands the
/// successor case the natural it was built from.
pub proof fn lemma_nat_round_trip(n: u64)
    requires
        n < u64::MAX,
    ensures
        (n + 1) as u64 > 0,
        nat_pred((n + 1) as u64) == n,
{
}

/// Law: eliminating an odd-constructed positive takes the odd case and hands
/// it the positive it was built from.
pub proof fn lemma_onebit_round_trip(p: u64)
    requires
        p >= 1,
        2 * p + 1 <= u64::MAX,
    ensures
        (2 * p + 1) as u64 > 1,
        ((2 * p + 1) as u64) % 2 == 1,
        pos_shift((2 * p + 1) as u64) == p,
{
    assert((2 * p + 1) % 2 == 1 && (2 * p + 1) / 2 == p as int) by (nonlinear_arith);
}

/// Law: eliminating an even-constructed positive takes the even case and
/// hands it the positive it was built from.
pub proof fn lemma_zerobit_round_trip(p: u64)
    requires
        p >= 1,
        2 * p <= u64::MAX,
    ensures
        (2 * p) as u64 > 1,
        ((2 * p) as u64) % 2 == 0,
        pos_shift((2 * p) as u64) == p,
{
    assert((2 * p) % 2 == 0 && (2 * p) / 2 == p as int) by (nonlinear_arith);
}

} // verus!
