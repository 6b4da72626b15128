//! Scalar operations on `i64`, each with the spec function that states it.
use vstd::prelude::*;

verus! {

/// Two's complement sum.
pub open spec fn add_spec(a: i64, b: i64) -> i64 {
    a.wrapping_add(b)
}

/// Two's complement difference.
pub open spec fn sub_spec(a: i64, b: i64) -> i64 {
    a.wrapping_sub(b)
}

/// Two's complement product.
pub open spec fn mul_spec(a: i64, b: i64) -> i64 {
    a.wrapping_mul(b)
}

/// Two's complement negation: `-i64::MIN` is `i64::MIN`.
pub open spec fn neg_spec(a: i64) -> i64 {
    0i64.wrapping_sub(a)
}

/// Magnitude; `i64::MIN` is its own magnitude, as with `wrapping_abs`.
pub open spec fn abs_spec(a: i64) -> i64 {
    if a < 0 {
        neg_spec(a)
    } else {
        a
    }
}

/// Quotient rounded toward zero. A zero divisor gives zero, and the one
/// quotient that does not fit, `i64::MIN / -1`, wraps to `i64::MIN`.
pub open spec fn div_spec(a: i64, b: i64) -> i64 {
    match a.checked_div(b) {
        Some(q) => q,
        None => if b == 0 {
            0
        } else {
            i64::MIN
        },
    }
}

pub(crate) fn add_w(a: i64, b: i64) -> (r: i64)
    ensures
        r == add_spec(a, b),
{
    a.wrapping_add(b)
}

pub(crate) fn sub_w(a: i64, b: i64) -> (r: i64)
    ensures
        r == sub_spec(a, b),
{
    a.wrapping_sub(b)
}

pub(crate) fn mul_w(a: i64, b: i64) -> (r: i64)
    ensures
        r == mul_spec(a, b),
{
    a.wrapping_mul(b)
}

pub(crate) fn neg_w(a: i64) -> (r: i64)
    ensures
        r == neg_spec(a),
{
    0i64.wrapping_sub(a)
}

pub(crate) fn abs_w(a: i64) -> (r: i64)
    ensures
        r == abs_spec(a),
{
    if a < 0 {
        neg_w(a)
    } else {
        a
    }
}

pub(crate) fn div_w(a: i64, b: i64) -> (r: i64)
    ensures
        r == div_spec(a, b),
{
    match a.checked_div(b) {
        Some(q) => q,
        None => if b == 0 {
            0
        } else {
            i64::MIN
        },
    }
}

/// Facts about the scalar operations used by the differentiation rules.
pub proof fn lemma_units(a: i64)
    ensures
        add_spec(a, 0) == a,
        add_spec(0, a) == a,
        sub_spec(a, 0) == a,
        mul_spec(a, 1) == a,
        mul_spec(1, a) == a,
        mul_spec(a, 0) == 0,
        mul_spec(0, a) == 0,
        neg_spec(0) == 0,
        add_spec(a, a) == mul_spec(2, a),
{
    assert(mul_spec(a, 1) == a) by (bit_vector);
    assert(mul_spec(1, a) == a) by (bit_vector);
    assert(mul_spec(a, 0) == 0) by (bit_vector);
    assert(mul_spec(0, a) == 0) by (bit_vector);
    assert(add_spec(a, a) == mul_spec(2, a)) by (bit_vector);
}

/// Where `b * b` fits in an `i64`, dividing `b` by its square is dividing
/// one by `b`, rounded toward zero.
pub proof fn lemma_div_by_square(b: i64)
    requires
        -3037000499 <= b <= 3037000499,
    ensures
        div_spec(b, mul_spec(b, b)) == div_spec(1, b),
{
    let sq: int = b as int * b as int;
    assert(0 <= sq <= 3037000499 * 3037000499) by (nonlinear_arith)
        requires
            -3037000499 <= b <= 3037000499,
            sq == b as int * b as int,
    ;
    vstd::arithmetic::div_mod::lemma_small_mod(sq as nat, 0x1_0000_0000_0000_0000nat);
    assert(mul_spec(b, b) == sq);
    if b > 1 {
        assert(b < sq) by (nonlinear_arith)
            requires
                b > 1,
                sq == b as int * b as int,
        ;
        assert(b as int / sq == 0) by (nonlinear_arith)
            requires
                0 < b < sq,
        ;
        assert(1int / (b as int) == 0) by (nonlinear_arith)
            requires
                b > 1,
        ;
    } else if b < -1 {
        assert(-b < sq) by (nonlinear_arith)
            requires
                b < -1,
                sq == b as int * b as int,
        ;
        assert((b as int * -1) / sq == 0) by (nonlinear_arith)
            requires
                0 < -b < sq,
        ;
        assert(1int / (b as int * -1) == 0) by (nonlinear_arith)
            requires
                b < -1,
        ;
    }
}

} // verus!
