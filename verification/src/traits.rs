use vstd::prelude::*;

verus! {

/// The numeric capability that every error-free transformation in this crate
/// is generic over: a binary floating-point type with rounded arithmetic,
/// magnitude comparison, and the handful of constants the algorithms need.
///
/// Each executable operation is deterministic: it returns exactly the value of
/// its specification-level counterpart (`fadd` returns `fadd_s(x, y)`, and so
/// on). The specification functions themselves are left abstract here; an
/// implementation fixes them to the rounded IEEE-754 operations of its width.
/// The two commutativity laws are the only algebraic facts the algorithms
/// rely on, and both hold of IEEE-754 addition and multiplication.
pub trait FloatEFT: Sized + Copy {
    /// The rounded sum of `x` and `y`.
    spec fn fadd_s(x: Self, y: Self) -> Self;

    /// The rounded difference `x - y`.
    spec fn fsub_s(x: Self, y: Self) -> Self;

    /// The rounded product of `x` and `y`.
    spec fn fmul_s(x: Self, y: Self) -> Self;

    /// The rounded quotient `x / y`.
    spec fn fdiv_s(x: Self, y: Self) -> Self;

    /// The negation of `x`.
    spec fn fneg_s(x: Self) -> Self;

    /// The absolute value of `x`.
    spec fn fabs_s(x: Self) -> Self;

    /// Whether `x` compares strictly below `y`.
    spec fn flt_s(x: Self, y: Self) -> bool;

    /// Whether `x` compares at or below `y`.
    spec fn fle_s(x: Self, y: Self) -> bool;

    /// The multiplicative unit.
    spec fn one_s() -> Self;

    /// The radix of the representation (two for binary formats).
    spec fn radix_s() -> Self;

    /// The machine epsilon: the gap between one and the next value up.
    spec fn epsilon_s() -> Self;

    /// The smallest positive normal value.
    spec fn min_pos_s() -> Self;

    /// The value `radix^e`.
    spec fn two_powi_s(e: i32) -> Self;

    /// Dekker's splitting coefficient, `radix^ceil(bits/2) + 1` for a
    /// mantissa of `bits` digits (`2^27 + 1` in binary64, `2^12 + 1` in
    /// binary32).
    spec fn split_coef_s() -> Self;

    /// Addition is commutative (as IEEE-754 addition is).
    proof fn fadd_comm(x: Self, y: Self)
        ensures
            Self::fadd_s(x, y) == Self::fadd_s(y, x),
    ;

    /// Multiplication is commutative (as IEEE-754 multiplication is).
    proof fn fmul_comm(x: Self, y: Self)
        ensures
            Self::fmul_s(x, y) == Self::fmul_s(y, x),
    ;

    /// Rounded addition.
    fn fadd(x: Self, y: Self) -> (r: Self)
        ensures
            r == Self::fadd_s(x, y),
    ;

    /// Rounded subtraction.
    fn fsub(x: Self, y: Self) -> (r: Self)
        ensures
            r == Self::fsub_s(x, y),
    ;

    /// Rounded multiplication.
    fn fmul(x: Self, y: Self) -> (r: Self)
        ensures
            r == Self::fmul_s(x, y),
    ;

    /// Rounded division.
    fn fdiv(x: Self, y: Self) -> (r: Self)
        ensures
            r == Self::fdiv_s(x, y),
    ;

    /// Negation.
    fn fneg(x: Self) -> (r: Self)
        ensures
            r == Self::fneg_s(x),
    ;

    /// Absolute value.
    fn fabs(x: Self) -> (r: Self)
        ensures
            r == Self::fabs_s(x),
    ;

    /// Strict comparison `x < y`.
    fn flt(x: Self, y: Self) -> (r: bool)
        ensures
            r == Self::flt_s(x, y),
    ;

    /// Comparison `x <= y`.
    fn fle(x: Self, y: Self) -> (r: bool)
        ensures
            r == Self::fle_s(x, y),
    ;

    /// The multiplicative unit.
    fn one() -> (r: Self)
        ensures
            r == Self::one_s(),
    ;

    /// The radix of the representation.
    fn radix() -> (r: Self)
        ensures
            r == Self::radix_s(),
    ;

    /// The machine epsilon.
    fn epsilon() -> (r: Self)
        ensures
            r == Self::epsilon_s(),
    ;

    /// The smallest positive normal value.
    fn min_pos() -> (r: Self)
        ensures
            r == Self::min_pos_s(),
    ;

    /// The value `radix^e`.
    fn two_powi(e: i32) -> (r: Self)
        ensures
            r == Self::two_powi_s(e),
    ;

    /// Dekker's splitting coefficient.
    fn split_coef() -> (r: Self)
        ensures
            r == Self::split_coef_s(),
    ;
}

} // verus!
