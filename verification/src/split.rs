use vstd::prelude::*;
use crate::traits::FloatEFT;

verus! {

/// The pair returned by Dekker's [`split`]: the top half of the mantissa of
/// `a`, isolated by multiplying with the splitting coefficient and
/// cancelling, and the remainder `a - hi`.
pub open spec fn split_s<F: FloatEFT>(a: F) -> (F, F) {
    let tmp = F::fmul_s(a, F::split_coef_s());
    let x = F::fsub_s(tmp, F::fsub_s(tmp, a));
    (x, F::fsub_s(a, x))
}

/// The pair returned by [`safesplit_branch`]: for `a` above one, the operand
/// is scaled down by `radix^-50` before splitting and both parts are scaled
/// back up by `radix^50`; otherwise it is split as it stands.
pub open spec fn safesplit_branch_s<F: FloatEFT>(a: F) -> (F, F) {
    if F::flt_s(F::one_s(), a) {
        let t = split_s(F::fmul_s(a, F::two_powi_s(-50i32)));
        (F::fmul_s(t.0, F::two_powi_s(50i32)), F::fmul_s(t.1, F::two_powi_s(50i32)))
    } else {
        split_s(a)
    }
}

/// The triple returned by [`safesplit_straight`]: `a` is halved with an
/// exact halving residual `err`, the half is scaled by a step factor built
/// from the smallest positive normal value and a wide exponent bias so that
/// the scaled value always lies in the splittable band, and the split parts
/// are scaled back down by the same step.
pub open spec fn safesplit_straight_s<F: FloatEFT>(a: F) -> (F, F, F) {
    let aa = F::fmul_s(a, F::two_powi_s(-1i32));
    let err = F::fsub_s(a, F::fmul_s(aa, F::radix_s()));
    let step = F::fadd_s(
        F::fmul_s(
            F::fmul_s(F::fsub_s(F::fadd_s(aa, F::min_pos_s()), aa), F::two_powi_s(1000i32)),
            F::two_powi_s(200i32),
        ),
        F::epsilon_s(),
    );
    let sp = split_s(F::fmul_s(aa, step));
    (F::fdiv_s(sp.0, step), F::fdiv_s(sp.1, step), err)
}

/// Dekker's split: decomposes `a` into a high part holding the leading
/// mantissa bits (trailing half zeroed) and a low part holding the rest, so
/// that `hi + lo == a` exactly. Only exact for magnitudes away from the
/// overflow band of the coefficient product and from the subnormal range;
/// the safe variants below extend the domain.
pub fn split<F: FloatEFT>(a: F) -> (r: (F, F))
    ensures
        r == split_s(a),
{
    let tmp = F::fmul(a, F::split_coef());
    let x = F::fsub(tmp, F::fsub(tmp, a));
    (x, F::fsub(a, x))
}

/// Splitting that survives large magnitudes by pre-scaling the operand down
/// before the coefficient product and rescaling both parts afterwards.
///
/// The scaled branch runs exactly when `a` compares above one. Near the very
/// top of the exponent range (from about `radix^997` up in binary64) the
/// rescaled decomposition is still not exact; that boundary is a known open
/// limitation of this variant, kept as it stands rather than silently moved.
pub fn safesplit_branch<F: FloatEFT>(a: F) -> (r: (F, F))
    ensures
        r == safesplit_branch_s(a),
{
    if F::flt(F::one(), a) {
        let t = split(F::fmul(a, F::two_powi(-50)));
        (F::fmul(t.0, F::two_powi(50)), F::fmul(t.1, F::two_powi(50)))
    } else {
        split(a)
    }
}

/// Branchless splitting over the whole finite range, in three parts
/// `(hi, lo, err)` satisfying the reconstruction `a == hi + hi + (lo * radix
/// + err)`, summed in that grouping because `hi + hi` alone may be the
/// largest representable partial value. `err` is nonzero only at the extreme
/// subnormal boundary, where halving `a` drops the least significant bit.
/// The wide exponent bias in the step factor is sized for binary64's
/// exponent range.
pub fn safesplit_straight<F: FloatEFT>(a: F) -> (r: (F, F, F))
    ensures
        r == safesplit_straight_s(a),
{
    let aa = F::fmul(a, F::two_powi(-1));
    let err = F::fsub(a, F::fmul(aa, F::radix()));
    let step = F::fadd(
        F::fmul(
            F::fmul(F::fsub(F::fadd(aa, F::min_pos()), aa), F::two_powi(1000)),
            F::two_powi(200),
        ),
        F::epsilon(),
    );
    let sp = split(F::fmul(aa, step));
    (F::fdiv(sp.0, step), F::fdiv(sp.1, step), err)
}

} // verus!
