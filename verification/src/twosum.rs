use vstd::prelude::*;
use crate::traits::FloatEFT;
use crate::fma::Fma;

verus! {

/// The pair returned by Dekker's fast two-sum: the rounded sum of `x` and
/// `y`, and the correction term `y - (sum - x)`.
pub open spec fn fasttwosum_s<F: FloatEFT>(x: F, y: F) -> (F, F) {
    let sum = F::fadd_s(x, y);
    (sum, F::fsub_s(y, F::fsub_s(sum, x)))
}

/// The pair returned by Knuth's two-sum: the rounded sum of `x` and `y`, and
/// the correction assembled from both operands' halves of the cancellation.
pub open spec fn twosum_s<F: FloatEFT>(x: F, y: F) -> (F, F) {
    let sum = F::fadd_s(x, y);
    let tmp = F::fsub_s(sum, x);
    (sum, F::fadd_s(F::fsub_s(x, F::fsub_s(sum, tmp)), F::fsub_s(y, tmp)))
}

/// The pair returned by [`safetwosum_branch`]: fast two-sum applied with the
/// operand of larger magnitude first.
pub open spec fn safetwosum_branch_s<F: FloatEFT>(x: F, y: F) -> (F, F) {
    if F::flt_s(F::fabs_s(y), F::fabs_s(x)) {
        fasttwosum_s(x, y)
    } else {
        fasttwosum_s(y, x)
    }
}

/// The pair returned by [`safetwosum_straight`]: the rounded sum, and the
/// residual recombined from an error-free decomposition of `(x + y) / radix`
/// together with the exact halving residuals of both operands.
pub open spec fn safetwosum_straight_s<F: FloatEFT>(x: F, y: F) -> (F, F) {
    let s = F::fadd_s(x, y);
    let xx = F::fdiv_s(x, F::radix_s());
    let yy = F::fdiv_s(y, F::radix_s());
    let err_uf = F::fadd_s(
        F::fsub_s(x, F::fmul_s(xx, F::radix_s())),
        F::fsub_s(y, F::fmul_s(yy, F::radix_s())),
    );
    let (ss, ee) = twosum_s(xx, yy);
    let err_h = F::fsub_s(F::fmul_s(F::radix_s(), ss), s);
    (s, F::fadd_s(F::fadd_s(F::fmul_s(F::radix_s(), ee), err_h), err_uf))
}

/// The pair returned by [`safetwosum_fma`]: as the straight variant, with the
/// halving residuals and the scaling correction each taken in one fused
/// multiply-add.
pub open spec fn safetwosum_fma_s<F: FloatEFT + Fma>(x: F, y: F) -> (F, F) {
    let s = F::fadd_s(x, y);
    let xx = F::fdiv_s(x, F::radix_s());
    let yy = F::fdiv_s(y, F::radix_s());
    let err_uf = F::fadd_s(
        F::fma_s(F::fneg_s(F::radix_s()), xx, x),
        F::fma_s(F::fneg_s(F::radix_s()), yy, y),
    );
    let (ss, ee) = twosum_s(xx, yy);
    let err_h = F::fma_s(F::radix_s(), ss, F::fneg_s(s));
    (s, F::fadd_s(F::fma_s(F::radix_s(), ee, err_h), err_uf))
}

/// Dekker's fast two-sum. When `|x| >= |y|`, the returned pair is an
/// error-free decomposition of `x + y`: the rounded sum together with the
/// exact rounding error.
pub fn fasttwosum<F: FloatEFT>(x: F, y: F) -> (r: (F, F))
    ensures
        r == fasttwosum_s(x, y),
        r.0 == F::fadd_s(x, y),
{
    let sum = F::fadd(x, y);
    (sum, F::fsub(y, F::fsub(sum, x)))
}

/// Knuth's two-sum: an error-free decomposition of `x + y` with no ordering
/// precondition, exact except at extreme overflow and subnormal boundaries.
pub fn twosum<F: FloatEFT>(x: F, y: F) -> (r: (F, F))
    ensures
        r == twosum_s(x, y),
        r.0 == F::fadd_s(x, y),
{
    let sum = F::fadd(x, y);
    let tmp = F::fsub(sum, x);
    (sum, F::fadd(F::fsub(x, F::fsub(sum, tmp)), F::fsub(y, tmp)))
}

/// Error-free addition over the whole finite range, by comparing magnitudes
/// and handing the larger operand to [`fasttwosum`] first. The rounded
/// component is the plain rounded sum of the operands, whichever branch runs.
pub fn safetwosum_branch<F: FloatEFT>(x: F, y: F) -> (r: (F, F))
    ensures
        r == safetwosum_branch_s(x, y),
        r.0 == F::fadd_s(x, y),
{
    proof {
        F::fadd_comm(x, y);
    }
    if F::flt(F::fabs(y), F::fabs(x)) {
        fasttwosum(x, y)
    } else {
        fasttwosum(y, x)
    }
}

/// Error-free addition over the whole finite range with no data-dependent
/// branch: the operands are halved (exactly, up to a bounded halving
/// residual), decomposed by [`twosum`] where no overflow can occur, and the
/// residual is recombined at full scale.
pub fn safetwosum_straight<F: FloatEFT>(x: F, y: F) -> (r: (F, F))
    ensures
        r == safetwosum_straight_s(x, y),
        r.0 == F::fadd_s(x, y),
{
    let s = F::fadd(x, y);
    let xx = F::fdiv(x, F::radix());
    let yy = F::fdiv(y, F::radix());
    let err_uf = F::fadd(
        F::fsub(x, F::fmul(xx, F::radix())),
        F::fsub(y, F::fmul(yy, F::radix())),
    );
    let (ss, ee) = twosum(xx, yy);
    let err_h = F::fsub(F::fmul(F::radix(), ss), s);
    (s, F::fadd(F::fadd(F::fmul(F::radix(), ee), err_h), err_uf))
}

/// As [`safetwosum_straight`], with each halving residual and the scaling
/// correction computed by one fused multiply-add instead of a multiply and a
/// subtract.
pub fn safetwosum_fma<F: FloatEFT + Fma>(x: F, y: F) -> (r: (F, F))
    ensures
        r == safetwosum_fma_s(x, y),
        r.0 == F::fadd_s(x, y),
{
    let s = F::fadd(x, y);
    let xx = F::fdiv(x, F::radix());
    let yy = F::fdiv(y, F::radix());
    let err_uf = F::fadd(
        F::fma(F::fneg(F::radix()), xx, x),
        F::fma(F::fneg(F::radix()), yy, y),
    );
    let (ss, ee) = twosum(xx, yy);
    let err_h = F::fma(F::radix(), ss, F::fneg(s));
    (s, F::fadd(F::fma(F::radix(), ee, err_h), err_uf))
}

/// Every two-sum variant returns the same rounded component: the plain
/// rounded sum of the operands. In particular the branching, branchless and
/// fused variants can never disagree in their first component, for any pair
/// of operands whatsoever.
pub proof fn lemma_twosum_rounded_components_agree<F: FloatEFT + Fma>(x: F, y: F)
    ensures
        fasttwosum_s(x, y).0 == F::fadd_s(x, y),
        twosum_s(x, y).0 == F::fadd_s(x, y),
        safetwosum_branch_s(x, y).0 == F::fadd_s(x, y),
        safetwosum_straight_s(x, y).0 == F::fadd_s(x, y),
        safetwosum_fma_s(x, y).0 == F::fadd_s(x, y),
{
    F::fadd_comm(x, y);
}

} // verus!
