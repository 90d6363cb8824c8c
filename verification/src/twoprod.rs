use vstd::prelude::*;
use crate::traits::FloatEFT;
use crate::fma::Fma;
use crate::split::{safesplit_straight, safesplit_straight_s, split, split_s};
use crate::twosum::{fasttwosum, fasttwosum_s};

verus! {

/// The pair returned by Dekker's [`twoproduct`]: the rounded product, and
/// the correction assembled from the four cross terms of both operands'
/// splits.
pub open spec fn twoproduct_s<F: FloatEFT>(a: F, b: F) -> (F, F) {
    let prod = F::fmul_s(a, b);
    let (a1, a2) = split_s(a);
    let (b1, b2) = split_s(b);
    (
        prod,
        F::fsub_s(
            F::fmul_s(a2, b2),
            F::fsub_s(
                F::fsub_s(F::fsub_s(prod, F::fmul_s(a1, b1)), F::fmul_s(a1, b2)),
                F::fmul_s(a2, b1),
            ),
        ),
    )
}

/// Whether [`safetwoproduct_branch`] rescales its operands before splitting
/// because `|a|` reaches `1 / (min_pos / epsilon)`.
pub open spec fn branch_scales_by_a<F: FloatEFT>(a: F) -> bool {
    F::fle_s(F::fdiv_s(F::one_s(), F::fdiv_s(F::min_pos_s(), F::epsilon_s())), F::fabs_s(a))
}

/// Whether [`safetwoproduct_branch`] rescales its operands the other way
/// round because `|b|` reaches `min_pos / epsilon`.
pub open spec fn branch_scales_by_b<F: FloatEFT>(b: F) -> bool {
    F::fle_s(F::fdiv_s(F::min_pos_s(), F::epsilon_s()), F::fabs_s(b))
}

/// Whether [`safetwoproduct_branch`] computes its leading correction in
/// halved arithmetic because `|prod|` exceeds `radix / min_pos`.
pub open spec fn branch_halves_correction<F: FloatEFT>(prod: F) -> bool {
    F::flt_s(F::fdiv_s(F::radix_s(), F::min_pos_s()), F::fabs_s(prod))
}

/// The pair returned by [`safetwoproduct_branch`]: the rounded product, and
/// the Dekker correction over operand splits that were pre-scaled by
/// `epsilon` and `1 / epsilon` when either operand's magnitude crosses its
/// threshold, with the leading term of the correction computed in halved
/// arithmetic when the product itself is near overflow.
pub open spec fn safetwoproduct_branch_s<F: FloatEFT>(a: F, b: F) -> (F, F) {
    let prod = F::fmul_s(a, b);
    let (a1, a2) = if branch_scales_by_a::<F>(a) {
        split_s(F::fmul_s(a, F::epsilon_s()))
    } else if branch_scales_by_b::<F>(b) {
        split_s(F::fdiv_s(a, F::epsilon_s()))
    } else {
        split_s(a)
    };
    let (b1, b2) = if branch_scales_by_a::<F>(a) {
        split_s(F::fdiv_s(b, F::epsilon_s()))
    } else if branch_scales_by_b::<F>(b) {
        split_s(F::fmul_s(b, F::epsilon_s()))
    } else {
        split_s(b)
    };
    let tmp = if branch_halves_correction::<F>(prod) {
        F::fmul_s(
            F::fsub_s(
                F::fdiv_s(prod, F::radix_s()),
                F::fmul_s(F::fdiv_s(a1, F::radix_s()), b1),
            ),
            F::radix_s(),
        )
    } else {
        F::fsub_s(prod, F::fmul_s(a1, b1))
    };
    (
        prod,
        F::fsub_s(
            F::fmul_s(a2, b2),
            F::fsub_s(F::fsub_s(tmp, F::fmul_s(a1, b2)), F::fmul_s(a2, b1)),
        ),
    )
}

/// The pair returned by [`safetwoproduct_straight`]: the rounded product,
/// and the correction assembled branchlessly from both operands' three-part
/// splits, a fast two-sum against the leading cross term, and the
/// `err`-order terms of the splits.
pub open spec fn safetwoproduct_straight_s<F: FloatEFT>(a: F, b: F) -> (F, F) {
    let prod = F::fmul_s(a, b);
    let (a1, a2, a3) = safesplit_straight_s(a);
    let (b1, b2, b3) = safesplit_straight_s(b);
    let two_a1b1 = F::fmul_s(F::radix_s(), F::fmul_s(a1, b1));
    let mid = fasttwosum_s(prod, F::fneg_s(two_a1b1));
    let radix_sq = F::fmul_s(F::radix_s(), F::radix_s());
    (
        prod,
        F::fadd_s(
            F::fadd_s(
                F::fsub_s(
                    F::fmul_s(F::fmul_s(radix_sq, a2), b2),
                    F::fsub_s(
                        F::fsub_s(
                            F::fadd_s(F::fsub_s(mid.0, two_a1b1), mid.1),
                            F::fmul_s(F::fmul_s(radix_sq, b2), a1),
                        ),
                        F::fmul_s(F::fmul_s(radix_sq, a2), b1),
                    ),
                ),
                F::fmul_s(a, b3),
            ),
            F::fmul_s(b, a3),
        ),
    )
}

/// The pair returned by [`safetwoproduct_fma`]: the rounded product, and the
/// residual `fma(a, b, -prod)`, exact in one fused operation.
pub open spec fn safetwoproduct_fma_s<F: FloatEFT + Fma>(a: F, b: F) -> (F, F) {
    let prod = F::fmul_s(a, b);
    (prod, F::fma_s(a, b, F::fneg_s(prod)))
}

/// Dekker's product: an error-free decomposition of `a * b` built from
/// [`split`] of both operands and the four cross terms. Exact only while
/// both operands and the product stay inside the splittable band.
pub fn twoproduct<F: FloatEFT>(a: F, b: F) -> (r: (F, F))
    ensures
        r == twoproduct_s(a, b),
        r.0 == F::fmul_s(a, b),
{
    let prod = F::fmul(a, b);
    let (a1, a2) = split(a);
    let (b1, b2) = split(b);
    (
        prod,
        F::fsub(
            F::fmul(a2, b2),
            F::fsub(
                F::fsub(F::fsub(prod, F::fmul(a1, b1)), F::fmul(a1, b2)),
                F::fmul(a2, b1),
            ),
        ),
    )
}

/// Error-free multiplication over the whole finite range, by pre-scaling the
/// operands with `epsilon` and `1 / epsilon` (keeping the product's
/// magnitude unchanged) when either operand crosses its threshold, and by
/// computing the leading correction in halved arithmetic when the product is
/// near overflow. The rounded component is always the plain rounded product.
pub fn safetwoproduct_branch<F: FloatEFT>(a: F, b: F) -> (r: (F, F))
    ensures
        r == safetwoproduct_branch_s(a, b),
        r.0 == F::fmul_s(a, b),
{
    let prod = F::fmul(a, b);
    let scale_a = F::fle(F::fdiv(F::one(), F::fdiv(F::min_pos(), F::epsilon())), F::fabs(a));
    let scale_b = F::fle(F::fdiv(F::min_pos(), F::epsilon()), F::fabs(b));
    let (a1, a2) = if scale_a {
        split(F::fmul(a, F::epsilon()))
    } else if scale_b {
        split(F::fdiv(a, F::epsilon()))
    } else {
        split(a)
    };
    let (b1, b2) = if scale_a {
        split(F::fdiv(b, F::epsilon()))
    } else if scale_b {
        split(F::fmul(b, F::epsilon()))
    } else {
        split(b)
    };
    let tmp = if F::flt(F::fdiv(F::radix(), F::min_pos()), F::fabs(prod)) {
        F::fmul(
            F::fsub(F::fdiv(prod, F::radix()), F::fmul(F::fdiv(a1, F::radix()), b1)),
            F::radix(),
        )
    } else {
        F::fsub(prod, F::fmul(a1, b1))
    };
    (
        prod,
        F::fsub(
            F::fmul(a2, b2),
            F::fsub(F::fsub(tmp, F::fmul(a1, b2)), F::fmul(a2, b1)),
        ),
    )
}

/// Error-free multiplication over the whole finite range with no
/// data-dependent branch: both operands go through [`safesplit_straight`],
/// the leading cross term is subtracted via [`fasttwosum`], and the
/// remaining cross terms, including the `err`-order parts of the three-part
/// splits, reassemble the exact correction.
pub fn safetwoproduct_straight<F: FloatEFT>(a: F, b: F) -> (r: (F, F))
    ensures
        r == safetwoproduct_straight_s(a, b),
        r.0 == F::fmul_s(a, b),
{
    let prod = F::fmul(a, b);
    let (a1, a2, a3) = safesplit_straight(a);
    let (b1, b2, b3) = safesplit_straight(b);
    let two_a1b1 = F::fmul(F::radix(), F::fmul(a1, b1));
    let mid = fasttwosum(prod, F::fneg(two_a1b1));
    let radix_sq = F::fmul(F::radix(), F::radix());
    (
        prod,
        F::fadd(
            F::fadd(
                F::fsub(
                    F::fmul(F::fmul(radix_sq, a2), b2),
                    F::fsub(
                        F::fsub(
                            F::fadd(F::fsub(mid.0, two_a1b1), mid.1),
                            F::fmul(F::fmul(radix_sq, b2), a1),
                        ),
                        F::fmul(F::fmul(radix_sq, a2), b1),
                    ),
                ),
                F::fmul(a, b3),
            ),
            F::fmul(b, a3),
        ),
    )
}

/// Error-free multiplication in one fused operation: the residual is
/// `fma(a, b, -prod)`, exact because the fused multiply-add rounds once.
pub fn safetwoproduct_fma<F: FloatEFT + Fma>(a: F, b: F) -> (r: (F, F))
    ensures
        r == safetwoproduct_fma_s(a, b),
        r.0 == F::fmul_s(a, b),
{
    let prod = F::fmul(a, b);
    (prod, F::fma(a, b, F::fneg(prod)))
}

/// Every two-product variant returns the same rounded component: the plain
/// rounded product of the operands. In particular the branching, branchless
/// and fused variants can never disagree in their first component, for any
/// pair of operands whatsoever.
pub proof fn lemma_twoproduct_rounded_components_agree<F: FloatEFT + Fma>(a: F, b: F)
    ensures
        twoproduct_s(a, b).0 == F::fmul_s(a, b),
        safetwoproduct_branch_s(a, b).0 == F::fmul_s(a, b),
        safetwoproduct_straight_s(a, b).0 == F::fmul_s(a, b),
        safetwoproduct_fma_s(a, b).0 == F::fmul_s(a, b),
{
}

} // verus!
