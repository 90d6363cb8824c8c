use vstd::prelude::*;

verus! {

/// A fused multiply-add capability: `fma(a, b, c)` is `a * b + c` rounded
/// once, as a single operation. Like [`crate::traits::FloatEFT`], the
/// executable operation is pinned to its abstract specification-level
/// counterpart, which an implementation fixes to the correctly-rounded
/// fused operation of its float width.
pub trait Fma: Sized + Copy {
    /// The value of `a * b + c` rounded once.
    spec fn fma_s(a: Self, b: Self, c: Self) -> Self;

    /// Fused multiply-add: `a * b + c` with a single rounding.
    fn fma(a: Self, b: Self, c: Self) -> (r: Self)
        ensures
            r == Self::fma_s(a, b, c),
    ;
}

} // verus!
