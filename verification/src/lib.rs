//! Safe and branchless error-free transformation algorithms for binary
//! floating-point arithmetic, generic over a numeric capability trait.
//!
//! An error-free transformation (EFT) decomposes the rounded result of a
//! floating-point operation into the rounded value plus an exact residual, so
//! that the two parts together reconstruct the mathematically exact result.
//! This crate provides the three classic families — `split` (mantissa
//! decomposition of one value), `twosum` (error-free addition) and
//! `twoproduct` (error-free multiplication) — each with a fast variant that
//! is only exact away from the overflow and subnormal boundaries, and safe
//! variants (branching, branchless, and fused-multiply-add accelerated) that
//! extend exactness to the whole finite range.
//!
//! The algorithms are generic over [`FloatEFT`], a capability trait whose
//! contracts state that each rounded operation is a deterministic function of
//! its operands; every algorithm here carries a contract pinning its result
//! to the documented composition of those operations, so a caller knows
//! exactly which rounded expressions the returned parts are.

pub mod fma;
pub mod split;
pub mod traits;
pub mod twoprod;
pub mod twosum;

pub use fma::Fma;
pub use split::{safesplit_branch, safesplit_straight, split};
pub use traits::FloatEFT;
pub use twoprod::{safetwoproduct_branch, safetwoproduct_fma, safetwoproduct_straight, twoproduct};
pub use twosum::{fasttwosum, safetwosum_branch, safetwosum_fma, safetwosum_straight, twosum};
