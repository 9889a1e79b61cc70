//! A bridge between a dynamically-typed host runtime and a fixed-arity
//! numerical optimization kernel. The kernel wants a bare function
//! pointer and vectors whose dimension is fixed at compile time; the
//! host supplies the dimension at run time and the objective as an
//! arbitrary callable. This crate holds the logic that reconciles the
//! two worlds — dimension dispatch, shape validation, bit-exact array
//! marshaling, a single-slot callback registry, and the policy that
//! absorbs host-side evaluation failures into an infeasible sentinel —
//! with machine-checked contracts. Doubles are carried as their IEEE-754
//! bit patterns (`u64`), so marshaling is provably bit-identical; the
//! embedding converts at the boundary.

use vstd::prelude::*;

pub mod bridge;
pub mod error;
pub mod marshal;
pub mod outcome;
pub mod output;
pub mod registry;

verus! {

/// Smallest vector/matrix dimension the kernel is compiled for.
pub const MIN_DIMENSION: usize = 1;

/// Largest vector/matrix dimension the kernel is compiled for.
pub const MAX_DIMENSION: usize = 15;

/// A dimension is supported when the kernel has a specialization
/// compiled for exactly that size.
pub open spec fn dimension_supported(n: usize) -> bool {
    MIN_DIMENSION <= n <= MAX_DIMENSION
}

/// Runtime test matching `dimension_supported`.
pub fn is_supported_dimension(n: usize) -> (r: bool)
    ensures
        r == dimension_supported(n),
{
    MIN_DIMENSION <= n && n <= MAX_DIMENSION
}

} // verus!
