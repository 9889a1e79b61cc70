use vstd::prelude::*;
use crate::dimension_supported;
use crate::error::{BridgeError, BufferId, Shape, matrix_shape, vector_shape};
use crate::marshal::{FixedMatrix, FixedVector};
use crate::output::{KernelOutput, OptimizationResult, exit_status_token, exit_token};
use crate::registry::CallbackSlot;

verus! {

/// The three marshaled inputs one kernel invocation needs.
#[derive(Debug)]
pub struct MarshaledInputs {
    pub lower: FixedVector,
    pub upper: FixedVector,
    pub hessian: FixedMatrix,
}

impl MarshaledInputs {
    /// All three inputs are well-formed for dimension `dim`.
    pub open spec fn wf_for(&self, dim: usize) -> bool {
        &&& self.lower.wf()
        &&& self.upper.wf()
        &&& self.hessian.wf()
        &&& self.lower.spec_dim() == dim
        &&& self.upper.spec_dim() == dim
        &&& self.hessian.spec_dim() == dim
    }
}

/// The verdict of the pre-kernel validation, in the order the checks run:
/// dimension first, then the lower bound's length, the upper bound's
/// length, and the Hessian's shape. `None` means every check passed.
pub open spec fn validation_verdict(
    dim: usize,
    lower_len: usize,
    upper_len: usize,
    hessian_rows: usize,
    hessian_cols: usize,
) -> Option<BridgeError> {
    if !dimension_supported(dim) {
        Some(BridgeError::UnsupportedDimension { dimension: dim })
    } else if lower_len != dim {
        Some(BridgeError::ShapeMismatch {
            buffer: BufferId::LowerBound,
            expected: vector_shape(dim),
            actual: Shape { rows: lower_len, cols: 1 },
        })
    } else if upper_len != dim {
        Some(BridgeError::ShapeMismatch {
            buffer: BufferId::UpperBound,
            expected: vector_shape(dim),
            actual: Shape { rows: upper_len, cols: 1 },
        })
    } else if hessian_rows != dim || hessian_cols != dim {
        Some(BridgeError::ShapeMismatch {
            buffer: BufferId::Hessian,
            expected: matrix_shape(dim),
            actual: Shape { rows: hessian_rows, cols: hessian_cols },
        })
    } else {
        None
    }
}

/// Validate one call's dimension and buffer shapes and marshal the
/// buffers into fixed-size form. Runs strictly before any objective
/// evaluation and never touches the callback registry, so a rejected
/// call costs zero evaluations and leaves no trace. Fails exactly as
/// `validation_verdict` says; on success every bit pattern is kept
/// unchanged.
pub fn prepare_call(
    dim: usize,
    lower_bits: Vec<u64>,
    upper_bits: Vec<u64>,
    hessian_rows: usize,
    hessian_cols: usize,
    hessian_bits: Vec<u64>,
) -> (r: Result<MarshaledInputs, BridgeError>)
    requires
        hessian_bits@.len() == hessian_rows * hessian_cols,
    ensures
        match validation_verdict(dim, lower_bits@.len() as usize, upper_bits@.len() as usize,
            hessian_rows, hessian_cols) {
            Some(e) => r == Err::<MarshaledInputs, BridgeError>(e),
            None => (r matches Ok(m) && m.wf_for(dim) && m.lower@ == lower_bits@
                && m.upper@ == upper_bits@ && m.hessian@ == hessian_bits@),
        },
{
    if !(crate::MIN_DIMENSION <= dim && dim <= crate::MAX_DIMENSION) {
        return Err(BridgeError::UnsupportedDimension { dimension: dim });
    }
    if lower_bits.len() != dim {
        return Err(BridgeError::ShapeMismatch {
            buffer: BufferId::LowerBound,
            expected: Shape { rows: dim, cols: 1 },
            actual: Shape { rows: lower_bits.len(), cols: 1 },
        });
    }
    if upper_bits.len() != dim {
        return Err(BridgeError::ShapeMismatch {
            buffer: BufferId::UpperBound,
            expected: Shape { rows: dim, cols: 1 },
            actual: Shape { rows: upper_bits.len(), cols: 1 },
        });
    }
    if hessian_rows != dim || hessian_cols != dim {
        return Err(BridgeError::ShapeMismatch {
            buffer: BufferId::Hessian,
            expected: Shape { rows: dim, cols: dim },
            actual: Shape { rows: hessian_rows, cols: hessian_cols },
        });
    }
    let lower = match FixedVector::new(dim, lower_bits) {
        Some(v) => v,
        None => vstd::pervasive::unreached(),
    };
    let upper = match FixedVector::new(dim, upper_bits) {
        Some(v) => v,
        None => vstd::pervasive::unreached(),
    };
    let hessian = match FixedMatrix::new(dim, hessian_bits) {
        Some(m) => m,
        None => vstd::pervasive::unreached(),
    };
    Ok(MarshaledInputs { lower, upper, hessian })
}

/// End one call: empty the registry slot unconditionally — whether the
/// kernel succeeded or failed — then marshal the kernel's output for the
/// host, or pass the kernel's error message on as a `KernelFailure`.
pub fn finish_call<T>(
    slot: &mut CallbackSlot<T>,
    dim: usize,
    kernel_outcome: Result<KernelOutput, String>,
) -> (r: Result<OptimizationResult, BridgeError>)
    requires
        kernel_outcome matches Ok(k) ==> k.best_point.wf() && k.best_point.spec_dim() == dim,
    ensures
        final(slot)@ is None,
        match kernel_outcome {
            Ok(k) => (r matches Ok(res) && res.best_point_bits@ == k.best_point@
                && res.best_point_bits@.len() == dim
                && res.best_value_bits == k.best_value_bits
                && res.n_evaluations == k.n_evaluations
                && res.n_local_evaluations == k.n_local_evaluations
                && res.exit_status@ == exit_token(k.exit_status)),
            Err(message) => r == Err::<OptimizationResult, BridgeError>(
                (BridgeError::KernelFailure { message }),
            ),
        },
{
    slot.clear();
    match kernel_outcome {
        Ok(k) => {
            let best_point_bits = k.best_point.to_bits();
            let exit_status = exit_status_token(&k.exit_status);
            Ok(OptimizationResult {
                best_point_bits,
                best_value_bits: k.best_value_bits,
                n_evaluations: k.n_evaluations,
                n_local_evaluations: k.n_local_evaluations,
                exit_status,
            })
        },
        Err(message) => Err(BridgeError::KernelFailure { message }),
    }
}

} // verus!
