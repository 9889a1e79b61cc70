use vstd::prelude::*;

verus! {

/// Which host buffer a shape complaint is about.
#[derive(Clone, Copy, PartialEq, Eq, Structural, Debug)]
pub enum BufferId {
    LowerBound,
    UpperBound,
    Hessian,
}

/// The shape of a host buffer: a bound vector is `len x 1`, the Hessian
/// `rows x cols`.
#[derive(Clone, Copy, PartialEq, Eq, Structural, Debug)]
pub struct Shape {
    pub rows: usize,
    pub cols: usize,
}

/// Everything that can make a call fail as a whole. Evaluation failures
/// inside the trampoline are deliberately absent from this list: they are
/// absorbed into the infeasible sentinel and never surface as call errors.
#[derive(Debug)]
pub enum BridgeError {
    /// The requested dimension has no compiled kernel specialization.
    UnsupportedDimension { dimension: usize },
    /// One of the three input buffers does not match the selected dimension.
    ShapeMismatch { buffer: BufferId, expected: Shape, actual: Shape },
    /// The kernel itself reported an error; its message is passed on verbatim.
    KernelFailure { message: String },
}

/// The shape a bound vector must have for dimension `dim`.
pub open spec fn vector_shape(dim: usize) -> Shape {
    Shape { rows: dim, cols: 1 }
}

/// The shape the Hessian must have for dimension `dim`.
pub open spec fn matrix_shape(dim: usize) -> Shape {
    Shape { rows: dim, cols: dim }
}

} // verus!
