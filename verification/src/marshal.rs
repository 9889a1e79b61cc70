use vstd::prelude::*;
use crate::dimension_supported;

verus! {

/// A point of exactly `dim` double-precision entries, held as IEEE-754 bit
/// patterns (`u64`) so that marshaling in and out is bit-exact. Immutable
/// once constructed.
#[derive(Debug)]
pub struct FixedVector {
    dim: usize,
    bits: Vec<u64>,
}

impl View for FixedVector {
    type V = Seq<u64>;

    closed spec fn view(&self) -> Seq<u64> {
        self.bits@
    }
}

impl FixedVector {
    /// The dimension this vector was marshaled for.
    pub closed spec fn spec_dim(&self) -> usize {
        self.dim
    }

    /// Well-formed: holds exactly `dim` entries, for a supported dimension.
    pub open spec fn wf(&self) -> bool {
        self@.len() == self.spec_dim() && dimension_supported(self.spec_dim())
    }

    pub fn dim(&self) -> (n: usize)
        ensures
            n == self.spec_dim(),
    {
        self.dim
    }

    /// Marshal a host buffer in: succeeds exactly when the buffer holds
    /// `dim` entries, and keeps every bit pattern unchanged.
    pub fn new(dim: usize, bits: Vec<u64>) -> (r: Option<FixedVector>)
        requires
            dimension_supported(dim),
        ensures
            bits@.len() == dim ==> (r matches Some(v) && v@ == bits@ && v.spec_dim() == dim
                && v.wf()),
            bits@.len() != dim ==> r is None,
    {
        if bits.len() == dim {
            Some(FixedVector { dim, bits })
        } else {
            None
        }
    }

    /// Marshal back out: the identical bit patterns, in order.
    pub fn to_bits(&self) -> (r: Vec<u64>)
        ensures
            r@ == self@,
    {
        let mut out: Vec<u64> = Vec::new();
        let mut i: usize = 0;
        while i < self.bits.len()
            invariant
                i <= self.bits@.len(),
                out@ == self.bits@.subrange(0, i as int),
            decreases self.bits@.len() - i,
        {
            out.push(self.bits[i]);
            i = i + 1;
        }
        proof {
            assert(out@ =~= self@);
        }
        out
    }
}

/// The Hessian: exactly `dim x dim` double-precision entries as bit
/// patterns, flattened in the host's native element order. Immutable once
/// constructed.
#[derive(Debug)]
pub struct FixedMatrix {
    dim: usize,
    bits: Vec<u64>,
}

impl View for FixedMatrix {
    type V = Seq<u64>;

    closed spec fn view(&self) -> Seq<u64> {
        self.bits@
    }
}

impl FixedMatrix {
    /// The dimension this matrix was marshaled for.
    pub closed spec fn spec_dim(&self) -> usize {
        self.dim
    }

    /// Well-formed: holds exactly `dim * dim` entries, for a supported
    /// dimension.
    pub open spec fn wf(&self) -> bool {
        self@.len() == self.spec_dim() * self.spec_dim()
            && dimension_supported(self.spec_dim())
    }

    pub fn dim(&self) -> (n: usize)
        ensures
            n == self.spec_dim(),
    {
        self.dim
    }

    /// Marshal a host matrix buffer in: succeeds exactly when the flat
    /// buffer holds `dim * dim` entries, and keeps every bit pattern
    /// unchanged.
    pub fn new(dim: usize, bits: Vec<u64>) -> (r: Option<FixedMatrix>)
        requires
            dimension_supported(dim),
        ensures
            bits@.len() == dim * dim ==> (r matches Some(m) && m@ == bits@
                && m.spec_dim() == dim && m.wf()),
            bits@.len() != dim * dim ==> r is None,
    {
        proof {
            assert(dim * dim <= 225) by (nonlinear_arith)
                requires
                    dim <= 15,
            ;
        }
        if bits.len() == dim * dim {
            Some(FixedMatrix { dim, bits })
        } else {
            None
        }
    }

    /// Marshal back out: the identical bit patterns, in order.
    pub fn to_bits(&self) -> (r: Vec<u64>)
        ensures
            r@ == self@,
    {
        let mut out: Vec<u64> = Vec::new();
        let mut i: usize = 0;
        while i < self.bits.len()
            invariant
                i <= self.bits@.len(),
                out@ == self.bits@.subrange(0, i as int),
            decreases self.bits@.len() - i,
        {
            out.push(self.bits[i]);
            i = i + 1;
        }
        proof {
            assert(out@ =~= self@);
        }
        out
    }
}

} // verus!
