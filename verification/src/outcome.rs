use vstd::prelude::*;

verus! {

/// Bit pattern of IEEE-754 double-precision positive infinity: the
/// sentinel the kernel receives for a point that could not be evaluated.
/// The kernel treats it as an ordinary, maximally unfavorable value.
pub const INFEASIBLE_BITS: u64 = 0x7FF0000000000000;

/// Mask of the exponent bits of an IEEE-754 double. A pattern whose
/// exponent bits are all ones encodes an infinity or a NaN; every other
/// pattern encodes a finite value.
pub const EXPONENT_MASK: u64 = 0x7FF0000000000000;

/// Whether `b` is the bit pattern of a finite double.
pub open spec fn finite_bits(b: u64) -> bool {
    b & EXPONENT_MASK != EXPONENT_MASK
}

/// What one attempt to evaluate the host objective at a point came to.
/// The embedding classifies the raw host interaction into one of these;
/// the verified policy below decides the numeric value the kernel sees.
pub enum HostEvaluation {
    /// The callable returned a value that reads as a double; its bit
    /// pattern. Only a finite one survives absorption unchanged.
    Value(u64),
    /// The callable could not be invoked, or raised.
    CallFailed,
    /// The callable returned, but its result could not be read as a double.
    NotNumeric,
    /// No callable was registered: a defensive fallback that correct call
    /// discipline never reaches.
    NoCallable,
}

/// The failure-absorption policy: a returned finite double passes through
/// bit-identically; every failure, and every non-finite result (a NaN or
/// an infinity), becomes the infeasible sentinel. An evaluation outcome
/// is thus always either a finite value or the sentinel.
pub open spec fn absorbed_value(reply: HostEvaluation) -> u64 {
    match reply {
        HostEvaluation::Value(b) => if finite_bits(b) {
            b
        } else {
            INFEASIBLE_BITS
        },
        HostEvaluation::CallFailed => INFEASIBLE_BITS,
        HostEvaluation::NotNumeric => INFEASIBLE_BITS,
        HostEvaluation::NoCallable => INFEASIBLE_BITS,
    }
}

/// Law: the kernel only ever sees either a finite value the host itself
/// returned, bit for bit, or the infeasible sentinel. A failure or a
/// non-finite result is converted to data, never propagated, so it
/// cannot fail the call as a whole.
pub proof fn lemma_absorption_is_total(reply: HostEvaluation)
    ensures
        (reply matches HostEvaluation::Value(b) && finite_bits(b) && absorbed_value(reply) == b)
            || absorbed_value(reply) == INFEASIBLE_BITS,
{
}

/// The value the trampoline hands the kernel for one evaluation. Failures
/// and non-finite results are converted to data — the infeasible sentinel
/// — rather than propagated, so a host-side failure never aborts the
/// kernel's search.
pub fn evaluation_value(reply: &HostEvaluation) -> (r: u64)
    ensures
        r == absorbed_value(*reply),
{
    match reply {
        HostEvaluation::Value(b) => {
            if *b & EXPONENT_MASK != EXPONENT_MASK {
                *b
            } else {
                INFEASIBLE_BITS
            }
        },
        HostEvaluation::CallFailed => INFEASIBLE_BITS,
        HostEvaluation::NotNumeric => INFEASIBLE_BITS,
        HostEvaluation::NoCallable => INFEASIBLE_BITS,
    }
}

} // verus!
