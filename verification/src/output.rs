use vstd::prelude::*;
use vstd::string::StringExecFns;
use crate::marshal::FixedVector;

verus! {

/// Why the kernel stopped: a fixed enumeration, rendered for the host as
/// one fixed token per case. The embedding maps the kernel's own exit
/// flag onto this enumeration.
#[derive(Clone, Copy, PartialEq, Eq, Structural, Debug)]
pub enum ExitStatus {
    /// The search ran to its normal completion.
    NormalShutdown,
    /// The evaluation budget was exhausted first.
    EvaluationBudgetExhausted,
    /// The sweep budget was exhausted first.
    SweepBudgetExhausted,
    /// The kernel reported a stop reason the embedding did not recognize.
    Unrecognized,
}

/// The descriptive token the host receives for each exit status.
pub open spec fn exit_token(status: ExitStatus) -> Seq<char> {
    match status {
        ExitStatus::NormalShutdown => "NormalShutdown"@,
        ExitStatus::EvaluationBudgetExhausted => "EvaluationBudgetExhausted"@,
        ExitStatus::SweepBudgetExhausted => "SweepBudgetExhausted"@,
        ExitStatus::Unrecognized => "Unrecognized"@,
    }
}

/// Render an exit status as its fixed token.
pub fn exit_status_token(status: &ExitStatus) -> (r: String)
    ensures
        r@ == exit_token(*status),
{
    match status {
        ExitStatus::NormalShutdown => String::from_str("NormalShutdown"),
        ExitStatus::EvaluationBudgetExhausted => String::from_str("EvaluationBudgetExhausted"),
        ExitStatus::SweepBudgetExhausted => String::from_str("SweepBudgetExhausted"),
        ExitStatus::Unrecognized => String::from_str("Unrecognized"),
    }
}

/// The kernel's raw output record, lifted to bit-pattern form by the
/// embedding: best point, best value, the two evaluation counters, and
/// why the search stopped.
#[derive(Debug)]
pub struct KernelOutput {
    pub best_point: FixedVector,
    pub best_value_bits: u64,
    pub n_evaluations: usize,
    pub n_local_evaluations: usize,
    pub exit_status: ExitStatus,
}

/// What the host receives back on success: the best point as a plain
/// buffer of bit patterns, the best value, the two counters, and the
/// exit status rendered as its token.
#[derive(Debug)]
pub struct OptimizationResult {
    pub best_point_bits: Vec<u64>,
    pub best_value_bits: u64,
    pub n_evaluations: usize,
    pub n_local_evaluations: usize,
    pub exit_status: String,
}

} // verus!
