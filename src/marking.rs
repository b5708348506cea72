//! What a marked answer shows its submitter.
use crate::outcome::{EvaluationResult, RunFailure};
use vstd::prelude::*;

verus! {

/// The form by which an answer is submitted.
pub struct MarkQuestionFormBody {
    pub answer: String,
}

pub const SUCCESS_LABEL: &'static str = "success";

pub const INTERNAL_ERROR_LABEL: &'static str = "internal_error";

pub const COMPILE_FAILURE_LABEL: &'static str = "compile_failure";

pub const RUNTIME_FAILURE_LABEL: &'static str = "runtime_failure";

/// Shown in place of an infrastructure failure, whose kind is for operators.
pub const UNAVAILABLE_MESSAGE: &'static str = "The marking service is currently unavailable.";

pub open spec fn label_of(r: EvaluationResult) -> &'static str {
    match r {
        Ok(_) => SUCCESS_LABEL,
        Err(RunFailure::Internal(_)) => INTERNAL_ERROR_LABEL,
        Err(RunFailure::CompilationError { .. }) => COMPILE_FAILURE_LABEL,
        Err(RunFailure::RuntimeError { .. }) => RUNTIME_FAILURE_LABEL,
    }
}

/// The kind of result shown for an evaluation.
pub fn result_label(r: &EvaluationResult) -> (label: &'static str)
    ensures
        label == label_of(*r),
{
    match r {
        Ok(_) => SUCCESS_LABEL,
        Err(RunFailure::Internal(_)) => INTERNAL_ERROR_LABEL,
        Err(RunFailure::CompilationError { .. }) => COMPILE_FAILURE_LABEL,
        Err(RunFailure::RuntimeError { .. }) => RUNTIME_FAILURE_LABEL,
    }
}

} // verus!
