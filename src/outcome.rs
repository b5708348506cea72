use vstd::prelude::*;

verus! {

/// A malfunction of the evaluation infrastructure, as opposed to a fault of
/// the submission. The kind is meant for operators, not for the submitter.
#[derive(Debug)]
pub enum InternalError {
    EngineUnavailable,
    ImageUnavailable,
    WorkspaceCreationFailure,
    ContainerCreationFailure,
    ContainerStartFailure,
    FailedCompilationAttach(String),
    FailedRuntimeAttach(String),
}

/// Every way an evaluation can end other than with success.
#[derive(Debug)]
pub enum RunFailure {
    CompilationError { output: Vec<String>, exit_code: i64 },
    RuntimeError { output: Vec<String>, exit_code: i64 },
    Internal(InternalError),
}

/// The result of one evaluation: the run stage's output on success.
pub type EvaluationResult = Result<Vec<String>, RunFailure>;

/// One of the two stages run inside a sandbox, in this order.
#[derive(Clone, Copy, Debug, PartialEq, Eq, Structural)]
pub enum Stage {
    Compile,
    Run,
}

/// Mathematical model of an `EvaluationResult`.
pub enum Outcome {
    Success(Seq<String>),
    CompileFailure(Seq<String>, i64),
    RuntimeFailure(Seq<String>, i64),
    InternalFailure(InternalError),
}

pub open spec fn outcome_of(r: EvaluationResult) -> Outcome {
    match r {
        Ok(output) => Outcome::Success(output@),
        Err(RunFailure::CompilationError { output, exit_code }) => Outcome::CompileFailure(
            output@,
            exit_code,
        ),
        Err(RunFailure::RuntimeError { output, exit_code }) => Outcome::RuntimeFailure(
            output@,
            exit_code,
        ),
        Err(RunFailure::Internal(kind)) => Outcome::InternalFailure(kind),
    }
}

/// What a finished stage with the given exit status and output means for the
/// evaluation: `None` when the next stage is to run, else the final outcome.
pub open spec fn stage_outcome(stage: Stage, exit_code: i64, output: Seq<String>) -> Option<
    Outcome,
> {
    match stage {
        Stage::Compile => if exit_code == 0 {
            None
        } else {
            Some(Outcome::CompileFailure(output, exit_code))
        },
        Stage::Run => if exit_code == 0 {
            Some(Outcome::Success(output))
        } else {
            Some(Outcome::RuntimeFailure(output, exit_code))
        },
    }
}

/// Classifies a finished stage: a compile stage that exited with 0 lets the
/// run stage go ahead (`None`); any other result ends the evaluation.
pub fn classify(stage: Stage, exit_code: i64, output: Vec<String>) -> (r: Option<EvaluationResult>)
    ensures
        r is None <==> stage_outcome(stage, exit_code, output@) is None,
        r matches Some(v) ==> Some(outcome_of(v)) == stage_outcome(stage, exit_code, output@),
{
    match stage {
        Stage::Compile => {
            if exit_code == 0 {
                None
            } else {
                Some(Err(RunFailure::CompilationError { output, exit_code }))
            }
        },
        Stage::Run => {
            if exit_code == 0 {
                Some(Ok(output))
            } else {
                Some(Err(RunFailure::RuntimeError { output, exit_code }))
            }
        },
    }
}

} // verus!
