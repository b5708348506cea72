use crate::outcome::{
    classify, outcome_of, stage_outcome, EvaluationResult, InternalError, Outcome, RunFailure,
    Stage,
};
use vstd::prelude::*;

verus! {

/// Exit status recorded for a stage that overran its deadline and was abandoned.
pub const TIMEOUT_EXIT_CODE: i64 = 124;

/// Wall-clock bound on each stage, in seconds.
pub const STAGE_DEADLINE_SECS: u64 = 30;

/// The engine operation an evaluation is waiting on.
#[derive(Clone, Copy, Debug, PartialEq, Eq, Structural)]
pub enum Phase {
    Connecting,
    PreparingWorkspace,
    CreatingSandbox,
    StartingSandbox,
    CreatingExec(Stage),
    Attaching(Stage),
    Draining(Stage),
    Inspecting(Stage),
    Closing,
    Finished,
}

/// The answer to the operation last asked for. Any answer other than the one
/// the operation calls for counts as that operation failing.
#[derive(Debug)]
pub enum Event {
    /// The operation succeeded (connect, workspace, create, start, exec, attach).
    Succeeded,
    /// The operation failed, with the engine's diagnostic.
    Failed(String),
    /// The attached stage emitted this chunk of output.
    Chunk(String),
    /// The attached stage's output stream closed.
    StreamClosed,
    /// The stage's deadline passed before its stream closed.
    DeadlineExpired,
    /// Inspection of the finished stage gave this exit status, if any.
    ExitStatus(Option<i64>),
}

/// What the driver is to do next.
#[derive(Clone, Copy, Debug, PartialEq, Eq, Structural)]
pub enum Action {
    Connect,
    PrepareWorkspace,
    CreateSandbox,
    StartSandbox,
    CreateExec(Stage),
    StartExec(Stage),
    ReadOutput(Stage),
    InspectExec(Stage),
    RemoveSandbox,
    /// The outcome is ready: take it with `Evaluation::outcome`.
    Report,
    /// Nothing is left to do.
    Idle,
}

/// Model of an `Evaluation`: its phase, the current stage's output so far, and
/// the outcome once decided.
pub struct EvaluationView {
    pub phase: Phase,
    pub output: Seq<String>,
    pub verdict: Option<Outcome>,
}

/// The decisions of one evaluation: which engine operation comes next, and
/// what each answer means.
pub struct Evaluation {
    phase: Phase,
    output: Vec<String>,
    verdict: Option<EvaluationResult>,
}

impl View for Evaluation {
    type V = EvaluationView;

    closed spec fn view(&self) -> EvaluationView {
        EvaluationView {
            phase: self.phase,
            output: self.output@,
            verdict: match self.verdict {
                Some(v) => Some(outcome_of(v)),
                None => None,
            },
        }
    }
}

pub open spec fn well_formed(s: EvaluationView) -> bool {
    &&& (s.verdict is Some <==> (s.phase is Closing || s.phase is Finished))
    &&& (!(s.phase is Draining || s.phase is Inspecting) ==> s.output.len() == 0)
}

/// The phase holds a sandbox that has been created and not yet removed.
pub open spec fn holds_sandbox(p: Phase) -> bool {
    ||| p is StartingSandbox
    ||| p is CreatingExec
    ||| p is Attaching
    ||| p is Draining
    ||| p is Inspecting
}

pub open spec fn at(p: Phase) -> EvaluationView {
    EvaluationView { phase: p, output: Seq::empty(), verdict: None }
}

pub open spec fn initial() -> EvaluationView {
    at(Phase::Connecting)
}

/// Ends the evaluation at once: no sandbox is held.
pub open spec fn finished(o: Outcome) -> (EvaluationView, Action) {
    (EvaluationView { phase: Phase::Finished, output: Seq::empty(), verdict: Some(o) }, Action::Report)
}

/// Decides the outcome and removes the sandbox before reporting it.
pub open spec fn closing(o: Outcome) -> (EvaluationView, Action) {
    (EvaluationView { phase: Phase::Closing, output: Seq::empty(), verdict: Some(o) }, Action::RemoveSandbox)
}

pub open spec fn stage_end(stage: Stage, exit_code: i64, output: Seq<String>) -> (EvaluationView, Action) {
    match stage_outcome(stage, exit_code, output) {
        None => (at(Phase::CreatingExec(Stage::Run)), Action::CreateExec(Stage::Run)),
        Some(o) => closing(o),
    }
}

pub open spec fn infra(kind: InternalError) -> Outcome {
    Outcome::InternalFailure(kind)
}

/// One transition: the next state and action, given the answer `e` to the
/// operation that state `s` waits on.
pub open spec fn next(s: EvaluationView, e: Event) -> (EvaluationView, Action) {
    match s.phase {
        Phase::Connecting => if e is Succeeded {
            (at(Phase::PreparingWorkspace), Action::PrepareWorkspace)
        } else {
            finished(infra(InternalError::EngineUnavailable))
        },
        Phase::PreparingWorkspace => if e is Succeeded {
            (at(Phase::CreatingSandbox), Action::CreateSandbox)
        } else {
            finished(infra(InternalError::WorkspaceCreationFailure))
        },
        Phase::CreatingSandbox => if e is Succeeded {
            (at(Phase::StartingSandbox), Action::StartSandbox)
        } else {
            finished(infra(InternalError::ContainerCreationFailure))
        },
        Phase::StartingSandbox => if e is Succeeded {
            (at(Phase::CreatingExec(Stage::Compile)), Action::CreateExec(Stage::Compile))
        } else {
            closing(infra(InternalError::ContainerStartFailure))
        },
        Phase::CreatingExec(st) => if e is Succeeded {
            (at(Phase::Attaching(st)), Action::StartExec(st))
        } else {
            closing(infra(InternalError::ContainerStartFailure))
        },
        Phase::Attaching(st) => if e is Succeeded {
            (at(Phase::Draining(st)), Action::ReadOutput(st))
        } else {
            closing(infra(InternalError::ContainerStartFailure))
        },
        Phase::Draining(st) => match e {
            Event::Chunk(c) => (
                EvaluationView { phase: Phase::Draining(st), output: s.output.push(c), verdict: None },
                Action::ReadOutput(st),
            ),
            Event::DeadlineExpired => stage_end(st, TIMEOUT_EXIT_CODE, s.output),
            _ => (
                EvaluationView { phase: Phase::Inspecting(st), output: s.output, verdict: None },
                Action::InspectExec(st),
            ),
        },
        Phase::Inspecting(st) => match e {
            Event::ExitStatus(Some(code)) => stage_end(st, code, s.output),
            _ => closing(infra(InternalError::ContainerStartFailure)),
        },
        Phase::Closing => (
            EvaluationView { phase: Phase::Finished, output: Seq::empty(), verdict: s.verdict },
            Action::Report,
        ),
        Phase::Finished => (s, Action::Idle),
    }
}

impl Evaluation {
    pub open spec fn wf(&self) -> bool {
        well_formed(self@)
    }

    /// A fresh evaluation, and the first operation to perform.
    pub fn begin() -> (r: (Evaluation, Action))
        ensures
            r.0@ == initial(),
            r.0.wf(),
            r.1 == Action::Connect,
    {
        (Evaluation { phase: Phase::Connecting, output: Vec::new(), verdict: None }, Action::Connect)
    }

    pub fn phase(&self) -> (r: Phase)
        ensures
            r == self@.phase,
    {
        self.phase
    }

    /// The decided outcome, once there is one.
    pub fn outcome(&self) -> (r: Option<&EvaluationResult>)
        ensures
            r is Some <==> self@.verdict is Some,
            r matches Some(v) ==> self@.verdict == Some(outcome_of(*v)),
    {
        match &self.verdict {
            Some(v) => Some(v),
            None => None,
        }
    }

    /// Takes the decided outcome, once there is one.
    pub fn into_outcome(self) -> (r: Option<EvaluationResult>)
        ensures
            r is Some <==> self@.verdict is Some,
            r matches Some(v) ==> self@.verdict == Some(outcome_of(v)),
    {
        self.verdict
    }

    fn advance(&mut self, phase: Phase, action: Action) -> (r: Action)
        ensures
            final(self)@ == at(phase),
            r == action,
    {
        self.phase = phase;
        self.output = Vec::new();
        self.verdict = None;
        action
    }

    fn settle(&mut self, result: EvaluationResult, holds: bool) -> (r: Action)
        ensures
            (final(self)@, r) == (if holds {
                closing(outcome_of(result))
            } else {
                finished(outcome_of(result))
            }),
    {
        self.phase = if holds {
            Phase::Closing
        } else {
            Phase::Finished
        };
        self.output = Vec::new();
        self.verdict = Some(result);
        if holds {
            Action::RemoveSandbox
        } else {
            Action::Report
        }
    }

    fn end_stage(&mut self, stage: Stage, exit_code: i64) -> (r: Action)
        ensures
            (final(self)@, r) == stage_end(stage, exit_code, old(self)@.output),
    {
        let mut output = Vec::new();
        std::mem::swap(&mut output, &mut self.output);
        match classify(stage, exit_code, output) {
            None => self.advance(Phase::CreatingExec(Stage::Run), Action::CreateExec(Stage::Run)),
            Some(result) => self.settle(result, true),
        }
    }

    fn internal(kind: InternalError) -> (r: EvaluationResult)
        ensures
            outcome_of(r) == infra(kind),
    {
        Err(RunFailure::Internal(kind))
    }

    /// Feeds the answer to the pending operation and returns the next one.
    pub fn step(&mut self, event: Event) -> (action: Action)
        requires
            old(self).wf(),
        ensures
            final(self).wf(),
            (final(self)@, action) == next(old(self)@, event),
    {
        match self.phase {
            Phase::Connecting => match event {
                Event::Succeeded => self.advance(Phase::PreparingWorkspace, Action::PrepareWorkspace),
                _ => self.settle(Self::internal(InternalError::EngineUnavailable), false),
            },
            Phase::PreparingWorkspace => match event {
                Event::Succeeded => self.advance(Phase::CreatingSandbox, Action::CreateSandbox),
                _ => self.settle(Self::internal(InternalError::WorkspaceCreationFailure), false),
            },
            Phase::CreatingSandbox => match event {
                Event::Succeeded => self.advance(Phase::StartingSandbox, Action::StartSandbox),
                _ => self.settle(Self::internal(InternalError::ContainerCreationFailure), false),
            },
            Phase::StartingSandbox => match event {
                Event::Succeeded => self.advance(
                    Phase::CreatingExec(Stage::Compile),
                    Action::CreateExec(Stage::Compile),
                ),
                _ => self.settle(Self::internal(InternalError::ContainerStartFailure), true),
            },
            Phase::CreatingExec(st) => match event {
                Event::Succeeded => self.advance(Phase::Attaching(st), Action::StartExec(st)),
                _ => self.settle(Self::internal(InternalError::ContainerStartFailure), true),
            },
            Phase::Attaching(st) => match event {
                Event::Succeeded => self.advance(Phase::Draining(st), Action::ReadOutput(st)),
                _ => self.settle(Self::internal(InternalError::ContainerStartFailure), true),
            },
            Phase::Draining(st) => match event {
                Event::Chunk(c) => {
                    self.output.push(c);
                    Action::ReadOutput(st)
                },
                Event::DeadlineExpired => self.end_stage(st, TIMEOUT_EXIT_CODE),
                _ => {
                    self.phase = Phase::Inspecting(st);
                    Action::InspectExec(st)
                },
            },
            Phase::Inspecting(st) => match event {
                Event::ExitStatus(Some(code)) => self.end_stage(st, code),
                _ => self.settle(Self::internal(InternalError::ContainerStartFailure), true),
            },
            Phase::Closing => {
                assert(self.output@ =~= Seq::empty());
                self.phase = Phase::Finished;
                Action::Report
            },
            Phase::Finished => Action::Idle,
        }
    }
}

/// Entry point of the evaluation core, with its configuration.
pub struct Evaluator {
    pub stage_deadline_secs: u64,
}

impl Evaluator {
    pub fn new() -> (r: Evaluator)
        ensures
            r.stage_deadline_secs == STAGE_DEADLINE_SECS,
    {
        Evaluator { stage_deadline_secs: STAGE_DEADLINE_SECS }
    }

    /// Starts the evaluation of one submission: the fresh state and the first
    /// operation to perform.
    pub fn start(&self) -> (r: (Evaluation, Action))
        ensures
            r.0@ == initial(),
            r.0.wf(),
            r.1 == Action::Connect,
    {
        Evaluation::begin()
    }
}

} // verus!
