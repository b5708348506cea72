//! What holds of whole runs of the evaluation state machine, whatever the engine answers.
use crate::evaluation::{
    holds_sandbox, initial, next, stage_end, well_formed, Action, Event, EvaluationView, Phase,
};
use crate::outcome::{InternalError, Outcome, Stage};
use vstd::prelude::*;

verus! {

/// The state reached from `s` after the answers `events`, in order.
pub open spec fn run(s: EvaluationView, events: Seq<Event>) -> EvaluationView
    decreases events.len(),
{
    if events.len() == 0 {
        s
    } else {
        run(next(s, events[0]).0, events.drop_first())
    }
}

/// How often action `a` is asked for while the answers `events` are fed from `s`.
pub open spec fn count(s: EvaluationView, events: Seq<Event>, a: Action) -> nat
    decreases events.len(),
{
    if events.len() == 0 {
        0
    } else {
        (if next(s, events[0]).1 == a {
            1nat
        } else {
            0nat
        }) + count(next(s, events[0]).0, events.drop_first(), a)
    }
}

/// The events by which an attached stage hands over these chunks of output.
pub open spec fn chunk_events(chunks: Seq<String>) -> Seq<Event> {
    chunks.map_values(|c: String| Event::Chunk(c))
}

pub open spec fn flag(b: bool) -> nat {
    if b {
        1
    } else {
        0
    }
}

/// The sandbox has been created, or creation is no longer possible.
pub open spec fn past_creation(p: Phase) -> bool {
    !(p is Connecting || p is PreparingWorkspace || p is CreatingSandbox)
}

proof fn lemma_step_accounting(s: EvaluationView, e: Event)
    requires
        well_formed(s),
    ensures
        well_formed(next(s, e).0),
        flag(holds_sandbox(next(s, e).0.phase)) + flag(next(s, e).1 == Action::RemoveSandbox)
            == flag(holds_sandbox(s.phase)) + flag(next(s, e).1 == Action::StartSandbox),
        flag(next(s, e).0.phase is Finished) == flag(s.phase is Finished) + flag(
            next(s, e).1 == Action::Report,
        ),
        flag(next(s, e).1 == Action::StartSandbox) + flag(past_creation(s.phase)) <= flag(
            past_creation(next(s, e).0.phase),
        ),
{
}

proof fn lemma_trace_accounting(s: EvaluationView, events: Seq<Event>)
    requires
        well_formed(s),
    ensures
        well_formed(run(s, events)),
        count(s, events, Action::RemoveSandbox) + flag(holds_sandbox(run(s, events).phase))
            == count(s, events, Action::StartSandbox) + flag(holds_sandbox(s.phase)),
        count(s, events, Action::Report) + flag(s.phase is Finished) == flag(
            run(s, events).phase is Finished,
        ),
        count(s, events, Action::StartSandbox) + flag(past_creation(s.phase)) <= flag(
            past_creation(run(s, events).phase),
        ),
    decreases events.len(),
{
    if events.len() > 0 {
        lemma_step_accounting(s, events[0]);
        lemma_trace_accounting(next(s, events[0]).0, events.drop_first());
    }
}

/// Feeding answers to a finished evaluation changes nothing and asks for
/// nothing but `Idle`.
pub proof fn lemma_finished_stays(s: EvaluationView, events: Seq<Event>, a: Action)
    requires
        s.phase is Finished,
        a != Action::Idle,
    ensures
        run(s, events) == s,
        count(s, events, a) == 0,
    decreases events.len(),
{
    if events.len() > 0 {
        lemma_finished_stays(next(s, events[0]).0, events.drop_first(), a);
    }
}

/// Running two sequences of answers one after the other is running their
/// concatenation.
pub proof fn lemma_run_concat(s: EvaluationView, a: Seq<Event>, b: Seq<Event>)
    ensures
        run(s, a + b) == run(run(s, a), b),
    decreases a.len(),
{
    if a.len() == 0 {
        assert(a + b =~= b);
    } else {
        assert((a + b).drop_first() =~= a.drop_first() + b);
        lemma_run_concat(next(s, a[0]).0, a.drop_first(), b);
    }
}

/// Whatever the engine answers, an evaluation reports its outcome at most once
/// and opens at most one sandbox. Once it has finished, it has reported exactly
/// one outcome and has asked for the removal of every sandbox it opened.
pub proof fn lemma_one_outcome_no_leaked_sandbox(events: Seq<Event>)
    ensures
        count(initial(), events, Action::Report) <= 1,
        count(initial(), events, Action::StartSandbox) <= 1,
        run(initial(), events).phase is Finished ==> {
            &&& count(initial(), events, Action::Report) == 1
            &&& count(initial(), events, Action::RemoveSandbox) == count(
                initial(),
                events,
                Action::StartSandbox,
            )
            &&& run(initial(), events).verdict is Some
        },
{
    lemma_trace_accounting(initial(), events);
}

/// Position of a phase in the order an evaluation goes through; it never
/// decreases.
pub open spec fn rank(p: Phase) -> nat {
    match p {
        Phase::Connecting => 0,
        Phase::PreparingWorkspace => 1,
        Phase::CreatingSandbox => 2,
        Phase::StartingSandbox => 3,
        Phase::CreatingExec(Stage::Compile) => 4,
        Phase::Attaching(Stage::Compile) => 5,
        Phase::Draining(Stage::Compile) => 6,
        Phase::Inspecting(Stage::Compile) => 7,
        Phase::CreatingExec(Stage::Run) => 8,
        Phase::Attaching(Stage::Run) => 9,
        Phase::Draining(Stage::Run) => 10,
        Phase::Inspecting(Stage::Run) => 11,
        Phase::Closing => 12,
        Phase::Finished => 13,
    }
}

/// The rank of the phase that asking for `a` enters; none for reading output,
/// which repeats, and for `Idle`.
pub open spec fn entry_rank(a: Action) -> Option<nat> {
    match a {
        Action::Connect => Some(0),
        Action::PrepareWorkspace => Some(1),
        Action::CreateSandbox => Some(2),
        Action::StartSandbox => Some(3),
        Action::CreateExec(Stage::Compile) => Some(4),
        Action::StartExec(Stage::Compile) => Some(5),
        Action::InspectExec(Stage::Compile) => Some(7),
        Action::CreateExec(Stage::Run) => Some(8),
        Action::StartExec(Stage::Run) => Some(9),
        Action::InspectExec(Stage::Run) => Some(11),
        Action::RemoveSandbox => Some(12),
        Action::Report => Some(13),
        Action::ReadOutput(_) => None,
        Action::Idle => None,
    }
}

proof fn lemma_step_rank(s: EvaluationView, e: Event, a: Action, r: nat)
    requires
        entry_rank(a) == Some(r),
    ensures
        rank(s.phase) <= rank(next(s, e).0.phase),
        flag(next(s, e).1 == a) + flag(rank(s.phase) >= r) <= flag(
            rank(next(s, e).0.phase) >= r,
        ),
{
}

proof fn lemma_trace_rank(s: EvaluationView, events: Seq<Event>, a: Action, r: nat)
    requires
        entry_rank(a) == Some(r),
    ensures
        rank(s.phase) <= rank(run(s, events).phase),
        count(s, events, a) + flag(rank(s.phase) >= r) <= flag(rank(run(s, events).phase) >= r),
    decreases events.len(),
{
    if events.len() > 0 {
        lemma_step_rank(s, events[0], a, r);
        lemma_trace_rank(next(s, events[0]).0, events.drop_first(), a, r);
    }
}

/// Every engine operation but reading output is asked for at most once in an
/// evaluation, whatever the engine answers: a sandbox is created, started and
/// removed at most once, each stage's exec is created, started and inspected
/// at most once, and no operation is retried after it fails. Connecting, the
/// first operation, is never asked for again.
pub proof fn lemma_each_operation_at_most_once(events: Seq<Event>, a: Action)
    requires
        !(a is ReadOutput),
        a != Action::Idle,
    ensures
        count(initial(), events, a) <= 1,
        a == Action::Connect ==> count(initial(), events, a) == 0,
{
    let r = entry_rank(a)->0;
    lemma_trace_rank(initial(), events, a, r);
}

/// The run stage is asked for only when the compile stage's exit status was
/// 0. A compile stage that exits with any other status ends the evaluation with
/// a compile failure that carries its output and that status, and the sandbox
/// is removed.
pub proof fn lemma_run_needs_clean_compile(s: EvaluationView, e: Event)
    ensures
        next(s, e).1 == Action::CreateExec(Stage::Run) ==> s.phase == Phase::Inspecting(
            Stage::Compile,
        ) && e == Event::ExitStatus(Some(0)),
        forall|code: i64|
            s.phase == Phase::Inspecting(Stage::Compile) && e == Event::ExitStatus(Some(code))
                && code != 0 ==> next(s, e) == (
                EvaluationView {
                    phase: Phase::Closing,
                    output: Seq::empty(),
                    verdict: Some(Outcome::CompileFailure(s.output, code)),
                },
                Action::RemoveSandbox,
            ),
{
}

/// The chunks of output of one stage are kept in the order the engine emitted
/// them, and that output is what the stage's outcome carries.
pub proof fn lemma_chunks_kept_in_order(s: EvaluationView, stage: Stage, chunks: Seq<String>)
    requires
        s.phase == Phase::Draining(stage),
        s.verdict is None,
    ensures
        run(s, chunk_events(chunks)) == (EvaluationView {
            phase: Phase::Draining(stage),
            output: s.output + chunks,
            verdict: None,
        }),
        count(s, chunk_events(chunks), Action::ReadOutput(stage)) == chunks.len(),
        forall|code: i64|
            run(s, chunk_events(chunks) + seq![Event::StreamClosed, Event::ExitStatus(Some(code))])
                == stage_end(stage, code, s.output + chunks).0,
    decreases chunks.len(),
{
    let events = chunk_events(chunks);
    if chunks.len() == 0 {
        assert(s.output + chunks =~= s.output);
        assert(events =~= Seq::<Event>::empty());
    } else {
        let t = next(s, events[0]).0;
        assert(events.drop_first() =~= chunk_events(chunks.drop_first()));
        lemma_chunks_kept_in_order(t, stage, chunks.drop_first());
        assert(t.output + chunks.drop_first() =~= s.output + chunks);
    }
    let drained = EvaluationView {
        phase: Phase::Draining(stage),
        output: s.output + chunks,
        verdict: None,
    };
    assert(run(s, events) == drained);
    assert forall|code: i64|
        run(s, events + seq![Event::StreamClosed, Event::ExitStatus(Some(code))]) == stage_end(
            stage,
            code,
            s.output + chunks,
        ).0 by {
        let tail = seq![Event::StreamClosed, Event::ExitStatus(Some(code))];
        lemma_run_concat(s, events, tail);
        let d = run(s, events);
        let i = next(d, Event::StreamClosed).0;
        assert(tail.drop_first() =~= seq![Event::ExitStatus(Some(code))]);
        assert(tail.drop_first().drop_first() =~= Seq::<Event>::empty());
        assert(run(d, tail) == run(i, tail.drop_first()));
        let rest = tail.drop_first();
        assert(run(i, rest) == run(next(i, rest[0]).0, rest.drop_first()));
    }
}

/// If connecting to the engine fails, the evaluation ends with an
/// engine-unavailable internal failure and never asks for a sandbox, whatever
/// is answered afterwards.
pub proof fn lemma_connect_failure(events: Seq<Event>)
    requires
        events.len() > 0,
        !(events[0] is Succeeded),
    ensures
        run(initial(), events).phase is Finished,
        run(initial(), events).verdict == Some(Outcome::InternalFailure(InternalError::EngineUnavailable)),
        count(initial(), events, Action::CreateSandbox) == 0,
        count(initial(), events, Action::StartSandbox) == 0,
        count(initial(), events, Action::Report) == 1,
{
    let t = next(initial(), events[0]).0;
    lemma_finished_stays(t, events.drop_first(), Action::CreateSandbox);
    lemma_finished_stays(t, events.drop_first(), Action::StartSandbox);
    lemma_finished_stays(t, events.drop_first(), Action::Report);
}

} // verus!
