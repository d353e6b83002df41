//! The per-event dispatch cycle and the session's terminal outcome.
//!
//! Each cycle dispatches one incoming event to the handler; what the handler
//! did is summarized as a [`HandlerOutcome`]. The loop stays in
//! [`SessionState::Running`] while the handler keeps returning the continue
//! status, and leaves it on an explicit stop, on a closed upstream channel,
//! or on a fatal dispatch error.
//!
//! The module also gives the session a mathematical model: a session is
//! described by the sequence of cycle reports the handler would produce for
//! the queued events, and spec functions derive from it how many events are
//! dispatched, which events go out, and which terminal event ends the
//! session. The proof functions at the end state the session-level laws over
//! that model.

use vstd::prelude::*;
use crate::events::{is_terminal, OutgoingEvent, OutputRecord, SessionError, StopReason};
use crate::status::{status_decision, StatusDecision};

verus! {

/// What one handler invocation did, as seen from the host.
#[derive(Clone, Debug)]
pub enum HandlerOutcome {
    /// The call returned a value exposing the given status integer.
    Returned { value: i32 },
    /// The call raised; the diagnostic carries the guest error text and any
    /// available trace text.
    Raised { diagnostic: String },
    /// The call returned, but no status integer could be extracted from the
    /// returned value.
    NoStatus { diagnostic: String },
}

/// The loop's state after interpreting one handler outcome.
#[derive(Clone, Debug)]
pub enum SessionState {
    /// Keep receiving events.
    Running,
    /// The loop ended without failure.
    Stopped { reason: StopReason },
    /// The loop ended with a fatal dispatch error.
    Failed { error: SessionError },
}

/// The state the loop enters after one dispatch with the given outcome.
pub open spec fn step_state(outcome: HandlerOutcome) -> SessionState {
    match outcome {
        HandlerOutcome::Returned { value } => match status_decision(value) {
            StatusDecision::Continue => SessionState::Running,
            StatusDecision::Stop { reason } => SessionState::Stopped { reason },
            StatusDecision::Invalid { value } => SessionState::Failed {
                error: SessionError::InvalidStatusValue { value },
            },
        },
        HandlerOutcome::Raised { diagnostic } => SessionState::Failed {
            error: SessionError::HandlerRaised { diagnostic },
        },
        HandlerOutcome::NoStatus { diagnostic } => SessionState::Failed {
            error: SessionError::MalformedReturn { diagnostic },
        },
    }
}

/// Interpret one handler outcome: a returned status is resolved against the
/// three valid codes, a raised exception and a malformed return value are
/// fatal dispatch errors.
pub fn step(outcome: HandlerOutcome) -> (r: SessionState)
    ensures
        r == step_state(outcome),
        outcome matches HandlerOutcome::Returned { value } && value == 0 ==> r
            == SessionState::Running,
        outcome matches HandlerOutcome::Returned { value } && value == 1 ==> r == (
        SessionState::Stopped { reason: StopReason::ExplicitStop }),
        outcome matches HandlerOutcome::Returned { value } && value == 2 ==> r == (
        SessionState::Stopped { reason: StopReason::ExplicitStopAll }),
        outcome matches HandlerOutcome::Returned { value } ==> (!(0 <= value <= 2) ==> r == (
        SessionState::Failed { error: SessionError::InvalidStatusValue { value } })),
        outcome matches HandlerOutcome::Raised { diagnostic } ==> r == (SessionState::Failed {
            error: SessionError::HandlerRaised { diagnostic },
        }),
        outcome matches HandlerOutcome::NoStatus { diagnostic } ==> r == (SessionState::Failed {
            error: SessionError::MalformedReturn { diagnostic },
        }),
{
    match outcome {
        HandlerOutcome::Returned { value } => match crate::status::interpret_status(value) {
            StatusDecision::Continue => SessionState::Running,
            StatusDecision::Stop { reason } => SessionState::Stopped { reason },
            StatusDecision::Invalid { value } => SessionState::Failed {
                error: SessionError::InvalidStatusValue { value },
            },
        },
        HandlerOutcome::Raised { diagnostic } => SessionState::Failed {
            error: SessionError::HandlerRaised { diagnostic },
        },
        HandlerOutcome::NoStatus { diagnostic } => SessionState::Failed {
            error: SessionError::MalformedReturn { diagnostic },
        },
    }
}

/// Everything one dispatched cycle produced: the outputs the handler emitted
/// through the output bridge while handling the event, and how the call
/// ended.
#[derive(Clone, Debug)]
pub struct CycleReport {
    pub outputs: Vec<OutputRecord>,
    pub outcome: HandlerOutcome,
}

/// Whether the loop stays running after this cycle.
pub open spec fn cycle_continues(report: CycleReport) -> bool {
    step_state(report.outcome) == SessionState::Running
}

/// The outgoing events for the outputs of one cycle, in emission order.
pub open spec fn output_events_of(outputs: Seq<OutputRecord>) -> Seq<OutgoingEvent>
    decreases outputs.len(),
{
    if outputs.len() == 0 {
        Seq::empty()
    } else {
        seq![OutgoingEvent::Output(outputs[0])] + output_events_of(outputs.skip(1))
    }
}

/// How many events the session dispatches when the queued events would
/// produce the given cycle reports: every cycle up to and including the
/// first non-continuing one, or all of them if the channel closes first.
pub open spec fn spec_dispatched(reports: Seq<CycleReport>) -> nat
    decreases reports.len(),
{
    if reports.len() == 0 {
        0
    } else if cycle_continues(reports[0]) {
        1 + spec_dispatched(reports.skip(1))
    } else {
        1
    }
}

/// The terminal event the session ends with: `Finished { InputsClosed }` if
/// the channel closes while running, otherwise determined by the first
/// non-continuing cycle.
pub open spec fn spec_terminal(reports: Seq<CycleReport>) -> OutgoingEvent
    decreases reports.len(),
{
    if reports.len() == 0 {
        OutgoingEvent::Finished { reason: StopReason::InputsClosed }
    } else {
        match step_state(reports[0].outcome) {
            SessionState::Running => spec_terminal(reports.skip(1)),
            SessionState::Stopped { reason } => OutgoingEvent::Finished { reason },
            SessionState::Failed { error } => OutgoingEvent::Error { cause: error },
        }
    }
}

/// Every event the session sends on the outgoing channel, in order: the
/// outputs of each dispatched cycle, then the one terminal event.
pub open spec fn spec_outgoing(reports: Seq<CycleReport>) -> Seq<OutgoingEvent>
    decreases reports.len(),
{
    if reports.len() == 0 {
        seq![spec_terminal(reports)]
    } else if cycle_continues(reports[0]) {
        output_events_of(reports[0].outputs@) + spec_outgoing(reports.skip(1))
    } else {
        output_events_of(reports[0].outputs@) + seq![spec_terminal(reports)]
    }
}

/// The outputs of one cycle map one-to-one, in order, onto `Output` events:
/// each emitted output produces exactly one outgoing event, holding that
/// record unchanged.
pub proof fn lemma_output_events_of(outputs: Seq<OutputRecord>)
    ensures
        output_events_of(outputs).len() == outputs.len(),
        forall|i: int|
            0 <= i < outputs.len() ==> output_events_of(outputs)[i] == OutgoingEvent::Output(
                outputs[i],
            ),
    decreases outputs.len(),
{
    if outputs.len() > 0 {
        lemma_output_events_of(outputs.skip(1));
    }
}

/// A session never dispatches more cycles than there are queued events.
pub proof fn lemma_dispatched_le_len(reports: Seq<CycleReport>)
    ensures
        spec_dispatched(reports) <= reports.len(),
    decreases reports.len(),
{
    if reports.len() > 0 && cycle_continues(reports[0]) {
        lemma_dispatched_le_len(reports.skip(1));
    }
}

/// Exactly one of `Finished`, `Error`, `Aborted` is sent per session, and it
/// is the last message: every earlier outgoing event is an `Output`.
pub proof fn lemma_exactly_one_terminal(reports: Seq<CycleReport>)
    ensures
        spec_outgoing(reports).len() >= 1,
        spec_outgoing(reports).last() == spec_terminal(reports),
        is_terminal(spec_terminal(reports)),
        forall|i: int|
            0 <= i < spec_outgoing(reports).len() - 1 ==> !is_terminal(spec_outgoing(reports)[i]),
    decreases reports.len(),
{
    if reports.len() == 0 {
    } else {
        lemma_output_events_of(reports[0].outputs@);
        if cycle_continues(reports[0]) {
            lemma_exactly_one_terminal(reports.skip(1));
        }
    }
}

/// A session whose upstream channel closes before any event arrives sends
/// `Finished { InputsClosed }` as its only message and dispatches nothing.
pub proof fn lemma_closed_before_first_event(reports: Seq<CycleReport>)
    requires
        reports.len() == 0,
    ensures
        spec_dispatched(reports) == 0,
        spec_outgoing(reports) =~= seq![
            OutgoingEvent::Finished { reason: StopReason::InputsClosed },
        ],
{
}

/// A handler that raises while handling the event of cycle `k` ends the
/// session on that same cycle: exactly `k + 1` events are dispatched, and
/// the terminal event is an `Error` carrying the guest diagnostic.
pub proof fn lemma_raise_ends_session(reports: Seq<CycleReport>, k: int, diagnostic: String)
    requires
        0 <= k < reports.len(),
        forall|i: int| 0 <= i < k ==> cycle_continues(#[trigger] reports[i]),
        reports[k].outcome == (HandlerOutcome::Raised { diagnostic }),
    ensures
        spec_dispatched(reports) == k + 1,
        spec_terminal(reports) == (OutgoingEvent::Error {
            cause: SessionError::HandlerRaised { diagnostic },
        }),
    decreases k,
{
    if k > 0 {
        lemma_raise_ends_session(reports.skip(1), k - 1, diagnostic);
    }
}

/// The status integer returned on cycle `k` decides the session, provided
/// every earlier cycle continued: 0 dispatches past cycle `k`; 1 and 2 end
/// the session there with `Finished`; any other value ends it there with an
/// `Error`.
pub proof fn lemma_status_decides_session(reports: Seq<CycleReport>, k: int, value: i32)
    requires
        0 <= k < reports.len(),
        forall|i: int| 0 <= i < k ==> cycle_continues(#[trigger] reports[i]),
        reports[k].outcome == (HandlerOutcome::Returned { value }),
    ensures
        value == 0 ==> spec_dispatched(reports) >= k + 2 || spec_dispatched(reports) == reports.len(),
        value == 1 ==> spec_dispatched(reports) == k + 1 && spec_terminal(reports) == (
        OutgoingEvent::Finished { reason: StopReason::ExplicitStop }),
        value == 2 ==> spec_dispatched(reports) == k + 1 && spec_terminal(reports) == (
        OutgoingEvent::Finished { reason: StopReason::ExplicitStopAll }),
        !(0 <= value <= 2) ==> spec_dispatched(reports) == k + 1 && spec_terminal(reports) == (
        OutgoingEvent::Error { cause: SessionError::InvalidStatusValue { value } }),
    decreases k,
{
    if k > 0 {
        lemma_status_decides_session(reports.skip(1), k - 1, value);
    } else {
        if value == 0 {
            lemma_dispatched_le_len(reports);
            if reports.len() > 1 {
                lemma_dispatched_at_least_one(reports.skip(1));
            }
        }
    }
}

/// How many `Output` events the first `k` cycles emit in total.
pub open spec fn emitted_before(reports: Seq<CycleReport>, k: int) -> nat
    decreases k,
{
    if k <= 0 || reports.len() == 0 {
        0
    } else {
        reports[0].outputs@.len() + emitted_before(reports.skip(1), k - 1)
    }
}

/// Every output the handler emits while handling the event of cycle `k`
/// produces exactly one `Output` event on the outgoing channel, at a
/// position fixed by the outputs emitted before it, holding the record —
/// identifier, metadata and payload bytes — unchanged.
pub proof fn lemma_outputs_in_session(reports: Seq<CycleReport>, k: int, j: int)
    requires
        0 <= k < reports.len(),
        forall|i: int| 0 <= i < k ==> cycle_continues(#[trigger] reports[i]),
        0 <= j < reports[k].outputs@.len(),
    ensures
        emitted_before(reports, k) + j < spec_outgoing(reports).len(),
        spec_outgoing(reports)[emitted_before(reports, k) + j] == OutgoingEvent::Output(
            reports[k].outputs@[j],
        ),
    decreases k,
{
    lemma_output_events_of(reports[0].outputs@);
    if k == 0 {
        if cycle_continues(reports[0]) {
            lemma_exactly_one_terminal(reports.skip(1));
        }
    } else {
        lemma_outputs_in_session(reports.skip(1), k - 1, j);
    }
}

/// A session with at least one queued event dispatches at least one cycle.
pub proof fn lemma_dispatched_at_least_one(reports: Seq<CycleReport>)
    requires
        reports.len() > 0,
    ensures
        spec_dispatched(reports) >= 1,
{
}

/// Turn the outputs of one cycle into outgoing events, in emission order.
pub fn output_events(outputs: Vec<OutputRecord>) -> (r: Vec<OutgoingEvent>)
    ensures
        r@ == output_events_of(outputs@),
    decreases outputs@.len(),
{
    let ghost orig = outputs@;
    let mut outputs = outputs;
    if outputs.len() == 0 {
        Vec::new()
    } else {
        let first = outputs.remove(0);
        proof {
            assert(outputs@ =~= orig.skip(1));
        }
        let mut rest = output_events(outputs);
        let mut r: Vec<OutgoingEvent> = Vec::new();
        r.push(OutgoingEvent::Output(first));
        r.append(&mut rest);
        proof {
            assert(r@ =~= output_events_of(orig));
        }
        r
    }
}

/// Run a whole session over the cycle reports the queued events would
/// produce: returns every outgoing event in order, and how many events were
/// dispatched.
pub fn run_session(reports: Vec<CycleReport>) -> (r: (Vec<OutgoingEvent>, usize))
    ensures
        r.0@ == spec_outgoing(reports@),
        r.1 == spec_dispatched(reports@),
    decreases reports@.len(),
{
    let ghost orig = reports@;
    let mut reports = reports;
    if reports.len() == 0 {
        let mut out: Vec<OutgoingEvent> = Vec::new();
        out.push(OutgoingEvent::Finished { reason: StopReason::InputsClosed });
        proof {
            assert(out@ =~= spec_outgoing(orig));
        }
        (out, 0)
    } else {
        let first = reports.remove(0);
        proof {
            assert(reports@ =~= orig.skip(1));
        }
        let CycleReport { outputs, outcome } = first;
        let mut out = output_events(outputs);
        match step(outcome) {
            SessionState::Running => {
                let (mut rest_out, rest_n) = run_session(reports);
                proof {
                    lemma_dispatched_le_len(orig.skip(1));
                }
                out.append(&mut rest_out);
                proof {
                    assert(out@ =~= spec_outgoing(orig));
                }
                (out, 1 + rest_n)
            },
            SessionState::Stopped { reason } => {
                out.push(OutgoingEvent::Finished { reason });
                proof {
                    assert(out@ =~= spec_outgoing(orig));
                }
                (out, 1)
            },
            SessionState::Failed { error } => {
                out.push(OutgoingEvent::Error { cause: error });
                proof {
                    assert(out@ =~= spec_outgoing(orig));
                }
                (out, 1)
            },
        }
    }
}

} // verus!
