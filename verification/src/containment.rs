//! Fault containment at the session boundary.
//!
//! The whole initialization-plus-loop sequence ends in exactly one of three
//! ways: it completed with a stop reason, it failed with a session error, or
//! an abort unwound out of guest code and was caught at the boundary. Each
//! of those is converted into the one terminal event the host receives.

use vstd::prelude::*;
use crate::events::{is_terminal, OutgoingEvent, OutputRecord, SessionError, StopReason};
use crate::session::{
    lemma_exactly_one_terminal, lemma_output_events_of, output_events_of, spec_outgoing,
    CycleReport,
};

verus! {

/// How the wrapped initialization-plus-loop sequence ended.
#[derive(Clone, Debug)]
pub enum BoundaryOutcome {
    /// The loop left its running state without failure.
    Completed { reason: StopReason },
    /// Initialization or a dispatch cycle failed.
    Failed { error: SessionError },
    /// An unrecoverable abort unwound out of guest code and was caught at
    /// the session boundary.
    Unwound { info: String },
}

/// The one terminal event reported to the host for a boundary outcome:
/// completion becomes `Finished`, a session error becomes `Error`, a caught
/// abort becomes `Aborted`. The result is always terminal, so a session that
/// reports through this function never ends with an `Output`.
pub fn terminal_report(outcome: BoundaryOutcome) -> (r: OutgoingEvent)
    ensures
        outcome matches BoundaryOutcome::Completed { reason } ==> r == (OutgoingEvent::Finished {
            reason,
        }),
        outcome matches BoundaryOutcome::Failed { error } ==> r == (OutgoingEvent::Error {
            cause: error,
        }),
        outcome matches BoundaryOutcome::Unwound { info } ==> r == (OutgoingEvent::Aborted {
            info,
        }),
        is_terminal(r),
{
    match outcome {
        BoundaryOutcome::Completed { reason } => OutgoingEvent::Finished { reason },
        BoundaryOutcome::Failed { error } => OutgoingEvent::Error { cause: error },
        BoundaryOutcome::Unwound { info } => OutgoingEvent::Aborted { info },
    }
}

/// Every way a whole session can unfold, seen from the outgoing channel:
/// initialization fails before any event is processed; the event loop runs
/// over the queued events; or an abort unwinds out of guest code after some
/// outputs were already emitted.
pub enum SessionRun {
    InitFailure { error: SessionError },
    Loop { reports: Seq<CycleReport> },
    AbortedDuring { emitted: Seq<OutputRecord>, info: String },
}

/// Everything a session sends on the outgoing channel, for each way it can
/// unfold.
pub open spec fn session_messages(run: SessionRun) -> Seq<OutgoingEvent> {
    match run {
        SessionRun::InitFailure { error } => seq![OutgoingEvent::Error { cause: error }],
        SessionRun::Loop { reports } => spec_outgoing(reports),
        SessionRun::AbortedDuring { emitted, info } => output_events_of(emitted) + seq![
            OutgoingEvent::Aborted { info },
        ],
    }
}

/// For all sessions — whether initialization fails, the loop runs to a
/// stop, a dispatch fails, or an abort unwinds out of guest code — exactly
/// one of `Finished`, `Error`, `Aborted` is sent on the outgoing channel,
/// and it is the last message sent.
pub proof fn lemma_session_sends_exactly_one_terminal(run: SessionRun)
    ensures
        session_messages(run).len() >= 1,
        is_terminal(session_messages(run).last()),
        forall|i: int|
            0 <= i < session_messages(run).len() - 1 ==> !is_terminal(session_messages(run)[i]),
{
    match run {
        SessionRun::InitFailure { error: _ } => {
        },
        SessionRun::Loop { reports } => {
            lemma_exactly_one_terminal(reports);
        },
        SessionRun::AbortedDuring { emitted, info: _ } => {
            lemma_output_events_of(emitted);
        },
    }
}

} // verus!
