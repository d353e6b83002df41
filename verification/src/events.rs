//! Event and error types exchanged between a hosted handler session and the
//! surrounding runtime.

use vstd::prelude::*;

verus! {

/// Why a session's event loop ended without failure.
#[derive(Clone, Copy, Debug, PartialEq, Eq, Structural)]
pub enum StopReason {
    /// The handler returned the stop status for itself.
    ExplicitStop,
    /// The handler returned the stop-all status.
    ExplicitStopAll,
    /// The upstream channel closed: the normal end-of-input signal.
    InputsClosed,
}

/// Side-channel fields carried with an incoming event. The trace-context
/// string is rewritten before each dispatch.
#[derive(Clone, Debug)]
pub struct EventMetadata {
    pub open_telemetry_context: String,
}

/// One event received from the upstream channel. A closed channel is a
/// distinct terminal signal and is not represented here.
#[derive(Clone, Debug)]
pub enum IncomingEvent {
    Input { input_id: String, metadata: EventMetadata, data: Vec<u8> },
}

/// The fatal ways a session can fail, before or during the event loop.
#[derive(Clone, Debug)]
pub enum SessionError {
    /// The resolved source path does not exist on disk.
    SourceNotFound { path: String },
    /// Fetching a remote source failed.
    DownloadFailed { cause: String },
    /// The module path or its file stem is not representable for the guest.
    PathNotUtf8,
    /// The resolved path has no file stem to import a module by.
    NoFileStem,
    /// Registering the module directory on the guest search path failed.
    SearchPathFailed { diagnostic: String },
    /// Importing the handler module raised, with the guest diagnostic.
    ImportFailed { diagnostic: String },
    /// The imported module has no handler entry type.
    NoHandlerType,
    /// Instantiating the handler type raised, with the guest diagnostic.
    ConstructionFailed { diagnostic: String },
    /// The handler raised inside a dispatch call.
    HandlerRaised { diagnostic: String },
    /// The handler returned an integer outside the valid status codes.
    InvalidStatusValue { value: i32 },
    /// The handler's return value exposed no extractable status integer.
    MalformedReturn { diagnostic: String },
}

/// One output emitted by the handler through the output bridge.
#[derive(Clone, Debug)]
pub struct OutputRecord {
    pub output_id: String,
    pub metadata: EventMetadata,
    pub data: Vec<u8>,
}

/// One event sent toward the host. Exactly one of `Finished`, `Error`,
/// `Aborted` is produced per session, as the last message.
#[derive(Clone, Debug)]
pub enum OutgoingEvent {
    Output(OutputRecord),
    Finished { reason: StopReason },
    Error { cause: SessionError },
    Aborted { info: String },
}

/// Rewrite an event's trace-context field before dispatch: when the tracing
/// collaborator derived a child context, its serialized form replaces the
/// field; without a tracing collaborator the field is emptied. The event's
/// identifier and payload are untouched.
pub fn rewrite_trace_context(event: &mut IncomingEvent, child_context: Option<String>)
    ensures
        *old(event) matches IncomingEvent::Input { input_id, metadata, data } ==> (*final(event)
            matches IncomingEvent::Input { input_id: id2, metadata: m2, data: d2 } && id2@
            == input_id@ && d2@ == data@ && (match child_context {
            Some(c) => m2.open_telemetry_context@ == c@,
            None => m2.open_telemetry_context@ == Seq::<char>::empty(),
        })),
{
    match event {
        IncomingEvent::Input { metadata, .. } => {
            metadata.open_telemetry_context = match child_context {
                Some(c) => c,
                None => String::new(),
            };
        },
    }
}

/// Whether an outgoing event is one of the three terminal kinds.
pub open spec fn is_terminal(e: OutgoingEvent) -> bool {
    match e {
        OutgoingEvent::Output(_) => false,
        OutgoingEvent::Finished { .. } => true,
        OutgoingEvent::Error { .. } => true,
        OutgoingEvent::Aborted { .. } => true,
    }
}

} // verus!
