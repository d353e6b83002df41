use operator_host::containment::{terminal_report, BoundaryOutcome};
use operator_host::events::{
    EventMetadata, IncomingEvent, OutgoingEvent, OutputRecord, SessionError, StopReason,
};
use operator_host::session::{run_session, step, CycleReport, HandlerOutcome, SessionState};
use operator_host::status::{interpret_status, StatusDecision};

fn meta(cx: &str) -> EventMetadata {
    EventMetadata { open_telemetry_context: cx.to_string() }
}

fn record(id: &str, data: &[u8]) -> OutputRecord {
    OutputRecord { output_id: id.to_string(), metadata: meta(""), data: data.to_vec() }
}

fn continue_cycle(outputs: Vec<OutputRecord>) -> CycleReport {
    CycleReport { outputs, outcome: HandlerOutcome::Returned { value: 0 } }
}

#[test]
fn status_zero_continues() {
    assert!(matches!(interpret_status(0), StatusDecision::Continue));
    assert!(matches!(
        step(HandlerOutcome::Returned { value: 0 }),
        SessionState::Running
    ));
}

#[test]
fn status_one_stops() {
    assert!(matches!(
        interpret_status(1),
        StatusDecision::Stop { reason: StopReason::ExplicitStop }
    ));
    assert!(matches!(
        step(HandlerOutcome::Returned { value: 1 }),
        SessionState::Stopped { reason: StopReason::ExplicitStop }
    ));
}

#[test]
fn status_two_stops_all() {
    assert!(matches!(
        interpret_status(2),
        StatusDecision::Stop { reason: StopReason::ExplicitStopAll }
    ));
    assert!(matches!(
        step(HandlerOutcome::Returned { value: 2 }),
        SessionState::Stopped { reason: StopReason::ExplicitStopAll }
    ));
}

#[test]
fn status_other_integers_are_invalid() {
    assert!(matches!(interpret_status(3), StatusDecision::Invalid { value: 3 }));
    assert!(matches!(interpret_status(-1), StatusDecision::Invalid { value: -1 }));
    match step(HandlerOutcome::Returned { value: 7 }) {
        SessionState::Failed { error: SessionError::InvalidStatusValue { value } } => {
            assert_eq!(value, 7);
        }
        other => panic!("unexpected state: {:?}", other),
    }
}

#[test]
fn non_numeric_return_is_error() {
    match step(HandlerOutcome::NoStatus { diagnostic: "no value field".to_string() }) {
        SessionState::Failed { error: SessionError::MalformedReturn { diagnostic } } => {
            assert_eq!(diagnostic, "no value field");
        }
        other => panic!("unexpected state: {:?}", other),
    }
}

#[test]
fn raise_is_error() {
    match step(HandlerOutcome::Raised { diagnostic: "ValueError: boom".to_string() }) {
        SessionState::Failed { error: SessionError::HandlerRaised { diagnostic } } => {
            assert_eq!(diagnostic, "ValueError: boom");
        }
        other => panic!("unexpected state: {:?}", other),
    }
}

#[test]
fn closed_channel_before_first_event() {
    let (out, dispatched) = run_session(Vec::new());
    assert_eq!(dispatched, 0);
    assert_eq!(out.len(), 1);
    assert!(matches!(
        out[0],
        OutgoingEvent::Finished { reason: StopReason::InputsClosed }
    ));
}

#[test]
fn every_session_ends_with_exactly_one_terminal() {
    let reports = vec![
        continue_cycle(vec![record("a", b"one")]),
        continue_cycle(vec![]),
        CycleReport {
            outputs: vec![record("b", b"two"), record("c", b"three")],
            outcome: HandlerOutcome::Returned { value: 1 },
        },
    ];
    let (out, dispatched) = run_session(reports);
    assert_eq!(dispatched, 3);
    assert_eq!(out.len(), 4);
    for event in &out[..out.len() - 1] {
        assert!(matches!(event, OutgoingEvent::Output(_)));
    }
    assert!(matches!(
        out[out.len() - 1],
        OutgoingEvent::Finished { reason: StopReason::ExplicitStop }
    ));
}

#[test]
fn raise_ends_session_on_same_cycle() {
    let reports = vec![
        continue_cycle(vec![]),
        CycleReport {
            outputs: vec![],
            outcome: HandlerOutcome::Raised { diagnostic: "boom".to_string() },
        },
        continue_cycle(vec![record("late", b"never")]),
    ];
    let (out, dispatched) = run_session(reports);
    assert_eq!(dispatched, 2);
    assert_eq!(out.len(), 1);
    match &out[0] {
        OutgoingEvent::Error { cause: SessionError::HandlerRaised { diagnostic } } => {
            assert_eq!(diagnostic, "boom");
        }
        other => panic!("unexpected terminal: {:?}", other),
    }
}

#[test]
fn three_inputs_then_closed_channel() {
    let reports = vec![
        continue_cycle(vec![record("out", b"x")]),
        continue_cycle(vec![]),
        continue_cycle(vec![record("out", b"y")]),
    ];
    let (out, dispatched) = run_session(reports);
    assert_eq!(dispatched, 3);
    assert_eq!(out.len(), 3);
    assert!(matches!(out[0], OutgoingEvent::Output(_)));
    assert!(matches!(out[1], OutgoingEvent::Output(_)));
    assert!(matches!(
        out[2],
        OutgoingEvent::Finished { reason: StopReason::InputsClosed }
    ));
}

#[test]
fn stop_on_second_event_never_dispatches_third() {
    let reports = vec![
        continue_cycle(vec![]),
        CycleReport { outputs: vec![], outcome: HandlerOutcome::Returned { value: 1 } },
        continue_cycle(vec![record("third", b"never sent")]),
    ];
    let (out, dispatched) = run_session(reports);
    assert_eq!(dispatched, 2);
    assert_eq!(out.len(), 1);
    assert!(matches!(
        out[0],
        OutgoingEvent::Finished { reason: StopReason::ExplicitStop }
    ));
}

#[test]
fn output_payload_bytes_round_trip() {
    let payload: Vec<u8> = vec![0, 1, 2, 255, 128, 7];
    let reports = vec![CycleReport {
        outputs: vec![OutputRecord {
            output_id: "sensor".to_string(),
            metadata: meta("ctx"),
            data: payload.clone(),
        }],
        outcome: HandlerOutcome::Returned { value: 1 },
    }];
    let (out, _) = run_session(reports);
    assert_eq!(out.len(), 2);
    match &out[0] {
        OutgoingEvent::Output(rec) => {
            assert_eq!(rec.output_id, "sensor");
            assert_eq!(rec.metadata.open_telemetry_context, "ctx");
            assert_eq!(rec.data, payload);
        }
        other => panic!("unexpected event: {:?}", other),
    }
}

#[test]
fn invalid_status_ends_session_with_error() {
    let reports = vec![CycleReport {
        outputs: vec![],
        outcome: HandlerOutcome::Returned { value: 42 },
    }];
    let (out, dispatched) = run_session(reports);
    assert_eq!(dispatched, 1);
    assert_eq!(out.len(), 1);
    match &out[0] {
        OutgoingEvent::Error { cause: SessionError::InvalidStatusValue { value } } => {
            assert_eq!(*value, 42);
        }
        other => panic!("unexpected terminal: {:?}", other),
    }
}

#[test]
fn terminal_report_maps_each_boundary_outcome() {
    assert!(matches!(
        terminal_report(BoundaryOutcome::Completed { reason: StopReason::ExplicitStopAll }),
        OutgoingEvent::Finished { reason: StopReason::ExplicitStopAll }
    ));
    match terminal_report(BoundaryOutcome::Failed {
        error: SessionError::NoHandlerType,
    }) {
        OutgoingEvent::Error { cause: SessionError::NoHandlerType } => {}
        other => panic!("unexpected terminal: {:?}", other),
    }
    match terminal_report(BoundaryOutcome::Unwound { info: "stack overflow".to_string() }) {
        OutgoingEvent::Aborted { info } => assert_eq!(info, "stack overflow"),
        other => panic!("unexpected terminal: {:?}", other),
    }
}

#[test]
fn rewrite_trace_context_sets_and_clears() {
    let mut event = IncomingEvent::Input {
        input_id: "image".to_string(),
        metadata: meta("parent-context"),
        data: vec![9, 9],
    };
    operator_host::events::rewrite_trace_context(&mut event, Some("child-context".to_string()));
    match &event {
        IncomingEvent::Input { input_id, metadata, data } => {
            assert_eq!(input_id, "image");
            assert_eq!(metadata.open_telemetry_context, "child-context");
            assert_eq!(data, &vec![9, 9]);
        }
    }
    operator_host::events::rewrite_trace_context(&mut event, None);
    match &event {
        IncomingEvent::Input { metadata, .. } => {
            assert_eq!(metadata.open_telemetry_context, "");
        }
    }
}
