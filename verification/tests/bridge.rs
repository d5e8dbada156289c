//! Tests of the connection to the process that runs workflows.
use ultracode_workflow::bridge::{
    after_detach_step, begin_detach, check_launch, check_outgoing, closed_error,
    detach_acknowledged, note_reattachment, read_line, read_message, read_stderr, request_result,
    write_error, BridgeError, BridgeMessage, DetachStep, LineReader, PendingRequests, Waited,
};

fn json(text: &str) -> serde_json::Value {
    serde_json::from_str(text).expect("valid test JSON")
}

#[test]
fn errors_tell_their_kind() {
    let error = BridgeError::internal("broken", true);
    assert_eq!((error.code.as_str(), error.outcome_unresolved), ("INTERNAL", true));
    assert_eq!(BridgeError::host("no").text(), "HOST_ERROR: no");
    assert_eq!(BridgeError::host_code("X", "no").text(), "X: no");
    assert_eq!(BridgeError::worker_start(Some(-32602), "no").code, "INVALID_WORKER_CONFIGURATION");
    assert_eq!(BridgeError::worker_start(None, "no").code, "HOST_ERROR");
}

#[test]
fn launch_needs_absolute_paths() {
    assert!(check_launch("/a", "/b", "/c").is_ok());
    assert_eq!(
        check_launch("/a", "b", "/c").unwrap_err().message,
        "bridge paths must be absolute"
    );
}

#[test]
fn lines_come_out_however_they_are_cut() {
    let mut reader = LineReader::new();
    assert!(reader.feed(b"ab").is_empty());
    assert_eq!(reader.feed(b"c\nd\n\ne"), vec![b"abc".to_vec(), b"d".to_vec(), Vec::new()]);
    assert_eq!(reader.rest, b"e".to_vec());
    let mut whole = LineReader::new();
    assert_eq!(whole.feed(b"abc\nd\n\ne").len(), 3);
}

#[test]
fn line_that_is_too_long_overflows() {
    let mut reader = LineReader::new();
    reader.feed(&vec![b'x'; 8_388_608]);
    assert!(!reader.overflow);
    reader.feed(b"x\nafter\n");
    assert!(reader.overflow);
    assert!(check_outgoing(&vec![b'x'; 8_388_608]).is_ok());
    assert_eq!(
        check_outgoing(&vec![b'x'; 8_388_609]).unwrap_err().message,
        "outgoing bridge line exceeds 8 MiB"
    );
}

#[test]
fn messages_are_events_requests_and_replies() {
    assert!(matches!(
        read_message(&json(r#"{"event":"runChanged","runId":"r","revision":3}"#)),
        BridgeMessage::RunChanged { run_id, revision: 3 } if run_id == "r"
    ));
    assert!(matches!(
        read_message(&json(r#"{"event":"other","id":"1","method":"m"}"#)),
        BridgeMessage::Ignored
    ));
    match read_message(&json(r#"{"id":"1","method":"m"}"#)) {
        BridgeMessage::Request { id, method, params } => {
            assert_eq!((id.as_str(), method.as_str()), ("1", "m"));
            assert_eq!(params, json("{}"));
        }
        other => panic!("{other:?}"),
    }
    assert!(matches!(
        read_message(&json(r#"{"id":"1","ok":true,"result":[1]}"#)),
        BridgeMessage::Reply { result: Ok(body), .. } if body == json("[1]")
    ));
    assert!(matches!(
        read_message(&json(r#"{"id":"1","ok":true}"#)),
        BridgeMessage::Reply { result: Ok(body), .. } if body == json("null")
    ));
    assert!(matches!(
        read_message(&json(r#"{"id":"1","error":{"code":"C","message":"m"}}"#)),
        BridgeMessage::Reply { result: Err(error), .. } if error.text() == "C: m"
    ));
    assert!(matches!(
        read_message(&json(r#"{"id":"1"}"#)),
        BridgeMessage::Reply { result: Err(error), .. } if error.text() == "INTERNAL: invalid bridge error"
    ));
    assert!(matches!(read_message(&json("{}")), BridgeMessage::Ignored));
    assert!(matches!(read_line(b"not json"), BridgeMessage::Ignored));
    assert!(matches!(read_line(br#"{"id":"1","method":"m","params":2}"#), BridgeMessage::Request { .. }));
}

#[test]
fn requests_are_numbered_and_answered_once() {
    let mut pending = PendingRequests::new();
    let first = pending.begin().unwrap();
    assert_eq!(first, "rust:1");
    assert_eq!(pending.begin().unwrap(), "rust:2");
    assert!(pending.settle(&first));
    assert!(!pending.settle(&first));
    assert_eq!(pending.disconnect(), vec!["rust:2".to_string()]);
    assert!(pending.disconnect().is_empty());
    assert_eq!(pending.begin().unwrap_err().message, "bridge is closed");
}

#[test]
fn too_many_requests_are_refused() {
    let mut pending = PendingRequests::new();
    for _ in 0..1024 {
        pending.begin().unwrap();
    }
    assert_eq!(
        pending.begin().unwrap_err().message,
        "bridge pending request limit exceeded"
    );
}

#[test]
fn lost_answers_are_unresolved() {
    let lost = request_result(Waited::Disconnected).unwrap_err();
    assert!(lost.outcome_unresolved);
    assert_eq!(lost.message, "bridge disconnected; remote outcome unresolved");
    let late = request_result(Waited::TimedOut).unwrap_err();
    assert!(late.outcome_unresolved);
    assert_eq!(request_result(Waited::Replied(Ok(json("1")))).unwrap(), json("1"));
}

#[test]
fn failed_request_does_not_wait() {
    let mut pending = PendingRequests::new();
    let id = pending.begin().unwrap();
    let error = pending.write_failed(&id, "broken pipe");
    assert_eq!(error.code, "INTERNAL");
    assert_eq!(error.message, "bridge write failed: broken pipe; remote outcome unresolved");
    assert!(error.outcome_unresolved);
    assert!(!pending.settle(&id));

    let id = pending.begin().unwrap();
    let error = pending.writer_closed(&id);
    assert_eq!(error.code, "INTERNAL");
    assert_eq!(error.message, "bridge stdin closed; remote outcome unresolved");
    assert!(error.outcome_unresolved);
    assert!(!pending.settle(&id));
    assert_eq!(closed_error().message, error.message);
    assert_eq!(write_error("gone").message, "bridge write failed: gone; remote outcome unresolved");

    let id = pending.begin().unwrap();
    assert!(pending.check_request(&id, b"{}").is_ok());
    let error = pending.check_request(&id, &vec![b'x'; 8_388_609]).unwrap_err();
    assert_eq!(error.message, "outgoing bridge line exceeds 8 MiB");
    assert!(!error.outcome_unresolved);
    assert!(!pending.settle(&id));

    let id = pending.begin().unwrap();
    assert!(pending.finish(&id, Waited::TimedOut).unwrap_err().outcome_unresolved);
    assert!(!pending.settle(&id));
    let id = pending.begin().unwrap();
    let refused = BridgeError::host("no");
    assert!(!pending.finish(&id, Waited::Replied(Err(refused))).unwrap_err().outcome_unresolved);
    assert!(!pending.settle(&id));
}

#[test]
fn error_output_keeps_its_end() {
    assert_eq!(read_stderr("ab", "cd"), "abcd");
    let kept = read_stderr(&"a".repeat(65_536), "tail");
    assert_eq!(kept.len(), 65_536);
    assert!(kept.ends_with("tail"));
}

#[test]
fn handover_takes_back_what_it_began() {
    assert!(begin_detach(&vec![true, false]).is_err());
    assert_eq!(begin_detach(&Vec::new()).unwrap(), DetachStep::Done);
    let step = begin_detach(&vec![true, true]).unwrap();
    assert_eq!(step, DetachStep::Detach(0));
    let step = after_detach_step(2, step, true);
    assert_eq!(step, DetachStep::Detach(1));
    assert_eq!(after_detach_step(2, step, true), DetachStep::Done);
    let step = after_detach_step(2, step, false);
    assert_eq!(step, DetachStep::Reattach(1));
    let step = after_detach_step(2, step, false);
    assert_eq!(step, DetachStep::Reattach(0));
    assert_eq!(after_detach_step(2, step, true), DetachStep::Failed);
}

#[test]
fn detaching_is_acknowledged_explicitly() {
    assert!(detach_acknowledged(&json(r#"{"attached":false,"workersContinue":true}"#)).is_ok());
    for reply in [r#"{"attached":false}"#, r#"{"attached":true,"workersContinue":true}"#] {
        assert_eq!(
            detach_acknowledged(&json(reply)).unwrap_err().message,
            "invalid workflow detach acknowledgement"
        );
    }
    let noted = note_reattachment(BridgeError::host("first"), "parent", &BridgeError::host("second"));
    assert_eq!(noted.message, "first; reattachment for parent failed: HOST_ERROR: second");
}
