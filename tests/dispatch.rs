use nomad_rs_api::dispatch::{
    status_is_success, step_with_response, step_without_response, Action, Event, Stage,
};
use nomad_rs_api::error::ClientError;

#[test]
fn not_found_is_remote_error_with_text() {
    let (stage, action) = step_with_response::<u32>(Stage::Sending, Event::Exchanged(Ok(404)));
    assert_eq!(stage, Stage::ReadingText(404));
    assert!(matches!(action, Action::ReadText));
    let (stage, action) =
        step_with_response::<u32>(stage, Event::TextRead(Ok("job not found".to_string())));
    assert_eq!(stage, Stage::Done);
    match action {
        Action::Finish(Err(ClientError::ServerError(code, body))) => {
            assert_eq!(code, 404);
            assert_eq!(body, "job not found");
        }
        other => panic!("unexpected {:?}", other),
    }
}

#[test]
fn success_with_missing_field_is_decoding_error() {
    let decoded: Result<(String, u64), String> =
        serde_json::from_str::<(String, u64)>("[\"web\"]").map_err(|e| e.to_string());
    let message = decoded.clone().unwrap_err();
    let (stage, action) = step_with_response::<(String, u64)>(Stage::Sending, Event::Exchanged(Ok(200)));
    assert_eq!(stage, Stage::Decoding);
    assert!(matches!(action, Action::Decode));
    let (stage, action) = step_with_response(stage, Event::Decoded(decoded));
    assert_eq!(stage, Stage::Done);
    match action {
        Action::Finish(Err(ClientError::DeserializationError(m))) => assert_eq!(m, message),
        other => panic!("unexpected {:?}", other),
    }
}

#[test]
fn decoded_value_is_returned() {
    let (_, action) = step_with_response(Stage::Decoding, Event::Decoded(Ok(7u64)));
    assert!(matches!(action, Action::Finish(Ok(7))));
}

#[test]
fn every_failing_status_reads_text() {
    for status in [100u16, 199, 300, 301, 400, 500, 503, 599, 0, u16::MAX] {
        let (stage, action) = step_with_response::<()>(Stage::Sending, Event::Exchanged(Ok(status)));
        assert_eq!(stage, Stage::ReadingText(status));
        assert!(matches!(action, Action::ReadText));
        let (_, action) = step_without_response(stage, Event::TextRead(Ok("x".to_string())));
        assert!(matches!(action, Action::Finish(Err(ClientError::ServerError(s, _))) if s == status));
    }
}

#[test]
fn success_range_bounds() {
    assert!(status_is_success(200));
    assert!(status_is_success(204));
    assert!(status_is_success(299));
    assert!(!status_is_success(199));
    assert!(!status_is_success(300));
}

#[test]
fn success_without_response_ends_at_once() {
    let (stage, action) = step_without_response(Stage::Sending, Event::Exchanged(Ok(204)));
    assert_eq!(stage, Stage::Done);
    assert!(matches!(action, Action::Finish(Ok(()))));
}

#[test]
fn build_failure_is_construction_error() {
    let (stage, action) =
        step_with_response::<u8>(Stage::Building, Event::Built(Err("bad header".to_string())));
    assert_eq!(stage, Stage::Done);
    assert!(matches!(action, Action::Finish(Err(ClientError::RequestCreationError(m))) if m == "bad header"));
    let (stage, action) = step_without_response(Stage::Building, Event::Built(Ok(())));
    assert_eq!(stage, Stage::Sending);
    assert!(matches!(action, Action::Send));
}

#[test]
fn transport_failures_are_network_errors() {
    let (_, action) =
        step_with_response::<u8>(Stage::Sending, Event::Exchanged(Err("refused".to_string())));
    assert!(matches!(action, Action::Finish(Err(ClientError::NetworkError(m))) if m == "refused"));
    let (_, action) = step_without_response(
        Stage::ReadingText(500),
        Event::TextRead(Err("reset".to_string())),
    );
    assert!(matches!(action, Action::Finish(Err(ClientError::NetworkError(m))) if m == "reset"));
}

#[test]
fn stages_expect_their_events() {
    assert!(Stage::Building.expects(&Event::<()>::Built(Ok(()))));
    assert!(!Stage::Building.expects(&Event::<()>::Exchanged(Ok(200))));
    assert!(Stage::ReadingText(404).expects(&Event::<()>::TextRead(Ok(String::new()))));
    assert!(!Stage::Done.expects(&Event::<()>::Decoded(Ok(()))));
}

#[test]
fn error_messages() {
    assert_eq!(
        ClientError::ServerError(404, "job not found".to_string()).message(),
        "Nomad API error: [404] 'job not found'"
    );
    assert_eq!(
        ClientError::RequestCreationError("bad".to_string()).message(),
        "Request creation error: bad"
    );
    assert_eq!(
        ClientError::DeserializationError("eof".to_string()).message(),
        "Deserialization error: eof"
    );
    assert_eq!(ClientError::NetworkError("down".to_string()).message(), "Network error: down");
}
