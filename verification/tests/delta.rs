use ninetyfive::client::{RequestError, SendOutcome, WebSocketClient};
use ninetyfive::delta::{
    CompletionExchange, DeltaAction, DeltaEvent, DeltaPhase, DeltaRequest, SocketEvent, NO_RESPONSE,
};

fn client() -> WebSocketClient<u32> {
    let mut client = WebSocketClient::new("ws://localhost".to_string());
    client.connection = Some(1);
    client
}

fn text(json: &str) -> DeltaEvent {
    DeltaEvent::Socket(SocketEvent::Text(json.to_string()))
}

fn receiving(client: &mut WebSocketClient<u32>) -> DeltaRequest {
    let (mut request, action) =
        client.send_delta_completion_request(5, "repo", Some("/x/y.rs"), Some("let a".to_string()));
    assert!(matches!(action, DeltaAction::EnsureConnection));
    match request.step(client, DeltaEvent::Connection(Ok(()))) {
        DeltaAction::SendFileContent { path, content } => {
            assert_eq!(path, "Untitled-1");
            assert_eq!(content, "let a");
        }
        other => panic!("unexpected {:?}", other),
    }
    assert!(matches!(request.step(client, DeltaEvent::FileContentSent(Ok(()))), DeltaAction::DrawRequestId));
    match request.step(client, DeltaEvent::RequestId("abc123".to_string())) {
        DeltaAction::SendRequest(json) => assert_eq!(
            json,
            r#"{"type":"delta-completion-request","requestId":"abc123","repo":"repo","pos":5}"#
        ),
        other => panic!("unexpected {:?}", other),
    }
    assert!(matches!(
        request.step(client, DeltaEvent::RequestSent(SendOutcome::Sent)),
        DeltaAction::Receive
    ));
    request
}

fn failure(action: DeltaAction) -> RequestError {
    match action {
        DeltaAction::Finish(Err(error)) => error,
        other => panic!("unexpected {:?}", other),
    }
}

fn success(action: DeltaAction) -> String {
    match action {
        DeltaAction::Finish(Ok(text)) => text,
        other => panic!("unexpected {:?}", other),
    }
}

#[test]
fn replies_are_put_together() {
    let mut client = client();
    let mut request = receiving(&mut client);
    assert!(matches!(
        request.step(&mut client, text(r#"{"r":"abc123","v":" = ","flush":false}"#)),
        DeltaAction::Receive
    ));
    // A reply to another request, one without a value, something else, and no JSON at all.
    assert!(matches!(request.step(&mut client, text(r#"{"r":"zzzzzz","v":"no","flush":true}"#)), DeltaAction::Receive));
    assert!(matches!(request.step(&mut client, text(r#"{"r":"abc123","v":7}"#)), DeltaAction::Receive));
    assert!(matches!(request.step(&mut client, text(r#"{"v":"no"}"#)), DeltaAction::Receive));
    assert!(matches!(request.step(&mut client, text("[1, 2]")), DeltaAction::Receive));
    assert!(matches!(request.step(&mut client, text("{")), DeltaAction::Receive));
    assert!(matches!(request.step(&mut client, DeltaEvent::Socket(SocketEvent::Other)), DeltaAction::Receive));
    assert_eq!(success(request.step(&mut client, text(r#"{"r":"abc123","v":"1;","flush":true}"#))), " = 1;");
    assert!(matches!(request.phase, DeltaPhase::Finished));
    assert_eq!(client.connection, Some(1));
}

#[test]
fn a_reply_without_flush_is_the_last() {
    let mut client = client();
    let mut request = receiving(&mut client);
    assert_eq!(success(request.step(&mut client, text(r#"{"v":"é","r":"abc123"}"#))), "é");
    let mut request = receiving(&mut client);
    assert_eq!(success(request.step(&mut client, text(r#"{"v":"x","r":"abc123","flush":"no"}"#))), "x");
}

#[test]
fn an_empty_completion_becomes_the_placeholder() {
    let mut client = client();
    let mut request = receiving(&mut client);
    assert_eq!(
        success(request.step(&mut client, text(r#"{"r":"abc123","v":""}"#))),
        "hello_ninetyfive_no_response"
    );
}

#[test]
fn without_content_nothing_is_sent() {
    let mut client = client();
    let (mut request, _) = client.send_delta_completion_request(5, "repo", Some("/x/y.rs"), None);
    assert_eq!(success(request.step(&mut client, DeltaEvent::Connection(Ok(())))), "");
    assert!(matches!(request.phase, DeltaPhase::Finished));
}

#[test]
fn a_connection_that_cannot_be_made() {
    let mut client = client();
    let (mut request, _) = client.send_delta_completion_request(5, "repo", None, Some(String::new()));
    let event = DeltaEvent::Connection(Err(RequestError::Transport("refused".to_string())));
    assert_eq!(failure(request.step(&mut client, event)).message(), "refused");
}

#[test]
fn content_that_cannot_be_sent_ends_the_request() {
    let mut client = client();
    let (mut request, _) = client.send_delta_completion_request(5, "repo", None, Some(String::new()));
    request.step(&mut client, DeltaEvent::Connection(Ok(())));
    let event = DeltaEvent::FileContentSent(Err(RequestError::NoConnection));
    assert!(matches!(failure(request.step(&mut client, event)), RequestError::NoConnection));
}

fn sending(client: &mut WebSocketClient<u32>) -> DeltaRequest {
    let (mut request, _) = client.send_delta_completion_request(0, "repo", None, Some(String::new()));
    request.step(client, DeltaEvent::Connection(Ok(())));
    request.step(client, DeltaEvent::FileContentSent(Ok(())));
    request.step(client, DeltaEvent::RequestId("abc123".to_string()));
    request
}

#[test]
fn a_request_that_cannot_be_sent() {
    let mut client = client();
    let mut request = sending(&mut client);
    let error = failure(request.step(&mut client, DeltaEvent::RequestSent(SendOutcome::NoConnection)));
    assert!(matches!(error, RequestError::NoConnection));
    assert_eq!(client.connection, Some(1));
    let mut request = sending(&mut client);
    let error = failure(request.step(&mut client, DeltaEvent::RequestSent(SendOutcome::Failed("reset".to_string()))));
    assert_eq!(error.message(), "reset");
    assert!(client.ensure_connection());
}

#[test]
fn broken_connections_are_given_up() {
    let mut client = client();
    let mut request = receiving(&mut client);
    let error = failure(request.step(&mut client, DeltaEvent::Socket(SocketEvent::Close)));
    assert!(matches!(error, RequestError::ClosedByServer));
    assert_eq!(client.connection, None);

    client.connection = Some(2);
    let mut request = receiving(&mut client);
    let error = failure(request.step(&mut client, DeltaEvent::Socket(SocketEvent::Failed("reset".to_string()))));
    assert_eq!(error.message(), "reset");
    assert_eq!(client.connection, None);

    client.connection = Some(3);
    let mut request = receiving(&mut client);
    let error = failure(request.step(&mut client, DeltaEvent::Socket(SocketEvent::Ended)));
    assert!(matches!(error, RequestError::ConnectionEnded));
    assert_eq!(client.connection, None);
}

#[test]
fn a_slow_answer_keeps_the_connection() {
    let mut client = client();
    let mut request = receiving(&mut client);
    let error = failure(request.step(&mut client, DeltaEvent::Socket(SocketEvent::TimedOut)));
    assert!(matches!(error, RequestError::TimedOut));
    assert_eq!(client.connection, Some(1));
}

#[test]
fn replies_one_by_one() {
    let mut exchange = CompletionExchange::new("id".to_string());
    assert!(!exchange.apply_reply(None, Some("a".to_string()), None));
    assert!(!exchange.apply_reply(Some("id".to_string()), None, Some(true)));
    assert!(!exchange.apply_reply(Some("id".to_string()), Some("a".to_string()), Some(false)));
    assert!(exchange.apply_reply(Some("id".to_string()), Some("b".to_string()), None));
    assert_eq!(exchange.completion, "ab");
    assert_eq!(exchange.finish(), "ab");
    assert_eq!(CompletionExchange::new(String::new()).finish(), NO_RESPONSE);
}
