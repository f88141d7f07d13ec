use ninetyfive::client::{
    endpoint_of, RequestError, SendOutcome, UrlParts, WebSocketClient, DEFAULT_PORT, NINETYFIVE_API_URL,
};
use ninetyfive::clock_id::{
    generate_request_id, request_id_at, request_id_for, request_id_of_bytes, request_id_of_digest,
};
use ninetyfive::file_content::{FileAction, FileEvent, FileRequest};
use ninetyfive::message::{client_request_json, file_content_json, WebSocketMessage};
use std::collections::hash_map::DefaultHasher;
use std::hash::{Hash, Hasher};

fn client(url: &str) -> WebSocketClient<u32> {
    WebSocketClient::new(url.to_string())
}

#[test]
fn endpoint_of_the_service() {
    let endpoint = client(NINETYFIVE_API_URL).create_connection().unwrap();
    assert_eq!(endpoint.host, "api.ninetyfive.gg");
    assert_eq!(endpoint.port, 443);
}

#[test]
fn endpoint_with_a_port() {
    let endpoint = client("ws://LOCALHOST:9000/path").create_connection().unwrap();
    assert_eq!(endpoint.host, "localhost");
    assert_eq!(endpoint.port, 9000);
    // The port that the scheme implies counts as none.
    assert_eq!(client("ws://localhost:80").create_connection().unwrap().port, DEFAULT_PORT);
}

#[test]
fn endpoint_errors() {
    let error = client("no url").create_connection().err().unwrap();
    assert!(matches!(error, RequestError::InvalidUrl(_)));
    assert_eq!(error.message(), "relative URL without a base");
    let error = client("data:text/plain,x").create_connection().err().unwrap();
    assert!(matches!(error, RequestError::InvalidHost));
    assert_eq!(error.message(), "Invalid host in URL");
}

#[test]
fn endpoint_of_parts() {
    let parts = UrlParts { host: Some("h".to_string()), port: Some(1) };
    let endpoint = endpoint_of(Ok(parts)).unwrap();
    assert_eq!(endpoint.host, "h");
    assert_eq!(endpoint.port, 1);
    assert_eq!(endpoint_of(Ok(UrlParts { host: Some("h".to_string()), port: None })).unwrap().port, 443);
    assert!(matches!(endpoint_of(Ok(UrlParts { host: None, port: Some(1) })), Err(RequestError::InvalidHost)));
    assert_eq!(endpoint_of(Err("why".to_string())).err().unwrap().message(), "why");
}

#[test]
fn error_messages() {
    assert_eq!(RequestError::Transport("reset".to_string()).message(), "reset");
    assert_eq!(RequestError::NoConnection.message(), "No websocket connection available");
    assert_eq!(RequestError::ClosedByServer.message(), "Connection closed by server");
    assert_eq!(RequestError::ConnectionEnded.message(), "Connection ended");
    assert_eq!(RequestError::TimedOut.message(), "Request timed out");
}

#[test]
fn connections_are_made_and_kept() {
    let mut client = client("ws://localhost");
    assert!(client.ensure_connection());
    assert!(client.connection_made(Err(RequestError::TimedOut)).is_err());
    assert!(client.ensure_connection());
    assert!(client.connection_made(Ok(1)).is_ok());
    assert!(!client.ensure_connection());
    assert_eq!(client.connection, Some(1));
    assert!(client.connection_made(Err(RequestError::TimedOut)).is_err());
    assert_eq!(client.connection, Some(1));
}

#[test]
fn reconnecting_replaces_the_connection() {
    let mut client = client("ws://localhost");
    client.connection = Some(1);
    assert!(client.reconnect_if_needed(Ok(2)).is_ok());
    assert_eq!(client.connection, Some(2));
    assert!(client.reconnect_if_needed(Err(RequestError::TimedOut)).is_err());
    assert_eq!(client.connection, None);
}

#[test]
fn a_failed_connection_is_given_up() {
    let mut client = client("ws://localhost");
    client.connection = Some(1);
    assert!(client.sent(SendOutcome::Sent).is_ok());
    assert_eq!(client.connection, Some(1));
    assert_eq!(client.sent(SendOutcome::Failed("reset".to_string())).err().unwrap().message(), "reset");
    assert!(client.ensure_connection());
    assert!(matches!(client.sent(SendOutcome::NoConnection), Err(RequestError::NoConnection)));
}

#[test]
fn the_client_of_the_service() {
    let client = WebSocketClient::<u32>::for_service();
    assert_eq!(client.api_url, "wss://api.ninetyfive.gg");
    assert_eq!(client.connection, None);
}

fn sending(client: &WebSocketClient<u32>) -> FileRequest {
    let (request, action) = client.send_file_content("a \"b\"", "line\n\\ end");
    assert!(matches!(action, FileAction::EnsureConnection));
    request
}

fn result(action: FileAction) -> Result<(), RequestError> {
    match action {
        FileAction::Finish(result) => result,
        other => panic!("unexpected {:?}", other),
    }
}

#[test]
fn file_content_is_escaped() {
    let mut client = client("ws://localhost");
    client.connection = Some(1);
    let mut request = sending(&client);
    match request.step(&mut client, FileEvent::Connection(Ok(()))) {
        FileAction::Send(json) => {
            assert_eq!(json, r#"{"type":"file-content","path":"a \"b\"","text":"line\n\\ end"}"#)
        }
        other => panic!("unexpected {:?}", other),
    }
    assert!(result(request.step(&mut client, FileEvent::Sent)).is_ok());
    assert!(matches!(request, FileRequest::Finished));
    assert_eq!(client.connection, Some(1));
    assert_eq!(file_content_json("", ""), r#"{"type":"file-content","path":"","text":""}"#);
}

#[test]
fn content_is_not_sent_without_a_connection() {
    let mut client = client("ws://localhost");
    let mut request = sending(&client);
    let failed = request.step(&mut client, FileEvent::Connection(Err(RequestError::InvalidHost)));
    assert!(matches!(result(failed), Err(RequestError::InvalidHost)));
    assert!(matches!(request, FileRequest::Finished));
    // The connection was made, and lost again before it was used.
    let mut request = sending(&client);
    let lost = request.step(&mut client, FileEvent::Connection(Ok(())));
    assert!(matches!(result(lost), Err(RequestError::NoConnection)));
    assert!(matches!(request, FileRequest::Finished));
}

#[test]
fn content_that_is_not_taken_costs_the_connection() {
    let mut client = client("ws://localhost");
    client.connection = Some(1);
    let mut request = sending(&client);
    request.step(&mut client, FileEvent::Connection(Ok(())));
    let failed = request.step(&mut client, FileEvent::Failed("reset".to_string()));
    assert_eq!(result(failed).err().unwrap().message(), "reset");
    assert_eq!(client.connection, None);
}

#[test]
fn what_is_written_can_be_read() {
    let message = WebSocketMessage::DeltaCompletionRequest {
        request_id: "é\u{1}\"".to_string(),
        repo: "r/\u{2028}".to_string(),
        pos: 3,
    };
    let value = serde_json::from_str::<serde_json::Value>(&message.to_json()).unwrap();
    assert_eq!(value.get("type").unwrap().as_str(), Some("delta-completion-request"));
    assert_eq!(value.get("request_id").unwrap().as_str(), Some("é\u{1}\""));
    assert_eq!(value.get("repo").unwrap().as_str(), Some("r/\u{2028}"));
    assert_eq!(value.get("pos").unwrap().as_u64(), Some(3));
}

#[test]
fn request_of_the_client() {
    assert_eq!(
        client_request_json("abc123", "zed", 17),
        r#"{"type":"delta-completion-request","requestId":"abc123","repo":"zed","pos":17}"#
    );
}

#[test]
fn request_id_of_digests() {
    assert_eq!(request_id_of_digest(0x10_0000), "100000");
    assert_eq!(request_id_of_digest(0xdead_beef_0123_4567), "deadbe");
    assert_eq!(request_id_of_digest(0xab_cdef), "abcdef");
    assert_eq!(request_id_of_digest(u64::MAX), "ffffff");
}

#[test]
fn request_id_follows_the_default_hasher() {
    for nanos in [0u128, 1, 1_700_000_000_000_000_000, u128::MAX] {
        let mut hasher = DefaultHasher::new();
        nanos.hash(&mut hasher);
        let digits = format!("{:x}", hasher.finish());
        assert_eq!(request_id_at(nanos).unwrap(), digits[..6].to_string());
    }
}

#[test]
fn request_id_follows_the_order_of_the_bytes() {
    let nanos = 1_700_000_000_000_000_000u128;
    assert_eq!(request_id_of_bytes(&nanos.to_ne_bytes()), request_id_at(nanos));
    assert_ne!(request_id_of_bytes(&nanos.to_le_bytes()), request_id_of_bytes(&nanos.to_be_bytes()));
    let mut hasher = DefaultHasher::new();
    hasher.write(b"abc");
    let digits = format!("{:x}", hasher.finish());
    assert_eq!(request_id_of_bytes(b"abc").unwrap(), digits[..6].to_string());
}

#[test]
fn clock_request_ids() {
    let id = generate_request_id().unwrap();
    assert_eq!(id.len(), 6);
    assert!(id.chars().all(|c| c.is_ascii_digit() || ('a'..='f').contains(&c)));
}

#[test]
fn a_clock_before_its_epoch_gives_no_id() {
    assert_eq!(request_id_for(None), None);
    assert_eq!(request_id_for(Some(1)), request_id_at(1));
    assert!(request_id_for(Some(1)).is_some());
}
