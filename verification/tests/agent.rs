use ninetyfive::agent::{
    connection_result, generate_request_id, request_id_of, NinetyFiveAgent, NinetyFiveCompletionStateId, Notice,
    MAX_STATES, REQUEST_ID_CHARS,
};
use ninetyfive::anchor::{Anchor, Bias};
use ninetyfive::client::NINETYFIVE_API_URL;
use ninetyfive::incoming::{IncomingError, IncomingEvent, IncomingPhase, IncomingStep};
use ninetyfive::message::{NinetyFiveMessage, WebSocketMessage};
use ninetyfive::outgoing::{OutgoingEvent, OutgoingPhase, OutgoingStep};
use postage::stream::{Stream, TryRecvError};

fn anchor(offset: usize) -> Anchor {
    Anchor { replica_id: 1, clock: 2, offset, bias: Bias::Left, buffer_id: Some(3) }
}

fn agent() -> NinetyFiveAgent {
    NinetyFiveAgent::new(NINETYFIVE_API_URL).unwrap().0
}

fn ask(agent: &mut NinetyFiveAgent, request_id: &str) -> usize {
    agent
        .ask(7, Some("/a/b.rs".to_string()), "fn main() {}".to_string(), anchor(11), 11, request_id.to_string())
        .id
        .0
}

#[test]
fn new_agent_is_empty() {
    let (agent, request) = NinetyFiveAgent::new(NINETYFIVE_API_URL).unwrap();
    assert_eq!(agent.next_state_id, NinetyFiveCompletionStateId(0));
    assert!(agent.states.is_empty());
    assert!(agent.outgoing.is_empty());
    assert!(agent.open);
    assert_eq!(request.uri().to_string(), "wss://api.ninetyfive.gg/");
    assert_eq!(request.headers().get("Host").unwrap(), "api.ninetyfive.gg");
}

#[test]
fn agent_refuses_bad_urls() {
    assert_eq!(NinetyFiveAgent::new("/no/host").err().unwrap(), "URL error: No host name in the URL");
    assert_eq!(NinetyFiveAgent::new("wss://user@").is_err(), true);
    assert_eq!(NinetyFiveAgent::new("not a url").is_err(), true);
}

#[test]
fn default_id_is_zero() {
    assert_eq!(NinetyFiveCompletionStateId::default(), NinetyFiveCompletionStateId(0));
}

#[test]
fn asking_remembers_a_state_and_queues_two_messages() {
    let mut agent = agent();
    assert_eq!(ask(&mut agent, "abc123"), 0);
    assert_eq!(agent.next_state_id.0, 1);
    let state = &agent.states[&0];
    assert_eq!(state.buffer_id, 7);
    assert_eq!(state.prefix_anchor, anchor(11));
    assert_eq!(state.prefix_offset, 11);
    assert_eq!(state.text, "");
    assert_eq!(state.dedent, "");
    assert_eq!(agent.outgoing.len(), 2);
    match &agent.outgoing[0] {
        WebSocketMessage::FileContent { path, text } => {
            assert_eq!(path, "/a/b.rs");
            assert_eq!(text, "fn main() {}");
        }
        other => panic!("unexpected {:?}", other),
    }
    match &agent.outgoing[1] {
        WebSocketMessage::DeltaCompletionRequest { request_id, repo, pos } => {
            assert_eq!(request_id, "abc123");
            assert_eq!(repo, "unknown");
            assert_eq!(*pos, 11);
        }
        other => panic!("unexpected {:?}", other),
    }
}

#[test]
fn a_buffer_without_a_file_is_untitled() {
    let mut agent = agent();
    agent.ask(1, None, String::new(), anchor(0), 0, "aaaaaa".to_string());
    match &agent.outgoing[0] {
        WebSocketMessage::FileContent { path, .. } => assert_eq!(path, "Untitled-1"),
        other => panic!("unexpected {:?}", other),
    }
}

#[test]
fn the_first_update_is_already_taken() {
    let mut agent = agent();
    let mut completion = agent.ask(1, None, String::new(), anchor(0), 0, "aaaaaa".to_string());
    assert_eq!(completion.updates.try_recv(), Err(TryRecvError::Pending));
    *agent.states.get_mut(&0).unwrap().updates_tx.borrow_mut() = ();
    assert_eq!(completion.updates.try_recv(), Ok(()));
}

#[test]
fn the_oldest_state_is_forgotten() {
    let mut agent = agent();
    for i in 0..MAX_STATES {
        assert_eq!(ask(&mut agent, "aaaaaa"), i);
    }
    assert_eq!(agent.states.len(), 1000);
    assert!(agent.states.contains_key(&0));
    assert_eq!(ask(&mut agent, "aaaaaa"), 1000);
    assert_eq!(agent.states.len(), 1000);
    assert!(!agent.states.contains_key(&0));
    assert!(agent.states.contains_key(&1));
    assert!(agent.states.contains_key(&1000));
    assert_eq!(ask(&mut agent, "aaaaaa"), 1001);
    assert_eq!(agent.states.keys().next(), Some(&2));
    assert_eq!(agent.states.len(), 1000);
}

#[test]
fn outgoing_messages_are_taken_in_order() {
    let mut agent = agent();
    ask(&mut agent, "abc123");
    let messages = agent.take_outgoing();
    assert_eq!(
        messages.iter().map(|message| message.to_json()).collect::<Vec<String>>(),
        vec![
            r#"{"type":"file-content","path":"/a/b.rs","text":"fn main() {}"}"#.to_string(),
            r#"{"type":"delta-completion-request","request_id":"abc123","repo":"unknown","pos":11}"#.to_string(),
        ]
    );
    assert!(agent.outgoing.is_empty());
    assert!(agent.take_outgoing().is_empty());
    assert_eq!(agent.states.len(), 1);
}

/// Sends messages over a socket that takes so many of them. Gives the texts that it was handed and
/// how the task ended.
fn send_all(messages: Vec<WebSocketMessage>, taken: usize) -> (Vec<String>, Result<(), String>) {
    let mut texts: Vec<String> = Vec::new();
    let mut messages = messages.into_iter();
    let mut phase = OutgoingPhase::Waiting;
    let mut event = match messages.next() {
        Some(message) => OutgoingEvent::Queued(message),
        None => OutgoingEvent::Closed,
    };
    loop {
        event = match NinetyFiveAgent::handle_outgoing_messages(&mut phase, event) {
            OutgoingStep::Send(text) => {
                texts.push(text);
                if texts.len() <= taken {
                    OutgoingEvent::Sent
                } else {
                    OutgoingEvent::Failed("reset".to_string())
                }
            }
            OutgoingStep::Next => match messages.next() {
                Some(message) => OutgoingEvent::Queued(message),
                None => OutgoingEvent::Closed,
            },
            OutgoingStep::Finish => return (texts, Ok(())),
            OutgoingStep::Fail(reason) => return (texts, Err(reason)),
        };
    }
}

fn contents() -> Vec<WebSocketMessage> {
    ["a", "b", "c"]
        .iter()
        .map(|text| WebSocketMessage::FileContent { path: "p".to_string(), text: text.to_string() })
        .collect()
}

#[test]
fn messages_are_sent_one_by_one() {
    let (texts, result) = send_all(contents(), 3);
    assert_eq!(result, Ok(()));
    assert_eq!(
        texts,
        vec![
            r#"{"type":"file-content","path":"p","text":"a"}"#.to_string(),
            r#"{"type":"file-content","path":"p","text":"b"}"#.to_string(),
            r#"{"type":"file-content","path":"p","text":"c"}"#.to_string(),
        ]
    );
    assert_eq!(send_all(Vec::new(), 0), (Vec::new(), Ok(())));
}

#[test]
fn sending_stops_at_the_first_failure() {
    let (texts, result) = send_all(contents(), 1);
    assert_eq!(texts.len(), 2);
    assert_eq!(texts[1], r#"{"type":"file-content","path":"p","text":"b"}"#);
    assert_eq!(result, Err("reset".to_string()));
}

fn message(r: &str) -> IncomingEvent {
    IncomingEvent::Message(NinetyFiveMessage::Response { r: r.to_string(), v: String::new(), end: None, flush: None })
}

/// Reads what comes from a socket, for a service that takes so many messages. Gives the messages that
/// it was handed, how many events came in, and how the task ended.
fn read_all(events: Vec<IncomingEvent>, taken: usize) -> (Vec<String>, usize, Result<(), IncomingError>) {
    let mut handed: Vec<String> = Vec::new();
    let mut count = 1;
    let mut events = events.into_iter();
    let mut phase = IncomingPhase::Reading;
    let mut event = events.next().unwrap();
    loop {
        event = match NinetyFiveAgent::handle_incoming_messages(&mut phase, event) {
            IncomingStep::Next => {
                count += 1;
                events.next().unwrap()
            }
            IncomingStep::Deliver(NinetyFiveMessage::Response { r, .. }) => {
                handed.push(r);
                if handed.len() <= taken {
                    IncomingEvent::Delivered
                } else {
                    IncomingEvent::Released("gone".to_string())
                }
            }
            IncomingStep::Deliver(other) => panic!("unexpected {:?}", other),
            IncomingStep::Finish => return (handed, count, Ok(())),
            IncomingStep::Fail(error) => return (handed, count, Err(error)),
        };
    }
}

#[test]
fn reading_goes_on_until_the_socket_ends() {
    for end in [IncomingEvent::Close, IncomingEvent::Ended] {
        let events = vec![
            message("1"),
            IncomingEvent::Unreadable,
            IncomingEvent::Ping,
            message("2"),
            IncomingEvent::Pong,
            IncomingEvent::Binary,
            IncomingEvent::Frame,
            end,
            message("3"),
        ];
        let (handed, count, result) = read_all(events, 9);
        assert_eq!(handed, vec!["1".to_string(), "2".to_string()]);
        assert_eq!(count, 8);
        assert!(result.is_ok());
    }
}

#[test]
fn reading_stops_at_the_first_failure() {
    let (handed, count, result) =
        read_all(vec![message("1"), IncomingEvent::Failed("reset".to_string()), message("2")], 9);
    assert_eq!(handed, vec!["1".to_string()]);
    assert_eq!(count, 2);
    let error = result.err().unwrap();
    assert_eq!(error.context(), Some("WebSocket error"));
    assert_eq!(error.reason(), "reset");
}

#[test]
fn a_released_service_matters_only_to_messages() {
    let (handed, count, result) = read_all(vec![IncomingEvent::Ping, IncomingEvent::Unreadable, IncomingEvent::Close], 0);
    assert!(handed.is_empty());
    assert_eq!(count, 3);
    assert!(result.is_ok());
    let (handed, count, result) = read_all(vec![IncomingEvent::Ping, message("1"), message("2")], 0);
    assert_eq!(handed, vec!["1".to_string()]);
    assert_eq!(count, 2);
    let error = result.err().unwrap();
    assert!(matches!(error, IncomingError::Released(_)));
    assert_eq!(error.context(), None);
    assert_eq!(error.reason(), "gone");
}

#[test]
fn the_request_leads_to_the_given_url() {
    let (_, request) = NinetyFiveAgent::new("ws://user@localhost:9000/path?q=1").unwrap();
    assert_eq!(request.uri().to_string(), "ws://user@localhost:9000/path?q=1");
    assert_eq!(request.headers().get("Host").unwrap(), "localhost:9000");
}

#[test]
fn messages_are_told_of() {
    let mut agent = agent();
    let info = NinetyFiveMessage::SubscriptionInfo { is_paid: true, name: "x".to_string() };
    assert!(matches!(agent.handle_message(info), Notice::SubscriptionInfo));
    let response = NinetyFiveMessage::Response { r: "1".to_string(), v: "2".to_string(), end: None, flush: Some(true) };
    match agent.handle_message(response) {
        Notice::Response { r, v } => {
            assert_eq!(r, "1");
            assert_eq!(v, "2");
        }
        other => panic!("unexpected {:?}", other),
    }
    assert!(matches!(agent.handle_message(NinetyFiveMessage::Unknown), Notice::Unhandled(NinetyFiveMessage::Unknown)));
    assert!(agent.states.is_empty());
}

#[test]
fn the_end_is_announced_once() {
    let mut agent = agent();
    assert!(agent.close());
    assert!(!agent.close());
}

#[test]
fn the_first_error_of_a_connection_counts() {
    assert_eq!(connection_result::<u8>(Ok(()), Ok(())), Ok(()));
    assert_eq!(connection_result(Err(1), Err(2)), Err(1));
    assert_eq!(connection_result(Ok(()), Err(2)), Err(2));
    assert_eq!(connection_result(Err(1), Ok(())), Err(1));
}

#[test]
fn request_id_of_indices() {
    assert_eq!(request_id_of(&vec![0, 25, 26, 35, 1, 27]), "az09b1");
    assert_eq!(request_id_of(&vec![]), "");
}

#[test]
fn random_request_ids() {
    let mut seen: Vec<String> = Vec::new();
    for _ in 0..50 {
        let id = generate_request_id();
        assert_eq!(id.len(), 6);
        assert!(id.chars().all(|c| REQUEST_ID_CHARS.contains(c)));
        seen.push(id);
    }
    seen.sort();
    seen.dedup();
    assert!(seen.len() > 40);
}
