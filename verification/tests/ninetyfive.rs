use ninetyfive::anchor::{Anchor, Bias};
use ninetyfive::agent::Notice;
use ninetyfive::client::NINETYFIVE_API_URL;
use ninetyfive::message::{NinetyFiveMessage, WebSocketMessage};
use ninetyfive::ninetyfive::{init, EditPredictionProvider, NinetyFive};

fn anchor() -> Anchor {
    Anchor { replica_id: 0, clock: 0, offset: 4, bias: Bias::Right, buffer_id: None }
}

fn connected() -> NinetyFive {
    let mut service = NinetyFive::Starting;
    assert!(service.connect(NINETYFIVE_API_URL).unwrap().is_some());
    service
}

#[test]
fn starts_only_once() {
    let mut service = NinetyFive::Starting;
    assert!(service.start());
    assert!(!service.is_enabled());
    let request = service.connect(NINETYFIVE_API_URL).unwrap().unwrap();
    assert_eq!(request.uri().host(), Some("api.ninetyfive.gg"));
    assert!(service.is_enabled());
    assert!(!service.start());
    assert!(service.connect(NINETYFIVE_API_URL).unwrap().is_none());
    assert!(service.stop());
    assert!(!service.is_enabled());
    assert!(service.start());
    assert!(!service.stop());
}

#[test]
fn a_refused_url_leaves_the_service_starting() {
    let mut service = NinetyFive::Starting;
    assert_eq!(service.connect("/no/host").err().unwrap(), "URL error: No host name in the URL");
    assert!(matches!(service, NinetyFive::Starting));
}

#[test]
fn failed_services_are_not_started() {
    let mut failed = NinetyFive::FailedConnection { error: "no route".to_string() };
    assert!(!failed.start());
    assert!(failed.connect(NINETYFIVE_API_URL).unwrap().is_none());
    let broken = NinetyFive::Error { error: "broken".to_string() };
    assert!(!broken.start());
    assert!(!broken.is_enabled());
}

#[test]
fn completes_only_when_connected() {
    let mut service = NinetyFive::Starting;
    assert!(service.complete(1, None, "text".to_string(), anchor(), 4).is_none());
    let mut service = connected();
    let first = service.complete(1, None, "text".to_string(), anchor(), 4).unwrap();
    let second = service.complete(1, None, "text".to_string(), anchor(), 4).unwrap();
    assert_eq!(first.id.0, 0);
    assert_eq!(second.id.0, 1);
    match &service {
        NinetyFive::Connected(agent) => {
            assert_eq!(agent.outgoing.len(), 4);
            match &agent.outgoing[3] {
                WebSocketMessage::DeltaCompletionRequest { request_id, repo, pos } => {
                    assert_eq!(request_id.len(), 6);
                    assert_eq!(repo, "unknown");
                    assert_eq!(*pos, 4);
                }
                other => panic!("unexpected {:?}", other),
            }
        }
        other => panic!("unexpected {:?}", other),
    }
    assert!(service.completion(1, anchor()).is_none());
}

#[test]
fn messages_reach_a_connected_service_only() {
    let mut service = connected();
    assert!(matches!(service.handle_message(NinetyFiveMessage::Unknown), Some(Notice::Unhandled(_))));
    let info = NinetyFiveMessage::SubscriptionInfo { is_paid: true, name: "x".to_string() };
    assert!(matches!(service.handle_message(info), Some(Notice::SubscriptionInfo)));
    assert!(service.is_enabled());
    let mut stopped = NinetyFive::Starting;
    assert!(stopped.handle_message(NinetyFiveMessage::Unknown).is_none());
    assert!(matches!(stopped, NinetyFive::Starting));
}

#[test]
fn the_service_is_where_it_listens() {
    let mut service = NinetyFive::Starting;
    let request = service.connect_to_service().unwrap().unwrap();
    assert_eq!(request.uri().to_string(), "wss://api.ninetyfive.gg/");
    assert_eq!(request.headers().get("Host").unwrap(), "api.ninetyfive.gg");
    assert!(service.is_enabled());
    assert!(service.connect_to_service().unwrap().is_none());
}

#[test]
fn settings_start_and_stop_the_service() {
    let (mut service, mut observer, start) = init(EditPredictionProvider::NinetyFive);
    assert!(start);
    service.connect(NINETYFIVE_API_URL).unwrap();
    // Other settings do not matter.
    assert_eq!(observer.settings_changed(&mut service, EditPredictionProvider::NinetyFive), (false, false));
    assert!(service.is_enabled());
    // Another provider stops the service, this one starts it anew.
    assert_eq!(observer.settings_changed(&mut service, EditPredictionProvider::Other(1)), (false, true));
    assert!(!service.is_enabled());
    assert_eq!(observer.settings_changed(&mut service, EditPredictionProvider::Other(2)), (false, false));
    assert_eq!(observer.settings_changed(&mut service, EditPredictionProvider::NinetyFive), (true, false));
    assert_eq!(observer.provider, EditPredictionProvider::NinetyFive);

    let (service, observer, start) = init(EditPredictionProvider::Other(1));
    assert!(!start);
    assert!(matches!(service, NinetyFive::Starting));
    assert_eq!(observer.provider, EditPredictionProvider::Other(1));
}
