use aleo_prover::fake_server::{notification, submitted, template_path, FakeServer};
use aleo_prover::link::Inbound;
use aleo_prover::ProverMessage;

type Message = ProverMessage<u8>;

#[test]
fn template_files() {
    assert_eq!(template_path(0), "templates/403591");
    assert_eq!(template_path(9), "templates/403600");
    assert_eq!(template_path(19), "templates/403610");
}

#[test]
fn notifications() {
    assert!(matches!(notification(7u8), ProverMessage::Notify(7, u64::MAX)));
}

#[test]
fn templates_once_and_in_order() {
    let mut server = FakeServer::new();
    assert_eq!(server.next_template(), None);
    assert!(server.greeted(Inbound::Message(Message::Authorize)));
    let sent: Vec<Option<usize>> = (0..20).map(|_| server.next_template()).collect();
    assert_eq!(sent, (0..20).map(Some).collect::<Vec<_>>());
    assert_eq!(server.next_template(), None);
}

#[test]
fn unknown_provers_get_nothing() {
    for first in [
        Inbound::Message(Message::Submit(1)),
        Inbound::Message(Message::Other),
        Inbound::Unreadable,
        Inbound::Closed,
    ] {
        let mut server = FakeServer::new();
        assert!(!server.greeted(first));
        assert_eq!(server.next_template(), None);
    }
}

#[test]
fn submissions() {
    assert_eq!(submitted(&Inbound::Message(Message::Submit(403591))), Some(403591));
    assert_eq!(submitted(&Inbound::Message(Message::Authorize)), None);
    assert_eq!(submitted::<u8>(&Inbound::Closed), None);
}
