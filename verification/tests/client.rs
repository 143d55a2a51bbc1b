use aleo_prover::client::{
    answer, Client, ClientAction, Ignored, Phase, PoolEvent, ResponseParams, Session, StratumMessage,
};
use aleo_prover::link::{Dial, Fault, Inbound};

fn client() -> Client {
    Client::init("aleo1worker".to_string(), "pool:1234".to_string())
}

fn ready() -> Session {
    let mut session = Session::new();
    session.dialed(Dial::Connected, "0.2.0");
    session.received(&client(), Inbound::Message(StratumMessage::Response(None, None)));
    session.received(&client(), Inbound::Message(StratumMessage::Response(None, None)));
    session
}

fn notify(job_id: &str) -> StratumMessage {
    StratumMessage::Notify(
        job_id.to_string(),
        "root".to_string(),
        "l1".to_string(),
        "l2".to_string(),
        "l3".to_string(),
        "l4".to_string(),
        true,
    )
}

#[test]
fn client_fields() {
    assert_eq!(client().address, "aleo1worker");
    assert_eq!(client().server, "pool:1234");
}

#[test]
fn handshake() {
    let mut session = Session::new();
    assert_eq!(session.phase, Phase::Dialing);
    match session.dialed(Dial::Connected, "0.2.0") {
        ClientAction::Send(StratumMessage::Subscribe(id, agent, protocol, resumed)) => {
            assert_eq!(id, 1);
            assert_eq!(agent, "HarukaProver/0.2.0");
            assert_eq!(protocol, "AleoStratum/1.0.0");
            assert_eq!(resumed, None);
        }
        _ => panic!("no subscription"),
    }
    assert!(!session.serves_queue());
    match session.received(&client(), Inbound::Message(StratumMessage::Response(None, None))) {
        ClientAction::Send(StratumMessage::Authorize(id, worker, password)) => {
            assert_eq!(id, 2);
            assert_eq!(worker, "aleo1worker");
            assert_eq!(password, "");
        }
        _ => panic!("no authorization"),
    }
    assert!(!session.serves_queue());
    assert!(matches!(
        session.received(&client(), Inbound::Message(StratumMessage::Response(None, None))),
        ClientAction::Ready
    ));
    assert!(session.serves_queue());
    assert_eq!(session.phase, Phase::Working);
}

#[test]
fn unexpected_answers_to_greetings_are_taken() {
    let mut session = Session::new();
    session.dialed(Dial::Connected, "1");
    assert!(matches!(
        session.received(&client(), Inbound::Message(notify("not hex"))),
        ClientAction::Send(StratumMessage::Authorize(2, _, _))
    ));
    assert!(matches!(
        session.received(&client(), Inbound::Message(StratumMessage::Other)),
        ClientAction::Ready
    ));
}

#[test]
fn failed_dials_are_retried() {
    let mut session = Session::new();
    assert!(matches!(session.dialed(Dial::Failed, "1"), ClientAction::Retry(Fault::Unreachable)));
    assert!(matches!(session.dialed(Dial::TimedOut, "1"), ClientAction::Retry(Fault::TimedOut)));
    assert_eq!(session.phase, Phase::Dialing);
    assert_eq!(session.next_id, 1);
}

#[test]
fn lost_greetings_are_retried() {
    for steps in 0..2 {
        for closed in [true, false] {
            let mut session = Session::new();
            session.dialed(Dial::Connected, "1");
            for _ in 0..steps {
                session.received(&client(), Inbound::Message(StratumMessage::Other));
            }
            if closed {
                assert!(matches!(
                    session.received(&client(), Inbound::Closed),
                    ClientAction::Retry(Fault::Closed)
                ));
            } else {
                assert!(matches!(
                    session.received(&client(), Inbound::Unreadable),
                    ClientAction::Retry(Fault::Unreadable)
                ));
            }
            assert_eq!(session.phase, Phase::Dialing);
        }
    }
}

#[test]
fn ready_after_both_answers() {
    let mut session = ready();
    assert!(matches!(
        session.received(&client(), Inbound::Unreadable),
        ClientAction::Ignore(Ignored::Unreadable)
    ));
    assert!(session.serves_queue());
    assert!(matches!(
        session.received(&client(), Inbound::Closed),
        ClientAction::Retry(Fault::Closed)
    ));
    assert!(!session.serves_queue());
    session.dialed(Dial::Connected, "1");
    assert!(!session.serves_queue());
}

#[test]
fn request_ids_are_consecutive() {
    let mut session = ready();
    assert_eq!(session.next_id, 3);
    session.received(&client(), Inbound::Closed);
    session.dialed(Dial::Failed, "1");
    assert!(matches!(
        session.dialed(Dial::Connected, "1"),
        ClientAction::Send(StratumMessage::Subscribe(3, _, _, _))
    ));
    assert!(matches!(
        session.received(&client(), Inbound::Message(StratumMessage::Other)),
        ClientAction::Send(StratumMessage::Authorize(4, _, _))
    ));
    assert_eq!(session.next_id, 5);
}

#[test]
fn request_ids_start_again() {
    let mut session = Session { next_id: u64::MAX, phase: Phase::Dialing };
    assert!(matches!(
        session.dialed(Dial::Connected, "1"),
        ClientAction::Send(StratumMessage::Subscribe(u64::MAX, _, _, _))
    ));
    assert_eq!(session.next_id, 0);
}

#[test]
fn share_answers() {
    let mut session = ready();
    assert!(matches!(
        session.received(
            &client(),
            Inbound::Message(StratumMessage::Response(Some(ResponseParams::Bool(true)), None))
        ),
        ClientAction::Deliver(PoolEvent::ShareResult(true, None))
    ));
    assert!(matches!(
        answer(StratumMessage::Response(Some(ResponseParams::Bool(false)), None)),
        ClientAction::Ignore(Ignored::ShareRefused)
    ));
    assert!(matches!(
        answer(StratumMessage::Response(Some(ResponseParams::Other), None)),
        ClientAction::Ignore(Ignored::ResponseParams)
    ));
    match answer(StratumMessage::Response(None, Some("low difficulty".to_string()))) {
        ClientAction::Deliver(PoolEvent::ShareResult(false, Some(message))) => {
            assert_eq!(message, "low difficulty")
        }
        _ => panic!("no rejection"),
    }
}

#[test]
fn work_is_delivered() {
    match answer(notify("87280600")) {
        ClientAction::Deliver(PoolEvent::NewWork(height, root, leaves)) => {
            assert_eq!(height, 403591);
            assert_eq!(root, "root");
            assert_eq!(leaves, vec!["l1", "l2", "l3", "l4"]);
        }
        _ => panic!("no work"),
    }
    assert!(matches!(
        answer(notify("872806")),
        ClientAction::Ignore(Ignored::JobIdLength(3))
    ));
}

#[test]
fn target_is_delivered() {
    assert!(matches!(
        answer(StratumMessage::SetTarget(77)),
        ClientAction::Deliver(PoolEvent::NewTarget(77))
    ));
}

#[test]
fn other_messages_are_ignored() {
    assert!(matches!(answer(StratumMessage::Other), ClientAction::Ignore(Ignored::Unhandled)));
    assert!(matches!(
        answer(StratumMessage::Authorize(1, String::new(), String::new())),
        ClientAction::Ignore(Ignored::Unhandled)
    ));
}

#[test]
fn sound_messages() {
    assert!(notify("87280600").check_sound());
    assert!(notify("87").check_sound());
    assert!(!notify("8").check_sound());
    assert!(!notify("zz").check_sound());
    assert!(!StratumMessage::Response(None, None).check_sound());
    assert!(StratumMessage::Response(None, Some(String::new())).check_sound());
    assert!(StratumMessage::Response(Some(ResponseParams::Other), None).check_sound());
    assert!(StratumMessage::SetTarget(1).check_sound());
}
