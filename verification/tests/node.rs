use aleo_prover::client_direct::NodeType;
use aleo_prover::link::{Dial, Fault, Inbound};
use aleo_prover::node::{Ignored, Node, NodeAction, NodeSession, OperatorMessage, SendMessage, State};
use std::collections::BTreeMap;

type Message = OperatorMessage<&'static str>;

fn node() -> Node {
    Node::init("aleo1worker".to_string(), "operator:1".to_string())
}

fn linked_node() -> NodeSession {
    let mut session = NodeSession::new(4096, vec![1], vec![2, 3]);
    session.dialed::<u8>(Dial::Connected);
    session
}

fn receive(session: &mut NodeSession, message: Message) -> NodeAction<&'static str> {
    session.received(&node(), Inbound::Message(message))
}

#[test]
fn node_fields() {
    assert_eq!(node().address, "aleo1worker");
    assert_eq!(node().operator, "operator:1");
    let queued = SendMessage { message: Message::PoolRegister("aleo1worker".to_string()) };
    assert!(matches!(queued.message, OperatorMessage::PoolRegister(_)));
}

#[test]
fn node_dialing() {
    let mut session = NodeSession::new(4096, vec![1], vec![2, 3]);
    assert!(matches!(
        session.dialed::<u8>(Dial::Failed),
        NodeAction::Retry(Fault::Unreachable)
    ));
    assert!(matches!(
        session.dialed::<u8>(Dial::TimedOut),
        NodeAction::Retry(Fault::TimedOut)
    ));
    assert!(!session.linked);
    assert!(matches!(
        session.dialed::<u8>(Dial::Connected),
        NodeAction::Send(OperatorMessage::ChallengeRequest(
            12,
            4096,
            NodeType::Prover,
            State::Ready,
            4132,
            _,
            0
        ))
    ));
    assert!(session.linked);
    assert!(matches!(
        session.challenge_request::<u8>(55),
        OperatorMessage::ChallengeRequest(12, 4096, NodeType::Prover, State::Ready, 4132, 55, 0)
    ));
}

#[test]
fn node_nonces_are_random() {
    let mut nonces = vec![];
    for _ in 0..2 {
        match NodeSession::new(0, vec![], vec![]).dialed::<u8>(Dial::Connected) {
            NodeAction::Send(OperatorMessage::ChallengeRequest(_, _, _, _, _, nonce, _)) => nonces.push(nonce),
            _ => panic!("no challenge request"),
        }
    }
    assert_ne!(nonces[0], nonces[1]);
}

#[test]
fn node_handshake() {
    let mut session = linked_node();
    match receive(
        &mut session,
        OperatorMessage::ChallengeRequest(11, 1, NodeType::Client, State::Other, 1, 2, 3),
    ) {
        NodeAction::Send(OperatorMessage::ChallengeResponse(header)) => assert_eq!(header, vec![2, 3]),
        _ => panic!("no response"),
    }
    match receive(&mut session, OperatorMessage::ChallengeResponse(vec![9])) {
        NodeAction::Send(OperatorMessage::Ping(12, 4096, NodeType::Prover, State::Ready, hash, header)) => {
            assert_eq!(hash, vec![1]);
            assert_eq!(header, vec![2, 3]);
        }
        _ => panic!("no ping"),
    }
    match receive(&mut session, OperatorMessage::Ping(1, 2, NodeType::Client, State::Other, vec![], vec![])) {
        NodeAction::Send(OperatorMessage::Pong(None, locators)) => {
            assert_eq!(locators, BTreeMap::from([(0, (vec![1], None))]))
        }
        _ => panic!("no pong"),
    }
    match receive(&mut session, OperatorMessage::Pong(None, BTreeMap::new())) {
        NodeAction::Send(OperatorMessage::PoolRegister(address)) => assert_eq!(address, "aleo1worker"),
        _ => panic!("no registration"),
    }
    assert!(session.linked);
}

#[test]
fn templates_are_delivered() {
    match receive(&mut linked_node(), OperatorMessage::PoolRequest(5, Some("template"))) {
        NodeAction::Deliver(work) => {
            assert_eq!(work.share_difficulty, 5);
            assert_eq!(work.block_template, "template");
        }
        _ => panic!("no work"),
    }
    assert!(matches!(
        receive(&mut linked_node(), OperatorMessage::PoolRequest(5, None)),
        NodeAction::Ignore(Ignored::BlockTemplate)
    ));
}

#[test]
fn other_operator_messages_are_ignored() {
    let mut session = linked_node();
    assert!(matches!(
        receive(&mut session, OperatorMessage::UnconfirmedBlock),
        NodeAction::Ignore(Ignored::UnconfirmedBlock)
    ));
    assert!(matches!(
        receive(&mut session, OperatorMessage::Other),
        NodeAction::Ignore(Ignored::Unhandled)
    ));
    assert!(matches!(
        receive(&mut session, OperatorMessage::PoolRegister(String::new())),
        NodeAction::Ignore(Ignored::Unhandled)
    ));
    assert!(matches!(
        session.received::<u8>(&node(), Inbound::Unreadable),
        NodeAction::Ignore(Ignored::Unreadable)
    ));
    assert!(session.linked);
}

#[test]
fn operator_closes() {
    let mut session = linked_node();
    assert!(session.serves_queue());
    assert!(matches!(
        session.received::<u8>(&node(), Inbound::Closed),
        NodeAction::Retry(Fault::Closed)
    ));
    assert!(!session.linked);
    assert!(!session.serves_queue());
    session.dialed::<u8>(Dial::TimedOut);
    assert!(!session.serves_queue());
    session.dialed::<u8>(Dial::Connected);
    assert!(session.serves_queue());
}
