use std::str::FromStr;

use aleo_prover::account::Account;
use aleo_prover::client_direct::{
    BeaconMessage, DirectAction, DirectClient, DirectSession, Ignored, NodeType, GENESIS_HEADER,
};
use aleo_prover::link::{Dial, Fault, Inbound};
use aleo_prover::prover::{Prover, ProverEvent, ProverReaction};
use snarkvm::prelude::{Address, Block, FromBytes, Network, Signature, Testnet3, ToBytes};

const PRIVATE_KEY: &str = "APrivateKey1zkp8cC4jgHEBnbtu3xxs1Ndja2EMizcvTRDq5Nikdkukg1p";
const ADDRESS: &str = "aleo1wvgwnqvy46qq0zemj0k6sfp3zv0mp77rw97khvwuhac05yuwscxqmfyhwf";

type Message = BeaconMessage<&'static str>;

fn client() -> DirectClient {
    let account = match Account::from_private_key(PRIVATE_KEY) {
        Ok(account) => account,
        Err(error) => panic!("{:?}", error),
    };
    DirectClient::init(account, vec!["a:1".to_string(), "b:2".to_string(), "c:3".to_string()])
}

fn linked() -> DirectSession {
    let mut session = DirectSession::with_genesis(7, vec![1, 2, 3]);
    session.dialed::<u8>(&client(), Dial::Connected);
    session
}

fn receive(session: &mut DirectSession, message: Message) -> DirectAction<&'static str> {
    session.received(&client(), Inbound::Message(message))
}

fn challenge(version: u32, node_type: NodeType) -> Message {
    BeaconMessage::ChallengeRequest(version, 4133, node_type, "aleo1peer".to_string(), 99)
}

#[test]
fn servers_are_chosen() {
    let client = client();
    let mut seen = vec![];
    for _ in 0..200 {
        let server = client.choose_server().clone();
        assert!(client.servers.contains(&server));
        if !seen.contains(&server) {
            seen.push(server);
        }
    }
    assert_eq!(seen.len(), 3);
}

#[test]
fn dialing() {
    let mut session = DirectSession::with_genesis(7, vec![]);
    assert!(!session.serves_queue());
    assert!(matches!(
        session.dialed::<u8>(&client(), Dial::Failed),
        DirectAction::Retry(Fault::Unreachable)
    ));
    assert!(matches!(
        session.dialed::<u8>(&client(), Dial::TimedOut),
        DirectAction::Retry(Fault::TimedOut)
    ));
    assert!(!session.linked);
    match session.dialed::<u8>(&client(), Dial::Connected) {
        DirectAction::Send(BeaconMessage::ChallengeRequest(version, port, node_type, address, _)) => {
            assert_eq!(version, 7);
            assert_eq!(port, 4140);
            assert_eq!(node_type, NodeType::Prover);
            assert_eq!(address, ADDRESS);
        }
        _ => panic!("no challenge request"),
    }
    assert!(session.linked && !session.connected);
    assert!(session.serves_queue());
}

#[test]
fn nonces_are_random() {
    let mut nonces = vec![];
    for _ in 0..2 {
        let mut session = DirectSession::with_genesis(7, vec![]);
        match session.dialed::<u8>(&client(), Dial::Connected) {
            DirectAction::Send(BeaconMessage::ChallengeRequest(_, _, _, _, nonce)) => nonces.push(nonce),
            _ => panic!("no challenge request"),
        }
    }
    assert_ne!(nonces[0], nonces[1]);
}

#[test]
fn challenge_request_carries_nonce() {
    assert!(matches!(
        client().challenge_request::<u8>(9, 1234),
        BeaconMessage::ChallengeRequest(9, 4140, NodeType::Prover, _, 1234)
    ));
}

#[test]
fn challenges_of_beacons_and_validators_are_signed() {
    for node_type in [NodeType::Beacon, NodeType::Validator] {
        for version in [7, 8] {
            let mut session = linked();
            assert!(matches!(
                receive(&mut session, challenge(version, node_type)),
                DirectAction::SignChallenge(99)
            ));
            assert!(session.linked);
        }
    }
}

#[test]
fn challenges_of_others_are_refused() {
    let mut session = linked();
    assert!(matches!(
        receive(&mut session, challenge(6, NodeType::Beacon)),
        DirectAction::Retry(Fault::OlderVersion)
    ));
    assert!(!session.linked);
    assert!(matches!(
        receive(&mut linked(), challenge(6, NodeType::Prover)),
        DirectAction::Retry(Fault::OlderVersion)
    ));
    for node_type in [NodeType::Client, NodeType::Prover] {
        let mut session = linked();
        assert!(matches!(
            receive(&mut session, challenge(7, node_type)),
            DirectAction::Retry(Fault::WrongNodeType)
        ));
        assert!(!session.linked);
    }
}

#[test]
fn challenge_responses_verify() {
    let session = linked();
    match session.answer_challenge::<u8>(&client(), 0x0102_0304_0506_0708) {
        Some(BeaconMessage::ChallengeResponse(header, text)) => {
            assert_eq!(header, vec![1, 2, 3]);
            let signature = Signature::<Testnet3>::from_str(&text).unwrap();
            let address = Address::<Testnet3>::from_str(ADDRESS).unwrap();
            assert!(signature.verify_bytes(&address, &0x0102_0304_0506_0708u64.to_le_bytes()));
            assert!(!signature.verify_bytes(&address, &0x0102_0304_0506_0708u64.to_be_bytes()));
        }
        _ => panic!("no response"),
    }
    match session.challenge_response::<u8>("sign1x".to_string()) {
        BeaconMessage::ChallengeResponse(header, signature) => {
            assert_eq!(header, vec![1, 2, 3]);
            assert_eq!(signature, "sign1x");
        }
        _ => panic!("no response"),
    }
}

#[test]
fn no_challenge_response_without_private_key() {
    let mut client = client();
    client.account.private_key = "nonsense".to_string();
    assert!(linked().answer_challenge::<u8>(&client, 1).is_none());
}

#[test]
fn genesis_of_the_network() {
    let session = DirectSession::new(7);
    let block = Block::<Testnet3>::from_bytes_le(Testnet3::genesis_bytes()).unwrap();
    assert_eq!(session.genesis_header, block.header().to_bytes_le().unwrap());
    assert!(!session.genesis_header.is_empty());
    assert_eq!(session.version, 7);
    assert!(!session.linked && !session.connected);
    assert_eq!(session.genesis_header, hex::decode(GENESIS_HEADER).unwrap());
}

#[test]
fn genesis_is_compared() {
    let mut session = linked();
    assert!(matches!(
        receive(&mut session, BeaconMessage::ChallengeResponse(vec![1, 2, 3], String::new())),
        DirectAction::Send(BeaconMessage::Ping(7, NodeType::Prover))
    ));
    for other in [vec![], vec![1, 2], vec![1, 2, 4], vec![1, 2, 3, 4]] {
        let mut session = linked();
        assert!(matches!(
            receive(&mut session, BeaconMessage::ChallengeResponse(other, String::new())),
            DirectAction::Retry(Fault::DifferentGenesis)
        ));
        assert!(!session.linked);
    }
}

#[test]
fn pings_are_answered() {
    assert!(matches!(
        receive(&mut linked(), BeaconMessage::Ping(1, NodeType::Client)),
        DirectAction::Send(BeaconMessage::Pong(None))
    ));
}

#[test]
fn pong_connects() {
    let mut session = linked();
    assert!(session.puzzle_request::<u8>().is_none());
    assert!(matches!(
        receive(&mut session, BeaconMessage::Pong(Some(false))),
        DirectAction::Enqueue(BeaconMessage::PuzzleRequest)
    ));
    assert!(session.connected);
    assert!(matches!(session.puzzle_request::<u8>(), Some(BeaconMessage::PuzzleRequest)));
}

#[test]
fn connected_since_confirmed() {
    let mut session = linked();
    receive(&mut session, BeaconMessage::Pong(None));
    assert!(matches!(
        receive(&mut session, BeaconMessage::Disconnect),
        DirectAction::Retry(Fault::Disconnected)
    ));
    assert!(session.connected && !session.linked);
    session.dialed::<u8>(&client(), Dial::Connected);
    assert!(matches!(
        session.received::<u8>(&client(), Inbound::Closed),
        DirectAction::Retry(Fault::Closed)
    ));
    assert!(!session.connected && !session.linked);
}

#[test]
fn linked_since_dialed() {
    let mut session = linked();
    receive(&mut session, BeaconMessage::Pong(None));
    receive(&mut session, BeaconMessage::Other);
    assert!(session.linked);
    receive(&mut session, challenge(7, NodeType::Client));
    assert!(!session.linked);
    session.dialed::<u8>(&client(), Dial::Failed);
    assert!(!session.linked);
    session.dialed::<u8>(&client(), Dial::Connected);
    assert!(session.linked);
}

#[test]
fn puzzles_are_delivered() {
    let mut session = linked();
    match receive(&mut session, BeaconMessage::PuzzleResponse(12, "challenge", Some(34))) {
        DirectAction::Deliver(ProverEvent::NewTarget(34), ProverEvent::NewWork(12, "challenge", address)) => {
            assert_eq!(address, ADDRESS)
        }
        _ => panic!("no puzzle"),
    }
    assert!(session.linked);
}

#[test]
fn puzzle_sets_target_and_epoch() {
    let mut prover = Prover::init(4, 4, None, None);
    match receive(&mut linked(), BeaconMessage::PuzzleResponse(12, "challenge", Some(34))) {
        DirectAction::Deliver(first, second) => {
            prover.handle(first);
            assert!(matches!(prover.handle(second), ProverReaction::StartWork(_)));
        }
        _ => panic!("no puzzle"),
    }
    assert_eq!((prover.current_proof_target, prover.current_epoch), (34, 12));
}

#[test]
fn bad_block_header() {
    let mut session = linked();
    assert!(matches!(
        receive(&mut session, BeaconMessage::PuzzleResponse(12, "challenge", None)),
        DirectAction::Retry(Fault::BadBlockHeader)
    ));
    assert!(!session.linked);
}

#[test]
fn other_beacon_messages_are_ignored() {
    let mut session = linked();
    assert!(matches!(
        receive(&mut session, BeaconMessage::Other),
        DirectAction::Ignore(Ignored::Unhandled)
    ));
    assert!(matches!(
        receive(&mut session, BeaconMessage::PuzzleRequest),
        DirectAction::Ignore(Ignored::Unhandled)
    ));
    assert!(matches!(
        session.received::<u8>(&client(), Inbound::Unreadable),
        DirectAction::Ignore(Ignored::Unreadable)
    ));
    assert!(session.linked);
}
