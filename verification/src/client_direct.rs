//! The client of a beacon: it joins the network as a prover and asks for the coinbase puzzle.

use vstd::prelude::*;

use rand::seq::SliceRandom;
use rand::Rng;
use snarkvm::prelude::{Block, FromBytes, Network, Testnet3, ToBytes};

use crate::account::Account;
use crate::codec::to_le_bytes;
use crate::link::{Dial, Fault, Inbound};
use crate::prover::ProverEvent;
use crate::puzzle::Solution;

verus! {

/// The port that the client listens on. It hangs up on everyone who calls.
pub const LISTENER_PORT: u16 = 4140;

/// The encoded header of the genesis block of the network, Testnet3, in hexadecimal.
pub const GENESIS_HEADER: &'static str = "000000000000000000000000000000000000000000000000000000000000000000c9002923103fa33989aa71a1259dbb9d5442f800cd2c3c9c27e0c1f2b7805a056d35046440dc7e3cd4938b8e091bf6c13ac75193fa7511c63c7c285d45a330056d35046440dc7e3cd4938b8e091bf6c13ac75193fa7511c63c7c285d45a33005000000000000000000000000000000000000000000000000000000000000000000030000000000000000000000000000c029f73d5405000000000000000000000000000000000000000000000000000000000000000000ff0f0000000000002000000000000000ff0f00000000000000742764000000000074276400000000";

/// The part that a node plays in the network.
#[derive(Clone, Copy, Debug, PartialEq, Eq, Structural)]
pub enum NodeType {
    Beacon,
    Client,
    Prover,
    Validator,
}

/// A message of the network. The challenge is of the kind that the proofs take.
pub enum BeaconMessage<C> {
    /// Opens a handshake: protocol version, listener port, node type, address and nonce.
    ChallengeRequest(u32, u16, NodeType, String, u64),
    /// Answers a challenge: encoded genesis header and a signature of the nonce.
    ChallengeResponse(Vec<u8>, String),
    /// Protocol version and node type, without block locators.
    Ping(u32, NodeType),
    /// Whether the peer is on a fork, if it can tell.
    Pong(Option<bool>),
    /// Asks for the puzzle.
    PuzzleRequest,
    /// The puzzle: epoch number, challenge of the epoch, and the proof target if the block
    /// header that states it could be read.
    PuzzleResponse(u32, C, Option<u64>),
    /// A solution of the puzzle.
    UnconfirmedSolution(Solution),
    /// Takes leave.
    Disconnect,
    /// Any other message.
    Other,
}

/// Why a message leads to nothing.
#[derive(Clone, Copy, Debug, PartialEq, Eq, Structural)]
pub enum Ignored {
    /// The message is of a kind that the client has no use for.
    Unhandled,
    /// The message could not be read.
    Unreadable,
}

/// What the client does next.
pub enum DirectAction<C> {
    /// Give the link up, wait and connect again.
    Retry(Fault),
    /// Send a message to the beacon.
    Send(BeaconMessage<C>),
    /// Sign this nonce and send the response to the challenge.
    SignChallenge(u64),
    /// Put a message into the client's own queue.
    Enqueue(BeaconMessage<C>),
    /// Hand two events to the prover, one after the other.
    Deliver(ProverEvent<C>, ProverEvent<C>),
    /// Nothing.
    Ignore(Ignored),
}

/// Whether there is a link, and whether the beacon has taken the client in.
pub struct DirectState {
    pub linked: bool,
    pub connected: bool,
}

/// What can happen to a session, as far as its state goes.
pub enum Moment {
    /// An attempt to connect ended.
    Dialed(Dial),
    /// The beacon has taken the client in.
    Confirmed,
    /// Something came in that does not touch the link.
    Kept,
    /// The link was given up over a message.
    Refused,
    /// The stream ended.
    Closed,
}

/// The session after `moment`.
pub open spec fn advance(state: DirectState, moment: Moment) -> DirectState {
    match moment {
        Moment::Dialed(Dial::Connected) => DirectState { linked: true, ..state },
        Moment::Dialed(_) => state,
        Moment::Confirmed => DirectState { connected: true, ..state },
        Moment::Kept => state,
        Moment::Refused => DirectState { linked: false, ..state },
        Moment::Closed => DirectState { linked: false, connected: false },
    }
}

/// The session after everything in `history`, in order.
pub open spec fn run(state: DirectState, history: Seq<Moment>) -> DirectState
    decreases history.len(),
{
    if history.len() == 0 {
        state
    } else {
        advance(run(state, history.drop_last()), history.last())
    }
}

/// What the client makes of a challenge request.
pub open spec fn challenge_fault(own: u32, version: u32, node_type: NodeType) -> Option<Fault> {
    if version < own {
        Some(Fault::OlderVersion)
    } else if node_type != NodeType::Beacon && node_type != NodeType::Validator {
        Some(Fault::WrongNodeType)
    } else {
        None
    }
}

/// Why `inbound` makes a client of version `own` that knows `genesis` give the link up, if it
/// does.
pub open spec fn fault_in<C>(
    own: u32,
    genesis: Seq<u8>,
    inbound: Inbound<BeaconMessage<C>>,
) -> Option<Fault> {
    match inbound {
        Inbound::Closed => Some(Fault::Closed),
        Inbound::Unreadable => None,
        Inbound::Message(message) => match message {
            BeaconMessage::ChallengeRequest(version, _, node_type, _, _) => challenge_fault(
                own,
                version,
                node_type,
            ),
            BeaconMessage::ChallengeResponse(header, _) => if header@ == genesis {
                None
            } else {
                Some(Fault::DifferentGenesis)
            },
            BeaconMessage::PuzzleResponse(_, _, None) => Some(Fault::BadBlockHeader),
            BeaconMessage::Disconnect => Some(Fault::Disconnected),
            _ => None,
        },
    }
}

/// What `inbound` is to the state of a session.
pub open spec fn moment_of<C>(
    own: u32,
    genesis: Seq<u8>,
    inbound: Inbound<BeaconMessage<C>>,
) -> Moment {
    match fault_in(own, genesis, inbound) {
        Some(Fault::Closed) => Moment::Closed,
        Some(_) => Moment::Refused,
        None => match inbound {
            Inbound::Message(BeaconMessage::Pong(_)) => Moment::Confirmed,
            _ => Moment::Kept,
        },
    }
}

/// `SliceRandom::choose` on the system's random numbers: one of the servers, unless there is
/// none.
#[verifier::external_body]
fn pick(servers: &Vec<String>) -> (server: Option<&String>)
    ensures
        server is None <==> servers@.len() == 0,
        server matches Some(server) ==> servers@.contains(*server),
{
    servers.choose(&mut rand::rngs::OsRng)
}

/// `Rng::gen` on the system's random numbers: any number.
#[verifier::external_body]
fn random_nonce() -> u64 {
    rand::rngs::OsRng.gen::<u64>()
}

/// `Block::from_bytes_le` on `Testnet3::genesis_bytes`, and `to_bytes_le` on that block's header:
/// a constant of the network, which [`GENESIS_HEADER`] spells.
#[verifier::external_body]
fn genesis_header() -> (header: Vec<u8>)
    ensures
        header@ == crate::codec::hex_bytes(GENESIS_HEADER@),
{
    let genesis = Block::<Testnet3>::from_bytes_le(Testnet3::genesis_bytes()).unwrap();
    genesis.header().to_bytes_le().unwrap()
}

/// A client: the account that it works for and the beacons that it may talk to.
pub struct DirectClient {
    pub account: Account,
    pub servers: Vec<String>,
}

impl DirectClient {
    /// A client of `servers` that works for `account`.
    pub fn init(account: Account, servers: Vec<String>) -> (client: DirectClient)
        ensures
            client == (DirectClient { account, servers }),
    {
        DirectClient { account, servers }
    }

    /// The server to connect to, chosen anew at random each time.
    pub fn choose_server(&self) -> (server: &String)
        requires
            self.servers@.len() > 0,
        ensures
            self.servers@.contains(*server),
    {
        pick(&self.servers).unwrap()
    }

    /// The message that opens a handshake with this nonce.
    pub fn challenge_request<C>(&self, version: u32, nonce: u64) -> (message: BeaconMessage<C>)
        ensures
            message matches BeaconMessage::ChallengeRequest(v, port, node_type, address, n)
                && v == version && port == LISTENER_PORT && node_type == NodeType::Prover
                && address@ == self.account.address@ && n == nonce,
    {
        BeaconMessage::ChallengeRequest(
            version,
            LISTENER_PORT,
            NodeType::Prover,
            self.account.address.clone(),
            nonce,
        )
    }
}

/// A session with the network, across all its links.
pub struct DirectSession {
    /// The version of the protocol that the client speaks.
    pub version: u32,
    /// The encoded header of the genesis block that the client knows.
    pub genesis_header: Vec<u8>,
    /// Whether there is a link.
    pub linked: bool,
    /// Whether a beacon has taken the client in. Puzzles are asked for only then.
    pub connected: bool,
}

impl DirectSession {
    /// Whether there is a link, and whether the beacon has taken the client in.
    pub open spec fn state(self) -> DirectState {
        DirectState { linked: self.linked, connected: self.connected }
    }

    /// Whether `other` speaks the same version and knows the same genesis block.
    pub open spec fn same_network(self, other: DirectSession) -> bool {
        &&& self.version == other.version
        &&& self.genesis_header == other.genesis_header
    }

    /// A session of the given version without a link, on the network's own genesis block.
    pub fn new(version: u32) -> (session: DirectSession)
        ensures
            session.version == version,
            session.genesis_header@ == crate::codec::hex_bytes(GENESIS_HEADER@),
            session.state() == (DirectState { linked: false, connected: false }),
    {
        DirectSession::with_genesis(version, genesis_header())
    }

    /// A session of the given version without a link, on a given genesis block.
    pub fn with_genesis(version: u32, genesis_header: Vec<u8>) -> (session: DirectSession)
        ensures
            session == (DirectSession {
                version,
                genesis_header,
                linked: false,
                connected: false,
            }),
    {
        DirectSession { version, genesis_header, linked: false, connected: false }
    }

    /// Takes in how an attempt to connect ended.
    pub fn dialed<C>(&mut self, client: &DirectClient, dial: Dial) -> (action: DirectAction<C>)
        requires
            !old(self).linked,
        ensures
            final(self).same_network(*old(self)),
            final(self).state() == advance(old(self).state(), Moment::Dialed(dial)),
            *final(self) == (DirectSession { linked: dial == Dial::Connected, ..*old(self) }),
            match dial {
                Dial::Connected => {
                    &&& action matches DirectAction::Send(
                        BeaconMessage::ChallengeRequest(version, port, node_type, address, _),
                    )
                    &&& version == old(self).version
                    &&& port == LISTENER_PORT
                    &&& node_type == NodeType::Prover
                    &&& address@ == client.account.address@
                },
                Dial::Failed => action == DirectAction::<C>::Retry(Fault::Unreachable),
                Dial::TimedOut => action == DirectAction::<C>::Retry(Fault::TimedOut),
            },
    {
        match dial {
            Dial::Connected => {
                self.linked = true;
                DirectAction::Send(client.challenge_request(self.version, random_nonce()))
            },
            Dial::Failed => DirectAction::Retry(Fault::Unreachable),
            Dial::TimedOut => DirectAction::Retry(Fault::TimedOut),
        }
    }

    /// Takes in what came on the link.
    pub fn received<C>(
        &mut self,
        client: &DirectClient,
        inbound: Inbound<BeaconMessage<C>>,
    ) -> (action: DirectAction<C>)
        requires
            old(self).linked,
        ensures
            final(self).same_network(*old(self)),
            final(self).state() == advance(
                old(self).state(),
                moment_of(old(self).version, old(self).genesis_header@, inbound),
            ),
            *final(self) == (DirectSession {
                linked: !(action is Retry),
                connected: match inbound {
                    Inbound::Closed => false,
                    Inbound::Message(BeaconMessage::Pong(_)) => true,
                    _ => old(self).connected,
                },
                ..*old(self)
            }),
            match inbound {
                Inbound::Closed => action == DirectAction::<C>::Retry(Fault::Closed),
                Inbound::Unreadable => action == DirectAction::<C>::Ignore(Ignored::Unreadable),
                Inbound::Message(
                    BeaconMessage::ChallengeRequest(version, _, node_type, _, nonce),
                ) => if version < old(self).version {
                    action == DirectAction::<C>::Retry(Fault::OlderVersion)
                } else if node_type == NodeType::Beacon || node_type == NodeType::Validator {
                    action == DirectAction::<C>::SignChallenge(nonce)
                } else {
                    action == DirectAction::<C>::Retry(Fault::WrongNodeType)
                },
                Inbound::Message(BeaconMessage::ChallengeResponse(header, _)) => if header@
                    == old(self).genesis_header@ {
                    action == DirectAction::<C>::Send(
                        BeaconMessage::Ping(old(self).version, NodeType::Prover),
                    )
                } else {
                    action == DirectAction::<C>::Retry(Fault::DifferentGenesis)
                },
                Inbound::Message(BeaconMessage::Ping(_, _)) => action == DirectAction::<C>::Send(
                    BeaconMessage::Pong(None),
                ),
                Inbound::Message(BeaconMessage::Pong(_)) => action == DirectAction::<C>::Enqueue(
                    BeaconMessage::PuzzleRequest,
                ),
                Inbound::Message(
                    BeaconMessage::PuzzleResponse(epoch_number, challenge, Some(target)),
                ) => {
                    &&& action matches DirectAction::Deliver(
                        first,
                        ProverEvent::NewWork(epoch, c, address),
                    )
                    &&& first == ProverEvent::<C>::NewTarget(target)
                    &&& epoch == epoch_number
                    &&& c == challenge
                    &&& address@ == client.account.address@
                },
                Inbound::Message(BeaconMessage::PuzzleResponse(_, _, None)) => action
                    == DirectAction::<C>::Retry(Fault::BadBlockHeader),
                Inbound::Message(BeaconMessage::Disconnect) => action == DirectAction::<C>::Retry(
                    Fault::Disconnected,
                ),
                _ => action == DirectAction::<C>::Ignore(Ignored::Unhandled),
            },
            match fault_in(old(self).version, old(self).genesis_header@, inbound) {
                Some(fault) => action == DirectAction::<C>::Retry(fault),
                None => match inbound {
                    Inbound::Message(BeaconMessage::ChallengeRequest(_, _, _, _, nonce)) => action
                        == DirectAction::<C>::SignChallenge(nonce),
                    Inbound::Message(BeaconMessage::ChallengeResponse(_, _)) => action
                        == DirectAction::<C>::Send(
                        BeaconMessage::Ping(old(self).version, NodeType::Prover),
                    ),
                    Inbound::Message(BeaconMessage::Ping(_, _)) => action == DirectAction::<
                        C,
                    >::Send(BeaconMessage::Pong(None)),
                    Inbound::Message(BeaconMessage::Pong(_)) => action == DirectAction::<
                        C,
                    >::Enqueue(BeaconMessage::PuzzleRequest),
                    Inbound::Message(
                        BeaconMessage::PuzzleResponse(epoch_number, challenge, Some(target)),
                    ) => {
                        &&& action matches DirectAction::Deliver(
                            first,
                            ProverEvent::NewWork(epoch, c, address),
                        )
                        &&& first == ProverEvent::<C>::NewTarget(target)
                        &&& epoch == epoch_number
                        &&& c == challenge
                        &&& address@ == client.account.address@
                    },
                    Inbound::Unreadable => action == DirectAction::<C>::Ignore(
                        Ignored::Unreadable,
                    ),
                    _ => action == DirectAction::<C>::Ignore(Ignored::Unhandled),
                },
            },
    {
        let message: BeaconMessage<C> = match inbound {
            Inbound::Closed => {
                self.connected = false;
                return self.give_up(Fault::Closed);
            },
            Inbound::Unreadable => return DirectAction::Ignore(Ignored::Unreadable),
            Inbound::Message(message) => message,
        };
        match message {
            BeaconMessage::ChallengeRequest(version, _, node_type, _, nonce) => {
                if version < self.version {
                    return self.give_up(Fault::OlderVersion);
                }
                if node_type != NodeType::Beacon && node_type != NodeType::Validator {
                    return self.give_up(Fault::WrongNodeType);
                }
                DirectAction::SignChallenge(nonce)
            },
            BeaconMessage::ChallengeResponse(header, _) => {
                let same: bool = header == self.genesis_header;
                proof {
                    if same {
                        assert(header@ =~= self.genesis_header@);
                    }
                }
                if !same {
                    return self.give_up(Fault::DifferentGenesis);
                }
                DirectAction::Send(BeaconMessage::Ping(self.version, NodeType::Prover))
            },
            BeaconMessage::Ping(_, _) => DirectAction::Send(BeaconMessage::Pong(None)),
            BeaconMessage::Pong(_) => {
                self.connected = true;
                DirectAction::Enqueue(BeaconMessage::PuzzleRequest)
            },
            BeaconMessage::PuzzleResponse(epoch_number, challenge, proof_target) => {
                match proof_target {
                    None => self.give_up(Fault::BadBlockHeader),
                    Some(target) => DirectAction::Deliver(
                        ProverEvent::NewTarget(target),
                        ProverEvent::NewWork(
                            epoch_number,
                            challenge,
                            client.account.address.clone(),
                        ),
                    ),
                }
            },
            BeaconMessage::Disconnect => self.give_up(Fault::Disconnected),
            _ => DirectAction::Ignore(Ignored::Unhandled),
        }
    }

    /// Gives the link up.
    fn give_up<C>(&mut self, fault: Fault) -> (action: DirectAction<C>)
        ensures
            final(self).same_network(*old(self)),
            final(self).state() == (DirectState { linked: false, ..old(self).state() }),
            action == DirectAction::<C>::Retry(fault),
    {
        self.linked = false;
        DirectAction::Retry(fault)
    }

    /// The response to a challenge with this nonce: the genesis header and the account's
    /// signature of the nonce's little-endian bytes. There is one unless the account has no private
    /// key.
    pub fn answer_challenge<C>(&self, client: &DirectClient, nonce: u64) -> (message: Option<
        BeaconMessage<C>,
    >)
        ensures
            message is Some <==> crate::account::parsed_private_key(
                client.account.private_key@,
            ) is Some,
            message matches Some(message) ==> {
                &&& message matches BeaconMessage::ChallengeResponse(header, signature)
                &&& header@ == self.genesis_header@
                &&& client.account.wf() ==> crate::account::signature_verifies(
                    client.account.address@,
                    crate::codec::le_bytes(nonce as nat, 8),
                    signature@,
                )
            },
    {
        proof {
            crate::codec::lemma_le_bytes_len(nonce as nat, 8);
        }
        match client.account.sign_bytes(&to_le_bytes(nonce)) {
            None => None,
            Some(signature) => Some(self.challenge_response(signature)),
        }
    }

    /// The response to a challenge with this signature.
    pub fn challenge_response<C>(&self, signature: String) -> (message: BeaconMessage<C>)
        ensures
            message matches BeaconMessage::ChallengeResponse(header, s) && header@
                == self.genesis_header@ && s == signature,
    {
        BeaconMessage::ChallengeResponse(self.genesis_header.clone(), signature)
    }

    /// Whether messages from the queue may be sent: only over a link, whose first message is the
    /// one that came with it.
    pub fn serves_queue(&self) -> (serves: bool)
        ensures
            serves <==> self.linked,
    {
        self.linked
    }

    /// What the client puts into its queue when it is time to ask for a puzzle.
    pub fn puzzle_request<C>(&self) -> (message: Option<BeaconMessage<C>>)
        ensures
            message == (if self.connected {
                Some(BeaconMessage::<C>::PuzzleRequest)
            } else {
                None
            }),
    {
        if self.connected {
            Some(BeaconMessage::PuzzleRequest)
        } else {
            None
        }
    }
}

/// A challenge request makes the client give the link up exactly when its sender speaks an older
/// version, or else is neither a beacon nor a validator.
pub proof fn law_challenge_faults<C>(
    own: u32,
    genesis: Seq<u8>,
    version: u32,
    port: u16,
    node_type: NodeType,
    address: String,
    nonce: u64,
)
    ensures
        ({
            let inbound = Inbound::Message(
                BeaconMessage::<C>::ChallengeRequest(version, port, node_type, address, nonce),
            );
            let welcome = node_type == NodeType::Beacon || node_type == NodeType::Validator;
            &&& fault_in(own, genesis, inbound) is None <==> version >= own && welcome
            &&& fault_in(own, genesis, inbound) == Some(Fault::OlderVersion) <==> version < own
            &&& fault_in(own, genesis, inbound) == Some(Fault::WrongNodeType) <==> version >= own
                && !welcome
        }),
{
}

/// A challenge response makes the client give the link up exactly when its sender has another
/// genesis header.
pub proof fn law_genesis_faults<C>(own: u32, genesis: Seq<u8>, header: Vec<u8>, signature: String)
    ensures
        ({
            let inbound = Inbound::Message(
                BeaconMessage::<C>::ChallengeResponse(header, signature),
            );
            &&& fault_in(own, genesis, inbound) is None <==> header@ == genesis
            &&& fault_in(own, genesis, inbound) == Some(Fault::DifferentGenesis) <==> header@
                != genesis
        }),
{
}

/// No puzzle is a fault, whatever its epoch, its challenge and its target are, as long as the block
/// header that states the target could be read. One whose header could not is.
pub proof fn law_puzzles_are_no_faults<C>(
    own: u32,
    genesis: Seq<u8>,
    epoch_number: u32,
    challenge: C,
    target: u64,
)
    ensures
        fault_in(
            own,
            genesis,
            Inbound::Message(
                BeaconMessage::PuzzleResponse(epoch_number, challenge, Some(target)),
            ),
        ) is None,
        fault_in(
            own,
            genesis,
            Inbound::Message(BeaconMessage::PuzzleResponse(epoch_number, challenge, None)),
        ) == Some(Fault::BadBlockHeader),
{
}

/// Apart from challenges, their responses and puzzles, the client gives a link up exactly when the
/// stream has ended or the peer takes its leave.
pub proof fn law_other_faults<C>(
    own: u32,
    genesis: Seq<u8>,
    inbound: Inbound<BeaconMessage<C>>,
)
    requires
        !(inbound matches Inbound::Message(BeaconMessage::ChallengeRequest(_, _, _, _, _))),
        !(inbound matches Inbound::Message(BeaconMessage::ChallengeResponse(_, _))),
        !(inbound matches Inbound::Message(BeaconMessage::PuzzleResponse(_, _, _))),
    ensures
        fault_in(own, genesis, inbound) == Some(Fault::Closed) <==> inbound is Closed,
        fault_in(own, genesis, inbound) == Some(Fault::Disconnected) <==> inbound
            == Inbound::Message(BeaconMessage::<C>::Disconnect),
        fault_in(own, genesis, inbound) is Some ==> inbound is Closed || inbound
            == Inbound::Message(BeaconMessage::<C>::Disconnect),
{
}

/// A session that receives a puzzle keeps its link and stays as connected as it was.
pub proof fn law_puzzles_keep_the_link<C>(
    state: DirectState,
    own: u32,
    genesis: Seq<u8>,
    epoch_number: u32,
    challenge: C,
    target: u64,
)
    ensures
        advance(
            state,
            moment_of(
                own,
                genesis,
                Inbound::Message(
                    BeaconMessage::PuzzleResponse(epoch_number, challenge, Some(target)),
                ),
            ),
        ) == state,
{
}

/// What comes in leaves the link alone exactly when it is no fault. Only the end of the stream takes
/// the client's place in the network away, and only a pong gives it one.
pub proof fn law_link_and_place<C>(
    state: DirectState,
    own: u32,
    genesis: Seq<u8>,
    inbound: Inbound<BeaconMessage<C>>,
)
    requires
        state.linked,
    ensures
        ({
            let after = advance(state, moment_of(own, genesis, inbound));
            &&& after.linked <==> fault_in(own, genesis, inbound) is None
            &&& after.connected <==> !(inbound is Closed) && (state.connected || (
            inbound matches Inbound::Message(BeaconMessage::Pong(_))))
        }),
{
}

/// An attempt to connect brings a link exactly when it succeeds or there was one, and never a place
/// in the network.
pub proof fn law_dialing_brings_a_link(state: DirectState, dial: Dial)
    ensures
        advance(state, Moment::Dialed(dial)).linked <==> state.linked || dial == Dial::Connected,
        advance(state, Moment::Dialed(dial)).connected == state.connected,
{
}

/// Whether a beacon took the client in at position `at` of `history` and no stream has ended
/// since.
pub open spec fn confirmed_since(history: Seq<Moment>, at: int) -> bool {
    &&& 0 <= at < history.len()
    &&& history[at] is Confirmed
    &&& forall|i: int| at < i < history.len() ==> !(#[trigger] history[i] is Closed)
}

/// A session that starts unconnected counts as connected, and so asks for puzzles, exactly when
/// a beacon has taken the client in and no stream has ended since. Links that the client gave up
/// over a message do not count as ended.
pub proof fn law_connected_since_confirmed(state: DirectState, history: Seq<Moment>)
    requires
        !state.connected,
    ensures
        run(state, history).connected <==> exists|at: int| confirmed_since(history, at),
    decreases history.len(),
{
    if history.len() > 0 {
        let before = history.drop_last();
        law_connected_since_confirmed(state, before);
        let end = history.len() - 1;
        match history.last() {
            Moment::Confirmed => {
                assert(confirmed_since(history, end));
            },
            Moment::Closed => {
                assert forall|at: int| !confirmed_since(history, at) by {
                    if 0 <= at < end {
                        assert(history[end] is Closed);
                    }
                }
            },
            _ => {
                if run(state, before).connected {
                    let at = choose|at: int| confirmed_since(before, at);
                    assert(history[at] == before[at]);
                    assert forall|i: int| at < i < history.len() implies !(
                    #[trigger] history[i] is Closed) by {
                        if i < end {
                            assert(!(before[i] is Closed));
                        }
                    }
                    assert(confirmed_since(history, at));
                } else {
                    assert forall|at: int| !confirmed_since(history, at) by {
                        if confirmed_since(history, at) {
                            assert(before[at] == history[at]);
                            assert forall|i: int| at < i < before.len() implies !(
                            #[trigger] before[i] is Closed) by {
                                assert(!(history[i] is Closed));
                            }
                            assert(confirmed_since(before, at));
                        }
                    }
                }
            },
        }
    }
}

/// Whether a connection came up at position `at` of `history` and has not been given up since.
pub open spec fn linked_since(history: Seq<Moment>, at: int) -> bool {
    &&& 0 <= at < history.len()
    &&& history[at] == Moment::Dialed(Dial::Connected)
    &&& forall|i: int|
        at < i < history.len() ==> !(#[trigger] history[i] is Closed || history[i] is Refused)
}

/// A session that starts without a link has one, and so serves its queue, exactly when a connection
/// came up, which the client greets, and neither the stream has ended nor the client has given the
/// link up over a message since.
pub proof fn law_linked_since_dialed(state: DirectState, history: Seq<Moment>)
    requires
        !state.linked,
    ensures
        run(state, history).linked <==> exists|at: int| linked_since(history, at),
    decreases history.len(),
{
    if history.len() > 0 {
        let before = history.drop_last();
        law_linked_since_dialed(state, before);
        let end = history.len() - 1;
        if history.last() == Moment::Dialed(Dial::Connected) {
            assert(linked_since(history, end));
        } else if history.last() is Closed || history.last() is Refused {
            assert forall|at: int| !linked_since(history, at) by {
                if 0 <= at < end {
                    assert(history[end] is Closed || history[end] is Refused);
                }
            }
        } else if run(state, before).linked {
            let at = choose|at: int| linked_since(before, at);
            assert(history[at] == before[at]);
            assert forall|i: int| at < i < history.len() implies !(#[trigger] history[i] is Closed
                || history[i] is Refused) by {
                if i < end {
                    assert(!(before[i] is Closed || before[i] is Refused));
                }
            }
            assert(linked_since(history, at));
        } else {
            assert forall|at: int| !linked_since(history, at) by {
                if linked_since(history, at) {
                    assert(before[at] == history[at]);
                    assert forall|i: int| at < i < before.len() implies !(
                    #[trigger] before[i] is Closed || before[i] is Refused) by {
                        assert(!(history[i] is Closed || history[i] is Refused));
                    }
                    assert(linked_since(before, at));
                }
            }
        }
    }
}

/// A prover that is handed the two events of a puzzle, in order, has the puzzle's proof target
/// and is on its epoch, unless it is on a newer one already.
pub proof fn law_puzzle_sets_target_and_epoch<C>(
    state: crate::prover::ProverState,
    target: u64,
    epoch_number: u32,
    challenge: C,
    address: String,
)
    ensures
        ({
            let first = ProverEvent::<C>::NewTarget(target);
            let second = ProverEvent::NewWork(epoch_number, challenge, address);
            let after = crate::prover::step(
                crate::prover::step(state, first.happening()),
                second.happening(),
            );
            &&& after.current_proof_target == target
            &&& after.current_epoch == if epoch_number > state.current_epoch {
                epoch_number
            } else {
                state.current_epoch
            }
        }),
{
}

} // verus!
