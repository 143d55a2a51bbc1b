//! The client of an operator node: it greets the operator as a prover, registers with its pool
//! and takes block templates.

use std::collections::BTreeMap;

use vstd::prelude::*;

use rand::Rng;

use crate::client_direct::NodeType;
use crate::link::{Dial, Fault, Inbound};

verus! {

/// The version of the operator protocol.
pub const PROTOCOL_VERSION: u32 = 12;

/// The port that the node says it listens on.
pub const LISTENER_PORT: u16 = 4132;

/// What a node is busy with.
#[derive(Clone, Copy, Debug, PartialEq, Eq, Structural)]
pub enum State {
    /// It is ready.
    Ready,
    /// Anything else.
    Other,
}

/// The blocks that a node knows, by height: the hash of each and perhaps its encoded header.
pub type BlockLocators = BTreeMap<u32, (Vec<u8>, Option<Vec<u8>>)>;

/// A message of the operator protocol. The template is of the kind that the prover takes.
pub enum OperatorMessage<T> {
    /// Opens a handshake: protocol version, maximum fork depth, node type, state, listener
    /// port, nonce and cumulative weight.
    ChallengeRequest(u32, u32, NodeType, State, u16, u64, u128),
    /// Answers a challenge with the encoded genesis header.
    ChallengeResponse(Vec<u8>),
    /// Protocol version, maximum fork depth, node type, state, block hash and encoded header.
    Ping(u32, u32, NodeType, State, Vec<u8>, Vec<u8>),
    /// Whether the peer is on a fork, if it can tell, and the blocks that the node knows.
    Pong(Option<bool>, BlockLocators),
    /// Registers an address with the pool.
    PoolRegister(String),
    /// Hands out work: the difficulty of a share, and the block template if it could be read.
    PoolRequest(u64, Option<T>),
    /// A block that is not confirmed yet.
    UnconfirmedBlock,
    /// Any other message.
    Other,
}

/// A message that waits to be sent to the operator.
pub struct SendMessage<T> {
    pub message: OperatorMessage<T>,
}

/// Work for the prover: the difficulty of a share and the block template.
pub struct ProverWork<T> {
    pub share_difficulty: u64,
    pub block_template: T,
}

/// Why a message leads to nothing.
#[derive(Clone, Copy, Debug, PartialEq, Eq, Structural)]
pub enum Ignored {
    /// The block template could not be read.
    BlockTemplate,
    /// Unconfirmed blocks are of no use to a prover.
    UnconfirmedBlock,
    /// The message is of a kind that the node has no use for.
    Unhandled,
    /// The message could not be read.
    Unreadable,
}

/// What the node does next.
pub enum NodeAction<T> {
    /// Give the link up, wait and connect again.
    Retry(Fault),
    /// Send a message to the operator.
    Send(OperatorMessage<T>),
    /// Hand work to the prover.
    Deliver(ProverWork<T>),
    /// Nothing.
    Ignore(Ignored),
}

/// What can happen to a session, as far as its link goes.
pub enum Moment {
    /// An attempt to connect ended.
    Dialed(Dial),
    /// Something came in.
    Kept,
    /// The stream ended.
    Closed,
}

/// Whether a session has a link after `moment`.
pub open spec fn advance(linked: bool, moment: Moment) -> bool {
    match moment {
        Moment::Dialed(Dial::Connected) => true,
        Moment::Dialed(_) => linked,
        Moment::Kept => linked,
        Moment::Closed => false,
    }
}

/// Whether a session has a link after everything in `history`, in order.
pub open spec fn run(linked: bool, history: Seq<Moment>) -> bool
    decreases history.len(),
{
    if history.len() == 0 {
        linked
    } else {
        advance(run(linked, history.drop_last()), history.last())
    }
}

/// What `inbound` is to the link of a session.
pub open spec fn moment_of<T>(inbound: Inbound<OperatorMessage<T>>) -> Moment {
    if inbound is Closed {
        Moment::Closed
    } else {
        Moment::Kept
    }
}

/// `Rng::gen` on the thread's random numbers: any number.
#[verifier::external_body]
fn random_nonce() -> u64 {
    rand::thread_rng().gen::<u64>()
}

/// A node: the address that it works for and the operator that it talks to.
pub struct Node {
    pub address: String,
    pub operator: String,
}

impl Node {
    /// A node of `operator` that works for `address`.
    pub fn init(address: String, operator: String) -> (node: Node)
        ensures
            node == (Node { address, operator }),
    {
        Node { address, operator }
    }
}

/// The network that a node is on, and whether it has a link.
pub struct NodeSession {
    /// The maximum fork depth of the network.
    pub fork_depth: u32,
    /// The hash of the genesis block.
    pub genesis_hash: Vec<u8>,
    /// The encoded header of the genesis block.
    pub genesis_header: Vec<u8>,
    /// Whether there is a link.
    pub linked: bool,
}

impl NodeSession {
    /// Whether `other` is on the same network.
    pub open spec fn same_network(self, other: NodeSession) -> bool {
        &&& self.fork_depth == other.fork_depth
        &&& self.genesis_hash == other.genesis_hash
        &&& self.genesis_header == other.genesis_header
    }

    /// Whether `locators` name the genesis block, by its hash alone, and nothing else.
    pub open spec fn locate_genesis(self, locators: BlockLocators) -> bool {
        &&& locators@.dom() == set![0u32]
        &&& locators@[0].0@ == self.genesis_hash@
        &&& locators@[0].1 is None
    }

    /// A session without a link.
    pub fn new(fork_depth: u32, genesis_hash: Vec<u8>, genesis_header: Vec<u8>) -> (session:
        NodeSession)
        ensures
            session == (NodeSession { fork_depth, genesis_hash, genesis_header, linked: false }),
    {
        NodeSession { fork_depth, genesis_hash, genesis_header, linked: false }
    }

    /// The message that opens a handshake with this nonce.
    pub fn challenge_request<T>(&self, nonce: u64) -> (message: OperatorMessage<T>)
        ensures
            message == OperatorMessage::<T>::ChallengeRequest(
                PROTOCOL_VERSION,
                self.fork_depth,
                NodeType::Prover,
                State::Ready,
                LISTENER_PORT,
                nonce,
                0,
            ),
    {
        OperatorMessage::ChallengeRequest(
            PROTOCOL_VERSION,
            self.fork_depth,
            NodeType::Prover,
            State::Ready,
            LISTENER_PORT,
            nonce,
            0,
        )
    }

    /// The blocks that the node knows: the genesis block alone.
    fn genesis_locators(&self) -> (locators: BlockLocators)
        ensures
            self.locate_genesis(locators),
    {
        broadcast use vstd::std_specs::btree::group_btree_axioms;

        let mut locators: BlockLocators = BTreeMap::new();
        let _none: Option<(Vec<u8>, Option<Vec<u8>>)> = locators.insert(
            0,
            (self.genesis_hash.clone(), None),
        );
        proof {
            assert(locators@.dom() =~= set![0u32]);
        }
        locators
    }

    /// Takes in how an attempt to connect ended.
    pub fn dialed<T>(&mut self, dial: Dial) -> (action: NodeAction<T>)
        requires
            !old(self).linked,
        ensures
            final(self).same_network(*old(self)),
            final(self).linked == advance(old(self).linked, Moment::Dialed(dial)),
            *final(self) == (NodeSession { linked: dial == Dial::Connected, ..*old(self) }),
            match dial {
                Dial::Connected => {
                    &&& action matches NodeAction::Send(
                        OperatorMessage::ChallengeRequest(
                            version,
                            depth,
                            node_type,
                            state,
                            port,
                            _,
                            weight,
                        ),
                    )
                    &&& version == PROTOCOL_VERSION
                    &&& depth == old(self).fork_depth
                    &&& node_type == NodeType::Prover
                    &&& state == State::Ready
                    &&& port == LISTENER_PORT
                    &&& weight == 0
                },
                Dial::Failed => action == NodeAction::<T>::Retry(Fault::Unreachable),
                Dial::TimedOut => action == NodeAction::<T>::Retry(Fault::TimedOut),
            },
    {
        match dial {
            Dial::Connected => {
                self.linked = true;
                NodeAction::Send(self.challenge_request(random_nonce()))
            },
            Dial::Failed => NodeAction::Retry(Fault::Unreachable),
            Dial::TimedOut => NodeAction::Retry(Fault::TimedOut),
        }
    }

    /// Whether messages from the queue may be sent: only over a link, whose first message is the
    /// one that came with it.
    pub fn serves_queue(&self) -> (serves: bool)
        ensures
            serves <==> self.linked,
    {
        self.linked
    }

    /// Takes in what came on the link.
    pub fn received<T>(&mut self, node: &Node, inbound: Inbound<OperatorMessage<T>>) -> (action:
        NodeAction<T>)
        requires
            old(self).linked,
        ensures
            final(self).same_network(*old(self)),
            final(self).linked == advance(old(self).linked, moment_of(inbound)),
            *final(self) == (NodeSession { linked: !(inbound is Closed), ..*old(self) }),
            inbound matches Inbound::Message(OperatorMessage::Ping(_, _, _, _, _, _)) ==> {
                &&& action matches NodeAction::Send(OperatorMessage::Pong(_, locators))
                &&& forall|height: u32| #[trigger]
                    locators@.dom().contains(height) <==> height == 0
                &&& locators@[0].0@ == old(self).genesis_hash@
                &&& locators@[0].1 is None
            },
            match inbound {
                Inbound::Closed => action == NodeAction::<T>::Retry(Fault::Closed),
                Inbound::Unreadable => action == NodeAction::<T>::Ignore(Ignored::Unreadable),
                Inbound::Message(OperatorMessage::ChallengeRequest(_, _, _, _, _, _, _)) => {
                    &&& action matches NodeAction::Send(OperatorMessage::ChallengeResponse(header))
                    &&& header@ == old(self).genesis_header@
                },
                Inbound::Message(OperatorMessage::ChallengeResponse(_)) => {
                    &&& action matches NodeAction::Send(
                        OperatorMessage::Ping(version, depth, node_type, state, hash, header),
                    )
                    &&& version == PROTOCOL_VERSION
                    &&& depth == old(self).fork_depth
                    &&& node_type == NodeType::Prover
                    &&& state == State::Ready
                    &&& hash@ == old(self).genesis_hash@
                    &&& header@ == old(self).genesis_header@
                },
                Inbound::Message(OperatorMessage::Ping(_, _, _, _, _, _)) => {
                    &&& action matches NodeAction::Send(OperatorMessage::Pong(fork, locators))
                    &&& fork is None
                    &&& old(self).locate_genesis(locators)
                },
                Inbound::Message(OperatorMessage::Pong(_, _)) => {
                    &&& action matches NodeAction::Send(OperatorMessage::PoolRegister(address))
                    &&& address@ == node.address@
                },
                Inbound::Message(OperatorMessage::PoolRequest(share_difficulty, template)) => {
                    match template {
                        Some(block_template) => action == NodeAction::Deliver(
                            ProverWork { share_difficulty, block_template },
                        ),
                        None => action == NodeAction::<T>::Ignore(Ignored::BlockTemplate),
                    }
                },
                Inbound::Message(OperatorMessage::UnconfirmedBlock) => action == NodeAction::<
                    T,
                >::Ignore(Ignored::UnconfirmedBlock),
                Inbound::Message(_) => action == NodeAction::<T>::Ignore(Ignored::Unhandled),
            },
    {
        let message: OperatorMessage<T> = match inbound {
            Inbound::Closed => {
                self.linked = false;
                return NodeAction::Retry(Fault::Closed);
            },
            Inbound::Unreadable => return NodeAction::Ignore(Ignored::Unreadable),
            Inbound::Message(message) => message,
        };
        match message {
            OperatorMessage::ChallengeRequest(_, _, _, _, _, _, _) => NodeAction::Send(
                OperatorMessage::ChallengeResponse(self.genesis_header.clone()),
            ),
            OperatorMessage::ChallengeResponse(_) => NodeAction::Send(
                OperatorMessage::Ping(
                    PROTOCOL_VERSION,
                    self.fork_depth,
                    NodeType::Prover,
                    State::Ready,
                    self.genesis_hash.clone(),
                    self.genesis_header.clone(),
                ),
            ),
            OperatorMessage::Ping(_, _, _, _, _, _) => NodeAction::Send(
                OperatorMessage::Pong(None, self.genesis_locators()),
            ),
            OperatorMessage::Pong(_, _) => NodeAction::Send(
                OperatorMessage::PoolRegister(node.address.clone()),
            ),
            OperatorMessage::PoolRequest(share_difficulty, template) => match template {
                Some(block_template) => NodeAction::Deliver(
                    ProverWork { share_difficulty, block_template },
                ),
                None => NodeAction::Ignore(Ignored::BlockTemplate),
            },
            OperatorMessage::UnconfirmedBlock => NodeAction::Ignore(Ignored::UnconfirmedBlock),
            _ => NodeAction::Ignore(Ignored::Unhandled),
        }
    }
}

/// A session has a link from a connection on until the stream ends. Nothing else brings or takes one.
pub proof fn law_link_lasts_until_closed<T>(
    linked: bool,
    dial: Dial,
    inbound: Inbound<OperatorMessage<T>>,
)
    ensures
        advance(linked, Moment::Dialed(dial)) <==> linked || dial == Dial::Connected,
        advance(linked, moment_of(inbound)) <==> linked && !(inbound is Closed),
{
}

/// The blocks that a node names are the genesis block, by its hash and without its header.
pub proof fn law_only_genesis_is_located(session: NodeSession, locators: BlockLocators, height: u32)
    requires
        session.locate_genesis(locators),
    ensures
        locators@.dom().contains(height) <==> height == 0,
        locators@[0].0@ == session.genesis_hash@,
        locators@[0].1 is None,
{
}

/// Whether a connection came up at position `at` of `history` and its stream has not ended since.
pub open spec fn linked_since(history: Seq<Moment>, at: int) -> bool {
    &&& 0 <= at < history.len()
    &&& history[at] == Moment::Dialed(Dial::Connected)
    &&& forall|i: int| at < i < history.len() ==> !(#[trigger] history[i] is Closed)
}

/// A session that starts without a link has one, and so serves its queue, exactly when a connection
/// came up, which the node greets, and its stream has not ended since.
pub proof fn law_linked_since_dialed(history: Seq<Moment>)
    ensures
        run(false, history) <==> exists|at: int| linked_since(history, at),
    decreases history.len(),
{
    if history.len() > 0 {
        let before = history.drop_last();
        law_linked_since_dialed(before);
        let end = history.len() - 1;
        if history.last() == Moment::Dialed(Dial::Connected) {
            assert(linked_since(history, end));
        } else if history.last() is Closed {
            assert forall|at: int| !linked_since(history, at) by {
                if 0 <= at < end {
                    assert(history[end] is Closed);
                }
            }
        } else if run(false, before) {
            let at = choose|at: int| linked_since(before, at);
            assert(history[at] == before[at]);
            assert forall|i: int| at < i < history.len() implies !(
            #[trigger] history[i] is Closed) by {
                if i < end {
                    assert(!(before[i] is Closed));
                }
            }
            assert(linked_since(history, at));
        } else {
            assert forall|at: int| !linked_since(history, at) by {
                if linked_since(history, at) {
                    assert(before[at] == history[at]);
                    assert forall|i: int| at < i < before.len() implies !(
                    #[trigger] before[i] is Closed) by {
                        assert(!(history[i] is Closed));
                    }
                    assert(linked_since(before, at));
                }
            }
        }
    }
}

} // verus!
