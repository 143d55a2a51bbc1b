//! The client of a mining pool that speaks stratum.

use vstd::prelude::*;
use vstd::string::*;

use crate::codec::{decode_job_id, JobIdError};
use crate::link::{Dial, Fault, Inbound};

verus! {

/// A client: the address that it works for and the pool server that it talks to.
pub struct Client {
    pub address: String,
    pub server: String,
}

impl Client {
    /// A client of `server` that works for `address`.
    pub fn init(address: String, server: String) -> (client: Client)
        ensures
            client == (Client { address, server }),
    {
        Client { address, server }
    }
}

/// The result that a response carries.
#[derive(Clone, Copy, Debug, PartialEq, Eq, Structural)]
pub enum ResponseParams {
    /// A yes or a no.
    Bool(bool),
    /// Anything else.
    Other,
}

/// A stratum message.
pub enum StratumMessage {
    /// Opens a session: request id, user agent, protocol version and session to resume.
    Subscribe(u64, String, String, Option<String>),
    /// Names a worker: request id, worker name and password.
    Authorize(u64, String, String),
    /// Sets the difficulty that a share needs.
    SetTarget(u64),
    /// Hands out work: job id, block header root, four hashed leaves, and whether earlier jobs
    /// are void.
    Notify(String, String, String, String, String, String, bool),
    /// Answers a request with a result, or with the message of an error.
    Response(Option<ResponseParams>, Option<String>),
    /// Any other message.
    Other,
}

/// What the pool has for the prover.
pub enum PoolEvent {
    /// Shares need this difficulty from now on.
    NewTarget(u64),
    /// There is work: block height, block header root and hashed leaves.
    NewWork(u32, String, Vec<String>),
    /// A share was accepted or rejected, perhaps with a word on it.
    ShareResult(bool, Option<String>),
}

/// Why a message leads to nothing.
#[derive(Clone, Copy, Debug, PartialEq, Eq, Structural)]
pub enum Ignored {
    /// A share was answered with a plain no.
    ShareRefused,
    /// A response carries something else than a yes or a no.
    ResponseParams,
    /// A job id has this many bytes.
    JobIdLength(usize),
    /// The message is of a kind that the client has no use for.
    Unhandled,
    /// The message could not be read.
    Unreadable,
}

/// What the client does next.
pub enum ClientAction {
    /// Give the link up, wait and connect again.
    Retry(Fault),
    /// Send a message and wait for what comes in.
    Send(StratumMessage),
    /// The session is ready: serve the queue and wait for what comes in.
    Ready,
    /// Hand an event to the prover.
    Deliver(PoolEvent),
    /// Nothing.
    Ignore(Ignored),
}

/// How far a session has come.
#[derive(Clone, Copy, Debug, PartialEq, Eq, Structural)]
pub enum Phase {
    /// There is no link.
    Dialing,
    /// The client has asked for a session.
    Subscribing,
    /// The client has named its worker.
    Authorizing,
    /// The session is ready.
    Working,
}

/// What can happen to a session, as far as its phase and its request ids go.
pub enum Moment {
    Dialed(Dial),
    Message,
    Unreadable,
    Closed,
}

/// The id of the next request and the phase of a session.
pub struct SessionState {
    pub next_id: u64,
    pub phase: Phase,
}

/// The request id after `id`. Ids start again from zero behind the largest number.
pub open spec fn following_id(id: u64) -> u64 {
    if id == u64::MAX {
        0
    } else {
        (id + 1) as u64
    }
}

/// Whether the session sends a request of its own at `moment`.
pub open spec fn sends_request(state: SessionState, moment: Moment) -> bool {
    ||| state.phase == Phase::Dialing && moment == Moment::Dialed(Dial::Connected)
    ||| state.phase == Phase::Subscribing && moment is Message
}

/// The session after `moment`. It goes through its phases in order, one for each message, and
/// falls back to the first one when the link is lost or a greeting is not answered readably.
pub open spec fn advance(state: SessionState, moment: Moment) -> SessionState {
    let phase = match (state.phase, moment) {
        (Phase::Dialing, Moment::Dialed(Dial::Connected)) => Phase::Subscribing,
        (Phase::Dialing, _) => Phase::Dialing,
        (phase, Moment::Dialed(_)) => phase,
        (_, Moment::Closed) => Phase::Dialing,
        (Phase::Working, _) => Phase::Working,
        (_, Moment::Unreadable) => Phase::Dialing,
        (Phase::Subscribing, Moment::Message) => Phase::Authorizing,
        (Phase::Authorizing, Moment::Message) => Phase::Working,
    };
    let next_id = if sends_request(state, moment) {
        following_id(state.next_id)
    } else {
        state.next_id
    };
    SessionState { next_id, phase }
}

/// The session after everything in `history`, in order.
pub open spec fn run(state: SessionState, history: Seq<Moment>) -> SessionState
    decreases history.len(),
{
    if history.len() == 0 {
        state
    } else {
        advance(run(state, history.drop_last()), history.last())
    }
}

impl<M> Inbound<M> {
    /// What it is to the phase of a session.
    pub open spec fn moment(self) -> Moment {
        match self {
            Inbound::Message(_) => Moment::Message,
            Inbound::Unreadable => Moment::Unreadable,
            Inbound::Closed => Moment::Closed,
        }
    }
}

impl StratumMessage {
    /// Whether the message says what a message of its kind must: a response without a result
    /// carries an error, and the job id of work is hexadecimal.
    pub open spec fn is_sound(self) -> bool {
        match self {
            StratumMessage::Response(None, error) => error is Some,
            StratumMessage::Notify(job_id, _, _, _, _, _, _) => crate::codec::is_hex(job_id@),
            _ => true,
        }
    }

    /// Whether the message says what a message of its kind must.
    pub fn check_sound(&self) -> (sound: bool)
        ensures
            sound <==> self.is_sound(),
            sound <==> match self {
                StratumMessage::Response(result, error) => result is Some || error is Some,
                StratumMessage::Notify(job_id, _, _, _, _, _, _) => crate::codec::is_hex(job_id@),
                _ => true,
            },
    {
        match self {
            StratumMessage::Response(None, error) => error.is_some(),
            StratumMessage::Notify(job_id, _, _, _, _, _, _) => {
                match decode_job_id(job_id.as_str()) {
                    Err(JobIdError::NotHex) => false,
                    _ => true,
                }
            },
            _ => true,
        }
    }
}

/// Whether `action` is what a ready session does about `message`.
pub open spec fn answers(action: ClientAction, message: StratumMessage) -> bool {
    match message {
        StratumMessage::Response(Some(ResponseParams::Bool(true)), _) => action
            == ClientAction::Deliver(PoolEvent::ShareResult(true, None)),
        StratumMessage::Response(Some(ResponseParams::Bool(false)), _) => action
            == ClientAction::Ignore(Ignored::ShareRefused),
        StratumMessage::Response(Some(ResponseParams::Other), _) => action == ClientAction::Ignore(
            Ignored::ResponseParams,
        ),
        StratumMessage::Response(None, error) => action == ClientAction::Deliver(
            PoolEvent::ShareResult(false, error),
        ),
        StratumMessage::Notify(job_id, root, leaf_1, leaf_2, leaf_3, leaf_4, _) => {
            let bytes = crate::codec::hex_bytes(job_id@);
            if bytes.len() == crate::codec::JOB_ID_BYTES {
                &&& action matches ClientAction::Deliver(PoolEvent::NewWork(height, r, leaves))
                &&& height as nat == crate::codec::le_value(bytes)
                &&& r == root
                &&& leaves@ == seq![leaf_1, leaf_2, leaf_3, leaf_4]
            } else {
                action == ClientAction::Ignore(Ignored::JobIdLength(bytes.len() as usize))
            }
        },
        StratumMessage::SetTarget(target) => action == ClientAction::Deliver(
            PoolEvent::NewTarget(target),
        ),
        _ => action == ClientAction::Ignore(Ignored::Unhandled),
    }
}

/// What a ready session does about a message.
pub fn answer(message: StratumMessage) -> (action: ClientAction)
    requires
        message.is_sound(),
    ensures
        answers(action, message),
        message matches StratumMessage::SetTarget(target) ==> action == ClientAction::Deliver(
            PoolEvent::NewTarget(target),
        ),
        message matches StratumMessage::Notify(
            job_id,
            root,
            leaf_1,
            leaf_2,
            leaf_3,
            leaf_4,
            _,
        ) ==> if crate::codec::hex_bytes(job_id@).len() == 4 {
            &&& action matches ClientAction::Deliver(PoolEvent::NewWork(height, r, leaves))
            &&& height as nat == crate::codec::le_value(crate::codec::hex_bytes(job_id@))
            &&& r == root
            &&& leaves@ == seq![leaf_1, leaf_2, leaf_3, leaf_4]
        } else {
            &&& action matches ClientAction::Ignore(Ignored::JobIdLength(length))
            &&& length == crate::codec::hex_bytes(job_id@).len()
        },
        message matches StratumMessage::Response(result, error) ==> match result {
            None => action == ClientAction::Deliver(PoolEvent::ShareResult(false, error)),
            Some(ResponseParams::Bool(yes)) => if yes {
                action == ClientAction::Deliver(PoolEvent::ShareResult(true, None))
            } else {
                action == ClientAction::Ignore(Ignored::ShareRefused)
            },
            Some(ResponseParams::Other) => action == ClientAction::Ignore(Ignored::ResponseParams),
        },
        message is Subscribe || message is Authorize || message is Other ==> action
            == ClientAction::Ignore(Ignored::Unhandled),
{
    match message {
        StratumMessage::Response(Some(params), _) => match params {
            ResponseParams::Bool(result) => {
                if result {
                    ClientAction::Deliver(PoolEvent::ShareResult(result, None))
                } else {
                    ClientAction::Ignore(Ignored::ShareRefused)
                }
            },
            ResponseParams::Other => ClientAction::Ignore(Ignored::ResponseParams),
        },
        StratumMessage::Response(None, error) => ClientAction::Deliver(
            PoolEvent::ShareResult(false, error),
        ),
        StratumMessage::Notify(job_id, root, leaf_1, leaf_2, leaf_3, leaf_4, _) => {
            match decode_job_id(job_id.as_str()) {
                Ok(height) => {
                    let mut leaves: Vec<String> = Vec::new();
                    leaves.push(leaf_1);
                    leaves.push(leaf_2);
                    leaves.push(leaf_3);
                    leaves.push(leaf_4);
                    assert(leaves@ =~= seq![leaf_1, leaf_2, leaf_3, leaf_4]);
                    ClientAction::Deliver(PoolEvent::NewWork(height, root, leaves))
                },
                Err(JobIdError::Length(length)) => ClientAction::Ignore(
                    Ignored::JobIdLength(length),
                ),
                Err(JobIdError::NotHex) => ClientAction::Ignore(Ignored::Unhandled),
            }
        },
        StratumMessage::SetTarget(target) => ClientAction::Deliver(PoolEvent::NewTarget(target)),
        _ => ClientAction::Ignore(Ignored::Unhandled),
    }
}

/// A session with the pool, across all its links.
pub struct Session {
    pub next_id: u64,
    pub phase: Phase,
}

impl Session {
    /// The next request id and the phase.
    pub open spec fn state(self) -> SessionState {
        SessionState { next_id: self.next_id, phase: self.phase }
    }

    /// A session without a link.
    pub fn new() -> (session: Session)
        ensures
            session.state() == (SessionState { next_id: 1, phase: Phase::Dialing }),
    {
        Session { next_id: 1, phase: Phase::Dialing }
    }

    /// Takes in how an attempt to connect ended. The client is of the given version.
    pub fn dialed(&mut self, dial: Dial, version: &str) -> (action: ClientAction)
        requires
            old(self).phase == Phase::Dialing,
        ensures
            final(self).state() == advance(old(self).state(), Moment::Dialed(dial)),
            dial == Dial::Connected ==> final(self).phase == Phase::Subscribing
                && final(self).next_id == (old(self).next_id + 1) % 0x1_0000_0000_0000_0000,
            dial != Dial::Connected ==> *final(self) == *old(self),
            match dial {
                Dial::Connected => {
                    &&& action matches ClientAction::Send(
                        StratumMessage::Subscribe(id, user_agent, protocol, resumed),
                    )
                    &&& id == old(self).next_id
                    &&& user_agent@ == "HarukaProver/"@ + version@
                    &&& protocol@ == "AleoStratum/1.0.0"@
                    &&& resumed is None
                },
                Dial::Failed => action == ClientAction::Retry(Fault::Unreachable),
                Dial::TimedOut => action == ClientAction::Retry(Fault::TimedOut),
            },
    {
        match dial {
            Dial::Connected => {
                let id: u64 = self.take_id();
                let mut user_agent: String = "HarukaProver/".to_string();
                user_agent.append(version);
                self.phase = Phase::Subscribing;
                ClientAction::Send(
                    StratumMessage::Subscribe(
                        id,
                        user_agent,
                        "AleoStratum/1.0.0".to_string(),
                        None,
                    ),
                )
            },
            Dial::Failed => ClientAction::Retry(Fault::Unreachable),
            Dial::TimedOut => ClientAction::Retry(Fault::TimedOut),
        }
    }

    /// The id of a new request.
    fn take_id(&mut self) -> (id: u64)
        ensures
            id == old(self).next_id,
            final(self).state() == (SessionState {
                next_id: following_id(old(self).next_id),
                phase: old(self).phase,
            }),
    {
        let id: u64 = self.next_id;
        self.next_id = id.wrapping_add(1);
        id
    }

    /// Takes in what came on the link.
    pub fn received(&mut self, client: &Client, inbound: Inbound<StratumMessage>) -> (action:
        ClientAction)
        requires
            old(self).phase != Phase::Dialing,
            old(self).phase == Phase::Working ==> (inbound matches Inbound::Message(message)
                ==> message.is_sound()),
        ensures
            final(self).state() == advance(old(self).state(), inbound.moment()),
            final(self).next_id == if old(self).phase == Phase::Subscribing && inbound is Message {
                (old(self).next_id + 1) % 0x1_0000_0000_0000_0000
            } else {
                old(self).next_id as int
            },
            final(self).phase == match inbound {
                Inbound::Closed => Phase::Dialing,
                Inbound::Unreadable => if old(self).phase == Phase::Working {
                    Phase::Working
                } else {
                    Phase::Dialing
                },
                Inbound::Message(_) => if old(self).phase == Phase::Subscribing {
                    Phase::Authorizing
                } else {
                    Phase::Working
                },
            },
            match inbound {
                Inbound::Closed => action == ClientAction::Retry(Fault::Closed),
                Inbound::Unreadable => if old(self).phase == Phase::Working {
                    action == ClientAction::Ignore(Ignored::Unreadable)
                } else {
                    action == ClientAction::Retry(Fault::Unreadable)
                },
                Inbound::Message(message) => match old(self).phase {
                    Phase::Subscribing => {
                        &&& action matches ClientAction::Send(
                            StratumMessage::Authorize(id, worker, password),
                        )
                        &&& id == old(self).next_id
                        &&& worker@ == client.address@
                        &&& password@ == ""@
                    },
                    Phase::Authorizing => action == ClientAction::Ready,
                    _ => answers(action, message),
                },
            },
    {
        match inbound {
            Inbound::Closed => {
                self.phase = Phase::Dialing;
                ClientAction::Retry(Fault::Closed)
            },
            Inbound::Unreadable => match self.phase {
                Phase::Working => ClientAction::Ignore(Ignored::Unreadable),
                _ => {
                    self.phase = Phase::Dialing;
                    ClientAction::Retry(Fault::Unreadable)
                },
            },
            Inbound::Message(message) => match self.phase {
                Phase::Subscribing => {
                    let id: u64 = self.take_id();
                    self.phase = Phase::Authorizing;
                    ClientAction::Send(
                        StratumMessage::Authorize(id, client.address.clone(), "".to_string()),
                    )
                },
                Phase::Authorizing => {
                    self.phase = Phase::Working;
                    ClientAction::Ready
                },
                _ => answer(message),
            },
        }
    }

    /// Whether messages from the queue may be sent.
    pub fn serves_queue(&self) -> (serves: bool)
        ensures
            serves <==> self.phase == Phase::Working,
    {
        match self.phase {
            Phase::Working => true,
            _ => false,
        }
    }
}

/// Work whose job id spells four bytes in hexadecimal reaches the prover, whether or not it voids
/// earlier jobs: with the height that the bytes spell, the least significant one first, with its
/// root, and with its four leaves in order.
pub proof fn law_work_reaches_the_prover(
    action: ClientAction,
    job_id: String,
    root: String,
    leaves: Seq<String>,
    clean: bool,
)
    requires
        crate::codec::is_hex(job_id@),
        crate::codec::hex_bytes(job_id@).len() == 4,
        leaves.len() == 4,
        answers(
            action,
            StratumMessage::Notify(job_id, root, leaves[0], leaves[1], leaves[2], leaves[3], clean),
        ),
    ensures
        action matches ClientAction::Deliver(PoolEvent::NewWork(height, given_root, given_leaves))
            && given_root == root && given_leaves@ == leaves && height
            == crate::codec::hex_bytes(job_id@)[0] + 0x100 * crate::codec::hex_bytes(job_id@)[1]
            + 0x1_0000 * crate::codec::hex_bytes(job_id@)[2] + 0x100_0000
            * crate::codec::hex_bytes(job_id@)[3],
{
    let s = crate::codec::hex_bytes(job_id@);
    reveal_with_fuel(crate::codec::le_value, 5);
    assert(s.drop_first()[0] == s[1]);
    assert(s.drop_first().drop_first()[0] == s[2]);
    assert(s.drop_first().drop_first().drop_first()[0] == s[3]);
    assert(seq![leaves[0], leaves[1], leaves[2], leaves[3]] =~= leaves);
}

/// Whether work voids earlier jobs makes no difference to what a session does about it.
pub proof fn law_void_flag_makes_no_difference(
    action: ClientAction,
    job_id: String,
    root: String,
    leaf_1: String,
    leaf_2: String,
    leaf_3: String,
    leaf_4: String,
)
    ensures
        answers(
            action,
            StratumMessage::Notify(job_id, root, leaf_1, leaf_2, leaf_3, leaf_4, true),
        ) <==> answers(
            action,
            StratumMessage::Notify(job_id, root, leaf_1, leaf_2, leaf_3, leaf_4, false),
        ),
{
}

/// Work whose job id spells any other number of bytes is ignored, and the number is told.
pub proof fn law_other_job_ids_are_ignored(
    action: ClientAction,
    job_id: String,
    root: String,
    leaves: Seq<String>,
    clean: bool,
)
    requires
        crate::codec::hex_bytes(job_id@).len() != 4,
        crate::codec::hex_bytes(job_id@).len() <= usize::MAX,
        answers(
            action,
            StratumMessage::Notify(job_id, root, leaves[0], leaves[1], leaves[2], leaves[3], clean),
        ),
    ensures
        action matches ClientAction::Ignore(Ignored::JobIdLength(length)) && length
            == crate::codec::hex_bytes(job_id@).len(),
{
}

/// Every target reaches the prover as it is.
pub proof fn law_target_reaches_the_prover(action: ClientAction, target: u64)
    requires
        answers(action, StratumMessage::SetTarget(target)),
    ensures
        action matches ClientAction::Deliver(PoolEvent::NewTarget(given)) && given == target,
{
}

/// A share that was accepted reaches the prover as such and without a word, one that was answered
/// with an error as rejected and with the error's words, and nothing else that a response carries
/// reaches it.
pub proof fn law_share_results_reach_the_prover(
    action: ClientAction,
    result: Option<ResponseParams>,
    error: Option<String>,
)
    requires
        answers(action, StratumMessage::Response(result, error)),
    ensures
        result == Some(ResponseParams::Bool(true)) <==> action == ClientAction::Deliver(
            PoolEvent::ShareResult(true, None),
        ),
        result is None <==> (action matches ClientAction::Deliver(
            PoolEvent::ShareResult(accepted, words),
        ) && !accepted && words == error),
        result == Some(ResponseParams::Bool(false)) <==> action == ClientAction::Ignore(
            Ignored::ShareRefused,
        ),
        result == Some(ResponseParams::Other) <==> action == ClientAction::Ignore(
            Ignored::ResponseParams,
        ),
{
}

/// What a pool has no business to send is ignored.
pub proof fn law_other_messages_are_ignored(action: ClientAction, message: StratumMessage)
    requires
        message is Subscribe || message is Authorize || message is Other,
        answers(action, message),
    ensures
        action == ClientAction::Ignore(Ignored::Unhandled),
{
}

/// A session takes in every message that a pool may send: responses with a result or an error, work
/// whose job id is hexadecimal, and whatever is neither a response nor work.
pub proof fn law_sound_messages(message: StratumMessage)
    ensures
        message matches StratumMessage::Response(result, error) ==> (message.is_sound()
            <==> result is Some || error is Some),
        message matches StratumMessage::Notify(job_id, _, _, _, _, _, _) ==> (message.is_sound()
            <==> crate::codec::is_hex(job_id@)),
        !(message is Response) && !(message is Notify) ==> message.is_sound(),
{
}

/// A session goes through its phases in order: connected, answered once, answered twice. Only a link
/// that comes up begins it, nothing but the end of the stream ends it once it is ready, and before
/// that an answer that cannot be read does too.
pub proof fn law_phases_in_order(state: SessionState, dial: Dial)
    ensures
        state.phase == Phase::Dialing ==> (advance(state, Moment::Dialed(dial)).phase
            == Phase::Subscribing <==> dial == Dial::Connected),
        state.phase == Phase::Dialing && dial != Dial::Connected ==> advance(
            state,
            Moment::Dialed(dial),
        ) == state,
        state.phase == Phase::Subscribing ==> advance(state, Moment::Message).phase
            == Phase::Authorizing,
        state.phase == Phase::Authorizing ==> advance(state, Moment::Message).phase
            == Phase::Working,
        state.phase == Phase::Working ==> advance(state, Moment::Message) == state && advance(
            state,
            Moment::Unreadable,
        ) == state,
        advance(state, Moment::Closed).phase == Phase::Dialing,
        state.phase != Phase::Working ==> advance(state, Moment::Unreadable).phase
            == Phase::Dialing,
        state.phase == Phase::Dialing && dial == Dial::Connected ==> advance(
            state,
            Moment::Dialed(dial),
        ).next_id == (state.next_id + 1) % 0x1_0000_0000_0000_0000,
        state.phase == Phase::Subscribing ==> advance(state, Moment::Message).next_id == (
        state.next_id + 1) % 0x1_0000_0000_0000_0000,
        state.phase == Phase::Authorizing ==> advance(state, Moment::Message).next_id
            == state.next_id,
        advance(state, Moment::Closed).next_id == state.next_id,
        advance(state, Moment::Unreadable).next_id == state.next_id,
{
}

/// The ids of the requests that a session sends of its own during `history`, in order.
pub open spec fn ids_sent(state: SessionState, history: Seq<Moment>) -> Seq<u64>
    decreases history.len(),
{
    if history.len() == 0 {
        seq![]
    } else {
        let before = run(state, history.drop_last());
        let earlier = ids_sent(state, history.drop_last());
        if sends_request(before, history.last()) {
            earlier.push(before.next_id)
        } else {
            earlier
        }
    }
}

/// The requests of a session carry consecutive ids, from the first one on and across all its links.
/// Only behind the largest number the ids start again from zero.
pub proof fn law_request_ids_are_consecutive(state: SessionState, history: Seq<Moment>)
    ensures
        run(state, history).next_id as nat == (state.next_id + ids_sent(state, history).len())
            % 0x1_0000_0000_0000_0000,
        forall|i: int|
            0 <= i < ids_sent(state, history).len() ==> #[trigger] ids_sent(state, history)[i]
                == (state.next_id + i) % 0x1_0000_0000_0000_0000,
    decreases history.len(),
{
    if history.len() > 0 {
        law_request_ids_are_consecutive(state, history.drop_last());
    }
}

/// No two requests of a session share an id, as long as there are no more requests than ids.
pub proof fn law_request_ids_are_distinct(state: SessionState, history: Seq<Moment>, i: int, j: int)
    requires
        ids_sent(state, history).len() <= 0x1_0000_0000_0000_0000,
        0 <= i < j < ids_sent(state, history).len(),
    ensures
        ids_sent(state, history)[i] != ids_sent(state, history)[j],
{
    law_request_ids_are_consecutive(state, history);
}

/// The number of messages in `history` from position `from` on.
pub open spec fn messages_since(history: Seq<Moment>, from: int) -> nat
    decreases history.len(),
{
    if history.len() <= from || history.len() == 0 {
        0
    } else {
        messages_since(history.drop_last(), from) + if history.last() is Message {
            1nat
        } else {
            0nat
        }
    }
}

/// Whether a connection came up at position `at` of `history`, has not been lost since, and
/// brought at least `messages` messages.
pub open spec fn linked_since(history: Seq<Moment>, at: int, messages: nat) -> bool {
    &&& 0 <= at < history.len()
    &&& history[at] == Moment::Dialed(Dial::Connected)
    &&& forall|i: int| at < i < history.len() ==> !(#[trigger] history[i] is Closed)
    &&& messages_since(history, at + 1) >= messages
}

/// A link stays up over a moment that does not end it.
proof fn lemma_linked_longer(history: Seq<Moment>, at: int, messages: nat)
    requires
        history.len() > 0,
        linked_since(history.drop_last(), at, messages),
        !(history.last() is Closed),
    ensures
        linked_since(history, at, messages),
        history.last() is Message ==> linked_since(history, at, messages + 1),
{
    let before = history.drop_last();
    assert(history[at] == before[at]);
    assert forall|i: int| at < i < history.len() implies !(#[trigger] history[i] is Closed) by {
        if i < before.len() {
            assert(!(before[i] is Closed));
        }
    }
}

/// A session that starts without a link is ready, and so serves its queue, only over a link that
/// came up, was never lost since and brought an answer to both greetings. It has named its worker
/// only over one that brought an answer to the first.
pub proof fn law_ready_after_both_answers(state: SessionState, history: Seq<Moment>)
    requires
        state.phase == Phase::Dialing,
    ensures
        run(state, history).phase == Phase::Subscribing ==> exists|at: int|
            linked_since(history, at, 0),
        run(state, history).phase == Phase::Authorizing ==> exists|at: int|
            linked_since(history, at, 1),
        run(state, history).phase == Phase::Working ==> exists|at: int|
            linked_since(history, at, 2),
    decreases history.len(),
{
    if history.len() > 0 {
        let before = history.drop_last();
        law_ready_after_both_answers(state, before);
        let phase = run(state, before).phase;
        if phase == Phase::Dialing {
            if history.last() == Moment::Dialed(Dial::Connected) {
                assert(linked_since(history, history.len() - 1, 0));
            }
        } else if !(history.last() is Closed) {
            if phase == Phase::Subscribing {
                let at = choose|at: int| linked_since(before, at, 0);
                lemma_linked_longer(history, at, 0);
            } else if phase == Phase::Authorizing {
                let at = choose|at: int| linked_since(before, at, 1);
                lemma_linked_longer(history, at, 1);
            } else {
                let at = choose|at: int| linked_since(before, at, 2);
                lemma_linked_longer(history, at, 2);
            }
        }
    }
}

} // verus!
