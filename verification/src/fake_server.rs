//! A pool server that plays back recorded block templates, to try the prover against.

use vstd::prelude::*;
use vstd::string::*;

use crate::link::Inbound;
use crate::text::append_decimal;

verus! {

/// The number of recorded templates.
pub const TEMPLATE_COUNT: usize = 20;

/// The block height of the first recorded template.
pub const FIRST_HEIGHT: u64 = 403591;

/// The port of the server.
pub const PORT: u16 = 9090;

/// A message between the server and the prover.
pub enum ProverMessage<T> {
    /// The prover introduces itself.
    Authorize,
    /// Work: a block template and the difficulty of a share.
    Notify(T, u64),
    /// A share for a block height.
    Submit(u32),
    /// Any other message.
    Other,
}

/// The file that holds a recorded template.
pub fn template_path(index: usize) -> (path: String)
    requires
        index < TEMPLATE_COUNT,
    ensures
        path@ == "templates/"@ + crate::text::decimal((FIRST_HEIGHT + index) as nat),
{
    let mut path: String = "templates/".to_string();
    append_decimal(&mut path, FIRST_HEIGHT + index as u64);
    path
}

/// The message that hands a template to the prover, as work of the lowest difficulty.
pub fn notification<T>(template: T) -> (message: ProverMessage<T>)
    ensures
        message == ProverMessage::Notify(template, u64::MAX),
{
    ProverMessage::Notify(template, u64::MAX)
}

/// The block height of the share that came in, if one did.
pub fn submitted<T>(inbound: &Inbound<ProverMessage<T>>) -> (height: Option<u32>)
    ensures
        height == match *inbound {
            Inbound::Message(ProverMessage::Submit(height)) => Some(height),
            _ => None,
        },
{
    match inbound {
        Inbound::Message(ProverMessage::Submit(height)) => Some(*height),
        _ => None,
    }
}

/// A server with one prover.
pub struct FakeServer {
    /// Whether the prover has introduced itself.
    pub authorized: bool,
    /// The number of templates sent.
    pub sent: usize,
}

impl FakeServer {
    /// A server whose prover has not said anything yet.
    pub fn new() -> (server: FakeServer)
        ensures
            server == (FakeServer { authorized: false, sent: 0 }),
    {
        FakeServer { authorized: false, sent: 0 }
    }

    /// Takes in the first thing that the prover says, which must be its introduction.
    pub fn greeted<T>(&mut self, first: Inbound<ProverMessage<T>>) -> (authorized: bool)
        ensures
            authorized <==> first == Inbound::Message(ProverMessage::<T>::Authorize),
            *final(self) == (FakeServer { authorized, sent: old(self).sent }),
    {
        self.authorized = match first {
            Inbound::Message(ProverMessage::Authorize) => true,
            _ => false,
        };
        self.authorized
    }

    /// Whether there is a template to send: not before the prover has introduced itself, nor
    /// after the last one.
    pub open spec fn has_next(self) -> bool {
        self.authorized && self.sent < TEMPLATE_COUNT
    }

    /// The server after it was asked for the next template.
    pub open spec fn after_next(self) -> FakeServer {
        if self.has_next() {
            FakeServer { authorized: self.authorized, sent: (self.sent + 1) as usize }
        } else {
            self
        }
    }

    /// The template to send next, if there is one.
    pub fn next_template(&mut self) -> (index: Option<usize>)
        ensures
            index == (if old(self).has_next() {
                Some(old(self).sent)
            } else {
                None
            }),
            *final(self) == old(self).after_next(),
            index is Some <==> old(self).authorized && old(self).sent < 20,
            index matches Some(index) ==> index == old(self).sent && *final(self) == (FakeServer {
                authorized: true,
                sent: (index + 1) as usize,
            }),
            index is None ==> *final(self) == *old(self),
    {
        if !self.authorized || self.sent >= TEMPLATE_COUNT {
            return None;
        }
        let index: usize = self.sent;
        self.sent = index + 1;
        Some(index)
    }
}

/// The templates that a server hands out when it is asked `calls` times, in order.
pub open spec fn handed_out(server: FakeServer, calls: nat) -> Seq<usize>
    decreases calls,
{
    if calls == 0 {
        seq![]
    } else if server.has_next() {
        seq![server.sent] + handed_out(server.after_next(), (calls - 1) as nat)
    } else {
        handed_out(server.after_next(), (calls - 1) as nat)
    }
}

/// To a prover that has introduced itself the server hands out each template that is left, once
/// and in order, and to any other none, however often it is asked.
pub proof fn law_templates_once_in_order(server: FakeServer, calls: nat)
    requires
        server.sent <= TEMPLATE_COUNT,
    ensures
        !server.authorized ==> handed_out(server, calls).len() == 0,
        server.authorized ==> handed_out(server, calls).len() == if calls <= TEMPLATE_COUNT
            - server.sent {
            calls as int
        } else {
            TEMPLATE_COUNT - server.sent
        },
        forall|i: int|
            0 <= i < handed_out(server, calls).len() ==> #[trigger] handed_out(server, calls)[i]
                == server.sent + i,
    decreases calls,
{
    if calls > 0 {
        law_templates_once_in_order(server.after_next(), (calls - 1) as nat);
        if server.has_next() {
            let rest = handed_out(server.after_next(), (calls - 1) as nat);
            let all = handed_out(server, calls);
            assert forall|i: int| 0 <= i < all.len() implies #[trigger] all[i] == server.sent
                + i by {
                if i > 0 {
                    assert(all[i] == rest[i - 1]);
                }
            }
        }
    }
}

} // verus!
