//! The actor's inbox and the one way to post into it.

use crate::actor::Message;
use embassy_sync::blocking_mutex::raw::NoopRawMutex;
use embassy_sync::channel::Sender;
use vstd::prelude::*;

verus! {

/// The actor's inbox: the sending end of a channel of ten messages.
#[verifier::external_body]
pub struct ActorInbox(pub Sender<'static, NoopRawMutex, Message, 10>);

/// The receipt of one post into an inbox: the message that was handed to
/// the channel and whether the channel queued it. Only [`post`] makes one.
pub struct Posted {
    accepted: bool,
    message: Ghost<Message>,
}

impl Posted {
    /// Whether the channel queued the message.
    pub closed spec fn accepted(&self) -> bool {
        self.accepted
    }

    /// The message that was handed to the channel.
    pub closed spec fn message(&self) -> Message {
        self.message@
    }

    /// Whether the channel queued the message.
    pub fn was_accepted(&self) -> (accepted: bool)
        ensures
            accepted == self.accepted(),
    {
        self.accepted
    }
}

/// Calls `Sender::try_send` of `embassy_sync` with `msg`, which queues the
/// message unless the channel is full. The contract claims that the receipt
/// names the message that was handed to the call; whether it was queued is
/// left open, since the room in the channel depends on what the receiving
/// task has taken.
#[verifier::external_body]
pub fn post(inbox: &ActorInbox, msg: Message) -> (p: Posted)
    ensures
        p.message() == msg,
{
    let accepted = inbox.0.try_send(msg).is_ok();
    Posted { accepted, message: Ghost(msg) }
}

} // verus!
