//! One-shot message passing: a producing worker transfers exactly one text
//! value into a single-producer/single-consumer channel, and the initiator
//! performs one blocking receive.
//!
//! A [`OneShotChannel`] holds the channel's state: the value in flight, if
//! any, and whether the producer's endpoint is still live. A blocking
//! receive resolves only once the channel is [`resolved`]: either a value
//! has arrived or the producer is gone; the caller that runs the real
//! blocking wait invokes [`OneShotChannel::recv`] at that point. The
//! contracts pin down that a sent value is received identical, and that a
//! producer vanishing without sending surfaces an error rather than a
//! default value.
//!
//! [`resolved`]: OneShotChannel::resolved

use vstd::prelude::*;
use vstd::string::StringExecFns;

verus! {

/// Error of a receive on a channel whose producer went away without sending.
#[derive(Clone, Copy, PartialEq, Eq, Structural, Debug)]
pub struct ChannelClosed;

/// State of a one-shot single-producer/single-consumer channel.
pub struct OneShotChannel {
    /// The value in flight: sent but not yet received.
    pub message: Option<String>,
    /// Whether the producer's endpoint still exists.
    pub sender_live: bool,
}

impl OneShotChannel {
    /// A blocking receive can complete: a value is here, or none will come.
    pub open spec fn resolved(self) -> bool {
        self.message is Some || !self.sender_live
    }

    /// A fresh channel: nothing in flight, producer live.
    pub fn new() -> (c: OneShotChannel)
        ensures
            c.message is None,
            c.sender_live,
    {
        OneShotChannel { message: None, sender_live: true }
    }

    /// The producer transfers its single value into the channel. Sending is
    /// fire-and-forget: the producer does not wait for consumption. A
    /// one-shot channel carries one value, so a second send is excluded.
    pub fn send(&mut self, message: String)
        requires
            old(self).message is None,
            old(self).sender_live,
        ensures
            final(self).message == Some(message),
            final(self).sender_live,
    {
        self.message = Some(message);
    }

    /// The producer's endpoint goes away (the worker returned or failed);
    /// after this no further value can arrive, but a value already sent
    /// stays receivable.
    pub fn drop_sender(&mut self)
        ensures
            final(self).message == old(self).message,
            !final(self).sender_live,
    {
        self.sender_live = false;
    }

    /// One blocking receive, invoked at the point the wait resolves: it
    /// yields the value in flight exactly as sent, or reports closure when
    /// the producer went away without sending — never a default value.
    pub fn recv(&mut self) -> (r: Result<String, ChannelClosed>)
        requires
            old(self).resolved(),
        ensures
            old(self).message matches Some(m) ==> r == Ok::<String, ChannelClosed>(m),
            old(self).message is None ==> r == Err::<String, ChannelClosed>(ChannelClosed),
            final(self).message is None,
            final(self).sender_live == old(self).sender_live,
    {
        let taken = self.message.take();
        match taken {
            Some(m) => Ok(m),
            None => Err(ChannelClosed),
        }
    }
}

/// Round trip: a value sent through a fresh channel whose producer then
/// goes away is received identical.
pub fn round_trip(message: String) -> (r: String)
    ensures
        r == message,
{
    let mut channel = OneShotChannel::new();
    channel.send(message);
    channel.drop_sender();
    match channel.recv() {
        Ok(received) => received,
        Err(_) => {
            proof {
                assert(false);
            }
            String::from_str("")
        },
    }
}

/// The exact text the producing worker creates and sends.
pub fn child_message() -> (m: String)
    ensures
        m@ == "I was created in the child thread, will be sent to main thread"@,
{
    String::from_str("I was created in the child thread, will be sent to main thread")
}

/// The whole message-passing demonstration: the producer creates its text
/// and sends it; the initiator's receive yields that exact text.
pub fn message_passing_round_trip() -> (r: String)
    ensures
        r@ == "I was created in the child thread, will be sent to main thread"@,
{
    round_trip(child_message())
}

} // verus!
