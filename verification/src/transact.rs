//! The transaction channel: one outstanding request/reply exchange per link,
//! bounded by a deadline, with unsolicited notifications told apart from
//! replies.

use vstd::prelude::*;
use crate::packet::{Packet, TransportError};

verus! {

/// The time, in milliseconds, that a reply to a request may take.
pub const DEFAULT_TIMEOUT_MS: u32 = 200;

/// The time, in milliseconds, that the time-counter acknowledgment may take.
pub const TSC_TIMEOUT_MS: u32 = 10000;

/// What one look at the link's receive buffer found.
#[derive(Debug, PartialEq, Eq)]
pub enum Received {
    /// The buffer is empty.
    Nothing,
    /// A packet was decoded.
    Packet(Packet),
    /// What arrived could not be decoded.
    Malformed,
}

/// Where a wait for a reply stands after one observation.
#[derive(Debug, PartialEq, Eq)]
pub enum Poll {
    /// Nothing decisive yet: let other tasks run, then observe again.
    Pending,
    /// An unsolicited notification arrived. It is no reply: it goes to the
    /// service that owns it and is consumed, and the wait is not over.
    Notified(Notification),
    /// The wait is over, with this outcome: the solicited reply, or why
    /// there is none.
    Ready(Result<Packet, TransportError>),
}

/// Where a wait that ends at `max_time` stands after one observation: a
/// link without carrier ends it ("link went down"), then a passed deadline
/// ("timeout"), then what the receive buffer held. A notification is told
/// apart from a reply here, for every transaction alike.
pub open spec fn wait_outcome(rx_up: bool, now: u64, max_time: u64, received: Received) -> Poll {
    if !rx_up {
        Poll::Ready(Err(TransportError::LinkDown))
    } else if now > max_time {
        Poll::Ready(Err(TransportError::Timeout))
    } else {
        match received {
            Received::Nothing => Poll::Pending,
            Received::Packet(p) => match dispatch_of(p) {
                Dispatch::Consumed(n) => Poll::Notified(n),
                Dispatch::Passed(reply) => Poll::Ready(Ok(reply)),
            },
            Received::Malformed => Poll::Ready(Err(TransportError::PacketError)),
        }
    }
}

/// Whether `reply` is what a transaction hands to its caller: a packet that
/// is no notification, or a transport error.
pub open spec fn solicited(reply: Result<Packet, TransportError>) -> bool {
    match reply {
        Ok(p) => !is_notification(p),
        Err(_) => true,
    }
}

/// One observation of a wait for a packet that ends at `max_time`.
pub fn recv_aux_timeout(rx_up: bool, now: u64, max_time: u64, received: Received) -> (poll: Poll)
    ensures
        poll == wait_outcome(rx_up, now, max_time, received),
        poll matches Poll::Ready(reply) ==> solicited(reply),
{
    if !rx_up {
        return Poll::Ready(Err(TransportError::LinkDown));
    }
    if now > max_time {
        return Poll::Ready(Err(TransportError::Timeout));
    }
    match received {
        Received::Nothing => Poll::Pending,
        Received::Packet(p) => match process_async_packets(p) {
            Dispatch::Consumed(n) => Poll::Notified(n),
            Dispatch::Passed(reply) => Poll::Ready(Ok(reply)),
        },
        Received::Malformed => Poll::Ready(Err(TransportError::PacketError)),
    }
}

/// Whether `reply` is what a transaction hands to its caller.
pub fn is_solicited(reply: &Result<Packet, TransportError>) -> (ok: bool)
    ensures
        ok == solicited(*reply),
{
    match reply {
        Ok(Packet::DmaPlaybackStatus { .. }) => false,
        Ok(Packet::SubkernelFinished { .. }) => false,
        Ok(Packet::SubkernelMessage { .. }) => false,
        _ => true,
    }
}

/// What an unsolicited notification asks of the services behind the fabric.
#[derive(Debug, PartialEq, Eq)]
pub enum Notification {
    /// A DMA playback ended on a destination.
    PlaybackDone { id: u32, destination: u8, error: u8, channel: u32, timestamp: u64 },
    /// A subkernel ended.
    SubkernelFinished { id: u32, with_exception: bool },
    /// A chunk of a subkernel message came in; `acknowledge` names the
    /// destination to which the acknowledgment is owed.
    SubkernelMessage { id: u32, last: bool, data: Vec<u8>, acknowledge: u8 },
}

/// A packet told apart: a notification for a service, or anything else.
#[derive(Debug, PartialEq, Eq)]
pub enum Dispatch {
    /// The packet was an unsolicited notification and is consumed.
    Consumed(Notification),
    /// The packet is no notification and goes on to whoever waits for it.
    Passed(Packet),
}

/// Whether `packet` is one of the unsolicited notifications.
pub open spec fn is_notification(packet: Packet) -> bool {
    packet is DmaPlaybackStatus || packet is SubkernelFinished || packet is SubkernelMessage
}

/// A notification is handed on with exactly its fields; any other packet
/// passes unchanged.
pub open spec fn dispatch_of(packet: Packet) -> Dispatch {
    match packet {
        Packet::DmaPlaybackStatus { id, destination, error, channel, timestamp } => {
            Dispatch::Consumed(
                Notification::PlaybackDone { id, destination, error, channel, timestamp },
            )
        },
        Packet::SubkernelFinished { id, with_exception } => Dispatch::Consumed(
            Notification::SubkernelFinished { id, with_exception },
        ),
        Packet::SubkernelMessage { id, destination, last, data } => Dispatch::Consumed(
            Notification::SubkernelMessage { id, last, data, acknowledge: destination },
        ),
        other => Dispatch::Passed(other),
    }
}

/// Tells the unsolicited notifications (playback status, subkernel finished,
/// incoming subkernel message) from every other packet.
pub fn process_async_packets(packet: Packet) -> (dispatch: Dispatch)
    ensures
        dispatch == dispatch_of(packet),
        dispatch is Consumed <==> is_notification(packet),
{
    match packet {
        Packet::DmaPlaybackStatus { id, destination, error, channel, timestamp } => {
            Dispatch::Consumed(
                Notification::PlaybackDone { id, destination, error, channel, timestamp },
            )
        },
        Packet::SubkernelFinished { id, with_exception } => Dispatch::Consumed(
            Notification::SubkernelFinished { id, with_exception },
        ),
        Packet::SubkernelMessage { id, destination, last, data } => Dispatch::Consumed(
            Notification::SubkernelMessage { id, last, data, acknowledge: destination },
        ),
        other => Dispatch::Passed(other),
    }
}

/// The acknowledgment owed for an incoming subkernel message chunk.
pub fn message_acknowledgment(notification: &Notification) -> (ack: Option<Packet>)
    ensures
        ack == match *notification {
            Notification::SubkernelMessage { acknowledge, .. } => Some(
                Packet::SubkernelMessageAck { destination: acknowledge },
            ),
            _ => None,
        },
{
    match notification {
        Notification::SubkernelMessage { acknowledge, .. } => Some(
            Packet::SubkernelMessageAck { destination: *acknowledge },
        ),
        _ => None,
    }
}

/// What a packet found while no transaction is outstanding calls for.
#[derive(Debug, PartialEq, Eq)]
pub enum Unsolicited {
    /// The buffer was empty.
    Quiet,
    /// A notification for a service.
    Notify(Notification),
    /// A packet that nobody asked for: it is logged.
    Unexpected(Packet),
    /// What arrived could not be decoded: it is logged.
    Malformed,
}

/// Classifies what the receive buffer of an idle link held.
pub fn process_unsolicited_aux(received: Received) -> (found: Unsolicited)
    ensures
        found == match received {
            Received::Nothing => Unsolicited::Quiet,
            Received::Malformed => Unsolicited::Malformed,
            Received::Packet(p) => match dispatch_of(p) {
                Dispatch::Consumed(n) => Unsolicited::Notify(n),
                Dispatch::Passed(other) => Unsolicited::Unexpected(other),
            },
        },
{
    match received {
        Received::Nothing => Unsolicited::Quiet,
        Received::Malformed => Unsolicited::Malformed,
        Received::Packet(p) => match process_async_packets(p) {
            Dispatch::Consumed(n) => Unsolicited::Notify(n),
            Dispatch::Passed(other) => Unsolicited::Unexpected(other),
        },
    }
}

/// The lock state of one link's auxiliary channel: idle, or held by the one
/// outstanding transaction together with the time at which its wait ends.
#[derive(Debug, Clone, Copy, PartialEq, Eq, Structural)]
pub struct LinkChannel {
    pub linkno: u8,
    pub deadline: Option<u64>,
}

/// `now + timeout`, held at the largest representable time.
pub open spec fn deadline_after(now: u64, timeout: u32) -> u64 {
    if now + timeout > u64::MAX {
        u64::MAX
    } else {
        (now + timeout) as u64
    }
}

/// The time at which a wait of `timeout` milliseconds that starts at `now`
/// ends.
pub fn deadline(now: u64, timeout: u32) -> (end: u64)
    ensures
        end == deadline_after(now, timeout),
{
    if now > u64::MAX - (timeout as u64) {
        u64::MAX
    } else {
        now + timeout as u64
    }
}

impl LinkChannel {
    /// Whether a transaction is outstanding.
    pub open spec fn busy(&self) -> bool {
        self.deadline is Some
    }

    /// The channel after a transaction was asked for at `now`: taken with
    /// its deadline if it was idle, unchanged if it was held.
    pub open spec fn after_begin(&self, now: u64, timeout: u32) -> LinkChannel {
        if self.busy() {
            *self
        } else {
            LinkChannel { linkno: self.linkno, deadline: Some(deadline_after(now, timeout)) }
        }
    }

    /// The channel after one observation of the outstanding wait: still
    /// held, with its deadline, while nothing or only a notification was
    /// seen, and released as soon as the wait is over, however it ended.
    pub open spec fn after_poll(&self, rx_up: bool, now: u64, received: Received) -> LinkChannel {
        if self.busy() && !(wait_outcome(rx_up, now, self.deadline->0, received) is Ready) {
            *self
        } else {
            LinkChannel { linkno: self.linkno, deadline: None }
        }
    }

    /// An idle channel for link `linkno`.
    pub fn new(linkno: u8) -> (channel: LinkChannel)
        ensures
            channel == (LinkChannel { linkno, deadline: None }),
            !channel.busy(),
    {
        LinkChannel { linkno, deadline: None }
    }

    /// Whether a transaction is outstanding.
    pub fn is_busy(&self) -> (held: bool)
        ensures
            held == self.busy(),
    {
        self.deadline.is_some()
    }

    /// Whether the outstanding wait is still open at `now` on a link whose
    /// carrier is `rx_up`: only then is the receive buffer to be looked at.
    pub fn awaits(&self, rx_up: bool, now: u64) -> (open: bool)
        ensures
            open == (self.busy() && rx_up && now <= self.deadline->0),
    {
        match self.deadline {
            Some(max_time) => rx_up && now <= max_time,
            None => false,
        }
    }

    /// Gives the link up without waiting any further, for a holder that
    /// awaits no reply.
    pub fn release(&mut self)
        ensures
            *final(self) == (LinkChannel { linkno: old(self).linkno, deadline: None }),
            !final(self).busy(),
    {
        self.deadline = None;
    }

    /// One observation of the outstanding wait. While nothing decisive was
    /// seen the link stays held. A notification is handed out as such, never
    /// as the reply, and leaves the link held: the holder waits on, or gives
    /// the link up to ask again. Otherwise the outcome is handed out and the
    /// link is released, on success and on every error alike.
    pub fn poll(&mut self, rx_up: bool, now: u64, received: Received) -> (poll: Poll)
        requires
            old(self).busy(),
        ensures
            *final(self) == old(self).after_poll(rx_up, now, received),
            poll is Ready <==> !final(self).busy(),
            poll == wait_outcome(rx_up, now, old(self).deadline->0, received),
            poll matches Poll::Ready(Ok(p)) ==> !is_notification(p),
            poll matches Poll::Ready(reply) ==> solicited(reply),
    {
        let max_time: u64 = match self.deadline {
            Some(t) => t,
            None => 0,
        };
        let poll = recv_aux_timeout(rx_up, now, max_time, received);
        match poll {
            Poll::Ready(_) => {
                self.deadline = None;
            },
            _ => {},
        }
        poll
    }
}

/// Asks for the link at time `now` for a transaction whose reply may take
/// `timeout` milliseconds. Returns whether the link was granted: it is
/// exactly when it was idle, and the request may then be sent. A held link
/// is left as it is, and the caller yields and asks again.
pub fn aux_transact(channel: &mut LinkChannel, now: u64, timeout: u32) -> (granted: bool)
    ensures
        granted == !old(channel).busy(),
        *final(channel) == old(channel).after_begin(now, timeout),
        final(channel).busy(),
{
    if channel.deadline.is_some() {
        false
    } else {
        channel.deadline = Some(deadline(now, timeout));
        true
    }
}

/// A notification that arrives while a transaction waits within its
/// deadline is never handed out as the reply, nor as an error: it is handed
/// out as a notification, with exactly its fields, and the transaction stays
/// outstanding with its deadline.
pub proof fn lemma_notification_is_no_reply(
    channel: LinkChannel,
    now: u64,
    timeout: u32,
    later: u64,
    packet: Packet,
)
    requires
        !channel.busy(),
        is_notification(packet),
        later <= deadline_after(now, timeout),
    ensures
        wait_outcome(true, later, deadline_after(now, timeout), Received::Packet(packet))
            is Notified,
        dispatch_of(packet) == Dispatch::Consumed(
            wait_outcome(
                true,
                later,
                deadline_after(now, timeout),
                Received::Packet(packet),
            )->Notified_0,
        ),
        channel.after_begin(now, timeout).after_poll(true, later, Received::Packet(packet))
            == channel.after_begin(now, timeout),
{
}

/// On one link at most one transaction is outstanding: while a granted
/// transaction has not ended, every further request for the link is refused
/// and changes nothing, whatever time it is made at.
pub proof fn lemma_transactions_are_serialized(
    channel: LinkChannel,
    now: u64,
    timeout: u32,
    later: u64,
    other_timeout: u32,
)
    requires
        !channel.busy(),
    ensures
        channel.after_begin(now, timeout).busy(),
        channel.after_begin(now, timeout).after_begin(later, other_timeout) == channel.after_begin(
            now,
            timeout,
        ),
{
}

/// A transaction that sees no reply within its timeout ends, at the first
/// observation past its deadline on a live link, with the link released: the
/// next request for the link is granted at once.
pub proof fn lemma_timeout_releases_link(
    channel: LinkChannel,
    now: u64,
    timeout: u32,
    later: u64,
    received: Received,
    next_timeout: u32,
)
    requires
        !channel.busy(),
        later > deadline_after(now, timeout),
    ensures
        wait_outcome(true, later, channel.after_begin(now, timeout).deadline->0, received)
            == Poll::Ready(Err(TransportError::Timeout)),
        !channel.after_begin(now, timeout).after_poll(true, later, received).busy(),
        channel.after_begin(now, timeout).after_poll(true, later, received).after_begin(
            later,
            next_timeout,
        ).busy(),
        channel.after_begin(now, timeout).after_poll(true, later, received) == channel,
{
}

} // verus!
