//! The link monitor: the lifecycle of one link from down, through pinging,
//! to synchronized, and the steps that bring a newly answering link up.

use vstd::prelude::*;
use crate::packet::{Packet, TransportError};
use crate::routing::{RoutingTable, DEST_COUNT};
use crate::transact::{deadline, deadline_after, solicited, DEFAULT_TIMEOUT_MS, TSC_TIMEOUT_MS};

verus! {

/// The number of echo requests after which a silent link is given up.
pub const PING_ATTEMPTS: u32 = 100;

/// The time, in milliseconds, for which the receive buffer is drained after
/// the remote answered the echo.
pub const DRAIN_MS: u32 = 200;

/// The time, in milliseconds, between two sweeps over the links.
pub const SWEEP_INTERVAL_MS: u64 = 200;

/// The time, in milliseconds, for which a link's reset line is held.
pub const RESET_PULSE_MS: u64 = 1;

/// The rank given to a newly synchronized link.
pub const LINK_RANK: u8 = 1;

/// Where a link stands.
#[derive(Debug, Clone, Copy, PartialEq, Eq, Structural)]
pub enum LinkState {
    /// No carrier, or no answer yet.
    Down,
    /// The carrier is there and the remote is being pinged: `sent` echo
    /// requests went out. Once the remote answered, `drain_until` is the
    /// time up to which the receive buffer is drained.
    PingPending { sent: u32, drain_until: Option<u64> },
    /// The remote answered the echo and the receive buffer was drained.
    Synchronized,
}

/// What a sweep asks for on one link.
#[derive(Debug, Clone, Copy, PartialEq, Eq, Structural)]
pub enum SweepAction {
    /// Nothing to do.
    Idle,
    /// The carrier came up: the remote is to be pinged.
    StartPing,
    /// The link is synchronized and alive: unsolicited packets and local
    /// protocol errors are to be drained.
    Service,
    /// The carrier dropped: the link is down, which is logged.
    WentDown,
}

/// The state of a link after a sweep that found the carrier `rx_up`.
pub open spec fn state_after_sweep(state: LinkState, rx_up: bool) -> LinkState {
    match state {
        LinkState::Synchronized => if rx_up {
            LinkState::Synchronized
        } else {
            LinkState::Down
        },
        LinkState::Down => if rx_up {
            LinkState::PingPending { sent: 0, drain_until: None }
        } else {
            LinkState::Down
        },
        LinkState::PingPending { sent, drain_until } => state,
    }
}

/// The action of a sweep that found the carrier `rx_up`.
pub open spec fn sweep_action(state: LinkState, rx_up: bool) -> SweepAction {
    match state {
        LinkState::Synchronized => if rx_up {
            SweepAction::Service
        } else {
            SweepAction::WentDown
        },
        LinkState::Down => if rx_up {
            SweepAction::StartPing
        } else {
            SweepAction::Idle
        },
        LinkState::PingPending { sent, drain_until } => SweepAction::Idle,
    }
}

/// What the ping asks for next.
#[derive(Debug, Clone, Copy, PartialEq, Eq, Structural)]
pub enum PingStep {
    /// Echo request number `attempt` is to be sent.
    Send { attempt: u32 },
    /// The remote answered: whatever the receive buffer holds is to be
    /// read and dropped, and other tasks are to run.
    Drain,
    /// The remote answered echo request number `count` and the drain is
    /// over: the link is synchronized and is to be brought up.
    Replied { count: u32 },
    /// The carrier dropped or the attempts are used up: the ping failed and
    /// the link is down until a later sweep.
    GaveUp,
    /// The link is not being pinged.
    NotPinging,
}

/// What the outcome of an echo exchange comes to.
#[derive(Debug, Clone, Copy, PartialEq, Eq, Structural)]
pub enum PingResult {
    /// The remote answered echo request number `count`: the drain begins.
    Answered { count: u32 },
    /// No answer: the next attempt is due.
    Retry,
    /// No echo exchange is outstanding on the link.
    NotPinging,
}

/// The state of a pinged link after a step at time `now`, where at most
/// `budget` attempts are made.
pub open spec fn state_after_ping_step(
    state: LinkState,
    budget: u32,
    rx_up: bool,
    now: u64,
) -> LinkState {
    match state {
        LinkState::PingPending { sent, drain_until: Some(until) } => if now > until {
            LinkState::Synchronized
        } else {
            state
        },
        LinkState::PingPending { sent, drain_until: None } => if rx_up && sent < budget {
            LinkState::PingPending { sent: (sent + 1) as u32, drain_until: None }
        } else {
            LinkState::Down
        },
        _ => state,
    }
}

/// The step of a ping at time `now`, where at most `budget` attempts are
/// made.
pub open spec fn ping_step(state: LinkState, budget: u32, rx_up: bool, now: u64) -> PingStep {
    match state {
        LinkState::PingPending { sent, drain_until: Some(until) } => if now > until {
            PingStep::Replied { count: sent }
        } else {
            PingStep::Drain
        },
        LinkState::PingPending { sent, drain_until: None } => if rx_up && sent < budget {
            PingStep::Send { attempt: (sent + 1) as u32 }
        } else {
            PingStep::GaveUp
        },
        _ => PingStep::NotPinging,
    }
}

/// Whether the exchange ended with the echo reply.
pub open spec fn is_echo_reply(reply: Result<Packet, TransportError>) -> bool {
    reply is Ok && reply->Ok_0 is EchoReply
}

/// The state of a pinged link after an echo exchange ended with `reply` at
/// time `now`: the echo reply starts the drain, which lasts `DRAIN_MS`.
pub open spec fn state_after_ping_reply(
    state: LinkState,
    reply: Result<Packet, TransportError>,
    now: u64,
) -> LinkState {
    match state {
        LinkState::PingPending { sent, drain_until: None } => if is_echo_reply(reply) {
            LinkState::PingPending { sent, drain_until: Some(deadline_after(now, DRAIN_MS)) }
        } else {
            state
        },
        _ => state,
    }
}

/// What an echo exchange that ended with `reply` comes to.
pub open spec fn ping_result(state: LinkState, reply: Result<Packet, TransportError>) -> PingResult {
    match state {
        LinkState::PingPending { sent, drain_until: None } => if is_echo_reply(reply) {
            PingResult::Answered { count: sent }
        } else {
            PingResult::Retry
        },
        _ => PingResult::NotPinging,
    }
}

/// One sweep over one link, which found the carrier `rx_up`.
pub fn link_thread(state: &mut LinkState, rx_up: bool) -> (action: SweepAction)
    ensures
        *final(state) == state_after_sweep(*old(state), rx_up),
        action == sweep_action(*old(state), rx_up),
{
    match *state {
        LinkState::Synchronized => if rx_up {
            SweepAction::Service
        } else {
            *state = LinkState::Down;
            SweepAction::WentDown
        },
        LinkState::Down => if rx_up {
            *state = LinkState::PingPending { sent: 0, drain_until: None };
            SweepAction::StartPing
        } else {
            SweepAction::Idle
        },
        LinkState::PingPending { sent, drain_until } => SweepAction::Idle,
    }
}

/// The next step of the ping at time `now`, of which at most `budget`
/// attempts are made, on a link whose carrier is `rx_up`. While no answer
/// came, a lost carrier or a used-up budget ends the ping; once the answer
/// came, the receive buffer is drained until the drain's time is over.
pub fn ping_remote(state: &mut LinkState, budget: u32, rx_up: bool, now: u64) -> (step: PingStep)
    ensures
        *final(state) == state_after_ping_step(*old(state), budget, rx_up, now),
        step == ping_step(*old(state), budget, rx_up, now),
{
    match *state {
        LinkState::PingPending { sent, drain_until: Some(until) } => if now > until {
            *state = LinkState::Synchronized;
            PingStep::Replied { count: sent }
        } else {
            PingStep::Drain
        },
        LinkState::PingPending { sent, drain_until: None } => if rx_up && sent < budget {
            *state = LinkState::PingPending { sent: sent + 1, drain_until: None };
            PingStep::Send { attempt: sent + 1 }
        } else {
            *state = LinkState::Down;
            PingStep::GaveUp
        },
        _ => PingStep::NotPinging,
    }
}

/// An echo exchange ended with `reply` at time `now`: the echo reply starts
/// the drain, anything else leaves the link pinging.
pub fn ping_reply(state: &mut LinkState, reply: &Result<Packet, TransportError>, now: u64) -> (result:
    PingResult)
    requires
        solicited(*reply),
    ensures
        *final(state) == state_after_ping_reply(*old(state), *reply, now),
        result == ping_result(*old(state), *reply),
{
    match *state {
        LinkState::PingPending { sent, drain_until: None } => {
            let answered: bool = match reply {
                Ok(Packet::EchoReply) => true,
                _ => false,
            };
            if answered {
                *state = LinkState::PingPending {
                    sent,
                    drain_until: Some(deadline(now, DRAIN_MS)),
                };
                PingResult::Answered { count: sent }
            } else {
                PingResult::Retry
            }
        },
        _ => PingResult::NotPinging,
    }
}

/// A ping never makes more attempts than its budget: an attempt is asked
/// for only while fewer than `budget` went out, and its number is the count
/// of attempts made so far. A link becomes synchronized by a ping only
/// after the remote answered and the drain's time is over.
pub proof fn lemma_ping_is_bounded(state: LinkState, budget: u32, rx_up: bool, now: u64)
    ensures
        ping_step(state, budget, rx_up, now) is Send ==> 1 <= ping_step(
            state,
            budget,
            rx_up,
            now,
        )->attempt <= budget,
        state == (LinkState::PingPending { sent: budget, drain_until: None }) ==> ping_step(
            state,
            budget,
            rx_up,
            now,
        ) == PingStep::GaveUp && state_after_ping_step(state, budget, rx_up, now)
            == LinkState::Down,
        !rx_up && state is PingPending && state->drain_until is None ==> ping_step(
            state,
            budget,
            rx_up,
            now,
        ) == PingStep::GaveUp,
        state_after_ping_step(state, budget, rx_up, now) is Synchronized && !(state
            is Synchronized) ==> state is PingPending && state->drain_until is Some && now
            > state->drain_until->0,
{
}

/// The outcome of the wait for the time-counter acknowledgment: success on
/// that acknowledgment, "unexpected reply" on any other packet, and the
/// transport's error where the wait failed.
pub open spec fn tsc_verdict(reply: Result<Packet, TransportError>) -> Result<(), TransportError>
    recommends
        solicited(reply),
{
    match reply {
        Ok(Packet::TSCAck) => Ok(()),
        Ok(_) => Err(TransportError::UnexpectedReply),
        Err(e) => Err(e),
    }
}

/// The outcome of a routing exchange: success on the routing
/// acknowledgment, "unexpected reply" on any other packet, and the
/// transport's error where the exchange failed.
pub open spec fn routing_verdict(reply: Result<Packet, TransportError>) -> Result<
    (),
    TransportError,
>
    recommends
        solicited(reply),
{
    match reply {
        Ok(Packet::RoutingAck) => Ok(()),
        Ok(_) => Err(TransportError::UnexpectedReply),
        Err(e) => Err(e),
    }
}

/// Judges what came after the time counter was set on the link.
pub fn sync_tsc(reply: &Result<Packet, TransportError>) -> (verdict: Result<(), TransportError>)
    requires
        solicited(*reply),
    ensures
        verdict == tsc_verdict(*reply),
{
    match reply {
        Ok(Packet::TSCAck) => Ok(()),
        Ok(_) => Err(TransportError::UnexpectedReply),
        Err(e) => Err(*e),
    }
}

/// Judges the reply to a routing request.
pub fn routing_ack(reply: &Result<Packet, TransportError>) -> (verdict: Result<(), TransportError>)
    requires
        solicited(*reply),
    ensures
        verdict == routing_verdict(*reply),
{
    match reply {
        Ok(Packet::RoutingAck) => Ok(()),
        Ok(_) => Err(TransportError::UnexpectedReply),
        Err(e) => Err(*e),
    }
}

/// The request that sets the path to `destination` on a link: the full row
/// of the table.
pub fn load_routing_table(routing_table: &RoutingTable, destination: u8) -> (request: Packet)
    requires
        routing_table.wf(),
    ensures
        request matches Packet::RoutingSetPath { destination: d, hops } && d == destination
            && hops@ == routing_table.rows@[destination as int]@,
{
    Packet::RoutingSetPath { destination, hops: routing_table.hops(destination) }
}

/// The request that sets the rank of a link.
pub fn set_rank(rank: u8) -> (request: Packet)
    ensures
        request == (Packet::RoutingSetRank { rank }),
{
    Packet::RoutingSetRank { rank }
}

/// The stages of bringing a link up once the remote answered, in order.
#[derive(Debug, Clone, Copy, PartialEq, Eq, Structural)]
pub enum BringUp {
    /// The time counter is set and its acknowledgment awaited.
    TimeSync,
    /// The row of `destination` is pushed.
    Routing { destination: u8 },
    /// The rank is set.
    Rank,
    /// Nothing is left to do.
    Done,
}

/// What a stage of the bring-up asks for.
#[derive(Debug, PartialEq, Eq)]
pub enum BringUpStep {
    /// The time counter is to be set on the link and the acknowledgment
    /// awaited, with the long timeout.
    SyncTsc,
    /// The request is to be sent and its reply awaited.
    Send(Packet),
    /// The bring-up is over.
    Finished,
}

/// The stage that follows `stage` once its exchange ended with `reply`. A
/// failed time synchronization does not stop the bring-up; the first row
/// that is not acknowledged ends the distribution of the table, and the rank
/// is set next.
pub open spec fn next_stage(stage: BringUp, reply: Result<Packet, TransportError>) -> BringUp
    recommends
        solicited(reply),
{
    match stage {
        BringUp::TimeSync => BringUp::Routing { destination: 0 },
        BringUp::Routing { destination } => if routing_verdict(reply) is Ok && destination + 1
            < DEST_COUNT {
            BringUp::Routing { destination: (destination + 1) as u8 }
        } else {
            BringUp::Rank
        },
        BringUp::Rank => BringUp::Done,
        BringUp::Done => BringUp::Done,
    }
}

/// The failure, if any, that the end of a stage's exchange is logged with.
pub open spec fn stage_failure(stage: BringUp, reply: Result<Packet, TransportError>) -> Option<
    TransportError,
>
    recommends
        solicited(reply),
{
    match stage {
        BringUp::TimeSync => match tsc_verdict(reply) {
            Ok(_) => None,
            Err(e) => Some(e),
        },
        BringUp::Routing { destination } => match routing_verdict(reply) {
            Ok(_) => None,
            Err(e) => Some(e),
        },
        BringUp::Rank => match routing_verdict(reply) {
            Ok(_) => None,
            Err(e) => Some(e),
        },
        BringUp::Done => None,
    }
}

impl BringUp {
    /// The time, in milliseconds, that the exchange of this stage may take:
    /// the long timeout for the time-counter acknowledgment, which the
    /// remote sends of its own accord, and the default one otherwise.
    pub fn timeout(&self) -> (ms: u32)
        ensures
            ms == if *self is TimeSync {
                TSC_TIMEOUT_MS
            } else {
                DEFAULT_TIMEOUT_MS
            },
    {
        match self {
            BringUp::TimeSync => TSC_TIMEOUT_MS,
            _ => DEFAULT_TIMEOUT_MS,
        }
    }

    /// What this stage asks for.
    pub fn step(&self, routing_table: &RoutingTable) -> (step: BringUpStep)
        requires
            routing_table.wf(),
        ensures
            match *self {
                BringUp::TimeSync => step is SyncTsc,
                BringUp::Routing { destination } => step matches BringUpStep::Send(
                    Packet::RoutingSetPath { destination: d, hops },
                ) && d == destination && hops@ == routing_table.rows@[destination as int]@,
                BringUp::Rank => step == BringUpStep::Send(
                    Packet::RoutingSetRank { rank: LINK_RANK },
                ),
                BringUp::Done => step is Finished,
            },
    {
        match self {
            BringUp::TimeSync => BringUpStep::SyncTsc,
            BringUp::Routing { destination } => BringUpStep::Send(
                load_routing_table(routing_table, *destination),
            ),
            BringUp::Rank => BringUpStep::Send(set_rank(LINK_RANK)),
            BringUp::Done => BringUpStep::Finished,
        }
    }

    /// The exchange of this stage ended with `reply`: moves to the stage
    /// that follows and returns the failure to log, if there is one. No
    /// failure takes the link down again.
    pub fn advance(&mut self, reply: &Result<Packet, TransportError>) -> (failure: Option<
        TransportError,
    >)
        requires
            solicited(*reply),
        ensures
            *final(self) == next_stage(*old(self), *reply),
            failure == stage_failure(*old(self), *reply),
    {
        match *self {
            BringUp::TimeSync => {
                *self = BringUp::Routing { destination: 0 };
                match sync_tsc(reply) {
                    Ok(_) => None,
                    Err(e) => Some(e),
                }
            },
            BringUp::Routing { destination } => {
                match routing_ack(reply) {
                    Ok(_) => {
                        if destination < 255 {
                            *self = BringUp::Routing { destination: destination + 1 };
                        } else {
                            *self = BringUp::Rank;
                        }
                        None
                    },
                    Err(e) => {
                        *self = BringUp::Rank;
                        Some(e)
                    },
                }
            },
            BringUp::Rank => {
                *self = BringUp::Done;
                match routing_ack(reply) {
                    Ok(_) => None,
                    Err(e) => Some(e),
                }
            },
            BringUp::Done => None,
        }
    }
}

/// What the reply to a reset request comes to.
#[derive(Debug, Clone, Copy, PartialEq, Eq, Structural)]
pub enum ResetOutcome {
    /// The link acknowledged the reset.
    Acknowledged,
    /// A packet that is no acknowledgment: it is logged.
    Unexpected,
    /// The exchange failed: it is logged.
    Failed(TransportError),
}

/// What the reply to a reset request comes to.
pub open spec fn reset_outcome(reply: Result<Packet, TransportError>) -> ResetOutcome
    recommends
        solicited(reply),
{
    match reply {
        Ok(Packet::ResetAck) => ResetOutcome::Acknowledged,
        Ok(_) => ResetOutcome::Unexpected,
        Err(e) => ResetOutcome::Failed(e),
    }
}

/// Judges the reply to a reset request.
pub fn reset_reply(reply: &Result<Packet, TransportError>) -> (outcome: ResetOutcome)
    requires
        solicited(*reply),
    ensures
        outcome == reset_outcome(*reply),
{
    match reply {
        Ok(Packet::ResetAck) => ResetOutcome::Acknowledged,
        Ok(_) => ResetOutcome::Unexpected,
        Err(e) => ResetOutcome::Failed(*e),
    }
}

/// The links that a reset request goes to once every reset line was held
/// for `RESET_PULSE_MS` and let go: those whose carrier is up, in the order
/// of their numbers.
pub fn reset(rx_up: &[bool]) -> (links: Vec<u8>)
    requires
        rx_up@.len() <= 256,
    ensures
        forall|k: int| 0 <= k < links@.len() ==> #[trigger] links@[k] < rx_up@.len() && rx_up@[links@[k] as int],
        forall|j: int, k: int| 0 <= j < k < links@.len() ==> links@[j] < links@[k],
        forall|i: int| 0 <= i < rx_up@.len() && rx_up@[i] ==> links@.contains(i as u8),
{
    let mut links: Vec<u8> = Vec::new();
    let mut i: usize = 0;
    while i < rx_up.len()
        invariant
            i <= rx_up@.len() <= 256,
            forall|k: int| 0 <= k < links@.len() ==> #[trigger] links@[k] < i && rx_up@[links@[k] as int],
            forall|j: int, k: int| 0 <= j < k < links@.len() ==> links@[j] < links@[k],
            forall|n: int| 0 <= n < i && rx_up@[n] ==> links@.contains(n as u8),
        decreases rx_up@.len() - i,
    {
        if rx_up[i] {
            let ghost before = links@;
            links.push(i as u8);
            proof {
                assert(links@[links@.len() - 1] == i as u8);
                assert forall|n: int| 0 <= n < i + 1 && rx_up@[n] implies links@.contains(
                    n as u8,
                ) by {
                    if n < i {
                        let k = choose|k: int| 0 <= k < before.len() && before[k] == n as u8;
                        assert(links@[k] == n as u8);
                    }
                }
            }
        }
        i += 1;
    }
    links
}

} // verus!
