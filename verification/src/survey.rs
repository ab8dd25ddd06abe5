//! The destination survey: last-known liveness of every destination, revised
//! once per sweep from the links' state and the destinations' status replies.

use vstd::prelude::*;
use crate::errors::{AsyncErrorKind, AsyncErrors};
use crate::packet::{Packet, TransportError};
use crate::routing::{RoutingTable, DEST_COUNT};
use crate::transact::{solicited, Notification};

verus! {

/// The pause, in milliseconds, before a destination is asked again after a
/// notification took the place of its status reply.
pub const RETRY_PAUSE_MS: u64 = 10;

/// Last-known liveness, one flag per destination. Its view is the sequence
/// of flags. Only the survey's transitions change a flag.
#[derive(Debug, PartialEq, Eq)]
pub struct UpDestinations {
    flags: Vec<bool>,
}

impl View for UpDestinations {
    type V = Seq<bool>;

    closed spec fn view(&self) -> Seq<bool> {
        self.flags@
    }
}

impl UpDestinations {
    /// There is a flag for every destination.
    pub open spec fn wf(&self) -> bool {
        self@.len() == DEST_COUNT
    }

    /// Every destination Down.
    pub fn new() -> (up: UpDestinations)
        ensures
            up.wf(),
            forall|d: int| 0 <= d < DEST_COUNT ==> !up@[d],
    {
        let mut flags: Vec<bool> = Vec::new();
        let mut i: usize = 0;
        while i < DEST_COUNT
            invariant
                i <= DEST_COUNT,
                flags@.len() == i,
                forall|d: int| 0 <= d < i ==> !flags@[d],
            decreases DEST_COUNT - i,
        {
            flags.push(false);
            i += 1;
        }
        UpDestinations { flags }
    }

    /// Whether `destination` was last known to be Up.
    pub fn destination_up(&self, destination: u8) -> (up: bool)
        requires
            self.wf(),
        ensures
            up == self@[destination as int],
    {
        self.flags[destination as usize]
    }

    fn destination_set_up(&mut self, destination: u8, up: bool)
        requires
            old(self).wf(),
        ensures
            final(self).wf(),
            final(self)@ == old(self)@.update(destination as int, up),
    {
        self.flags.set(destination as usize, up);
    }
}

/// What the survey asks for when it comes to a destination in its sweep.
#[derive(Debug, Clone, Copy, PartialEq, Eq, Structural)]
pub enum SurveyAction {
    /// Nothing to do.
    Nothing,
    /// A local destination was seen for the first time and is now Up: its
    /// interconnect is to be enabled.
    LocalUp,
    /// The destination's link is synchronized: a status request for the
    /// destination is to be sent over link `linkno`.
    Probe { linkno: u8 },
    /// The destination was Up and its link is no longer synchronized: it is
    /// now Down, its interconnect is to be disabled and the services are to
    /// be told.
    WentDown,
}

/// The action for a destination with first hop `hop` and last-known
/// liveness `was_up`, where `link_up` says which links are synchronized.
pub open spec fn survey_action(hop: u8, link_up: Seq<bool>, was_up: bool) -> SurveyAction {
    if hop == 0 {
        if was_up {
            SurveyAction::Nothing
        } else {
            SurveyAction::LocalUp
        }
    } else if hop > link_up.len() {
        SurveyAction::Nothing
    } else if link_up[hop - 1] {
        SurveyAction::Probe { linkno: (hop - 1) as u8 }
    } else if was_up {
        SurveyAction::WentDown
    } else {
        SurveyAction::Nothing
    }
}

/// The liveness of a destination after `action`.
pub open spec fn liveness_after_action(was_up: bool, action: SurveyAction) -> bool {
    match action {
        SurveyAction::LocalUp => true,
        SurveyAction::WentDown => false,
        _ => was_up,
    }
}

/// What the reply to a status request comes to.
#[derive(Debug, PartialEq, Eq)]
pub enum SurveyOutcome {
    /// The reply confirms the last-known liveness.
    Unchanged,
    /// The destination answered and is now Up: its buffer space is to be
    /// initialized and the services are to be told.
    CameUp,
    /// The destination reported itself down and is now Down: its
    /// interconnect is to be disabled and the services are to be told.
    WentDown,
    /// A notification arrived while the status of a destination that is Up
    /// was awaited: it goes to its service, the exchange is given up and,
    /// after a short pause, the destination is asked again.
    Retry(Notification),
    /// A notification arrived while the status was awaited, and the
    /// destination is not asked again in this sweep: the notification goes
    /// to its service, the exchange is given up and the destination is left
    /// as it is until the next sweep.
    Deferred(Notification),
    /// The destination reported an asynchronous error on `channel`; it is
    /// logged and was folded into the mask.
    AsyncError { kind: AsyncErrorKind, channel: u16 },
    /// A packet that is no status reply: it is logged.
    Unexpected(Packet),
    /// The exchange failed: it is logged.
    Failed(TransportError),
}

impl SurveyOutcome {
    /// The time, in milliseconds, to let pass before the destination is
    /// asked again: the retry pause after a notification, so as not to
    /// saturate the link, and none otherwise.
    pub fn pause(&self) -> (ms: u64)
        ensures
            ms == if *self is Retry {
                RETRY_PAUSE_MS
            } else {
                0
            },
    {
        match self {
            SurveyOutcome::Retry(_) => RETRY_PAUSE_MS,
            _ => 0,
        }
    }

    /// Whether the destination is to be asked again at once.
    pub fn asks_again(&self) -> (again: bool)
        ensures
            again == (*self is Retry),
    {
        match self {
            SurveyOutcome::Retry(_) => true,
            _ => false,
        }
    }
}

/// The outcome of the solicited `reply` for a destination with first hop
/// `hop` whose last-known liveness is `was_up`. A destination that is Down
/// is revised by a plain answer only; a destination that is Up is revised
/// only by a report that it is down. A local destination is never probed:
/// whatever is handed in for it is unexpected and revises nothing.
pub open spec fn reply_outcome(
    hop: u8,
    was_up: bool,
    reply: Result<Packet, TransportError>,
) -> SurveyOutcome
    recommends
        solicited(reply),
{
    match reply {
        Err(e) => SurveyOutcome::Failed(e),
        Ok(packet) => if hop == 0 {
            SurveyOutcome::Unexpected(packet)
        } else if was_up {
            match packet {
                Packet::DestinationDownReply => SurveyOutcome::WentDown,
                Packet::DestinationOkReply => SurveyOutcome::Unchanged,
                Packet::DestinationSequenceErrorReply { channel } => SurveyOutcome::AsyncError {
                    kind: AsyncErrorKind::SequenceError,
                    channel,
                },
                Packet::DestinationCollisionReply { channel } => SurveyOutcome::AsyncError {
                    kind: AsyncErrorKind::Collision,
                    channel,
                },
                Packet::DestinationBusyReply { channel } => SurveyOutcome::AsyncError {
                    kind: AsyncErrorKind::Busy,
                    channel,
                },
                other => SurveyOutcome::Unexpected(other),
            }
        } else {
            match packet {
                Packet::DestinationDownReply => SurveyOutcome::Unchanged,
                Packet::DestinationOkReply => SurveyOutcome::CameUp,
                other => SurveyOutcome::Unexpected(other),
            }
        },
    }
}

/// What a notification comes to that arrived while the status of a
/// destination with first hop `hop` and last-known liveness `was_up` was
/// awaited, where `retries_left` further requests may be made in this sweep:
/// a remote destination that is Up is asked again while the budget lasts;
/// any other is left until the next sweep. The notification is handed on
/// either way, and never counts as a reply.
pub open spec fn notified_outcome(
    hop: u8,
    was_up: bool,
    retries_left: u32,
    notification: Notification,
) -> SurveyOutcome {
    if hop != 0 && was_up && retries_left > 0 {
        SurveyOutcome::Retry(notification)
    } else {
        SurveyOutcome::Deferred(notification)
    }
}

/// The liveness of a destination after `outcome`.
pub open spec fn liveness_after_outcome(was_up: bool, outcome: SurveyOutcome) -> bool {
    match outcome {
        SurveyOutcome::CameUp => true,
        SurveyOutcome::WentDown => false,
        _ => was_up,
    }
}

/// The error mask after `outcome`.
pub open spec fn mask_after_outcome(mask: u8, outcome: SurveyOutcome) -> u8 {
    match outcome {
        SurveyOutcome::AsyncError { kind, channel } => mask | kind.flag(),
        _ => mask,
    }
}

/// The survey comes to `destination` in its sweep. `up_links` says which
/// links are synchronized. A local destination becomes Up; a remote one
/// whose link is synchronized is to be probed; one that was Up behind a link
/// that is not becomes Down. No other flag changes.
pub fn destination_survey(
    routing_table: &RoutingTable,
    up_links: &[bool],
    up_destinations: &mut UpDestinations,
    destination: u8,
) -> (action: SurveyAction)
    requires
        routing_table.wf(),
        old(up_destinations).wf(),
    ensures
        final(up_destinations).wf(),
        action == survey_action(
            routing_table.hop(destination),
            up_links@,
            old(up_destinations)@[destination as int],
        ),
        final(up_destinations)@ == old(up_destinations)@.update(
            destination as int,
            liveness_after_action(old(up_destinations)@[destination as int], action),
        ),
        action is WentDown <==> old(up_destinations)@[destination as int] && !final(up_destinations)@[destination as int],
        routing_table.hop(destination) == 0 ==> final(up_destinations)@[destination as int],
{
    let hop: u8 = routing_table.first_hop(destination);
    let was_up: bool = up_destinations.destination_up(destination);
    let action = if hop == 0 {
        if was_up {
            SurveyAction::Nothing
        } else {
            SurveyAction::LocalUp
        }
    } else if hop as usize > up_links.len() {
        SurveyAction::Nothing
    } else if up_links[(hop - 1) as usize] {
        SurveyAction::Probe { linkno: hop - 1 }
    } else if was_up {
        SurveyAction::WentDown
    } else {
        SurveyAction::Nothing
    };
    match action {
        SurveyAction::LocalUp => up_destinations.destination_set_up(destination, true),
        SurveyAction::WentDown => up_destinations.destination_set_up(destination, false),
        _ => {},
    }
    assert(final(up_destinations)@ =~= old(up_destinations)@.update(
        destination as int,
        liveness_after_action(was_up, action),
    ));
    action
}

/// The exchange that probed `destination` ended with the solicited `reply`
/// (a notification is no reply: see `destination_notified`). Liveness is
/// revised on a definitive reply only: an answer from a
/// destination that was Down, a report of being down from one that was Up. A
/// reported asynchronous error is folded into `seen`. No other flag changes.
pub fn destination_reply(
    routing_table: &RoutingTable,
    up_destinations: &mut UpDestinations,
    seen: &mut AsyncErrors,
    destination: u8,
    reply: Result<Packet, TransportError>,
) -> (outcome: SurveyOutcome)
    requires
        routing_table.wf(),
        old(up_destinations).wf(),
        solicited(reply),
    ensures
        final(up_destinations).wf(),
        !(outcome is Retry) && !(outcome is Deferred),
        outcome == reply_outcome(
            routing_table.hop(destination),
            old(up_destinations)@[destination as int],
            reply,
        ),
        final(up_destinations)@ == old(up_destinations)@.update(
            destination as int,
            liveness_after_outcome(old(up_destinations)@[destination as int], outcome),
        ),
        final(seen)@ == mask_after_outcome(old(seen)@, outcome),
        outcome is WentDown <==> old(up_destinations)@[destination as int] && !final(up_destinations)@[destination as int],
        outcome is CameUp <==> !old(up_destinations)@[destination as int] && final(up_destinations)@[destination as int],
        routing_table.hop(destination) == 0 ==> final(up_destinations)@ == old(up_destinations)@,
{
    let was_up: bool = up_destinations.destination_up(destination);
    let local: bool = routing_table.first_hop(destination) == 0;
    let outcome = match reply {
        Err(e) => SurveyOutcome::Failed(e),
        Ok(packet) => if local {
            SurveyOutcome::Unexpected(packet)
        } else if was_up {
            match packet {
                Packet::DestinationDownReply => SurveyOutcome::WentDown,
                Packet::DestinationOkReply => SurveyOutcome::Unchanged,
                Packet::DestinationSequenceErrorReply { channel } => SurveyOutcome::AsyncError {
                    kind: AsyncErrorKind::SequenceError,
                    channel,
                },
                Packet::DestinationCollisionReply { channel } => SurveyOutcome::AsyncError {
                    kind: AsyncErrorKind::Collision,
                    channel,
                },
                Packet::DestinationBusyReply { channel } => SurveyOutcome::AsyncError {
                    kind: AsyncErrorKind::Busy,
                    channel,
                },
                other => SurveyOutcome::Unexpected(other),
            }
        } else {
            match packet {
                Packet::DestinationDownReply => SurveyOutcome::Unchanged,
                Packet::DestinationOkReply => SurveyOutcome::CameUp,
                other => SurveyOutcome::Unexpected(other),
            }
        },
    };
    match &outcome {
        SurveyOutcome::CameUp => up_destinations.destination_set_up(destination, true),
        SurveyOutcome::WentDown => up_destinations.destination_set_up(destination, false),
        SurveyOutcome::AsyncError { kind, .. } => seen.record(kind.mask()),
        _ => {},
    }
    assert(final(up_destinations)@ =~= old(up_destinations)@.update(
        destination as int,
        liveness_after_outcome(was_up, outcome),
    ));
    outcome
}

/// A notification arrived while the status of `destination` was awaited.
/// It is handed on for its service and revises nothing: neither liveness
/// nor the error mask. A remote destination that is Up is asked again, after
/// the retry pause, while `retries_left` is not used up; any other is left
/// until the next sweep.
pub fn destination_notified(
    routing_table: &RoutingTable,
    up_destinations: &UpDestinations,
    destination: u8,
    retries_left: u32,
    notification: Notification,
) -> (outcome: SurveyOutcome)
    requires
        routing_table.wf(),
        up_destinations.wf(),
    ensures
        outcome == notified_outcome(
            routing_table.hop(destination),
            up_destinations@[destination as int],
            retries_left,
            notification,
        ),
{
    let remote: bool = routing_table.first_hop(destination) != 0;
    if remote && up_destinations.destination_up(destination) && retries_left > 0 {
        SurveyOutcome::Retry(notification)
    } else {
        SurveyOutcome::Deferred(notification)
    }
}

/// A local destination is Up as soon as the survey has come to it, and stays
/// Up: neither a later visit to it, nor anything handed in as a reply for
/// it, nor a visit to or a reply of another destination takes the flag away.
pub proof fn lemma_local_destination_stays_up(
    flags: Seq<bool>,
    local: u8,
    link_up: Seq<bool>,
    reply: Result<Packet, TransportError>,
    other: u8,
    other_hop: u8,
)
    requires
        flags.len() == DEST_COUNT,
        other != local,
    ensures
        liveness_after_action(flags[local as int], survey_action(0, link_up, flags[local as int])),
        flags[local as int] ==> survey_action(0, link_up, true) == SurveyAction::Nothing,
        flags[local as int] ==> liveness_after_outcome(true, reply_outcome(0, true, reply)),
        flags[local as int] ==> flags.update(
            other as int,
            liveness_after_action(
                flags[other as int],
                survey_action(other_hop, link_up, flags[other as int]),
            ),
        )[local as int],
        flags[local as int] ==> flags.update(
            other as int,
            liveness_after_outcome(
                flags[other as int],
                reply_outcome(other_hop, flags[other as int], reply),
            ),
        )[local as int],
{
}

/// A destination goes Down exactly when a transition says so: the survey
/// reports `WentDown` on the visit or the reply that takes the flag from Up
/// to Down, and on no other. For a destination that is already Down neither
/// a visit nor any reply reports `WentDown` again.
pub proof fn lemma_down_is_reported_once(
    hop: u8,
    link_up: Seq<bool>,
    was_up: bool,
    reply: Result<Packet, TransportError>,
)
    ensures
        survey_action(hop, link_up, was_up) is WentDown <==> was_up && !liveness_after_action(
            was_up,
            survey_action(hop, link_up, was_up),
        ),
        reply_outcome(hop, was_up, reply) is WentDown <==> was_up && !liveness_after_outcome(
            was_up,
            reply_outcome(hop, was_up, reply),
        ),
        !(survey_action(hop, link_up, false) is WentDown),
        !(reply_outcome(hop, false, reply) is WentDown),
        survey_action(hop, link_up, was_up) is WentDown ==> survey_action(
            hop,
            link_up,
            liveness_after_action(was_up, survey_action(hop, link_up, was_up)),
        ) == SurveyAction::Nothing,
{
}

} // verus!
