//! The state of the whole control plane as it stands at startup.

use vstd::prelude::*;
use crate::device_map::{names_of, parsed, read_device_map, ConfigError, DeviceMap};
use crate::errors::AsyncErrors;
use crate::link::{LinkState, SWEEP_INTERVAL_MS};
use crate::routing::DEST_COUNT;
use crate::survey::UpDestinations;
use crate::transact::LinkChannel;

verus! {

/// Everything that the link monitor, the survey and the error poll work on.
#[derive(Debug, PartialEq, Eq)]
pub struct Fabric {
    /// The state of every link, by link number.
    pub links: Vec<LinkState>,
    /// The transaction lock of every link, by link number.
    pub channels: Vec<LinkChannel>,
    /// Last-known liveness of every destination.
    pub up_destinations: UpDestinations,
    /// The asynchronous errors seen since the last query.
    pub seen: AsyncErrors,
    /// The names of the channels, for error messages.
    pub device_map: DeviceMap,
}

impl Fabric {
    /// Every link has its state and its lock, and every destination its
    /// flag.
    pub open spec fn wf(&self) -> bool {
        &&& self.links@.len() == self.channels@.len()
        &&& self.links@.len() <= 255
        &&& forall|i: int|
            0 <= i < self.channels@.len() ==> (#[trigger] self.channels@[i]).linkno == i
        &&& self.up_destinations.wf()
    }

    /// Which links are synchronized, by link number.
    pub fn up_links(&self) -> (up: Vec<bool>)
        ensures
            up@.len() == self.links@.len(),
            forall|i: int| 0 <= i < up@.len() ==> up@[i] == (self.links@[i] is Synchronized),
    {
        let mut up: Vec<bool> = Vec::new();
        let mut i: usize = 0;
        while i < self.links.len()
            invariant
                i <= self.links@.len(),
                up@.len() == i,
                forall|j: int| 0 <= j < i ==> up@[j] == (self.links@[j] is Synchronized),
            decreases self.links@.len() - i,
        {
            let synchronized: bool = match self.links[i] {
                LinkState::Synchronized => true,
                _ => false,
            };
            up.push(synchronized);
            i += 1;
        }
        up
    }
}

/// Where a sweep stands: the links are visited in the order of their
/// numbers, then the destinations in the order of theirs, then the sweep
/// rests for the sweep interval and starts over.
#[derive(Debug, Clone, Copy, PartialEq, Eq, Structural)]
pub enum SweepCursor {
    /// Link `linkno` is to be visited.
    Link { linkno: u8 },
    /// Destination `destination` is to be surveyed.
    Destination { destination: u8 },
    /// The sweep is over and the monitor rests.
    Rest,
}

/// The position that follows `cursor` in a sweep over `link_count` links.
pub open spec fn cursor_after(cursor: SweepCursor, link_count: u8) -> SweepCursor {
    match cursor {
        SweepCursor::Link { linkno } => if linkno + 1 < link_count {
            SweepCursor::Link { linkno: (linkno + 1) as u8 }
        } else {
            SweepCursor::Destination { destination: 0 }
        },
        SweepCursor::Destination { destination } => if destination + 1 < DEST_COUNT {
            SweepCursor::Destination { destination: (destination + 1) as u8 }
        } else {
            SweepCursor::Rest
        },
        SweepCursor::Rest => if link_count > 0 {
            SweepCursor::Link { linkno: 0 }
        } else {
            SweepCursor::Destination { destination: 0 }
        },
    }
}

impl SweepCursor {
    /// The time, in milliseconds, for which the monitor lets other tasks
    /// run at this position: the sweep interval at rest, none otherwise.
    pub fn pause(&self) -> (ms: u64)
        ensures
            ms == if *self is Rest {
                SWEEP_INTERVAL_MS
            } else {
                0
            },
    {
        match self {
            SweepCursor::Rest => SWEEP_INTERVAL_MS,
            _ => 0,
        }
    }

    /// Moves to the position that follows in a sweep over `link_count`
    /// links.
    pub fn advance(self, link_count: u8) -> (next: SweepCursor)
        ensures
            next == cursor_after(self, link_count),
    {
        match self {
            SweepCursor::Link { linkno } => if linkno < 255 && linkno + 1 < link_count {
                SweepCursor::Link { linkno: linkno + 1 }
            } else {
                SweepCursor::Destination { destination: 0 }
            },
            SweepCursor::Destination { destination } => if destination < 255 {
                SweepCursor::Destination { destination: destination + 1 }
            } else {
                SweepCursor::Rest
            },
            SweepCursor::Rest => if link_count > 0 {
                SweepCursor::Link { linkno: 0 }
            } else {
                SweepCursor::Destination { destination: 0 }
            },
        }
    }
}

/// The control plane at startup, for `link_count` links: every link down
/// and idle, every destination Down, no error seen. The device map is read
/// from the table `device_map`; a missing or damaged table leaves the map
/// empty and is handed back as a warning, never as a failure.
pub fn startup(link_count: u8, device_map: &[u8]) -> (started: (Fabric, Option<ConfigError>))
    ensures
        started.0.wf(),
        started.0.links@.len() == link_count,
        forall|i: int| 0 <= i < link_count ==> started.0.links@[i] == LinkState::Down,
        forall|i: int| 0 <= i < link_count ==> !(#[trigger] started.0.channels@[i]).busy(),
        forall|d: int| 0 <= d < DEST_COUNT ==> !started.0.up_destinations@[d],
        started.0.seen@ == 0,
        match parsed(device_map@) {
            Ok(entries) => started.0.device_map@ == names_of(entries) && started.1 is None,
            Err(e) => started.0.device_map@ == Map::<u32, Seq<u8>>::empty() && started.1 == Some(
                e,
            ),
        },
{
    let (map, warning) = match read_device_map(device_map) {
        Ok(map) => (map, None),
        Err(e) => (DeviceMap::new(), Some(e)),
    };
    let mut links: Vec<LinkState> = Vec::new();
    let mut channels: Vec<LinkChannel> = Vec::new();
    let mut linkno: u8 = 0;
    while linkno < link_count
        invariant
            linkno <= link_count,
            links@.len() == linkno,
            channels@.len() == linkno,
            forall|i: int| 0 <= i < linkno ==> links@[i] == LinkState::Down,
            forall|i: int|
                0 <= i < linkno ==> (#[trigger] channels@[i]).linkno == i && !channels@[i].busy(),
        decreases link_count - linkno,
    {
        links.push(LinkState::Down);
        channels.push(LinkChannel::new(linkno));
        linkno += 1;
    }
    let fabric = Fabric {
        links,
        channels,
        up_destinations: UpDestinations::new(),
        seen: AsyncErrors::new(),
        device_map: map,
    };
    (fabric, warning)
}

} // verus!
