//! The device map: names for channels, read once from a serialized table and
//! used to make error messages readable.
//!
//! The table is a little-endian `u32` count of entries followed by the
//! entries; an entry is a little-endian `u32` channel number, a
//! little-endian `u32` length and that many bytes of name.

use vstd::prelude::*;
use std::collections::BTreeMap;

verus! {

/// Why no device map could be read. Neither is fatal: names are then
/// unavailable in error messages.
#[derive(Debug, Clone, Copy, PartialEq, Eq, Structural)]
pub enum ConfigError {
    /// The configuration holds no table.
    Missing,
    /// The table ends before its last entry does.
    Truncated,
}

/// The names of the channels, keyed by channel number. Its view maps each
/// channel that has a name to the bytes of that name.
#[derive(Debug, PartialEq, Eq)]
pub struct DeviceMap {
    pub names: BTreeMap<u32, Vec<u8>>,
}

/// The little-endian number in the four bytes of `bytes` from `at` on.
pub open spec fn le_u32(bytes: Seq<u8>, at: int) -> int {
    bytes[at] + 256 * bytes[at + 1] + 65536 * bytes[at + 2] + 16777216 * bytes[at + 3]
}

/// The `count` entries that `bytes` holds from `at` on, or `None` if the
/// bytes end before the entries do.
pub open spec fn entries_at(bytes: Seq<u8>, at: int, count: nat) -> Option<Seq<(u32, Seq<u8>)>>
    decreases count,
{
    if count == 0 {
        Some(Seq::empty())
    } else if at + 8 > bytes.len() {
        None
    } else if at + 8 + le_u32(bytes, at + 4) > bytes.len() {
        None
    } else {
        let end = at + 8 + le_u32(bytes, at + 4);
        match entries_at(bytes, end, (count - 1) as nat) {
            None => None,
            Some(rest) => Some(
                seq![(le_u32(bytes, at) as u32, bytes.subrange(at + 8, end))] + rest,
            ),
        }
    }
}

/// The entries that the table `bytes` holds. Bytes after the last entry are
/// not read.
pub open spec fn parsed(bytes: Seq<u8>) -> Result<Seq<(u32, Seq<u8>)>, ConfigError> {
    if bytes.len() == 0 {
        Err(ConfigError::Missing)
    } else if bytes.len() < 4 {
        Err(ConfigError::Truncated)
    } else {
        match entries_at(bytes, 4, le_u32(bytes, 0) as nat) {
            None => Err(ConfigError::Truncated),
            Some(entries) => Ok(entries),
        }
    }
}

/// The map that `entries` make when they are entered in their order: a
/// later entry for a channel replaces an earlier one.
pub open spec fn names_of(entries: Seq<(u32, Seq<u8>)>) -> Map<u32, Seq<u8>>
    decreases entries.len(),
{
    if entries.len() == 0 {
        Map::empty()
    } else {
        names_of(entries.drop_last()).insert(entries.last().0, entries.last().1)
    }
}

/// Two entries for one channel: the name that was replaced and the name
/// that replaced it.
#[derive(Debug, PartialEq, Eq)]
pub struct Conflict {
    pub channel: u32,
    pub replaced: Vec<u8>,
    pub name: Vec<u8>,
}

impl View for Conflict {
    type V = (u32, Seq<u8>, Seq<u8>);

    open spec fn view(&self) -> (u32, Seq<u8>, Seq<u8>) {
        (self.channel, self.replaced@, self.name@)
    }
}

/// The views of a sequence of conflicts, in order.
pub open spec fn conflict_views(conflicts: Seq<Conflict>) -> Seq<(u32, Seq<u8>, Seq<u8>)> {
    Seq::new(conflicts.len(), |i: int| conflicts[i]@)
}

/// The conflicts among `entries`, in the order of the entries: one for
/// every entry that replaces an earlier one, with the channel, the name that
/// the channel had until then and the name of the entry.
pub open spec fn conflicts_of(entries: Seq<(u32, Seq<u8>)>) -> Seq<(u32, Seq<u8>, Seq<u8>)>
    decreases entries.len(),
{
    if entries.len() == 0 {
        Seq::empty()
    } else if names_of(entries.drop_last()).contains_key(entries.last().0) {
        conflicts_of(entries.drop_last()).push(
            (
                entries.last().0,
                names_of(entries.drop_last())[entries.last().0],
                entries.last().1,
            ),
        )
    } else {
        conflicts_of(entries.drop_last())
    }
}

/// The bytes of the text `unknown`, under which a channel without a name is
/// rendered.
pub open spec fn unknown_name() -> Seq<u8> {
    seq![117u8, 110u8, 107u8, 110u8, 111u8, 119u8, 110u8]
}

fn read_u32(bytes: &[u8], at: usize) -> (value: u32)
    requires
        at + 4 <= bytes@.len(),
    ensures
        value == le_u32(bytes@, at as int),
{
    let b0: u32 = bytes[at] as u32;
    let b1: u32 = bytes[at + 1] as u32;
    let b2: u32 = bytes[at + 2] as u32;
    let b3: u32 = bytes[at + 3] as u32;
    b0 + 256 * b1 + 65536 * b2 + 16777216 * b3
}

impl View for DeviceMap {
    type V = Map<u32, Seq<u8>>;

    open spec fn view(&self) -> Map<u32, Seq<u8>> {
        self.names@.map_values(|name: Vec<u8>| name@)
    }
}

impl DeviceMap {
    /// The map without entries.
    pub fn new() -> (map: DeviceMap)
        ensures
            map@ == Map::<u32, Seq<u8>>::empty(),
    {
        let map = DeviceMap { names: BTreeMap::new() };
        assert(map@ =~= Map::empty());
        map
    }

    /// The name of `channel`, as bytes, if the map has one.
    pub fn resolve_channel_name(&self, channel: u32) -> (name: Option<&Vec<u8>>)
        ensures
            name is Some <==> self@.contains_key(channel),
            name matches Some(bytes) ==> self@[channel] == bytes@,
    {
        self.names.get(&channel)
    }

    /// The text that stands for `channel` in a message: its name, or
    /// `unknown` where the map has none.
    pub fn render_channel_name(&self, channel: u32) -> (text: Vec<u8>)
        ensures
            text@ == if self@.contains_key(channel) {
                self@[channel]
            } else {
                unknown_name()
            },
    {
        match self.resolve_channel_name(channel) {
            Some(name) => crate::chunk::copy_range(name.as_slice(), 0, name.len()),
            None => {
                let mut text: Vec<u8> = Vec::new();
                text.push(117u8);
                text.push(110u8);
                text.push(107u8);
                text.push(110u8);
                text.push(111u8);
                text.push(119u8);
                text.push(110u8);
                assert(text@ =~= unknown_name());
                text
            },
        }
    }
}

/// Reads the table `bytes` entry by entry into a map, and notes every entry
/// that replaced an earlier one.
fn read_table(bytes: &[u8]) -> (result: Result<(DeviceMap, Vec<Conflict>), ConfigError>)
    ensures
        match result {
            Ok(read) => parsed(bytes@) is Ok && read.0@ == names_of(parsed(bytes@)->Ok_0)
                && conflict_views(read.1@) == conflicts_of(parsed(bytes@)->Ok_0),
            Err(e) => parsed(bytes@) == Err::<Seq<(u32, Seq<u8>)>, ConfigError>(e),
        },
{
    if bytes.len() == 0 {
        return Err(ConfigError::Missing);
    }
    if bytes.len() < 4 {
        return Err(ConfigError::Truncated);
    }
    let size: u32 = read_u32(bytes, 0);
    let mut map = DeviceMap { names: BTreeMap::new() };
    let mut conflicts: Vec<Conflict> = Vec::new();
    assert(conflict_views(conflicts@) =~= Seq::empty());
    let ghost mut done: Seq<(u32, Seq<u8>)> = Seq::empty();
    let mut at: usize = 4;
    let mut i: u32 = 0;
    assert(map@ =~= Map::empty());
    while i < size
        invariant
            i <= size,
            size == le_u32(bytes@, 0),
            4 <= at <= bytes@.len(),
            map@ == names_of(done),
            conflict_views(conflicts@) == conflicts_of(done),
            entries_at(bytes@, 4, size as nat) == match entries_at(
                bytes@,
                at as int,
                (size - i) as nat,
            ) {
                None => None,
                Some(rest) => Some(done + rest),
            },
        decreases size - i,
    {
        if bytes.len() - at < 8 {
            assert(entries_at(bytes@, at as int, (size - i) as nat) is None);
            return Err(ConfigError::Truncated);
        }
        let channel: u32 = read_u32(bytes, at);
        let length: u32 = read_u32(bytes, at + 4);
        if bytes.len() - at - 8 < length as usize {
            assert(entries_at(bytes@, at as int, (size - i) as nat) is None);
            return Err(ConfigError::Truncated);
        }
        let end: usize = at + 8 + length as usize;
        let name = crate::chunk::copy_range(bytes, at + 8, end);
        let entered = crate::chunk::copy_range(bytes, at + 8, end);
        let ghost before = done;
        let ghost noted = conflicts@;
        let ghost names_before = map.names@;
        let replaced = map.names.insert(channel, name);
        proof {
            done = before.push((channel, name@));
            assert(done.drop_last() =~= before);
            assert(names_before.map_values(|name: Vec<u8>| name@).contains_key(channel)
                == names_before.contains_key(channel));
            assert(map@ =~= names_of(before).insert(channel, name@));
            assert(done =~= before + seq![(channel, bytes@.subrange(at + 8, end as int))]);
            match entries_at(bytes@, end as int, (size - i - 1) as nat) {
                None => {},
                Some(rest) => {
                    assert((before + seq![(channel, bytes@.subrange(at + 8, end as int))]) + rest
                        =~= before + (seq![(channel, bytes@.subrange(at + 8, end as int))] + rest));
                },
            }
        }
        match replaced {
            Some(earlier) => {
                assert(earlier@ == names_of(before)[channel]);
                conflicts.push(Conflict { channel, replaced: earlier, name: entered });
                assert(conflict_views(conflicts@) =~= conflict_views(noted).push(
                    (channel, names_of(before)[channel], name@),
                ));
            },
            None => {},
        }
        at = end;
        i += 1;
    }
    assert(done + Seq::<(u32, Seq<u8>)>::empty() =~= done);
    Ok((map, conflicts))
}

/// Reads the device map from the table `bytes`. A missing table (no bytes)
/// and a table that ends too early are told apart and give no map.
pub fn read_device_map(bytes: &[u8]) -> (result: Result<DeviceMap, ConfigError>)
    ensures
        match result {
            Ok(map) => parsed(bytes@) is Ok && map@ == names_of(parsed(bytes@)->Ok_0),
            Err(e) => parsed(bytes@) == Err::<Seq<(u32, Seq<u8>)>, ConfigError>(e),
        },
{
    match read_table(bytes) {
        Ok(read) => Ok(read.0),
        Err(e) => Err(e),
    }
}

/// The conflicting entries of the table `bytes`: for every entry that
/// replaces an earlier one, in the order of the entries, the channel, the
/// name that was replaced and the name that replaced it. A table that
/// cannot be read has none.
pub fn conflicting_channels(bytes: &[u8]) -> (conflicts: Vec<Conflict>)
    ensures
        conflict_views(conflicts@) == match parsed(bytes@) {
            Ok(entries) => conflicts_of(entries),
            Err(_) => Seq::<(u32, Seq<u8>, Seq<u8>)>::empty(),
        },
{
    match read_table(bytes) {
        Ok(read) => read.1,
        Err(_) => {
            let conflicts: Vec<Conflict> = Vec::new();
            assert(conflict_views(conflicts@) =~= Seq::empty());
            conflicts
        },
    }
}

} // verus!
