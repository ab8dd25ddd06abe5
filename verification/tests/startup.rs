use drtio_control::errors::get_async_errors;
use drtio_control::device_map::{
    conflicting_channels, read_device_map, ConfigError, Conflict, DeviceMap,
};
use std::collections::BTreeMap;
use drtio_control::fabric::{startup, SweepCursor};
use drtio_control::link::LinkState;
use drtio_control::transact::LinkChannel;

fn entry(channel: u32, name: &str) -> Vec<u8> {
    let mut out = Vec::new();
    out.extend_from_slice(&channel.to_le_bytes());
    out.extend_from_slice(&(name.len() as u32).to_le_bytes());
    out.extend_from_slice(name.as_bytes());
    out
}

fn table(entries: &[(u32, &str)]) -> Vec<u8> {
    let mut out = Vec::new();
    out.extend_from_slice(&(entries.len() as u32).to_le_bytes());
    for (channel, name) in entries {
        out.extend(entry(*channel, name));
    }
    out
}

#[test]
fn device_map_is_read() {
    let bytes = table(&[(3, "ttl0"), (0x01020304, "urukul0_ch1"), (9, "")]);
    let map = read_device_map(&bytes).unwrap();
    let mut expected: BTreeMap<u32, Vec<u8>> = BTreeMap::new();
    expected.insert(3, b"ttl0".to_vec());
    expected.insert(0x01020304, b"urukul0_ch1".to_vec());
    expected.insert(9, Vec::new());
    assert_eq!(map.names, expected);
    assert_eq!(conflicting_channels(&bytes), Vec::<Conflict>::new());
    assert_eq!(map.resolve_channel_name(3), Some(&b"ttl0".to_vec()));
    assert_eq!(map.resolve_channel_name(0x01020304), Some(&b"urukul0_ch1".to_vec()));
    assert_eq!(map.resolve_channel_name(9), Some(&Vec::new()));
    assert_eq!(map.resolve_channel_name(4), None);
    assert_eq!(map.render_channel_name(3), b"ttl0".to_vec());
    assert_eq!(map.render_channel_name(4), b"unknown".to_vec());
    assert_eq!(DeviceMap::new().render_channel_name(0), b"unknown".to_vec());
}

#[test]
fn later_entry_replaces_earlier_one() {
    let bytes = table(&[(3, "old"), (5, "other"), (3, "new")]);
    let map = read_device_map(&bytes).unwrap();
    assert_eq!(map.resolve_channel_name(3), Some(&b"new".to_vec()));
    assert_eq!(map.resolve_channel_name(5), Some(&b"other".to_vec()));
    assert_eq!(map.names.len(), 2);
}

fn conflict(channel: u32, replaced: &str, name: &str) -> Conflict {
    Conflict { channel, replaced: replaced.as_bytes().to_vec(), name: name.as_bytes().to_vec() }
}

#[test]
fn conflicting_entries_are_found() {
    let bytes = table(&[(3, "a"), (5, "b"), (3, "c"), (7, "d"), (5, "e"), (3, "f")]);
    assert_eq!(
        conflicting_channels(&bytes),
        vec![conflict(3, "a", "c"), conflict(5, "b", "e"), conflict(3, "c", "f")]
    );
    assert_eq!(conflicting_channels(&table(&[(1, "x"), (2, "x")])), Vec::<Conflict>::new());
    assert_eq!(conflicting_channels(&table(&[(1, "x"), (1, "x")])), vec![conflict(1, "x", "x")]);
    assert_eq!(conflicting_channels(&table(&[(1, "ttl0"), (1, "")])), vec![conflict(1, "ttl0", "")]);
    assert_eq!(conflicting_channels(&[]), Vec::<Conflict>::new());
    let mut cut = table(&[(3, "a"), (3, "b")]);
    cut.pop();
    assert_eq!(conflicting_channels(&cut), Vec::<Conflict>::new());
}

#[test]
fn missing_table() {
    assert_eq!(read_device_map(&[]), Err(ConfigError::Missing));
}

#[test]
fn truncated_tables() {
    assert_eq!(read_device_map(&[1, 0, 0]), Err(ConfigError::Truncated));
    assert_eq!(read_device_map(&[1, 0, 0, 0]), Err(ConfigError::Truncated));
    let mut bytes = table(&[(3, "ttl0"), (4, "ttl1")]);
    bytes.pop();
    assert_eq!(read_device_map(&bytes), Err(ConfigError::Truncated));
    let mut bytes = table(&[(3, "ttl0")]);
    bytes[0] = 2;
    assert_eq!(read_device_map(&bytes), Err(ConfigError::Truncated));
    assert_eq!(read_device_map(&[255, 255, 255, 255, 0, 0, 0, 0, 255, 255, 255, 255]), Err(ConfigError::Truncated));
}

#[test]
fn empty_table_and_trailing_bytes() {
    assert_eq!(read_device_map(&[0, 0, 0, 0]), Ok(DeviceMap::new()));
    let mut bytes = table(&[(1, "a")]);
    bytes.extend_from_slice(&[9, 9, 9]);
    let mut expected: BTreeMap<u32, Vec<u8>> = BTreeMap::new();
    expected.insert(1, b"a".to_vec());
    assert_eq!(read_device_map(&bytes), Ok(DeviceMap { names: expected }));
}

#[test]
fn startup_state() {
    let bytes = table(&[(3, "ttl0")]);
    let (mut fabric, warning) = startup(4, &bytes);
    assert_eq!(warning, None);
    assert_eq!(fabric.links, vec![LinkState::Down; 4]);
    assert_eq!(
        fabric.channels,
        vec![LinkChannel::new(0), LinkChannel::new(1), LinkChannel::new(2), LinkChannel::new(3)]
    );
    assert_eq!(fabric.up_links(), vec![false; 4]);
    for d in 0..=255u8 {
        assert!(!fabric.up_destinations.destination_up(d));
    }
    assert_eq!(get_async_errors(&mut fabric.seen), 0);
    assert_eq!(fabric.device_map.resolve_channel_name(3), Some(&b"ttl0".to_vec()));
    fabric.links[2] = LinkState::Synchronized;
    fabric.links[1] = LinkState::PingPending { sent: 4, drain_until: Some(7) };
    assert_eq!(fabric.up_links(), vec![false, false, true, false]);
}

#[test]
fn startup_tolerates_a_bad_device_map() {
    let (fabric, warning) = startup(2, &[]);
    assert_eq!(warning, Some(ConfigError::Missing));
    assert_eq!(fabric.device_map, DeviceMap::new());
    assert_eq!(fabric.links.len(), 2);
    let (fabric, warning) = startup(0, &[7, 0, 0, 0, 1]);
    assert_eq!(warning, Some(ConfigError::Truncated));
    assert_eq!(fabric.device_map.names.len(), 0);
    assert_eq!(fabric.links.len(), 0);
}

#[test]
fn sweep_order() {
    let mut cursor = SweepCursor::Rest;
    let mut visited: Vec<SweepCursor> = Vec::new();
    loop {
        cursor = cursor.advance(3);
        if cursor == SweepCursor::Rest {
            break;
        }
        visited.push(cursor);
    }
    assert_eq!(visited.len(), 3 + 256);
    assert_eq!(visited[0], SweepCursor::Link { linkno: 0 });
    assert_eq!(visited[2], SweepCursor::Link { linkno: 2 });
    assert_eq!(visited[3], SweepCursor::Destination { destination: 0 });
    assert_eq!(visited[258], SweepCursor::Destination { destination: 255 });
    assert_eq!(SweepCursor::Rest.advance(0), SweepCursor::Destination { destination: 0 });
    assert_eq!(SweepCursor::Rest.pause(), 200);
    assert_eq!(SweepCursor::Link { linkno: 0 }.pause(), 0);
    assert_eq!(SweepCursor::Destination { destination: 9 }.pause(), 0);
    assert_eq!(SweepCursor::Link { linkno: 254 }.advance(255), SweepCursor::Destination { destination: 0 });
}
