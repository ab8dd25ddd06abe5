use drtio_control::errors::{
    async_error_thread, get_async_errors, process_local_errors, AsyncErrorKind, AsyncErrorReport, AsyncErrors,
    LocalErrors, ASYNC_ERROR_BUSY, ASYNC_ERROR_COLLISION, ASYNC_ERROR_SEQUENCE_ERROR,
};
use drtio_control::packet::Packet;
use drtio_control::routing::{RoutingTable, DEST_COUNT, MAX_HOPS};
use drtio_control::survey::{destination_reply, UpDestinations};

#[test]
fn flag_values() {
    assert_eq!(ASYNC_ERROR_COLLISION, 1);
    assert_eq!(ASYNC_ERROR_BUSY, 2);
    assert_eq!(ASYNC_ERROR_SEQUENCE_ERROR, 4);
    assert_eq!(AsyncErrorKind::Collision.mask(), 1);
    assert_eq!(AsyncErrorKind::Busy.mask(), 2);
    assert_eq!(AsyncErrorKind::SequenceError.mask(), 4);
}

#[test]
fn mask_is_empty_at_boot() {
    let mut seen = AsyncErrors::new();
    assert_eq!(get_async_errors(&mut seen), 0);
}

#[test]
fn two_producers_then_one_query() {
    let mut rows = vec![vec![0xffu8; MAX_HOPS]; DEST_COUNT];
    rows[1][0] = 1;
    let routing_table = RoutingTable { rows };
    let mut up = UpDestinations::new();
    let mut seen = AsyncErrors::new();
    // the hardware poll sees a collision
    let report = async_error_thread(&mut seen, ASYNC_ERROR_COLLISION);
    assert_eq!(report, AsyncErrorReport { collision: true, busy: false, sequence_error: false });
    // the survey hears of a busy error from a destination
    destination_reply(&routing_table, &mut up, &mut seen, 1, Ok(Packet::DestinationOkReply));
    destination_reply(
        &routing_table,
        &mut up,
        &mut seen,
        1,
        Ok(Packet::DestinationBusyReply { channel: 7 }),
    );
    assert_eq!(get_async_errors(&mut seen), ASYNC_ERROR_COLLISION | ASYNC_ERROR_BUSY);
    assert_eq!(get_async_errors(&mut seen), 0);
}

#[test]
fn producers_in_the_other_order() {
    let mut seen = AsyncErrors::new();
    seen.record(ASYNC_ERROR_BUSY);
    async_error_thread(&mut seen, ASYNC_ERROR_COLLISION);
    assert_eq!(get_async_errors(&mut seen), 3);
    assert_eq!(get_async_errors(&mut seen), 0);
}

#[test]
fn record_is_sticky() {
    let mut seen = AsyncErrors::new();
    seen.record(4);
    seen.record(0);
    seen.record(4);
    seen.record(1);
    assert_eq!(get_async_errors(&mut seen), 5);
}

#[test]
fn register_decoding() {
    for errors in 0..=255u8 {
        let mut seen = AsyncErrors::new();
        let report = async_error_thread(&mut seen, errors);
        assert_eq!(report.collision, errors & 1 != 0);
        assert_eq!(report.busy, errors & 2 != 0);
        assert_eq!(report.sequence_error, errors & 4 != 0);
        assert_eq!(get_async_errors(&mut seen), errors);
    }
}

#[test]
fn local_error_decoding() {
    assert_eq!(process_local_errors(0), None);
    assert_eq!(
        process_local_errors(1),
        Some(LocalErrors {
            unknown_packet_type: true,
            truncated_packet: false,
            buffer_space_timeout: false
        })
    );
    assert_eq!(
        process_local_errors(6),
        Some(LocalErrors {
            unknown_packet_type: false,
            truncated_packet: true,
            buffer_space_timeout: true
        })
    );
    assert_eq!(
        process_local_errors(8),
        Some(LocalErrors {
            unknown_packet_type: false,
            truncated_packet: false,
            buffer_space_timeout: false
        })
    );
}
