use drtio_control::errors::{
    get_async_errors, AsyncErrorKind, AsyncErrors, ASYNC_ERROR_BUSY, ASYNC_ERROR_COLLISION,
    ASYNC_ERROR_SEQUENCE_ERROR,
};
use drtio_control::packet::{Packet, TransportError};
use drtio_control::routing::{RoutingTable, DEST_COUNT, MAX_HOPS};
use drtio_control::survey::{
    destination_notified, destination_reply, destination_survey, SurveyAction, SurveyOutcome, UpDestinations,
    RETRY_PAUSE_MS,
};
use drtio_control::transact::Notification;

fn table() -> RoutingTable {
    // destination 0 local; 1 and 2 behind link 0; 3 behind link 1; 4 behind a link that is absent
    let mut rows = vec![vec![0xffu8; MAX_HOPS]; DEST_COUNT];
    rows[0][0] = 0;
    rows[1][0] = 1;
    rows[2][0] = 1;
    rows[3][0] = 2;
    rows[4][0] = 9;
    RoutingTable { rows }
}

fn status(destination: u8) -> Packet {
    Packet::DestinationStatusRequest { destination }
}

#[test]
fn local_destination_is_up_at_once_and_stays() {
    let routing_table = table();
    let mut up = UpDestinations::new();
    assert!(!up.destination_up(0));
    assert_eq!(destination_survey(&routing_table, &[false, false], &mut up, 0), SurveyAction::LocalUp);
    assert!(up.destination_up(0));
    for links in [[false, false], [true, false], [true, true]] {
        assert_eq!(destination_survey(&routing_table, &links, &mut up, 0), SurveyAction::Nothing);
        assert!(up.destination_up(0));
        for d in 1..=255u8 {
            destination_survey(&routing_table, &links, &mut up, d);
            assert!(up.destination_up(0));
        }
    }
    let mut seen = AsyncErrors::new();
    destination_reply(&routing_table, &mut up, &mut seen, 1, Ok(Packet::DestinationOkReply));
    destination_reply(&routing_table, &mut up, &mut seen, 1, Ok(Packet::DestinationDownReply));
    assert!(up.destination_up(0));
    assert_eq!(
        destination_reply(&routing_table, &mut up, &mut seen, 0, Ok(Packet::DestinationDownReply)),
        SurveyOutcome::Unexpected(Packet::DestinationDownReply)
    );
    assert_eq!(
        destination_reply(&routing_table, &mut up, &mut seen, 0, Err(TransportError::LinkDown)),
        SurveyOutcome::Failed(TransportError::LinkDown)
    );
    assert!(up.destination_up(0));
}

#[test]
fn destination_comes_up_on_ok_reply() {
    let routing_table = table();
    let mut up = UpDestinations::new();
    let mut seen = AsyncErrors::new();
    assert_eq!(
        destination_survey(&routing_table, &[true, false], &mut up, 2),
        SurveyAction::Probe { linkno: 0 }
    );
    assert!(!up.destination_up(2));
    assert_eq!(status(2), Packet::DestinationStatusRequest { destination: 2 });
    assert_eq!(
        destination_reply(&routing_table, &mut up, &mut seen, 2, Ok(Packet::DestinationOkReply)),
        SurveyOutcome::CameUp
    );
    assert!(up.destination_up(2));
    assert!(!up.destination_up(1));
    assert_eq!(get_async_errors(&mut seen), 0);
}

#[test]
fn down_destination_stays_down_on_anything_else() {
    let routing_table = table();
    let mut up = UpDestinations::new();
    let mut seen = AsyncErrors::new();
    assert_eq!(
        destination_reply(&routing_table, &mut up, &mut seen, 2, Ok(Packet::DestinationDownReply)),
        SurveyOutcome::Unchanged
    );
    assert_eq!(
        destination_reply(&routing_table, &mut up, &mut seen, 2, Ok(Packet::EchoReply)),
        SurveyOutcome::Unexpected(Packet::EchoReply)
    );
    assert_eq!(
        destination_notified(
            &routing_table,
            &up,
            2,
            5,
            Notification::SubkernelFinished { id: 1, with_exception: false }
        ),
        SurveyOutcome::Deferred(Notification::SubkernelFinished { id: 1, with_exception: false })
    );
    assert_eq!(
        destination_reply(
            &routing_table,
            &mut up,
            &mut seen,
            2,
            Ok(Packet::DestinationBusyReply { channel: 4 })
        ),
        SurveyOutcome::Unexpected(Packet::DestinationBusyReply { channel: 4 })
    );
    assert_eq!(
        destination_reply(&routing_table, &mut up, &mut seen, 2, Err(TransportError::Timeout)),
        SurveyOutcome::Failed(TransportError::Timeout)
    );
    assert!(!up.destination_up(2));
    assert_eq!(get_async_errors(&mut seen), 0);
}

#[test]
fn link_loss_fires_down_exactly_once() {
    let routing_table = table();
    let mut up = UpDestinations::new();
    let mut seen = AsyncErrors::new();
    let mut buffer_space_initialized: u32 = 0;
    let mut down_notifications: u32 = 0;

    destination_survey(&routing_table, &[true, false], &mut up, 2);
    if destination_reply(&routing_table, &mut up, &mut seen, 2, Ok(Packet::DestinationOkReply))
        == SurveyOutcome::CameUp
    {
        buffer_space_initialized += 1;
    }
    assert_eq!(buffer_space_initialized, 1);
    assert!(up.destination_up(2));

    // the hop link lost its carrier: five further sweeps
    for _ in 0..5 {
        match destination_survey(&routing_table, &[false, false], &mut up, 2) {
            SurveyAction::WentDown => down_notifications += 1,
            SurveyAction::Nothing => {}
            other => panic!("unexpected action {:?}", other),
        }
        assert!(!up.destination_up(2));
    }
    assert_eq!(down_notifications, 1);
    assert_eq!(buffer_space_initialized, 1);

    // the link is back; the destination is re-confirmed
    assert_eq!(
        destination_survey(&routing_table, &[true, false], &mut up, 2),
        SurveyAction::Probe { linkno: 0 }
    );
    assert_eq!(
        destination_reply(&routing_table, &mut up, &mut seen, 2, Ok(Packet::DestinationDownReply)),
        SurveyOutcome::Unchanged
    );
    assert_eq!(buffer_space_initialized, 1);
    destination_survey(&routing_table, &[true, false], &mut up, 2);
    assert_eq!(
        destination_reply(&routing_table, &mut up, &mut seen, 2, Ok(Packet::DestinationOkReply)),
        SurveyOutcome::CameUp
    );
    assert!(up.destination_up(2));
}

#[test]
fn down_reply_fires_down_once() {
    let routing_table = table();
    let mut up = UpDestinations::new();
    let mut seen = AsyncErrors::new();
    destination_reply(&routing_table, &mut up, &mut seen, 3, Ok(Packet::DestinationOkReply));
    assert!(up.destination_up(3));
    assert_eq!(
        destination_survey(&routing_table, &[false, true], &mut up, 3),
        SurveyAction::Probe { linkno: 1 }
    );
    assert_eq!(
        destination_reply(&routing_table, &mut up, &mut seen, 3, Ok(Packet::DestinationDownReply)),
        SurveyOutcome::WentDown
    );
    assert!(!up.destination_up(3));
    assert_eq!(
        destination_reply(&routing_table, &mut up, &mut seen, 3, Ok(Packet::DestinationDownReply)),
        SurveyOutcome::Unchanged
    );
    assert!(!up.destination_up(3));
}

#[test]
fn up_destination_tolerates_noise() {
    let routing_table = table();
    let mut up = UpDestinations::new();
    let mut seen = AsyncErrors::new();
    destination_reply(&routing_table, &mut up, &mut seen, 1, Ok(Packet::DestinationOkReply));
    assert_eq!(
        destination_reply(&routing_table, &mut up, &mut seen, 1, Ok(Packet::DestinationOkReply)),
        SurveyOutcome::Unchanged
    );
    assert_eq!(
        destination_reply(&routing_table, &mut up, &mut seen, 1, Err(TransportError::Timeout)),
        SurveyOutcome::Failed(TransportError::Timeout)
    );
    assert_eq!(
        destination_reply(&routing_table, &mut up, &mut seen, 1, Err(TransportError::LinkDown)),
        SurveyOutcome::Failed(TransportError::LinkDown)
    );
    assert_eq!(
        destination_reply(&routing_table, &mut up, &mut seen, 1, Ok(Packet::RoutingAck)),
        SurveyOutcome::Unexpected(Packet::RoutingAck)
    );
    assert!(up.destination_up(1));
    assert_eq!(get_async_errors(&mut seen), 0);
}

#[test]
fn notification_in_place_of_status_asks_again() {
    assert_eq!(RETRY_PAUSE_MS, 10);
    let routing_table = table();
    let mut up = UpDestinations::new();
    let mut seen = AsyncErrors::new();
    destination_reply(&routing_table, &mut up, &mut seen, 1, Ok(Packet::DestinationOkReply));
    let outcome = destination_notified(
        &routing_table,
        &up,
        1,
        3,
        Notification::PlaybackDone { id: 1, destination: 1, error: 0, channel: 0, timestamp: 5 },
    );
    assert!(outcome.asks_again());
    assert_eq!(outcome.pause(), 10);
    assert!(!SurveyOutcome::Unchanged.asks_again());
    assert_eq!(SurveyOutcome::WentDown.pause(), 0);
    assert_eq!(
        outcome,
        SurveyOutcome::Retry(Notification::PlaybackDone {
            id: 1,
            destination: 1,
            error: 0,
            channel: 0,
            timestamp: 5
        })
    );
    assert!(up.destination_up(1));
    assert_eq!(get_async_errors(&mut seen), 0);
}

#[test]
fn retries_end_with_the_budget() {
    let routing_table = table();
    let mut up = UpDestinations::new();
    let mut seen = AsyncErrors::new();
    destination_reply(&routing_table, &mut up, &mut seen, 1, Ok(Packet::DestinationOkReply));
    let finished = || Notification::SubkernelFinished { id: 4, with_exception: true };
    assert_eq!(
        destination_notified(&routing_table, &up, 1, 1, finished()),
        SurveyOutcome::Retry(finished())
    );
    let deferred = destination_notified(&routing_table, &up, 1, 0, finished());
    assert_eq!(deferred, SurveyOutcome::Deferred(finished()));
    assert!(!deferred.asks_again());
    assert_eq!(deferred.pause(), 0);
    assert!(up.destination_up(1));
}

#[test]
fn notification_for_a_down_or_local_destination_is_deferred() {
    let routing_table = table();
    let mut up = UpDestinations::new();
    let finished = || Notification::SubkernelFinished { id: 4, with_exception: false };
    assert_eq!(
        destination_notified(&routing_table, &up, 2, 9, finished()),
        SurveyOutcome::Deferred(finished())
    );
    destination_survey(&routing_table, &[false, false], &mut up, 0);
    assert!(up.destination_up(0));
    assert_eq!(
        destination_notified(&routing_table, &up, 0, 9, finished()),
        SurveyOutcome::Deferred(finished())
    );
    assert!(up.destination_up(0));
    assert!(!up.destination_up(2));
}

#[test]
fn error_replies_fold_into_the_mask() {
    let routing_table = table();
    let mut up = UpDestinations::new();
    let mut seen = AsyncErrors::new();
    destination_reply(&routing_table, &mut up, &mut seen, 1, Ok(Packet::DestinationOkReply));
    assert_eq!(
        destination_reply(
            &routing_table,
            &mut up,
            &mut seen,
            1,
            Ok(Packet::DestinationSequenceErrorReply { channel: 0x12 })
        ),
        SurveyOutcome::AsyncError { kind: AsyncErrorKind::SequenceError, channel: 0x12 }
    );
    assert_eq!(get_async_errors(&mut seen), ASYNC_ERROR_SEQUENCE_ERROR);
    assert_eq!(
        destination_reply(
            &routing_table,
            &mut up,
            &mut seen,
            1,
            Ok(Packet::DestinationCollisionReply { channel: 3 })
        ),
        SurveyOutcome::AsyncError { kind: AsyncErrorKind::Collision, channel: 3 }
    );
    assert_eq!(
        destination_reply(
            &routing_table,
            &mut up,
            &mut seen,
            1,
            Ok(Packet::DestinationBusyReply { channel: 4 })
        ),
        SurveyOutcome::AsyncError { kind: AsyncErrorKind::Busy, channel: 4 }
    );
    assert_eq!(get_async_errors(&mut seen), ASYNC_ERROR_COLLISION | ASYNC_ERROR_BUSY);
    assert!(up.destination_up(1));
}

#[test]
fn destination_behind_absent_link_is_left_alone() {
    let routing_table = table();
    let mut up = UpDestinations::new();
    assert_eq!(destination_survey(&routing_table, &[true, true], &mut up, 4), SurveyAction::Nothing);
    assert_eq!(destination_survey(&routing_table, &[true, true], &mut up, 200), SurveyAction::Nothing);
    assert!(!up.destination_up(4));
}

#[test]
fn down_destination_behind_down_link_is_not_probed() {
    let routing_table = table();
    let mut up = UpDestinations::new();
    assert_eq!(destination_survey(&routing_table, &[false, true], &mut up, 1), SurveyAction::Nothing);
    assert_eq!(
        destination_survey(&routing_table, &[false, true], &mut up, 3),
        SurveyAction::Probe { linkno: 1 }
    );
}
