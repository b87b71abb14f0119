use serial_codec::DecodeError;
use serial_codec::ParameterValue;
use serial_codec::RemoteMessage;
use serial_codec::SerialBuffer;
use serial_codec::StatisticValue;

fn fill<const N: usize>(buf: &mut SerialBuffer<N>, bytes: &[u8]) {
    for b in bytes {
        assert!(buf.free_space() >= 1);
        buf.push(*b);
    }
}

fn round_trip(message: RemoteMessage) {
    let mut buf = SerialBuffer::<16>::new();
    assert!(message.try_send(&mut buf));
    assert_eq!(RemoteMessage::try_receive(&mut buf), Ok(Some(message)));
    assert_eq!(buf.count(), 0);
}

#[test]
fn remote_ping_wire_bytes_and_round_trip() {
    let message = RemoteMessage::Ping(300);
    let mut buf = SerialBuffer::<8>::new();
    assert!(message.try_send(&mut buf));
    assert_eq!(buf.count(), 5);
    assert_eq!(buf.pop(), Some(0x7F | 0x80));
    assert_eq!(buf.pop(), Some(44));
    assert_eq!(buf.pop(), Some(2));
    assert_eq!(buf.pop(), Some(0));
    assert_eq!(buf.pop(), Some(0));
    round_trip(message);
}

#[test]
fn get_stat_result_wire_bytes_and_round_trip() {
    let message = RemoteMessage::GetStatResult(StatisticValue::MaxPrimaryCurrentRaw(96));
    let mut buf = SerialBuffer::<8>::new();
    assert!(message.try_send(&mut buf));
    assert_eq!(buf.count(), 4);
    assert_eq!(buf.pop(), Some(1 | 0x80));
    assert_eq!(buf.pop(), Some(0));
    assert_eq!(buf.pop(), Some(96));
    assert_eq!(buf.pop(), Some(0));
    round_trip(message);
    round_trip(RemoteMessage::GetStatResult(
        StatisticValue::FeedbackFrequencyRaw(16383),
    ));
}

#[test]
fn get_param_result_round_trips() {
    round_trip(RemoteMessage::GetParamResult(
        ParameterValue::DelayCompensationNs(-42),
    ));
    round_trip(RemoteMessage::GetParamResult(
        ParameterValue::StartupFrequencyRaw(800),
    ));
    round_trip(RemoteMessage::GetParamResult(ParameterValue::OffTimeMs(7)));
    round_trip(RemoteMessage::GetParamResult(
        ParameterValue::RampStartPowerRaw(16383),
    ));
}

#[test]
fn remote_event_messages_round_trip() {
    round_trip(RemoteMessage::LockFailed);
    round_trip(RemoteMessage::OcdTripped);
}

#[test]
fn remote_garbage_prefix_is_discarded() {
    let mut buf = SerialBuffer::<16>::new();
    fill(&mut buf, &[0x01, 0x40, 2 | 0x80]);
    assert_eq!(
        RemoteMessage::try_receive(&mut buf),
        Ok(Some(RemoteMessage::LockFailed))
    );
    assert_eq!(buf.count(), 0);
}

#[test]
fn remote_partial_frame_is_pending() {
    let mut buf = SerialBuffer::<16>::new();
    // GetParamResult needs 4 bytes; only 3 are there.
    fill(&mut buf, &[0x80, 4, 100]);
    assert_eq!(RemoteMessage::try_receive(&mut buf), Ok(None));
    assert_eq!(buf.count(), 3);
}

#[test]
fn remote_unknown_catalog_id_drains_frame() {
    let mut buf = SerialBuffer::<16>::new();
    fill(&mut buf, &[0x80, 99, 0, 0]);
    assert_eq!(
        RemoteMessage::try_receive(&mut buf),
        Err(DecodeError::UnknownCatalogId)
    );
    assert_eq!(buf.count(), 0);
}

#[test]
fn remote_unknown_statistic_id_drains_frame() {
    let mut buf = SerialBuffer::<16>::new();
    fill(&mut buf, &[1 | 0x80, 5, 0, 0, 3 | 0x80]);
    assert_eq!(
        RemoteMessage::try_receive(&mut buf),
        Err(DecodeError::UnknownCatalogId)
    );
    assert_eq!(buf.count(), 1);
    assert_eq!(
        RemoteMessage::try_receive(&mut buf),
        Ok(Some(RemoteMessage::OcdTripped))
    );
}

#[test]
fn remote_unknown_frame_type_consumes_one_byte() {
    let mut buf = SerialBuffer::<16>::new();
    fill(&mut buf, &[0x10 | 0x80, 3 | 0x80]);
    assert_eq!(
        RemoteMessage::try_receive(&mut buf),
        Err(DecodeError::UnknownFrameType)
    );
    assert_eq!(buf.count(), 1);
    assert_eq!(
        RemoteMessage::try_receive(&mut buf),
        Ok(Some(RemoteMessage::OcdTripped))
    );
}

#[test]
fn remote_empty_buffer_is_pending() {
    let mut buf = SerialBuffer::<16>::new();
    assert_eq!(RemoteMessage::try_receive(&mut buf), Ok(None));
}

#[test]
fn remote_encode_without_room_writes_nothing() {
    let mut buf = SerialBuffer::<2>::new();
    let message = RemoteMessage::GetStatResult(StatisticValue::FeedbackFrequencyRaw(1));
    assert!(!message.try_send(&mut buf));
    assert_eq!(buf.count(), 0);
    assert!(RemoteMessage::LockFailed.try_send(&mut buf));
    assert_eq!(buf.count(), 1);
}
