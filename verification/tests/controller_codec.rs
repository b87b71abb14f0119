use serial_codec::ControllerMessage;
use serial_codec::DecodeError;
use serial_codec::Parameter;
use serial_codec::ParameterValue;
use serial_codec::RunMode;
use serial_codec::SerialBuffer;
use serial_codec::Statistic;
use serial_codec::saturate_to_raw;
use serial_codec::sign_extend_i14;

fn fill<const N: usize>(buf: &mut SerialBuffer<N>, bytes: &[u8]) {
    for b in bytes {
        assert!(buf.free_space() >= 1);
        buf.push(*b);
    }
}

fn round_trip(message: ControllerMessage) {
    let mut buf = SerialBuffer::<16>::new();
    assert!(message.try_send(&mut buf));
    assert_eq!(ControllerMessage::try_receive(&mut buf), Ok(Some(message)));
    assert_eq!(buf.count(), 0);
}

#[test]
fn ping_wire_bytes_and_round_trip() {
    let message = ControllerMessage::Ping(300);
    let mut buf = SerialBuffer::<8>::new();
    assert!(message.try_send(&mut buf));
    assert_eq!(buf.count(), 5);
    assert_eq!(buf.pop(), Some(0x7F | 0x80));
    assert_eq!(buf.pop(), Some((300u32 & 0x7F) as u8)); // 44
    assert_eq!(buf.pop(), Some(((300u32 >> 7) & 0x7F) as u8)); // 2
    assert_eq!(buf.pop(), Some(0));
    assert_eq!(buf.pop(), Some(0));
    round_trip(message);
}

#[test]
fn set_param_current_limit_scaling() {
    // 3.0 amperes at scale 32 quantizes to raw 96.
    let raw = saturate_to_raw((3.0f32 * 32.0) as i32);
    assert_eq!(raw, 96);
    let message = ControllerMessage::SetParam(ParameterValue::CurrentLimitRaw(raw));
    let mut buf = SerialBuffer::<8>::new();
    assert!(message.try_send(&mut buf));
    assert_eq!(buf.count(), 4);
    assert_eq!(buf.pop(), Some(2 | 0x80));
    assert_eq!(buf.pop(), Some(11));
    assert_eq!(buf.pop(), Some(96 & 0x7F));
    assert_eq!(buf.pop(), Some((96 >> 7) & 0x7F));
    round_trip(message);
    // The decoded raw value reproduces 3.0 amperes.
    assert_eq!(raw as f32 / 32.0, 3.0f32);
}

#[test]
fn saturate_clamps_out_of_range_inputs() {
    // A power fraction of 2.0 at scale 16384 saturates to raw 16383.
    assert_eq!(saturate_to_raw((2.0f32 * 16384.0) as i32), 16383);
    // Full power itself quantizes just past the top and is clamped too.
    assert_eq!(saturate_to_raw((1.0f32 * 16384.0) as i32), 16383);
    // Negative physical inputs saturate to zero.
    assert_eq!(saturate_to_raw((-1.5f32 * 16384.0) as i32), 0);
    // In-range inputs pass through untouched.
    assert_eq!(saturate_to_raw((0.5f32 * 16384.0) as i32), 8192);
    assert_eq!(saturate_to_raw(0), 0);
    assert_eq!(saturate_to_raw(16383), 16383);
}

#[test]
fn sign_extension_of_14_bit_values() {
    assert_eq!(sign_extend_i14(0), 0);
    assert_eq!(sign_extend_i14(0x1FFF), 8191);
    assert_eq!(sign_extend_i14(0x2000), -8192);
    assert_eq!(sign_extend_i14(0x3FFF), -1);
}

#[test]
fn garbage_prefix_is_discarded_before_frame() {
    let mut buf = SerialBuffer::<16>::new();
    // Three stray bytes, none with the start-marker bit, then KeepAlive.
    fill(&mut buf, &[0x00, 0x7F, 0x05, 5 | 0x80]);
    assert_eq!(
        ControllerMessage::try_receive(&mut buf),
        Ok(Some(ControllerMessage::KeepAlive))
    );
    assert_eq!(buf.count(), 0);
}

#[test]
fn partial_frame_is_pending_and_consumes_nothing() {
    let mut buf = SerialBuffer::<16>::new();
    // SetParam needs 4 bytes; only 2 are there.
    fill(&mut buf, &[2 | 0x80, 11]);
    assert_eq!(ControllerMessage::try_receive(&mut buf), Ok(None));
    assert_eq!(buf.count(), 2);
    // Once the rest arrives the same frame decodes.
    fill(&mut buf, &[96, 0]);
    assert_eq!(
        ControllerMessage::try_receive(&mut buf),
        Ok(Some(ControllerMessage::SetParam(
            ParameterValue::CurrentLimitRaw(96)
        )))
    );
    assert_eq!(buf.count(), 0);
}

#[test]
fn unknown_catalog_id_drains_exactly_one_frame() {
    let mut buf = SerialBuffer::<16>::new();
    // A complete SetParam frame with catalog id 99, then a KeepAlive frame.
    fill(&mut buf, &[2 | 0x80, 99, 0, 0, 5 | 0x80]);
    assert_eq!(
        ControllerMessage::try_receive(&mut buf),
        Err(DecodeError::UnknownCatalogId)
    );
    assert_eq!(buf.count(), 5 - 4);
    assert_eq!(
        ControllerMessage::try_receive(&mut buf),
        Ok(Some(ControllerMessage::KeepAlive))
    );
    assert_eq!(buf.count(), 0);
}

#[test]
fn unknown_frame_type_consumes_exactly_one_byte() {
    let mut buf = SerialBuffer::<16>::new();
    fill(&mut buf, &[0x30 | 0x80, 5 | 0x80]);
    assert_eq!(
        ControllerMessage::try_receive(&mut buf),
        Err(DecodeError::UnknownFrameType)
    );
    assert_eq!(buf.count(), 1);
    assert_eq!(
        ControllerMessage::try_receive(&mut buf),
        Ok(Some(ControllerMessage::KeepAlive))
    );
}

#[test]
fn invalid_run_mode_value_is_rejected() {
    let mut buf = SerialBuffer::<16>::new();
    // SetParam of the run-mode parameter (id 3) with value 7: outside the
    // valid set {0, 1, 2}.
    fill(&mut buf, &[2 | 0x80, 3, 7, 0]);
    assert_eq!(
        ControllerMessage::try_receive(&mut buf),
        Err(DecodeError::InvalidEnumeratedValue)
    );
    assert_eq!(buf.count(), 0);
}

#[test]
fn empty_buffer_is_pending() {
    let mut buf = SerialBuffer::<16>::new();
    assert_eq!(ControllerMessage::try_receive(&mut buf), Ok(None));
    assert_eq!(buf.count(), 0);
}

#[test]
fn encode_without_room_writes_nothing() {
    let mut buf = SerialBuffer::<3>::new();
    let message = ControllerMessage::SetParam(ParameterValue::LockTimeUs(500));
    assert!(!message.try_send(&mut buf));
    assert_eq!(buf.count(), 0);
    // A one-byte frame still fits.
    assert!(ControllerMessage::Run.try_send(&mut buf));
    assert_eq!(buf.count(), 1);
}

#[test]
fn simple_controller_messages_round_trip() {
    round_trip(ControllerMessage::SetDebugLed(true));
    round_trip(ControllerMessage::SetDebugLed(false));
    round_trip(ControllerMessage::GetParam(Parameter::StartupFrequency));
    round_trip(ControllerMessage::GetParam(Parameter::FlatPower));
    round_trip(ControllerMessage::GetStat(Statistic::MaxPrimaryCurrent));
    round_trip(ControllerMessage::GetStat(Statistic::FeedbackFrequency));
    round_trip(ControllerMessage::ResetStats);
    round_trip(ControllerMessage::KeepAlive);
    round_trip(ControllerMessage::Run);
    round_trip(ControllerMessage::Stop);
    round_trip(ControllerMessage::Ping(0));
    round_trip(ControllerMessage::Ping(0x0FFF_FFFF));
}

#[test]
fn set_param_round_trips_for_every_parameter() {
    round_trip(ControllerMessage::SetParam(
        ParameterValue::DelayCompensationNs(-1000),
    ));
    round_trip(ControllerMessage::SetParam(
        ParameterValue::DelayCompensationNs(8191),
    ));
    round_trip(ControllerMessage::SetParam(
        ParameterValue::DelayCompensationNs(-8192),
    ));
    round_trip(ControllerMessage::SetParam(
        ParameterValue::StartupFrequencyRaw(16 * 40),
    ));
    round_trip(ControllerMessage::SetParam(ParameterValue::LockRangeRaw(32)));
    round_trip(ControllerMessage::SetParam(ParameterValue::RunMode(
        RunMode::OpenLoop,
    )));
    round_trip(ControllerMessage::SetParam(ParameterValue::RunMode(
        RunMode::TestClosedLoop,
    )));
    round_trip(ControllerMessage::SetParam(ParameterValue::RunMode(
        RunMode::ClosedLoopRamp,
    )));
    round_trip(ControllerMessage::SetParam(ParameterValue::LockTimeUs(16383)));
    round_trip(ControllerMessage::SetParam(ParameterValue::StartupTimeUs(1)));
    round_trip(ControllerMessage::SetParam(ParameterValue::OnTimeRaw(1200)));
    round_trip(ControllerMessage::SetParam(ParameterValue::OffTimeMs(20)));
    round_trip(ControllerMessage::SetParam(
        ParameterValue::RampStartPowerRaw(0),
    ));
    round_trip(ControllerMessage::SetParam(ParameterValue::RampEndPowerRaw(
        16383,
    )));
    round_trip(ControllerMessage::SetParam(
        ParameterValue::MinLockCurrentRaw(128),
    ));
    round_trip(ControllerMessage::SetParam(ParameterValue::CurrentLimitRaw(
        96,
    )));
    round_trip(ControllerMessage::SetParam(ParameterValue::FlatPowerRaw(
        8192,
    )));
}

#[test]
fn negative_delay_compensation_wire_bytes() {
    let message = ControllerMessage::SetParam(ParameterValue::DelayCompensationNs(-1));
    let mut buf = SerialBuffer::<8>::new();
    assert!(message.try_send(&mut buf));
    assert_eq!(buf.pop(), Some(2 | 0x80));
    assert_eq!(buf.pop(), Some(1));
    // -1 as the low 14 bits: both 7-bit groups all ones.
    assert_eq!(buf.pop(), Some(0x7F));
    assert_eq!(buf.pop(), Some(0x7F));
    round_trip(message);
}

#[test]
fn parameter_catalog_is_bijective() {
    let all = [
        Parameter::DelayCompensation,
        Parameter::StartupFrequency,
        Parameter::LockRange,
        Parameter::RunMode,
        Parameter::LockTime,
        Parameter::StartupTime,
        Parameter::OnTime,
        Parameter::OffTime,
        Parameter::RampStartPower,
        Parameter::RampEndPower,
        Parameter::MinLockCurrent,
        Parameter::CurrentLimit,
        Parameter::FlatPower,
    ];
    for p in all {
        assert_eq!(Parameter::from_wire_id(p.wire_id()), Some(p));
    }
    assert_eq!(Parameter::from_wire_id(0), None);
    assert_eq!(Parameter::from_wire_id(14), None);
    assert_eq!(Parameter::from_wire_id(127), None);
}

#[test]
fn statistic_catalog_is_bijective() {
    for s in [Statistic::MaxPrimaryCurrent, Statistic::FeedbackFrequency] {
        assert_eq!(Statistic::from_wire_id(s.wire_id()), Some(s));
    }
    assert_eq!(Statistic::from_wire_id(2), None);
}

#[test]
fn run_mode_wire_values_round_trip() {
    for m in [
        RunMode::OpenLoop,
        RunMode::TestClosedLoop,
        RunMode::ClosedLoopRamp,
    ] {
        assert_eq!(RunMode::from_wire_value(m.wire_value()), Some(m));
    }
    assert_eq!(RunMode::from_wire_value(3), None);
}

#[test]
fn parameter_value_names_its_parameter() {
    assert_eq!(
        ParameterValue::DelayCompensationNs(5).parameter(),
        Parameter::DelayCompensation
    );
    assert_eq!(
        ParameterValue::RunMode(RunMode::OpenLoop).parameter(),
        Parameter::RunMode
    );
    assert_eq!(
        ParameterValue::CurrentLimitRaw(96).parameter(),
        Parameter::CurrentLimit
    );
    assert_eq!(
        ParameterValue::FlatPowerRaw(0).parameter(),
        Parameter::FlatPower
    );
}
