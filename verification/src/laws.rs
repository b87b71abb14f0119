use vstd::prelude::*;

use crate::controller::ControllerMessage;
use crate::framing::DecodeError;
use crate::framing::MESSAGE_START_BIT;
use crate::framing::unmarked_prefix_len;
use crate::remote::RemoteMessage;
use crate::values::ParameterValue;
use crate::values::spec_sign_extend_i14;

verus! {

/// A byte below 0x80 never carries the start marker.
proof fn lemma_unmarked_if_small(b: u8)
    requires
        b < 0x80,
    ensures
        b & MESSAGE_START_BIT == 0,
{
    assert(b < 0x80 ==> b & 0x80 == 0) by (bit_vector);
}

/// A 7-bit group cut from a 14-bit field never carries the start marker.
proof fn lemma_group7_of_u16_unmarked(v: u16)
    ensures
        ((v & 0x7F) as u8) & MESSAGE_START_BIT == 0,
        (((v >> 7) & 0x7F) as u8) & MESSAGE_START_BIT == 0,
{
    assert(((v & 0x7F) as u8) & 0x80 == 0) by (bit_vector);
    assert((((v >> 7) & 0x7F) as u8) & 0x80 == 0) by (bit_vector);
}

/// A 7-bit group cut from a 28-bit field never carries the start marker.
proof fn lemma_group7_of_u32_unmarked(v: u32)
    ensures
        ((v & 0x7F) as u8) & MESSAGE_START_BIT == 0,
        (((v >> 7) & 0x7F) as u8) & MESSAGE_START_BIT == 0,
        (((v >> 14) & 0x7F) as u8) & MESSAGE_START_BIT == 0,
        (((v >> 21) & 0x7F) as u8) & MESSAGE_START_BIT == 0,
{
    assert(((v & 0x7F) as u8) & 0x80 == 0) by (bit_vector);
    assert((((v >> 7) & 0x7F) as u8) & 0x80 == 0) by (bit_vector);
    assert((((v >> 14) & 0x7F) as u8) & 0x80 == 0) by (bit_vector);
    assert((((v >> 21) & 0x7F) as u8) & 0x80 == 0) by (bit_vector);
}

/// Setting the start marker keeps the low 7 bits readable: a type byte gives
/// its code back.
proof fn lemma_marked_type_byte(code: u8)
    requires
        code < 0x80,
    ensures
        (code | MESSAGE_START_BIT) & MESSAGE_START_BIT != 0,
        (code | MESSAGE_START_BIT) & 0x7F == code,
{
    assert((code | 0x80) & 0x80 != 0) by (bit_vector);
    assert(code < 0x80 ==> (code | 0x80) & 0x7F == code) by (bit_vector);
}

/// Reassembling the two 7-bit groups of a 14-bit field gives the low 14
/// bits of the value they were cut from, hence the value itself when it
/// fits 14 bits.
proof fn lemma_u14_reassemble(v: u16)
    ensures
        (((v & 0x7F) as u8) as u16) | (((((v >> 7) & 0x7F) as u8) as u16) << 7) == v & 0x3FFF,
        v <= 0x3FFF ==> v & 0x3FFF == v,
{
    assert((((v & 0x7F) as u8) as u16) | (((((v >> 7) & 0x7F) as u8) as u16) << 7) == v & 0x3FFF)
        by (bit_vector);
    assert(v <= 0x3FFF ==> v & 0x3FFF == v) by (bit_vector);
}

/// Reassembling the four 7-bit groups of a 28-bit field gives the low 28
/// bits of the value they were cut from, hence the value itself when it
/// fits 28 bits.
proof fn lemma_u28_reassemble(v: u32)
    ensures
        (((v & 0x7F) as u8) as u32) | (((((v >> 7) & 0x7F) as u8) as u32) << 7) | (((((v >> 14)
            & 0x7F) as u8) as u32) << 14) | (((((v >> 21) & 0x7F) as u8) as u32) << 21) == v
            & 0x0FFF_FFFF,
        v <= 0x0FFF_FFFF ==> v & 0x0FFF_FFFF == v,
{
    assert((((v & 0x7F) as u8) as u32) | (((((v >> 7) & 0x7F) as u8) as u32) << 7) | (((((v >> 14)
        & 0x7F) as u8) as u32) << 14) | (((((v >> 21) & 0x7F) as u8) as u32) << 21) == v
        & 0x0FFF_FFFF) by (bit_vector);
    assert(v <= 0x0FFF_FFFF ==> v & 0x0FFF_FFFF == v) by (bit_vector);
}

/// A signed 14-bit value survives the trip through its unsigned wire form:
/// truncating to 14 bits and sign-extending bit 13 gives it back.
proof fn lemma_sign_extend_roundtrip(d: i16)
    requires
        -0x2000 <= d <= 0x1FFF,
    ensures
        spec_sign_extend_i14((d as u16) & 0x3FFF) == d,
{
    assert(-0x2000 <= d <= 0x1FFF ==> spec_sign_extend_i14((d as u16) & 0x3FFF) == d)
        by (bit_vector);
}

/// Framing guarantee of every controller-bound frame: the first byte
/// carries the start marker, no payload byte does, and the frame is exactly
/// as long as the type's table entry says. This is what makes the resync
/// scan sound: it can never mistake a payload byte for a frame head.
pub proof fn lemma_controller_wire_marker(m: ControllerMessage)
    ensures
        m.wire_bytes().len() == m.spec_frame_len(),
        m.wire_bytes()[0] & MESSAGE_START_BIT != 0,
        forall|i: int|
            1 <= i < m.wire_bytes().len() ==> (#[trigger] m.wire_bytes()[i]) & MESSAGE_START_BIT
                == 0,
        ControllerMessage::spec_frame_len_of_code(m.wire_bytes()[0] & 0x7F) == Some(m.spec_frame_len()),
{
    lemma_marked_type_byte(m.spec_type_code());
    match m {
        ControllerMessage::SetDebugLed(state) => {
            lemma_unmarked_if_small(
                if state {
                    1u8
                } else {
                    0u8
                },
            );
        },
        ControllerMessage::GetParam(param) => {
            lemma_unmarked_if_small(param.spec_wire_id());
        },
        ControllerMessage::SetParam(parameter_value) => {
            lemma_unmarked_if_small(parameter_value.spec_parameter().spec_wire_id());
            lemma_group7_of_u16_unmarked(parameter_value.spec_to_raw());
        },
        ControllerMessage::GetStat(stat) => {
            lemma_unmarked_if_small(stat.spec_wire_id());
        },
        ControllerMessage::Ping(seq_no) => {
            lemma_group7_of_u32_unmarked(seq_no);
        },
        _ => {},
    }
}

/// Framing guarantee of every remote-bound frame, as for the controller
/// direction.
pub proof fn lemma_remote_wire_marker(m: RemoteMessage)
    ensures
        m.wire_bytes().len() == m.spec_frame_len(),
        m.wire_bytes()[0] & MESSAGE_START_BIT != 0,
        forall|i: int|
            1 <= i < m.wire_bytes().len() ==> (#[trigger] m.wire_bytes()[i]) & MESSAGE_START_BIT
                == 0,
        RemoteMessage::spec_frame_len_of_code(m.wire_bytes()[0] & 0x7F) == Some(
            m.spec_frame_len(),
        ),
{
    lemma_marked_type_byte(m.spec_type_code());
    match m {
        RemoteMessage::GetParamResult(parameter_value) => {
            lemma_unmarked_if_small(parameter_value.spec_parameter().spec_wire_id());
            lemma_group7_of_u16_unmarked(parameter_value.spec_to_raw());
        },
        RemoteMessage::GetStatResult(stat_value) => {
            lemma_unmarked_if_small(stat_value.spec_statistic().spec_wire_id());
            lemma_group7_of_u16_unmarked(stat_value.spec_to_raw());
        },
        RemoteMessage::Ping(seq_no) => {
            lemma_group7_of_u32_unmarked(seq_no);
        },
        _ => {},
    }
}

/// A raw 14-bit parameter value survives the wire: reassembling the two
/// payload groups and pairing the result with the same catalog entry gives
/// the value back, provided it was representable.
proof fn lemma_parameter_value_roundtrip(parameter_value: ParameterValue)
    requires
        parameter_value.representable(),
    ensures
        ({
            let v = parameter_value.spec_to_raw();
            let reassembled = (((v & 0x7F) as u8) as u16) | (((((v >> 7) & 0x7F) as u8) as u16)
                << 7);
            ParameterValue::spec_from_raw(parameter_value.spec_parameter(), reassembled) == Some(
                parameter_value,
            )
        }),
{
    let v = parameter_value.spec_to_raw();
    lemma_u14_reassemble(v);
    match parameter_value {
        ParameterValue::DelayCompensationNs(delay_ns) => {
            lemma_sign_extend_roundtrip(delay_ns);
        },
        _ => {},
    }
}

/// Round-trip law for the controller-bound direction: decoding the exact
/// wire bytes of any representable message yields that message and leaves
/// nothing behind. Together with the contracts of `try_send` and
/// `try_receive` this says that `decode(encode(M))` on a freshly emptied
/// buffer returns `M`.
pub proof fn lemma_controller_round_trip(m: ControllerMessage)
    requires
        m.representable(),
    ensures
        ControllerMessage::spec_decode(m.wire_bytes()).0 == Ok::<
            Option<ControllerMessage>,
            DecodeError,
        >(Some(m)),
        ControllerMessage::spec_decode(m.wire_bytes()).1 == Seq::<u8>::empty(),
{
    let w = m.wire_bytes();
    lemma_controller_wire_marker(m);
    lemma_marked_type_byte(m.spec_type_code());
    assert(unmarked_prefix_len(w) == 0);
    assert(w.skip(0) =~= w);
    assert(w.subrange(0, w.len() as int) =~= w);
    match m {
        ControllerMessage::SetParam(parameter_value) => {
            lemma_parameter_value_roundtrip(parameter_value);
        },
        ControllerMessage::Ping(seq_no) => {
            lemma_u28_reassemble(seq_no);
        },
        _ => {},
    }
    assert(w.skip(w.len() as int) =~= Seq::<u8>::empty());
}

/// Round-trip law for the remote-bound direction, as for the controller
/// direction.
pub proof fn lemma_remote_round_trip(m: RemoteMessage)
    requires
        m.representable(),
    ensures
        RemoteMessage::spec_decode(m.wire_bytes()).0 == Ok::<Option<RemoteMessage>, DecodeError>(
            Some(m),
        ),
        RemoteMessage::spec_decode(m.wire_bytes()).1 == Seq::<u8>::empty(),
{
    let w = m.wire_bytes();
    lemma_remote_wire_marker(m);
    lemma_marked_type_byte(m.spec_type_code());
    assert(unmarked_prefix_len(w) == 0);
    assert(w.skip(0) =~= w);
    assert(w.subrange(0, w.len() as int) =~= w);
    match m {
        RemoteMessage::GetParamResult(parameter_value) => {
            lemma_parameter_value_roundtrip(parameter_value);
        },
        RemoteMessage::GetStatResult(stat_value) => {
            lemma_u14_reassemble(stat_value.spec_to_raw());
        },
        RemoteMessage::Ping(seq_no) => {
            lemma_u28_reassemble(seq_no);
        },
        _ => {},
    }
    assert(w.skip(w.len() as int) =~= Seq::<u8>::empty());
}

/// The resync scan measures garbage exactly: in front of a marked byte, the
/// unmarked prefix of `garbage + rest` is all of `garbage` and nothing more.
pub proof fn lemma_unmarked_prefix_of_concat(garbage: Seq<u8>, rest: Seq<u8>)
    requires
        forall|i: int|
            0 <= i < garbage.len() ==> (#[trigger] garbage[i]) & MESSAGE_START_BIT == 0,
        rest.len() > 0,
        rest[0] & MESSAGE_START_BIT != 0,
    ensures
        unmarked_prefix_len(garbage + rest) == garbage.len(),
    decreases garbage.len(),
{
    if garbage.len() == 0 {
        assert(garbage + rest =~= rest);
    } else {
        assert((garbage + rest)[0] == garbage[0]);
        assert((garbage + rest).drop_first() =~= garbage.drop_first() + rest);
        lemma_unmarked_prefix_of_concat(garbage.drop_first(), rest);
    }
}

/// Resynchronization law for the controller-bound direction: stray bytes
/// without the start marker in front of a frame head change nothing about
/// the decode outcome — they are the prefix the scan discards.
pub proof fn lemma_controller_decode_skips_garbage(garbage: Seq<u8>, s: Seq<u8>)
    requires
        forall|i: int|
            0 <= i < garbage.len() ==> (#[trigger] garbage[i]) & MESSAGE_START_BIT == 0,
        s.len() > 0,
        s[0] & MESSAGE_START_BIT != 0,
    ensures
        ControllerMessage::spec_decode(garbage + s) == ControllerMessage::spec_decode(s),
{
    lemma_unmarked_prefix_of_concat(garbage, s);
    assert((garbage + s).skip(garbage.len() as int) =~= s);
    assert(s.skip(0) =~= s);
}

/// Resynchronization law for the remote-bound direction, as for the
/// controller direction.
pub proof fn lemma_remote_decode_skips_garbage(garbage: Seq<u8>, s: Seq<u8>)
    requires
        forall|i: int|
            0 <= i < garbage.len() ==> (#[trigger] garbage[i]) & MESSAGE_START_BIT == 0,
        s.len() > 0,
        s[0] & MESSAGE_START_BIT != 0,
    ensures
        RemoteMessage::spec_decode(garbage + s) == RemoteMessage::spec_decode(s),
{
    lemma_unmarked_prefix_of_concat(garbage, s);
    assert((garbage + s).skip(garbage.len() as int) =~= s);
    assert(s.skip(0) =~= s);
}

/// Partial-frame law for the controller-bound direction: a marked type byte
/// whose table length exceeds the bytes on hand decodes to "no message yet"
/// and consumes nothing.
pub proof fn lemma_controller_partial_frame_pending(s: Seq<u8>, length: usize)
    requires
        s.len() > 0,
        s[0] & MESSAGE_START_BIT != 0,
        ControllerMessage::spec_frame_len_of_code(s[0] & 0x7F) == Some(length),
        s.len() < length,
    ensures
        ControllerMessage::spec_decode(s) == (
            Ok::<Option<ControllerMessage>, DecodeError>(None),
            s,
        ),
{
    assert(s.skip(0) =~= s);
}

/// Partial-frame law for the remote-bound direction, as for the controller
/// direction.
pub proof fn lemma_remote_partial_frame_pending(s: Seq<u8>, length: usize)
    requires
        s.len() > 0,
        s[0] & MESSAGE_START_BIT != 0,
        RemoteMessage::spec_frame_len_of_code(s[0] & 0x7F) == Some(length),
        s.len() < length,
    ensures
        RemoteMessage::spec_decode(s) == (Ok::<Option<RemoteMessage>, DecodeError>(None), s),
{
    assert(s.skip(0) =~= s);
}

/// Frame-drain law for the controller-bound direction: once a complete
/// recognized frame is on hand, a value-level failure — an out-of-range
/// catalog id or enumerated value — still consumes exactly the frame, so
/// framing stays aligned for whatever follows.
pub proof fn lemma_controller_frame_error_consumes_frame(
    s: Seq<u8>,
    length: usize,
    e: DecodeError,
)
    requires
        s.len() > 0,
        s[0] & MESSAGE_START_BIT != 0,
        ControllerMessage::spec_frame_len_of_code(s[0] & 0x7F) == Some(length),
        s.len() >= length,
        ControllerMessage::spec_parse_frame(s.subrange(0, length as int)) == Err::<
            ControllerMessage,
            DecodeError,
        >(e),
    ensures
        ControllerMessage::spec_decode(s).0 == Err::<Option<ControllerMessage>, DecodeError>(e),
        ControllerMessage::spec_decode(s).1 == s.skip(length as int),
        ControllerMessage::spec_decode(s).1.len() == s.len() - length,
{
    assert(s.skip(0) =~= s);
}

/// Frame-drain law for the remote-bound direction, as for the controller
/// direction.
pub proof fn lemma_remote_frame_error_consumes_frame(s: Seq<u8>, length: usize, e: DecodeError)
    requires
        s.len() > 0,
        s[0] & MESSAGE_START_BIT != 0,
        RemoteMessage::spec_frame_len_of_code(s[0] & 0x7F) == Some(length),
        s.len() >= length,
        RemoteMessage::spec_parse_frame(s.subrange(0, length as int)) == Err::<
            RemoteMessage,
            DecodeError,
        >(e),
    ensures
        RemoteMessage::spec_decode(s).0 == Err::<Option<RemoteMessage>, DecodeError>(e),
        RemoteMessage::spec_decode(s).1 == s.skip(length as int),
        RemoteMessage::spec_decode(s).1.len() == s.len() - length,
{
    assert(s.skip(0) =~= s);
}

} // verus!
