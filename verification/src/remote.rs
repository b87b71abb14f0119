use vstd::prelude::*;

use crate::catalog::Parameter;
use crate::catalog::Statistic;
use crate::framing::DecodeError;
use crate::framing::MESSAGE_START_BIT;
use crate::framing::resync_scan;
use crate::framing::unmarked_prefix_len;
use crate::serial_buffer::SerialBuffer;
use crate::values::ParameterValue;
use crate::values::StatisticValue;

verus! {

/// Type codes of the remote-bound direction. Both ends must agree on these
/// byte-for-byte.
pub const REMOTE_MESSAGE_ID_GET_PARAM_RESULT: u8 = 0;

pub const REMOTE_MESSAGE_ID_GET_STAT_RESULT: u8 = 1;

pub const REMOTE_MESSAGE_ID_LOCK_FAILED: u8 = 2;

pub const REMOTE_MESSAGE_ID_OCD_TRIPPED: u8 = 3;

pub const REMOTE_MESSAGE_ID_PING: u8 = 0x7F;

/// A result or event sent from the controller to the remote host.
#[derive(Copy, Clone, Debug, PartialEq, Eq, Structural)]
pub enum RemoteMessage {
    GetParamResult(ParameterValue),
    GetStatResult(StatisticValue),
    /// A keep-alive reply carrying a 28-bit sequence counter.
    Ping(u32),
    LockFailed,
    OcdTripped,
}

impl RemoteMessage {
    /// The 7-bit type code of this message.
    pub open spec fn spec_type_code(self) -> u8 {
        match self {
            RemoteMessage::GetParamResult(..) => REMOTE_MESSAGE_ID_GET_PARAM_RESULT,
            RemoteMessage::GetStatResult(..) => REMOTE_MESSAGE_ID_GET_STAT_RESULT,
            RemoteMessage::Ping(..) => REMOTE_MESSAGE_ID_PING,
            RemoteMessage::LockFailed => REMOTE_MESSAGE_ID_LOCK_FAILED,
            RemoteMessage::OcdTripped => REMOTE_MESSAGE_ID_OCD_TRIPPED,
        }
    }

    /// Total frame length of this message, type byte included.
    pub open spec fn spec_frame_len(self) -> usize {
        match self {
            RemoteMessage::GetParamResult(..) => 4,
            RemoteMessage::GetStatResult(..) => 4,
            RemoteMessage::Ping(..) => 5,
            RemoteMessage::LockFailed => 1,
            RemoteMessage::OcdTripped => 1,
        }
    }

    /// Frame length implied by a 7-bit type code, or `None` for a code
    /// outside the remote-bound table.
    pub open spec fn spec_frame_len_of_code(code: u8) -> Option<usize> {
        if code == REMOTE_MESSAGE_ID_GET_PARAM_RESULT {
            Some(4)
        } else if code == REMOTE_MESSAGE_ID_GET_STAT_RESULT {
            Some(4)
        } else if code == REMOTE_MESSAGE_ID_PING {
            Some(5)
        } else if code == REMOTE_MESSAGE_ID_LOCK_FAILED {
            Some(1)
        } else if code == REMOTE_MESSAGE_ID_OCD_TRIPPED {
            Some(1)
        } else {
            None
        }
    }

    /// The exact bytes this message puts on the wire: the type byte with the
    /// start marker set, then the payload fields in wire order, multi-byte
    /// integers as little-endian 7-bit groups.
    pub open spec fn wire_bytes(self) -> Seq<u8> {
        match self {
            RemoteMessage::GetParamResult(parameter_value) => {
                let value: u16 = parameter_value.spec_to_raw();
                seq![
                    REMOTE_MESSAGE_ID_GET_PARAM_RESULT | MESSAGE_START_BIT,
                    parameter_value.spec_parameter().spec_wire_id(),
                    (value & 0x7F) as u8,
                    ((value >> 7) & 0x7F) as u8,
                ]
            },
            RemoteMessage::GetStatResult(stat_value) => {
                let value: u16 = stat_value.spec_to_raw();
                seq![
                    REMOTE_MESSAGE_ID_GET_STAT_RESULT | MESSAGE_START_BIT,
                    stat_value.spec_statistic().spec_wire_id(),
                    (value & 0x7F) as u8,
                    ((value >> 7) & 0x7F) as u8,
                ]
            },
            RemoteMessage::Ping(seq_no) => seq![
                REMOTE_MESSAGE_ID_PING | MESSAGE_START_BIT,
                (seq_no & 0x7F) as u8,
                ((seq_no >> 7) & 0x7F) as u8,
                ((seq_no >> 14) & 0x7F) as u8,
                ((seq_no >> 21) & 0x7F) as u8,
            ],
            RemoteMessage::LockFailed => seq![REMOTE_MESSAGE_ID_LOCK_FAILED | MESSAGE_START_BIT],
            RemoteMessage::OcdTripped => seq![REMOTE_MESSAGE_ID_OCD_TRIPPED | MESSAGE_START_BIT],
        }
    }

    /// Whether every field of this message fits its wire representation, so
    /// that decoding its encoding gives the message back unchanged.
    pub open spec fn representable(self) -> bool {
        match self {
            RemoteMessage::GetParamResult(parameter_value) => parameter_value.representable(),
            RemoteMessage::GetStatResult(stat_value) => stat_value.representable(),
            RemoteMessage::Ping(seq_no) => seq_no <= 0x0FFF_FFFF,
            _ => true,
        }
    }

    /// Meaning of one complete remote-bound frame: `frame` holds exactly the
    /// frame's bytes, whose length the type code's table entry gave.
    pub open spec fn spec_parse_frame(frame: Seq<u8>) -> Result<RemoteMessage, DecodeError>
        recommends
            frame.len() >= 1,
            RemoteMessage::spec_frame_len_of_code(frame[0] & 0x7F) == Some(
                frame.len() as usize,
            ),
    {
        let code: u8 = frame[0] & 0x7F;
        if code == REMOTE_MESSAGE_ID_GET_PARAM_RESULT {
            let value: u16 = (frame[2] as u16) | ((frame[3] as u16) << 7);
            match Parameter::spec_from_wire_id(frame[1]) {
                Some(param) => match ParameterValue::spec_from_raw(param, value) {
                    Some(parameter_value) => Ok(RemoteMessage::GetParamResult(parameter_value)),
                    None => Err(DecodeError::InvalidEnumeratedValue),
                },
                None => Err(DecodeError::UnknownCatalogId),
            }
        } else if code == REMOTE_MESSAGE_ID_GET_STAT_RESULT {
            let value: u16 = (frame[2] as u16) | ((frame[3] as u16) << 7);
            match Statistic::spec_from_wire_id(frame[1]) {
                Some(stat) => Ok(
                    RemoteMessage::GetStatResult(StatisticValue::spec_from_raw(stat, value)),
                ),
                None => Err(DecodeError::UnknownCatalogId),
            }
        } else if code == REMOTE_MESSAGE_ID_PING {
            let seq_no: u32 = (frame[1] as u32) | ((frame[2] as u32) << 7) | ((frame[3] as u32)
                << 14) | ((frame[4] as u32) << 21);
            Ok(RemoteMessage::Ping(seq_no))
        } else if code == REMOTE_MESSAGE_ID_LOCK_FAILED {
            Ok(RemoteMessage::LockFailed)
        } else if code == REMOTE_MESSAGE_ID_OCD_TRIPPED {
            Ok(RemoteMessage::OcdTripped)
        } else {
            Err(DecodeError::UnknownFrameType)
        }
    }

    /// Outcome of one decode poll on a receive buffer holding `s`: the
    /// result handed to the caller and the bytes left in the buffer.
    ///
    /// The resync scan first discards the unmarked prefix. An empty rest is
    /// "no message yet". An unknown type code consumes exactly one byte. A
    /// known code with fewer bytes than its frame needs consumes nothing.
    /// Otherwise exactly one frame is consumed — even when a payload value
    /// proves invalid — and its parse is returned.
    pub open spec fn spec_decode(s: Seq<u8>) -> (Result<Option<RemoteMessage>, DecodeError>, Seq<
        u8,
    >) {
        let t = s.skip(unmarked_prefix_len(s) as int);
        if t.len() == 0 {
            (Ok(None), t)
        } else {
            match RemoteMessage::spec_frame_len_of_code(t[0] & 0x7F) {
                None => (Err(DecodeError::UnknownFrameType), t.drop_first()),
                Some(length) => {
                    if t.len() < length {
                        (Ok(None), t)
                    } else {
                        match RemoteMessage::spec_parse_frame(t.subrange(0, length as int)) {
                            Ok(message) => (Ok(Some(message)), t.skip(length as int)),
                            Err(e) => (Err(e), t.skip(length as int)),
                        }
                    }
                },
            }
        }
    }

    /// Frame length implied by a 7-bit type code.
    fn frame_len_of_code(code: u8) -> (r: Option<usize>)
        ensures
            r == RemoteMessage::spec_frame_len_of_code(code),
    {
        if code == REMOTE_MESSAGE_ID_GET_PARAM_RESULT {
            Some(4)
        } else if code == REMOTE_MESSAGE_ID_GET_STAT_RESULT {
            Some(4)
        } else if code == REMOTE_MESSAGE_ID_PING {
            Some(5)
        } else if code == REMOTE_MESSAGE_ID_LOCK_FAILED {
            Some(1)
        } else if code == REMOTE_MESSAGE_ID_OCD_TRIPPED {
            Some(1)
        } else {
            None
        }
    }

    /// Encodes this message into the transmit buffer, atomically: either the
    /// whole frame is appended and `true` comes back, or the buffer did not
    /// have room, nothing is written, and `false` signals "would not fit".
    pub fn try_send<const N: usize>(&self, tx_buffer: &mut SerialBuffer<N>) -> (r: bool)
        requires
            old(tx_buffer).wf(),
        ensures
            final(tx_buffer).wf(),
            r == (old(tx_buffer)@.len() + self.spec_frame_len() <= N),
            r ==> final(tx_buffer)@ == old(tx_buffer)@ + self.wire_bytes(),
            !r ==> *final(tx_buffer) == *old(tx_buffer),
    {
        match self {
            RemoteMessage::Ping(seq_no) => {
                if tx_buffer.free_space() >= 5 {
                    tx_buffer.push(REMOTE_MESSAGE_ID_PING | MESSAGE_START_BIT);
                    tx_buffer.push((*seq_no & 0x7F) as u8);
                    tx_buffer.push(((*seq_no >> 7) & 0x7F) as u8);
                    tx_buffer.push(((*seq_no >> 14) & 0x7F) as u8);
                    tx_buffer.push(((*seq_no >> 21) & 0x7F) as u8);
                    proof {
                        assert(tx_buffer@ =~= old(tx_buffer)@ + self.wire_bytes());
                    }
                    true
                } else {
                    false
                }
            },
            RemoteMessage::GetParamResult(parameter_value) => {
                if tx_buffer.free_space() >= 4 {
                    tx_buffer.push(REMOTE_MESSAGE_ID_GET_PARAM_RESULT | MESSAGE_START_BIT);
                    let (param, value) = (*parameter_value).to_raw();
                    tx_buffer.push(param.wire_id());
                    tx_buffer.push((value & 0x7F) as u8);
                    tx_buffer.push(((value >> 7) & 0x7F) as u8);
                    proof {
                        assert(tx_buffer@ =~= old(tx_buffer)@ + self.wire_bytes());
                    }
                    true
                } else {
                    false
                }
            },
            RemoteMessage::GetStatResult(stat_value) => {
                if tx_buffer.free_space() >= 4 {
                    tx_buffer.push(REMOTE_MESSAGE_ID_GET_STAT_RESULT | MESSAGE_START_BIT);
                    let (stat, value) = (*stat_value).to_raw();
                    tx_buffer.push(stat.wire_id());
                    tx_buffer.push((value & 0x7F) as u8);
                    tx_buffer.push(((value >> 7) & 0x7F) as u8);
                    proof {
                        assert(tx_buffer@ =~= old(tx_buffer)@ + self.wire_bytes());
                    }
                    true
                } else {
                    false
                }
            },
            RemoteMessage::LockFailed => {
                if tx_buffer.free_space() >= 1 {
                    tx_buffer.push(REMOTE_MESSAGE_ID_LOCK_FAILED | MESSAGE_START_BIT);
                    proof {
                        assert(tx_buffer@ =~= old(tx_buffer)@ + self.wire_bytes());
                    }
                    true
                } else {
                    false
                }
            },
            RemoteMessage::OcdTripped => {
                if tx_buffer.free_space() >= 1 {
                    tx_buffer.push(REMOTE_MESSAGE_ID_OCD_TRIPPED | MESSAGE_START_BIT);
                    proof {
                        assert(tx_buffer@ =~= old(tx_buffer)@ + self.wire_bytes());
                    }
                    true
                } else {
                    false
                }
            },
        }
    }

    /// One decode poll on the receive buffer. Returns `Ok(None)` while no
    /// complete frame is available, `Ok(Some(message))` for a decoded frame,
    /// or the error of a failed frame attempt — consuming bytes exactly as
    /// [`RemoteMessage::spec_decode`] states.
    pub fn try_receive<const N: usize>(rx_buffer: &mut SerialBuffer<N>) -> (r: Result<
        Option<RemoteMessage>,
        DecodeError,
    >)
        requires
            old(rx_buffer).wf(),
        ensures
            final(rx_buffer).wf(),
            r == RemoteMessage::spec_decode(old(rx_buffer)@).0,
            final(rx_buffer)@ == RemoteMessage::spec_decode(old(rx_buffer)@).1,
    {
        resync_scan(rx_buffer);
        let ghost t: Seq<u8> = rx_buffer@;
        let head = rx_buffer.peek();
        let id_byte = match head {
            Some(b) => b,
            None => {
                return Ok(None);
            },
        };
        let id: u8 = id_byte & 0x7F;
        let length: usize = match Self::frame_len_of_code(id) {
            Some(l) => l,
            None => {
                rx_buffer.pop();
                return Err(DecodeError::UnknownFrameType);
            },
        };
        if rx_buffer.count() < length {
            return Ok(None);
        }
        rx_buffer.pop();
        proof {
            assert(rx_buffer@ =~= t.skip(1));
        }
        if id == REMOTE_MESSAGE_ID_GET_PARAM_RESULT {
            let param_id = rx_buffer.pop().unwrap();
            proof {
                assert(rx_buffer@ =~= t.skip(2));
            }
            let b0 = rx_buffer.pop().unwrap();
            proof {
                assert(rx_buffer@ =~= t.skip(3));
            }
            let b1 = rx_buffer.pop().unwrap();
            proof {
                assert(rx_buffer@ =~= t.skip(4));
            }
            let value: u16 = (b0 as u16) | ((b1 as u16) << 7);
            match Parameter::from_wire_id(param_id) {
                Some(param) => match ParameterValue::from_raw(param, value) {
                    Some(parameter_value) => Ok(
                        Some(RemoteMessage::GetParamResult(parameter_value)),
                    ),
                    None => Err(DecodeError::InvalidEnumeratedValue),
                },
                None => Err(DecodeError::UnknownCatalogId),
            }
        } else if id == REMOTE_MESSAGE_ID_GET_STAT_RESULT {
            let stat_id = rx_buffer.pop().unwrap();
            proof {
                assert(rx_buffer@ =~= t.skip(2));
            }
            let b0 = rx_buffer.pop().unwrap();
            proof {
                assert(rx_buffer@ =~= t.skip(3));
            }
            let b1 = rx_buffer.pop().unwrap();
            proof {
                assert(rx_buffer@ =~= t.skip(4));
            }
            let value: u16 = (b0 as u16) | ((b1 as u16) << 7);
            match Statistic::from_wire_id(stat_id) {
                Some(stat) => Ok(
                    Some(RemoteMessage::GetStatResult(StatisticValue::from_raw(stat, value))),
                ),
                None => Err(DecodeError::UnknownCatalogId),
            }
        } else if id == REMOTE_MESSAGE_ID_LOCK_FAILED {
            Ok(Some(RemoteMessage::LockFailed))
        } else if id == REMOTE_MESSAGE_ID_OCD_TRIPPED {
            Ok(Some(RemoteMessage::OcdTripped))
        } else {
            let g0 = rx_buffer.pop().unwrap();
            proof {
                assert(rx_buffer@ =~= t.skip(2));
            }
            let g1 = rx_buffer.pop().unwrap();
            proof {
                assert(rx_buffer@ =~= t.skip(3));
            }
            let g2 = rx_buffer.pop().unwrap();
            proof {
                assert(rx_buffer@ =~= t.skip(4));
            }
            let g3 = rx_buffer.pop().unwrap();
            proof {
                assert(rx_buffer@ =~= t.skip(5));
            }
            let seq_no: u32 = (g0 as u32) | ((g1 as u32) << 7) | ((g2 as u32) << 14) | ((g3 as u32)
                << 21);
            Ok(Some(RemoteMessage::Ping(seq_no)))
        }
    }
}

} // verus!
