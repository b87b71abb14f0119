use vstd::prelude::*;

use crate::catalog::Parameter;
use crate::catalog::Statistic;
use crate::framing::DecodeError;
use crate::framing::MESSAGE_START_BIT;
use crate::framing::resync_scan;
use crate::framing::unmarked_prefix_len;
use crate::serial_buffer::SerialBuffer;
use crate::values::ParameterValue;

verus! {

/// Type codes of the controller-bound direction. Both ends must agree on
/// these byte-for-byte.
pub const CONTROLLER_MESSAGE_ID_SET_DEBUG_LED: u8 = 0;

pub const CONTROLLER_MESSAGE_ID_GET_PARAM: u8 = 1;

pub const CONTROLLER_MESSAGE_ID_SET_PARAM: u8 = 2;

pub const CONTROLLER_MESSAGE_ID_GET_STAT: u8 = 3;

pub const CONTROLLER_MESSAGE_ID_RESET_STATS: u8 = 4;

pub const CONTROLLER_MESSAGE_ID_KEEP_ALIVE: u8 = 5;

pub const CONTROLLER_MESSAGE_ID_RUN: u8 = 6;

pub const CONTROLLER_MESSAGE_ID_STOP: u8 = 7;

pub const CONTROLLER_MESSAGE_ID_PING: u8 = 0x7F;

/// A command sent from the remote host to the controller.
#[derive(Copy, Clone, Debug, PartialEq, Eq, Structural)]
pub enum ControllerMessage {
    SetDebugLed(bool),
    GetParam(Parameter),
    SetParam(ParameterValue),
    GetStat(Statistic),
    ResetStats,
    KeepAlive,
    Run,
    Stop,
    /// A keep-alive probe carrying a 28-bit sequence counter.
    Ping(u32),
}

impl ControllerMessage {
    /// The 7-bit type code of this message.
    pub open spec fn spec_type_code(self) -> u8 {
        match self {
            ControllerMessage::SetDebugLed(..) => CONTROLLER_MESSAGE_ID_SET_DEBUG_LED,
            ControllerMessage::GetParam(..) => CONTROLLER_MESSAGE_ID_GET_PARAM,
            ControllerMessage::SetParam(..) => CONTROLLER_MESSAGE_ID_SET_PARAM,
            ControllerMessage::GetStat(..) => CONTROLLER_MESSAGE_ID_GET_STAT,
            ControllerMessage::ResetStats => CONTROLLER_MESSAGE_ID_RESET_STATS,
            ControllerMessage::KeepAlive => CONTROLLER_MESSAGE_ID_KEEP_ALIVE,
            ControllerMessage::Run => CONTROLLER_MESSAGE_ID_RUN,
            ControllerMessage::Stop => CONTROLLER_MESSAGE_ID_STOP,
            ControllerMessage::Ping(..) => CONTROLLER_MESSAGE_ID_PING,
        }
    }

    /// Total frame length of this message, type byte included.
    pub open spec fn spec_frame_len(self) -> usize {
        match self {
            ControllerMessage::SetDebugLed(..) => 2,
            ControllerMessage::GetParam(..) => 2,
            ControllerMessage::SetParam(..) => 4,
            ControllerMessage::GetStat(..) => 2,
            ControllerMessage::ResetStats => 1,
            ControllerMessage::KeepAlive => 1,
            ControllerMessage::Run => 1,
            ControllerMessage::Stop => 1,
            ControllerMessage::Ping(..) => 5,
        }
    }

    /// Frame length implied by a 7-bit type code, or `None` for a code
    /// outside the controller-bound table.
    pub open spec fn spec_frame_len_of_code(code: u8) -> Option<usize> {
        if code == CONTROLLER_MESSAGE_ID_SET_DEBUG_LED {
            Some(2)
        } else if code == CONTROLLER_MESSAGE_ID_GET_PARAM {
            Some(2)
        } else if code == CONTROLLER_MESSAGE_ID_SET_PARAM {
            Some(4)
        } else if code == CONTROLLER_MESSAGE_ID_GET_STAT {
            Some(2)
        } else if code == CONTROLLER_MESSAGE_ID_RESET_STATS {
            Some(1)
        } else if code == CONTROLLER_MESSAGE_ID_KEEP_ALIVE {
            Some(1)
        } else if code == CONTROLLER_MESSAGE_ID_RUN {
            Some(1)
        } else if code == CONTROLLER_MESSAGE_ID_STOP {
            Some(1)
        } else if code == CONTROLLER_MESSAGE_ID_PING {
            Some(5)
        } else {
            None
        }
    }

    /// The exact bytes this message puts on the wire: the type byte with the
    /// start marker set, then the payload fields in wire order, multi-byte
    /// integers as little-endian 7-bit groups.
    pub open spec fn wire_bytes(self) -> Seq<u8> {
        match self {
            ControllerMessage::SetDebugLed(state) => seq![
                CONTROLLER_MESSAGE_ID_SET_DEBUG_LED | MESSAGE_START_BIT,
                if state {
                    1u8
                } else {
                    0u8
                },
            ],
            ControllerMessage::GetParam(param) => seq![
                CONTROLLER_MESSAGE_ID_GET_PARAM | MESSAGE_START_BIT,
                param.spec_wire_id(),
            ],
            ControllerMessage::SetParam(parameter_value) => {
                let value: u16 = parameter_value.spec_to_raw();
                seq![
                    CONTROLLER_MESSAGE_ID_SET_PARAM | MESSAGE_START_BIT,
                    parameter_value.spec_parameter().spec_wire_id(),
                    (value & 0x7F) as u8,
                    ((value >> 7) & 0x7F) as u8,
                ]
            },
            ControllerMessage::GetStat(stat) => seq![
                CONTROLLER_MESSAGE_ID_GET_STAT | MESSAGE_START_BIT,
                stat.spec_wire_id(),
            ],
            ControllerMessage::ResetStats => seq![
                CONTROLLER_MESSAGE_ID_RESET_STATS | MESSAGE_START_BIT,
            ],
            ControllerMessage::KeepAlive => seq![
                CONTROLLER_MESSAGE_ID_KEEP_ALIVE | MESSAGE_START_BIT,
            ],
            ControllerMessage::Run => seq![CONTROLLER_MESSAGE_ID_RUN | MESSAGE_START_BIT],
            ControllerMessage::Stop => seq![CONTROLLER_MESSAGE_ID_STOP | MESSAGE_START_BIT],
            ControllerMessage::Ping(seq_no) => seq![
                CONTROLLER_MESSAGE_ID_PING | MESSAGE_START_BIT,
                (seq_no & 0x7F) as u8,
                ((seq_no >> 7) & 0x7F) as u8,
                ((seq_no >> 14) & 0x7F) as u8,
                ((seq_no >> 21) & 0x7F) as u8,
            ],
        }
    }

    /// Whether every field of this message fits its wire representation, so
    /// that decoding its encoding gives the message back unchanged.
    pub open spec fn representable(self) -> bool {
        match self {
            ControllerMessage::SetParam(parameter_value) => parameter_value.representable(),
            ControllerMessage::Ping(seq_no) => seq_no <= 0x0FFF_FFFF,
            _ => true,
        }
    }

    /// Meaning of one complete controller-bound frame: `frame` holds exactly
    /// the frame's bytes, whose length the type code's table entry gave.
    pub open spec fn spec_parse_frame(frame: Seq<u8>) -> Result<ControllerMessage, DecodeError>
        recommends
            frame.len() >= 1,
            ControllerMessage::spec_frame_len_of_code(frame[0] & 0x7F) == Some(
                frame.len() as usize,
            ),
    {
        let code: u8 = frame[0] & 0x7F;
        if code == CONTROLLER_MESSAGE_ID_SET_DEBUG_LED {
            Ok(ControllerMessage::SetDebugLed(frame[1] != 0))
        } else if code == CONTROLLER_MESSAGE_ID_GET_PARAM {
            match Parameter::spec_from_wire_id(frame[1]) {
                Some(param) => Ok(ControllerMessage::GetParam(param)),
                None => Err(DecodeError::UnknownCatalogId),
            }
        } else if code == CONTROLLER_MESSAGE_ID_SET_PARAM {
            let value: u16 = (frame[2] as u16) | ((frame[3] as u16) << 7);
            match Parameter::spec_from_wire_id(frame[1]) {
                Some(param) => match ParameterValue::spec_from_raw(param, value) {
                    Some(parameter_value) => Ok(ControllerMessage::SetParam(parameter_value)),
                    None => Err(DecodeError::InvalidEnumeratedValue),
                },
                None => Err(DecodeError::UnknownCatalogId),
            }
        } else if code == CONTROLLER_MESSAGE_ID_GET_STAT {
            match Statistic::spec_from_wire_id(frame[1]) {
                Some(stat) => Ok(ControllerMessage::GetStat(stat)),
                None => Err(DecodeError::UnknownCatalogId),
            }
        } else if code == CONTROLLER_MESSAGE_ID_RESET_STATS {
            Ok(ControllerMessage::ResetStats)
        } else if code == CONTROLLER_MESSAGE_ID_KEEP_ALIVE {
            Ok(ControllerMessage::KeepAlive)
        } else if code == CONTROLLER_MESSAGE_ID_RUN {
            Ok(ControllerMessage::Run)
        } else if code == CONTROLLER_MESSAGE_ID_STOP {
            Ok(ControllerMessage::Stop)
        } else if code == CONTROLLER_MESSAGE_ID_PING {
            let seq_no: u32 = (frame[1] as u32) | ((frame[2] as u32) << 7) | ((frame[3] as u32)
                << 14) | ((frame[4] as u32) << 21);
            Ok(ControllerMessage::Ping(seq_no))
        } else {
            Err(DecodeError::UnknownFrameType)
        }
    }

    /// Outcome of one decode poll on a receive buffer holding `s`: the
    /// result handed to the caller and the bytes left in the buffer.
    ///
    /// The resync scan first discards the unmarked prefix. An empty rest is
    /// "no message yet". An unknown type code consumes exactly one byte. A
    /// known code with fewer bytes than its frame needs consumes nothing.
    /// Otherwise exactly one frame is consumed — even when a payload value
    /// proves invalid — and its parse is returned.
    pub open spec fn spec_decode(s: Seq<u8>) -> (Result<Option<ControllerMessage>, DecodeError>, Seq<
        u8,
    >) {
        let t = s.skip(unmarked_prefix_len(s) as int);
        if t.len() == 0 {
            (Ok(None), t)
        } else {
            match ControllerMessage::spec_frame_len_of_code(t[0] & 0x7F) {
                None => (Err(DecodeError::UnknownFrameType), t.drop_first()),
                Some(length) => {
                    if t.len() < length {
                        (Ok(None), t)
                    } else {
                        match ControllerMessage::spec_parse_frame(t.subrange(0, length as int)) {
                            Ok(message) => (Ok(Some(message)), t.skip(length as int)),
                            Err(e) => (Err(e), t.skip(length as int)),
                        }
                    }
                },
            }
        }
    }

    /// Frame length implied by a 7-bit type code.
    fn frame_len_of_code(code: u8) -> (r: Option<usize>)
        ensures
            r == ControllerMessage::spec_frame_len_of_code(code),
    {
        if code == CONTROLLER_MESSAGE_ID_SET_DEBUG_LED {
            Some(2)
        } else if code == CONTROLLER_MESSAGE_ID_GET_PARAM {
            Some(2)
        } else if code == CONTROLLER_MESSAGE_ID_SET_PARAM {
            Some(4)
        } else if code == CONTROLLER_MESSAGE_ID_GET_STAT {
            Some(2)
        } else if code == CONTROLLER_MESSAGE_ID_RESET_STATS {
            Some(1)
        } else if code == CONTROLLER_MESSAGE_ID_KEEP_ALIVE {
            Some(1)
        } else if code == CONTROLLER_MESSAGE_ID_RUN {
            Some(1)
        } else if code == CONTROLLER_MESSAGE_ID_STOP {
            Some(1)
        } else if code == CONTROLLER_MESSAGE_ID_PING {
            Some(5)
        } else {
            None
        }
    }

    /// Encodes this message into the transmit buffer, atomically: either the
    /// whole frame is appended and `true` comes back, or the buffer did not
    /// have room, nothing is written, and `false` signals "would not fit".
    pub fn try_send<const N: usize>(&self, buffer: &mut SerialBuffer<N>) -> (r: bool)
        requires
            old(buffer).wf(),
        ensures
            final(buffer).wf(),
            r == (old(buffer)@.len() + self.spec_frame_len() <= N),
            r ==> final(buffer)@ == old(buffer)@ + self.wire_bytes(),
            !r ==> *final(buffer) == *old(buffer),
    {
        let length: usize = match self {
            ControllerMessage::SetDebugLed(..) => 2,
            ControllerMessage::GetParam(..) => 2,
            ControllerMessage::SetParam(..) => 4,
            ControllerMessage::GetStat(..) => 2,
            ControllerMessage::ResetStats => 1,
            ControllerMessage::KeepAlive => 1,
            ControllerMessage::Run => 1,
            ControllerMessage::Stop => 1,
            ControllerMessage::Ping(..) => 5,
        };
        if buffer.free_space() >= length {
            match self {
                ControllerMessage::SetDebugLed(state) => {
                    buffer.push(CONTROLLER_MESSAGE_ID_SET_DEBUG_LED | MESSAGE_START_BIT);
                    buffer.push(
                        if *state {
                            1
                        } else {
                            0
                        },
                    );
                },
                ControllerMessage::GetParam(param) => {
                    buffer.push(CONTROLLER_MESSAGE_ID_GET_PARAM | MESSAGE_START_BIT);
                    buffer.push((*param).wire_id());
                },
                ControllerMessage::SetParam(parameter_value) => {
                    let (param, value) = (*parameter_value).to_raw();
                    buffer.push(CONTROLLER_MESSAGE_ID_SET_PARAM | MESSAGE_START_BIT);
                    buffer.push(param.wire_id());
                    buffer.push((value & 0x7F) as u8);
                    buffer.push(((value >> 7) & 0x7F) as u8);
                },
                ControllerMessage::GetStat(stat) => {
                    buffer.push(CONTROLLER_MESSAGE_ID_GET_STAT | MESSAGE_START_BIT);
                    buffer.push((*stat).wire_id());
                },
                ControllerMessage::ResetStats => {
                    buffer.push(CONTROLLER_MESSAGE_ID_RESET_STATS | MESSAGE_START_BIT);
                },
                ControllerMessage::KeepAlive => {
                    buffer.push(CONTROLLER_MESSAGE_ID_KEEP_ALIVE | MESSAGE_START_BIT);
                },
                ControllerMessage::Run => {
                    buffer.push(CONTROLLER_MESSAGE_ID_RUN | MESSAGE_START_BIT);
                },
                ControllerMessage::Stop => {
                    buffer.push(CONTROLLER_MESSAGE_ID_STOP | MESSAGE_START_BIT);
                },
                ControllerMessage::Ping(seq_no) => {
                    buffer.push(CONTROLLER_MESSAGE_ID_PING | MESSAGE_START_BIT);
                    buffer.push((*seq_no & 0x7F) as u8);
                    buffer.push(((*seq_no >> 7) & 0x7F) as u8);
                    buffer.push(((*seq_no >> 14) & 0x7F) as u8);
                    buffer.push(((*seq_no >> 21) & 0x7F) as u8);
                },
            }
            proof {
                assert(buffer@ =~= old(buffer)@ + self.wire_bytes());
            }
            true
        } else {
            false
        }
    }

    /// One decode poll on the receive buffer. Returns `Ok(None)` while no
    /// complete frame is available, `Ok(Some(message))` for a decoded frame,
    /// or the error of a failed frame attempt — consuming bytes exactly as
    /// [`ControllerMessage::spec_decode`] states.
    pub fn try_receive<const N: usize>(rx_buffer: &mut SerialBuffer<N>) -> (r: Result<
        Option<ControllerMessage>,
        DecodeError,
    >)
        requires
            old(rx_buffer).wf(),
        ensures
            final(rx_buffer).wf(),
            r == ControllerMessage::spec_decode(old(rx_buffer)@).0,
            final(rx_buffer)@ == ControllerMessage::spec_decode(old(rx_buffer)@).1,
    {
        resync_scan(rx_buffer);
        let ghost t: Seq<u8> = rx_buffer@;
        let head = rx_buffer.peek();
        let id_byte = match head {
            Some(b) => b,
            None => {
                return Ok(None);
            },
        };
        let id: u8 = id_byte & 0x7F;
        let length: usize = match Self::frame_len_of_code(id) {
            Some(l) => l,
            None => {
                rx_buffer.pop();
                return Err(DecodeError::UnknownFrameType);
            },
        };
        if rx_buffer.count() < length {
            return Ok(None);
        }
        let ghost frame: Seq<u8> = t.subrange(0, length as int);
        rx_buffer.pop();
        proof {
            assert(rx_buffer@ =~= t.skip(1));
        }
        if id == CONTROLLER_MESSAGE_ID_SET_DEBUG_LED {
            let state = rx_buffer.pop().unwrap();
            proof {
                assert(rx_buffer@ =~= t.skip(2));
            }
            Ok(Some(ControllerMessage::SetDebugLed(state != 0)))
        } else if id == CONTROLLER_MESSAGE_ID_GET_PARAM {
            let param_id = rx_buffer.pop().unwrap();
            proof {
                assert(rx_buffer@ =~= t.skip(2));
            }
            match Parameter::from_wire_id(param_id) {
                Some(param) => Ok(Some(ControllerMessage::GetParam(param))),
                None => Err(DecodeError::UnknownCatalogId),
            }
        } else if id == CONTROLLER_MESSAGE_ID_SET_PARAM {
            let param_id = rx_buffer.pop().unwrap();
            proof {
                assert(rx_buffer@ =~= t.skip(2));
            }
            let b0 = rx_buffer.pop().unwrap();
            proof {
                assert(rx_buffer@ =~= t.skip(3));
            }
            let b1 = rx_buffer.pop().unwrap();
            proof {
                assert(rx_buffer@ =~= t.skip(4));
            }
            let value: u16 = (b0 as u16) | ((b1 as u16) << 7);
            match Parameter::from_wire_id(param_id) {
                Some(param) => match ParameterValue::from_raw(param, value) {
                    Some(parameter_value) => Ok(
                        Some(ControllerMessage::SetParam(parameter_value)),
                    ),
                    None => Err(DecodeError::InvalidEnumeratedValue),
                },
                None => Err(DecodeError::UnknownCatalogId),
            }
        } else if id == CONTROLLER_MESSAGE_ID_GET_STAT {
            let stat_id = rx_buffer.pop().unwrap();
            proof {
                assert(rx_buffer@ =~= t.skip(2));
            }
            match Statistic::from_wire_id(stat_id) {
                Some(stat) => Ok(Some(ControllerMessage::GetStat(stat))),
                None => Err(DecodeError::UnknownCatalogId),
            }
        } else if id == CONTROLLER_MESSAGE_ID_RESET_STATS {
            Ok(Some(ControllerMessage::ResetStats))
        } else if id == CONTROLLER_MESSAGE_ID_KEEP_ALIVE {
            Ok(Some(ControllerMessage::KeepAlive))
        } else if id == CONTROLLER_MESSAGE_ID_RUN {
            Ok(Some(ControllerMessage::Run))
        } else if id == CONTROLLER_MESSAGE_ID_STOP {
            Ok(Some(ControllerMessage::Stop))
        } else {
            let g0 = rx_buffer.pop().unwrap();
            proof {
                assert(rx_buffer@ =~= t.skip(2));
            }
            let g1 = rx_buffer.pop().unwrap();
            proof {
                assert(rx_buffer@ =~= t.skip(3));
            }
            let g2 = rx_buffer.pop().unwrap();
            proof {
                assert(rx_buffer@ =~= t.skip(4));
            }
            let g3 = rx_buffer.pop().unwrap();
            proof {
                assert(rx_buffer@ =~= t.skip(5));
            }
            let seq_no: u32 = (g0 as u32) | ((g1 as u32) << 7) | ((g2 as u32) << 14) | ((g3 as u32)
                << 21);
            Ok(Some(ControllerMessage::Ping(seq_no)))
        }
    }
}

} // verus!
