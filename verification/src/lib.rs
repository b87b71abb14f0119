//! A point-to-point, half-duplex serial message protocol between an embedded
//! controller device and a remote host, layered over an unreliable byte
//! stream.
//!
//! Two cooperating pieces make this possible: a fixed-capacity circular byte
//! buffer ([`SerialBuffer`]) usable for both transmit staging and receive
//! accumulation, and a message codec ([`ControllerMessage`],
//! [`RemoteMessage`]) that frames, resynchronizes, and bit-packs typed
//! commands and results on top of that buffer.
//!
//! A frame's first byte carries the start-marker bit (bit 7); every payload
//! byte keeps that bit clear, so a decoder can always resynchronize by
//! discarding unmarked bytes. Multi-byte integer fields travel as
//! little-endian 7-bit groups. Physical-unit parameter and statistic values
//! are carried as fixed-point raw integers; the scale factors are documented
//! on each variant, and conversion to and from floating-point units is left
//! to the caller.

mod catalog;
mod controller;
mod framing;
mod laws;
mod remote;
mod serial_buffer;
mod values;

pub use catalog::Parameter;
pub use catalog::RunMode;
pub use catalog::Statistic;
pub use controller::ControllerMessage;
pub use controller::CONTROLLER_MESSAGE_ID_SET_DEBUG_LED;
pub use controller::CONTROLLER_MESSAGE_ID_GET_PARAM;
pub use controller::CONTROLLER_MESSAGE_ID_SET_PARAM;
pub use controller::CONTROLLER_MESSAGE_ID_GET_STAT;
pub use controller::CONTROLLER_MESSAGE_ID_RESET_STATS;
pub use controller::CONTROLLER_MESSAGE_ID_KEEP_ALIVE;
pub use controller::CONTROLLER_MESSAGE_ID_RUN;
pub use controller::CONTROLLER_MESSAGE_ID_STOP;
pub use controller::CONTROLLER_MESSAGE_ID_PING;
pub use framing::DecodeError;
pub use laws::lemma_controller_wire_marker;
pub use laws::lemma_remote_wire_marker;
pub use laws::lemma_controller_round_trip;
pub use laws::lemma_remote_round_trip;
pub use laws::lemma_unmarked_prefix_of_concat;
pub use laws::lemma_controller_decode_skips_garbage;
pub use laws::lemma_remote_decode_skips_garbage;
pub use laws::lemma_controller_partial_frame_pending;
pub use laws::lemma_remote_partial_frame_pending;
pub use laws::lemma_controller_frame_error_consumes_frame;
pub use laws::lemma_remote_frame_error_consumes_frame;
pub use remote::RemoteMessage;
pub use remote::REMOTE_MESSAGE_ID_GET_PARAM_RESULT;
pub use remote::REMOTE_MESSAGE_ID_GET_STAT_RESULT;
pub use remote::REMOTE_MESSAGE_ID_LOCK_FAILED;
pub use remote::REMOTE_MESSAGE_ID_OCD_TRIPPED;
pub use remote::REMOTE_MESSAGE_ID_PING;
pub use framing::MESSAGE_START_BIT;
pub use framing::unmarked_prefix_len;
pub use serial_buffer::SerialBuffer;
pub use values::ParameterValue;
pub use values::StatisticValue;
pub use values::RAW_VALUE_MAX;
pub use values::saturate_to_raw;
pub use values::sign_extend_i14;
pub use values::spec_saturate_to_raw;
pub use values::spec_sign_extend_i14;
