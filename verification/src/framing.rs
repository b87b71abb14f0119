use vstd::prelude::*;

use crate::serial_buffer::SerialBuffer;

verus! {

/// The start marker: bit 7 of a frame's first byte. Every genuine frame head
/// carries it and no payload byte ever does, which is what lets a decoder
/// resynchronize after corrupted or stray leading bytes.
pub const MESSAGE_START_BIT: u8 = 0x80;

/// A value-level or framing-level failure of one decode or encode attempt.
/// Every error is local to a single frame: the next poll scans forward again.
#[derive(Copy, Clone, Debug, PartialEq, Eq, Structural)]
pub enum DecodeError {
    /// The type byte's 7-bit code is not in the direction's table; exactly
    /// one byte was consumed.
    UnknownFrameType,
    /// A recognized frame carried a payload id outside its catalog; the full
    /// frame was consumed.
    UnknownCatalogId,
    /// A payload integer lay outside a sub-enumeration's valid set; the full
    /// frame was consumed.
    InvalidEnumeratedValue,
}

/// How many leading bytes of `s` lack the start marker: the prefix the
/// resync scan discards before a frame can be recognized.
pub open spec fn unmarked_prefix_len(s: Seq<u8>) -> nat
    decreases s.len(),
{
    if s.len() == 0 {
        0
    } else if s[0] & MESSAGE_START_BIT != 0 {
        0
    } else {
        (1 + unmarked_prefix_len(s.drop_first())) as nat
    }
}

/// Pops and discards leading bytes whose start-marker bit is clear, leaving
/// either an empty buffer or a marked byte (a candidate frame head) at the
/// front. A marked byte is never consumed.
pub(crate) fn resync_scan<const N: usize>(rx_buffer: &mut SerialBuffer<N>)
    requires
        old(rx_buffer).wf(),
    ensures
        final(rx_buffer).wf(),
        final(rx_buffer)@ == old(rx_buffer)@.skip(
            unmarked_prefix_len(old(rx_buffer)@) as int,
        ),
{
    let ghost s0: Seq<u8> = rx_buffer@;
    let ghost mut k: nat = 0;
    proof {
        assert(rx_buffer@ =~= s0.skip(k as int));
    }
    loop
        invariant
            rx_buffer.wf(),
            s0 == old(rx_buffer)@,
            k <= s0.len(),
            rx_buffer@ == s0.skip(k as int),
            unmarked_prefix_len(s0) == k + unmarked_prefix_len(rx_buffer@),
        decreases rx_buffer@.len(),
    {
        let head = rx_buffer.peek();
        match head {
            Some(id_byte) => {
                if (id_byte & MESSAGE_START_BIT) != 0 {
                    proof {
                        assert(unmarked_prefix_len(rx_buffer@) == 0);
                    }
                    return ;
                }
            },
            None => {
                proof {
                    assert(unmarked_prefix_len(rx_buffer@) == 0);
                }
                return ;
            },
        }
        let ghost before: Seq<u8> = rx_buffer@;
        rx_buffer.pop();
        proof {
            assert(before.drop_first() =~= s0.skip(k as int + 1));
            k = k + 1;
        }
    }
}

} // verus!
