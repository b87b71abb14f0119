use vstd::prelude::*;

verus! {

/// A fixed-capacity circular byte queue.
///
/// The capacity `N` is fixed at construction. Bytes come out in the order
/// they were pushed; `push`, `pop` and `peek` are all constant-time. One
/// instance serves either as a transmit staging area (filled by the encoder,
/// drained by the transport) or as a receive accumulator (filled by the
/// transport, drained by the decoder), never both.
///
/// The abstract value (`@`) is the sequence of occupied bytes, oldest first.
pub struct SerialBuffer<const N: usize> {
    data: [u8; N],
    count: usize,
    i_write: usize,
}

impl<const N: usize> SerialBuffer<N> {
    /// Internal consistency: the occupancy never exceeds the capacity and
    /// the write cursor stays inside the storage.
    pub closed spec fn wf(&self) -> bool {
        &&& self.count <= N
        &&& if N == 0 {
                self.i_write == 0
            } else {
                self.i_write < N
            }
    }

    /// Storage index of the oldest occupied byte.
    spec fn start(&self) -> int {
        if self.i_write >= self.count {
            self.i_write - self.count
        } else {
            self.i_write - self.count + N
        }
    }

    pub fn new() -> (r: Self)
        ensures
            r.wf(),
            r@ == Seq::<u8>::empty(),
    {
        let r = Self { data: [0u8; N], count: 0, i_write: 0 };
        proof {
            assert(r@ =~= Seq::<u8>::empty());
        }
        r
    }

    /// Appends a byte as the newest element. The caller must have checked
    /// `free_space()` first: pushing into a full buffer would overwrite the
    /// oldest byte, so a full buffer is excluded here.
    pub fn push(&mut self, b: u8)
        requires
            old(self).wf(),
            old(self)@.len() < N,
        ensures
            final(self).wf(),
            final(self)@ == old(self)@.push(b),
    {
        self.data[self.i_write] = b;
        self.i_write += 1;
        proof {
            if self.i_write < N {
                vstd::arithmetic::div_mod::lemma_small_mod(self.i_write as nat, N as nat);
            } else {
                vstd::arithmetic::div_mod::lemma_mod_self_0(N as int);
            }
        }
        self.i_write %= N;
        self.count += 1;
        proof {
            assert(self@ =~= old(self)@.push(b));
        }
    }

    /// Exact occupancy.
    pub fn count(&self) -> (r: usize)
        ensures
            r == self@.len(),
    {
        self.count
    }

    /// Remaining capacity; `free_space() + count() == N` always.
    pub fn free_space(&self) -> (r: usize)
        requires
            self.wf(),
        ensures
            r == N - self@.len(),
    {
        N - self.count
    }

    /// Removes and returns the oldest byte, or `None` when empty.
    pub fn pop(&mut self) -> (r: Option<u8>)
        requires
            old(self).wf(),
        ensures
            final(self).wf(),
            old(self)@.len() == 0 ==> r is None && *final(self) == *old(self),
            old(self)@.len() > 0 ==> r == Some(old(self)@[0]) && final(self)@ == old(self)@.drop_first(),
    {
        if self.count != 0 {
            let index: usize = if self.i_write < self.count {
                self.i_write + (N - self.count)
            } else {
                self.i_write - self.count
            };
            self.count -= 1;
            proof {
                assert(self@ =~= old(self)@.drop_first());
            }
            Some(self.data[index])
        } else {
            None
        }
    }

    /// Returns the oldest byte without removing it, or `None` when empty.
    /// Used to inspect a potential frame's type byte before deciding
    /// whether to consume it.
    pub fn peek(&mut self) -> (r: Option<u8>)
        requires
            old(self).wf(),
        ensures
            *final(self) == *old(self),
            old(self)@.len() == 0 ==> r is None,
            old(self)@.len() > 0 ==> r == Some(old(self)@[0]),
    {
        if self.count != 0 {
            let index: usize = if self.i_write < self.count {
                self.i_write + (N - self.count)
            } else {
                self.i_write - self.count
            };
            Some(self.data[index])
        } else {
            None
        }
    }
}

impl<const N: usize> View for SerialBuffer<N> {
    type V = Seq<u8>;

    closed spec fn view(&self) -> Seq<u8> {
        Seq::new(
            self.count as nat,
            |i: int|
                self.data@[if self.start() + i < N {
                    self.start() + i
                } else {
                    self.start() + i - N
                }],
        )
    }
}

} // verus!
