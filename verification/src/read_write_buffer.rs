//! The double buffer: two equally sized byte regions, one active (readable,
//! eligible for transmission) and one inactive (writable by the frame
//! producer). A swap only changes which region is which; it never copies
//! data, and this type performs no synchronization of its own — all safety
//! comes from the calling discipline of the channel protocol.

use vstd::prelude::*;

verus! {

pub struct ReadWriteBuffer {
    current_read_is_1: bool,
    buffer_1: Vec<u8>,
    buffer_2: Vec<u8>,
    buffer_length: u16,
}

impl ReadWriteBuffer {
    /// Both regions hold exactly the fixed capacity.
    pub closed spec fn wf(&self) -> bool {
        &&& self.buffer_1@.len() == self.buffer_length as int
        &&& self.buffer_2@.len() == self.buffer_length as int
    }

    /// Which region is currently active: true for the first one.
    pub closed spec fn read_is_1(&self) -> bool {
        self.current_read_is_1
    }

    /// The bytes of the active region.
    pub closed spec fn readable(&self) -> Seq<u8> {
        if self.current_read_is_1 {
            self.buffer_1@
        } else {
            self.buffer_2@
        }
    }

    /// The bytes of the inactive region.
    pub closed spec fn writable(&self) -> Seq<u8> {
        if self.current_read_is_1 {
            self.buffer_2@
        } else {
            self.buffer_1@
        }
    }

    /// The fixed capacity of one region.
    pub closed spec fn spec_length(&self) -> u16 {
        self.buffer_length
    }

    /// This buffer with the roles of its two regions exchanged.
    pub closed spec fn spec_swapped(&self) -> Self {
        ReadWriteBuffer { current_read_is_1: !self.current_read_is_1, ..*self }
    }

    /// A buffer whose two regions each hold `length` zeroed bytes; the
    /// second region starts out active.
    pub fn new(length: u16) -> (b: Self)
        ensures
            b.wf(),
            b.spec_length() == length,
            !b.read_is_1(),
            b.readable() == Seq::new(length as nat, |i: int| 0u8),
            b.writable() == Seq::new(length as nat, |i: int| 0u8),
    {
        let buffer_1 = zeroed_bytes(length);
        let buffer_2 = zeroed_bytes(length);
        Self { current_read_is_1: false, buffer_1, buffer_2, buffer_length: length }
    }

    /// A read-only view of the active region.
    pub fn borrow(&self) -> (r: &Vec<u8>)
        ensures
            r@ == self.readable(),
    {
        if self.current_read_is_1 {
            &self.buffer_1
        } else {
            &self.buffer_2
        }
    }

    /// A mutable view of the inactive region; the caller may write it
    /// freely, and the active region is untouched by anything done through
    /// the returned reference.
    pub fn borrow_mut(&mut self) -> (r: &mut Vec<u8>)
        ensures
            r@ == old(self).writable(),
            final(self).writable() == final(r)@,
            final(self).readable() == old(self).readable(),
            final(self).read_is_1() == old(self).read_is_1(),
            final(self).spec_length() == old(self).spec_length(),
            old(self).wf() ==> (final(self).wf() <==> final(r)@.len()
                == old(self).spec_length() as int),
    {
        if self.current_read_is_1 {
            &mut self.buffer_2
        } else {
            &mut self.buffer_1
        }
    }

    /// Overwrite one byte of the inactive region.
    pub fn write_at(&mut self, index: usize, value: u8)
        requires
            old(self).wf(),
            index < old(self).spec_length() as usize,
        ensures
            final(self).wf(),
            final(self).writable() == old(self).writable().update(index as int, value),
            final(self).readable() == old(self).readable(),
            final(self).read_is_1() == old(self).read_is_1(),
            final(self).spec_length() == old(self).spec_length(),
    {
        if self.current_read_is_1 {
            self.buffer_2[index] = value;
        } else {
            self.buffer_1[index] = value;
        }
    }

    /// Exchange which region is active and which is inactive. The caller
    /// must guarantee that no transmission of the active region is in
    /// flight; the channel protocol enforces that by performing the swap
    /// only from the consumer's context.
    pub fn swap(&mut self)
        ensures
            *final(self) == old(self).spec_swapped(),
            final(self).readable() == old(self).writable(),
            final(self).writable() == old(self).readable(),
            final(self).read_is_1() == !old(self).read_is_1(),
            final(self).spec_length() == old(self).spec_length(),
            final(self).wf() == old(self).wf(),
    {
        self.current_read_is_1 = !self.current_read_is_1;
    }

    /// The fixed capacity of one region.
    pub fn length(&self) -> (n: u16)
        ensures
            n == self.spec_length(),
    {
        self.buffer_length
    }
}

/// In a well-formed buffer both views hold exactly the fixed capacity.
pub broadcast proof fn lemma_wf_view_lengths(b: ReadWriteBuffer)
    requires
        #[trigger] b.wf(),
    ensures
        b.readable().len() == b.spec_length() as int,
        b.writable().len() == b.spec_length() as int,
{
}

/// How a swapped buffer's views relate to the unswapped one's.
pub broadcast proof fn lemma_swapped_views(b: ReadWriteBuffer)
    ensures
        (#[trigger] b.spec_swapped()).readable() == b.writable(),
        b.spec_swapped().writable() == b.readable(),
        b.spec_swapped().read_is_1() == !b.read_is_1(),
        b.spec_swapped().spec_length() == b.spec_length(),
        b.spec_swapped().wf() == b.wf(),
{
}

/// A byte pattern placed in the writable region is exactly what the readable
/// region yields once a swap has taken place: `written` is `before` with its
/// inactive region replaced by `pattern` (all a writer may change), and
/// `after` is `written` swapped.
pub proof fn lemma_write_swap_round_trip(
    before: ReadWriteBuffer,
    written: ReadWriteBuffer,
    after: ReadWriteBuffer,
    pattern: Seq<u8>,
)
    requires
        written.read_is_1() == before.read_is_1(),
        written.readable() == before.readable(),
        written.writable() == pattern,
        after.read_is_1() == !written.read_is_1(),
        after.readable() == written.writable(),
        after.writable() == written.readable(),
    ensures
        after.readable() == pattern,
        after.writable() == before.readable(),
{
}

/// A vector of `length` zeroed bytes.
fn zeroed_bytes(length: u16) -> (v: Vec<u8>)
    ensures
        v@ == Seq::new(length as nat, |i: int| 0u8),
{
    let mut v: Vec<u8> = Vec::new();
    let mut i: usize = 0;
    while i < length as usize
        invariant
            i <= length as usize,
            v@ == Seq::new(i as nat, |j: int| 0u8),
        decreases length as usize - i,
    {
        v.push(0);
        proof {
            assert(v@ =~= Seq::new((i + 1) as nat, |j: int| 0u8));
        }
        i = i + 1;
    }
    proof {
        assert(v@ =~= Seq::new(length as nat, |j: int| 0u8));
    }
    v
}

} // verus!
