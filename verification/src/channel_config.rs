//! The per-strip shared state and its ownership gate: the double buffer, the
//! lifecycle flags, and the grant of at most one producer and one consumer
//! handle per channel.
//!
//! On the target platform the producer runs in a low-priority context and
//! the consumer in a transfer-completion interrupt; the two never truly run
//! simultaneously (single core, one of them at interrupt priority), so each
//! operation here may be taken as one atomic step of the protocol. In this
//! library that platform assumption is mirrored by the exclusive borrow that
//! every operation takes on the channel record.

use vstd::prelude::*;

use crate::brg::BRG;
use crate::consumer::Consumer;
use crate::producer::Producer;
use crate::read_write_buffer::ReadWriteBuffer;

verus! {

use crate::read_write_buffer::lemma_swapped_views;

/// The active display source: a pluggable per-pixel color generator, called
/// as `(strip_id, strip_length, frame_number, pixel_index)`, or one static
/// color shown on every pixel.
pub enum DisplayType<F> {
    Generator(F),
    Static(BRG),
}

/// The shared state of one strip: identity, brightness, display source, the
/// double buffer, the grant flags and the frame-lifecycle flags.
pub struct ChannelConfig<F> {
    pub strip_id: u8,
    pub buffer: ReadWriteBuffer,
    pub producer_taken: bool,
    pub consumer_taken: bool,
    pub frame_n: u32,
    pub frame_requested: bool,
    pub last_frame_calculated: bool,
    pub last_frame_shown: bool,
    pub strip_length: u8,
    pub brightness: u8,
    pub display_type: DisplayType<F>,
    pub swap_requested: bool,
}

impl<F> ChannelConfig<F> {
    /// The double buffer holds its fixed capacity, and every pixel's twelve
    /// encoded bytes fit into one region.
    pub open spec fn wf(&self) -> bool {
        &&& self.buffer.wf()
        &&& 12 * (self.strip_length as int) <= self.buffer.spec_length() as int
    }

    /// What a deferred-swap commit does: if a swap is pending, exchange the
    /// buffer regions, clear the pending flag and — only then — request the
    /// next frame; otherwise change nothing.
    pub open spec fn spec_try_swap(self) -> Self {
        if self.swap_requested {
            ChannelConfig {
                buffer: self.buffer.spec_swapped(),
                swap_requested: false,
                frame_requested: true,
                ..self
            }
        } else {
            self
        }
    }

    /// A fresh channel: nothing granted, the first frame already requested,
    /// brightness zero and every pixel off until the caller configures a
    /// display source.
    ///
    /// The capacity check demanded of the caller here is what makes the
    /// per-pixel writes of the producer provably in bounds for the lifetime
    /// of the channel.
    pub fn new(strip_id: u8, buffer: ReadWriteBuffer, strip_length: u8) -> (c: ChannelConfig<F>)
        requires
            buffer.wf(),
            12 * (strip_length as int) <= buffer.spec_length() as int,
        ensures
            c == (ChannelConfig {
                strip_id,
                buffer,
                producer_taken: false,
                consumer_taken: false,
                frame_n: 0u32,
                frame_requested: true,
                last_frame_calculated: false,
                last_frame_shown: false,
                strip_length,
                brightness: 0u8,
                display_type: DisplayType::<F>::Static(BRG::spec_new(0, 0, 0)),
                swap_requested: false,
            }),
            c.wf(),
    {
        ChannelConfig {
            strip_id,
            buffer,
            producer_taken: false,
            consumer_taken: false,
            frame_n: 0,
            frame_requested: true,
            last_frame_calculated: false,
            last_frame_shown: false,
            strip_length,
            brightness: 0,
            display_type: DisplayType::Static(BRG::new(0, 0, 0)),
            swap_requested: false,
        }
    }

    /// Grant the consumer handle: succeeds on the first call for a channel
    /// and on no later one. The exclusive borrow taken here plays the role
    /// of the critical section the admission check needs — no two callers
    /// can observe "not yet taken" at once.
    pub fn take_consumer(&mut self) -> (r: Option<Consumer>)
        ensures
            r is Some <==> !old(self).consumer_taken,
            forall|s: crate::protocol::ProtocolState|
                #[trigger] crate::protocol::corresponds(*old(self), s)
                    ==> (r is Some <==> crate::protocol::take_consumer_grants(s)),
            *final(self) == (ChannelConfig { consumer_taken: true, ..*old(self) }),
            forall|s: crate::protocol::ProtocolState|
                #[trigger] crate::protocol::corresponds(*old(self), s)
                    ==> crate::protocol::corresponds(
                    *final(self),
                    crate::protocol::take_consumer_step(s),
                ),
    {
        if self.consumer_taken {
            None
        } else {
            self.consumer_taken = true;
            Some(Consumer { guard: () })
        }
    }

    /// Grant the producer handle: succeeds on the first call for a channel
    /// and on no later one.
    pub fn take_producer(&mut self) -> (r: Option<Producer>)
        ensures
            r is Some <==> !old(self).producer_taken,
            forall|s: crate::protocol::ProtocolState|
                #[trigger] crate::protocol::corresponds(*old(self), s)
                    ==> (r is Some <==> crate::protocol::take_producer_grants(s)),
            *final(self) == (ChannelConfig { producer_taken: true, ..*old(self) }),
            forall|s: crate::protocol::ProtocolState|
                #[trigger] crate::protocol::corresponds(*old(self), s)
                    ==> crate::protocol::corresponds(
                    *final(self),
                    crate::protocol::take_producer_step(s),
                ),
    {
        if self.producer_taken {
            None
        } else {
            self.producer_taken = true;
            Some(Producer { guard: () })
        }
    }

    /// Producer side: mark that a completed frame is ready to become
    /// active. The swap itself is deferred to the consumer's context.
    pub fn request_swap(&mut self)
        ensures
            *final(self) == (ChannelConfig { swap_requested: true, ..*old(self) }),
    {
        self.swap_requested = true;
    }

    /// Consumer side: commit a pending swap, if any. Requesting the next
    /// frame strictly after the swap closes the window in which the
    /// producer could begin overwriting the region about to become active.
    pub fn try_swap(&mut self)
        ensures
            *final(self) == old(self).spec_try_swap(),
            old(self).swap_requested ==> {
                &&& final(self).buffer.readable() == old(self).buffer.writable()
                &&& final(self).buffer.writable() == old(self).buffer.readable()
                &&& final(self).buffer.read_is_1() == !old(self).buffer.read_is_1()
                &&& final(self).buffer.spec_length() == old(self).buffer.spec_length()
            },
            !old(self).swap_requested ==> *final(self) == *old(self),
            final(self).wf() == old(self).wf(),
    {
        proof {
            lemma_swapped_views(self.buffer);
        }
        if self.swap_requested {
            self.buffer.swap();
            self.swap_requested = false;
            self.frame_requested = true;
        }
    }
}

/// Committing a deferred swap twice without an intervening swap request
/// swaps only once: the second commit finds no pending request and is a
/// no-op, whatever state the channel was in.
pub proof fn lemma_commit_twice_swaps_once<F>(c: ChannelConfig<F>)
    ensures
        c.spec_try_swap().spec_try_swap() == c.spec_try_swap(),
{
}

} // verus!
