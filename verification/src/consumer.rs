//! The consumer capability: the exclusive right to commit deferred buffer
//! swaps and hand the active half of the double buffer to the transfer
//! mechanism, and to detect when the final frame has been shown.

use vstd::prelude::*;

use crate::brg::BRG;
use crate::channel_config::ChannelConfig;

verus! {

/// Handle granting exclusive, non-reentrant access to the consumer-side
/// operations of one channel. At most one is ever issued per channel, by
/// `ChannelConfig::take_consumer`; it cannot be constructed anywhere else.
pub struct Consumer {
    pub(crate) guard: (),
}

impl Consumer {
    /// Whether transmission should stop: true only once the final frame had
    /// already been handed over on an earlier check. The first check that
    /// finds the final frame calculated records it as shown and still
    /// returns false — the one extra "grace" frame is transmitted on
    /// purpose before halting.
    pub fn animation_ended<F>(&self, ch: &mut ChannelConfig<F>) -> (r: bool)
        ensures
            r == (old(ch).last_frame_calculated && old(ch).last_frame_shown),
            *final(ch) == (ChannelConfig {
                last_frame_shown: old(ch).last_frame_shown || old(ch).last_frame_calculated,
                ..*old(ch)
            }),
    {
        if ch.last_frame_calculated {
            if ch.last_frame_shown {
                return true;
            }
            ch.last_frame_shown = true;
        }
        false
    }

    /// One transmission cycle, meant to run once per frame period: unless
    /// the animation has ended, commit the deferred swap (re-arming the
    /// frame request) and hand the now-active region, `strip_length * 12`
    /// bytes, to the caller-supplied transfer. The transfer is
    /// fire-and-forget: its result is not awaited, and the caller invokes
    /// this again only once the transmission has safely finished.
    pub fn start_frame<F, T: Fn(&Vec<u8>, u32) -> Option<BRG>>(
        &self,
        ch: &mut ChannelConfig<F>,
        transfer: T,
    )
        requires
            old(ch).wf(),
            forall|v: Vec<u8>, n: u32| call_requires(transfer, (&v, n)),
        ensures
            final(ch).wf(),
            forall|s: crate::protocol::ProtocolState|
                #[trigger] crate::protocol::corresponds(*old(ch), s)
                    ==> crate::protocol::corresponds(
                    *final(ch),
                    crate::protocol::consume_step(s),
                ),
            old(ch).last_frame_calculated && old(ch).last_frame_shown ==> *final(ch) == *old(ch),
            !(old(ch).last_frame_calculated && old(ch).last_frame_shown) ==> {
                &&& *final(ch) == (ChannelConfig {
                    last_frame_shown: old(ch).last_frame_shown || old(ch).last_frame_calculated,
                    ..*old(ch)
                }).spec_try_swap()
                &&& exists|v: Vec<u8>, res: Option<BRG>|
                    #[trigger] call_ensures(
                        transfer,
                        (&v, ((old(ch).strip_length as int) * 12) as u32),
                        res,
                    ) && v@ == final(ch).buffer.readable()
            },
    {
        if !self.animation_ended(ch) {
            ch.try_swap();
            let byte_count: u32 = (ch.strip_length as u32) * 12;
            let buf = ch.buffer.borrow();
            let res = transfer(buf, byte_count);
            proof {
                let v = *buf;
                assert(call_ensures(transfer, (&v, byte_count), res));
            }
        }
    }
}

} // verus!
