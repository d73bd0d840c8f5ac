//! The channel's handoff protocol as an abstract state machine, and the
//! safety laws proved over it.
//!
//! A step of the machine is one whole operation of one of the two execution
//! contexts — the producer's frame poll or the consumer's frame start — or
//! one admission grant. On the target platform those operations never truly
//! run simultaneously (single core, the consumer at interrupt priority), so
//! every concurrent execution is some finite sequence of such steps, and a
//! property proved of every `run` holds under any interleaving of the two
//! contexts. The machine also tracks, as `last_sent`, which buffer region
//! was most recently handed to the transfer mechanism — something the
//! executable state has no reason to store, but the safety statement needs.
//!
//! Each executable operation's contract carries a clause tying it to its
//! step function here, so the laws below speak about the code as built, not
//! about a look-alike.

use vstd::prelude::*;

use crate::channel_config::ChannelConfig;

verus! {

/// The protocol-relevant part of a channel's state, together with the
/// region (by its selector value) most recently passed to the transfer
/// mechanism — `None` before the first transfer.
pub ghost struct ProtocolState {
    pub producer_taken: bool,
    pub consumer_taken: bool,
    pub active_is_1: bool,
    pub swap_requested: bool,
    pub frame_requested: bool,
    pub last_frame_calculated: bool,
    pub last_frame_shown: bool,
    pub last_sent: Option<bool>,
}

/// One atomic operation of the protocol. The payload of `Produce` is
/// whether the display source ended the animation at the strip's final
/// pixel during that frame.
pub ghost enum Step {
    TakeProducer,
    TakeConsumer,
    Produce(bool),
    Consume,
}

/// Whether the executable channel state and a protocol state agree on
/// everything the machine models (the machine's `last_sent` has no
/// executable counterpart and is not constrained).
pub open spec fn corresponds<F>(c: ChannelConfig<F>, s: ProtocolState) -> bool {
    &&& s.producer_taken == c.producer_taken
    &&& s.consumer_taken == c.consumer_taken
    &&& s.active_is_1 == c.buffer.read_is_1()
    &&& s.swap_requested == c.swap_requested
    &&& s.frame_requested == c.frame_requested
    &&& s.last_frame_calculated == c.last_frame_calculated
    &&& s.last_frame_shown == c.last_frame_shown
}

/// The protocol state abstracted from a channel, given which region was
/// most recently transferred: the canonical witness for `corresponds`.
pub open spec fn abstraction_of<F>(c: ChannelConfig<F>, last_sent: Option<bool>) -> ProtocolState {
    ProtocolState {
        producer_taken: c.producer_taken,
        consumer_taken: c.consumer_taken,
        active_is_1: c.buffer.read_is_1(),
        swap_requested: c.swap_requested,
        frame_requested: c.frame_requested,
        last_frame_calculated: c.last_frame_calculated,
        last_frame_shown: c.last_frame_shown,
        last_sent,
    }
}

/// Every channel corresponds to its own abstraction, whatever was last
/// transferred.
pub proof fn lemma_abstraction_corresponds<F>(c: ChannelConfig<F>, last_sent: Option<bool>)
    ensures
        corresponds(c, abstraction_of(c, last_sent)),
{
}

/// The protocol state of a fresh channel, before any grant or transfer.
pub open spec fn initial(s: ProtocolState) -> bool {
    &&& !s.producer_taken
    &&& !s.consumer_taken
    &&& !s.active_is_1
    &&& !s.swap_requested
    &&& s.frame_requested
    &&& !s.last_frame_calculated
    &&& !s.last_frame_shown
    &&& s.last_sent is None
}

/// Whether a producer grant succeeds in this state.
pub open spec fn take_producer_grants(s: ProtocolState) -> bool {
    !s.producer_taken
}

/// Whether a consumer grant succeeds in this state.
pub open spec fn take_consumer_grants(s: ProtocolState) -> bool {
    !s.consumer_taken
}

/// The state after a producer grant was attempted (successful or not).
pub open spec fn take_producer_step(s: ProtocolState) -> ProtocolState {
    ProtocolState { producer_taken: true, ..s }
}

/// The state after a consumer grant was attempted (successful or not).
pub open spec fn take_consumer_step(s: ProtocolState) -> ProtocolState {
    ProtocolState { consumer_taken: true, ..s }
}

/// The state after one producer poll: if a frame is due, the frame is
/// computed into the inactive region (not modelled here), the request flag
/// is cleared and a swap is requested; `ended` records whether the display
/// source signalled end-of-animation. Otherwise nothing changes.
pub open spec fn produce_step(s: ProtocolState, ended: bool) -> ProtocolState {
    if s.frame_requested && !s.last_frame_calculated {
        ProtocolState {
            frame_requested: false,
            swap_requested: true,
            last_frame_calculated: ended,
            ..s
        }
    } else {
        s
    }
}

/// The state after one consumer frame start: once the animation has ended
/// nothing changes; otherwise the final calculated frame, if any, is
/// recorded as shown, a pending swap is committed (exchanging the regions
/// and re-arming the frame request), and the now-active region is handed to
/// the transfer mechanism.
pub open spec fn consume_step(s: ProtocolState) -> ProtocolState {
    if s.last_frame_calculated && s.last_frame_shown {
        s
    } else {
        let shown = ProtocolState {
            last_frame_shown: s.last_frame_shown || s.last_frame_calculated,
            ..s
        };
        let swapped = if shown.swap_requested {
            ProtocolState {
                active_is_1: !shown.active_is_1,
                swap_requested: false,
                frame_requested: true,
                ..shown
            }
        } else {
            shown
        };
        ProtocolState { last_sent: Some(swapped.active_is_1), ..swapped }
    }
}

/// One step of the machine.
pub open spec fn step(s: ProtocolState, st: Step) -> ProtocolState {
    match st {
        Step::TakeProducer => take_producer_step(s),
        Step::TakeConsumer => take_consumer_step(s),
        Step::Produce(ended) => produce_step(s, ended),
        Step::Consume => consume_step(s),
    }
}

/// The state after a whole sequence of steps.
pub open spec fn run(s: ProtocolState, steps: Seq<Step>) -> ProtocolState
    decreases steps.len(),
{
    if steps.len() == 0 {
        s
    } else {
        run(step(s, steps[0]), steps.drop_first())
    }
}

/// A grant, once made, is permanent: after any further steps of the
/// protocol the taken flag still stands, so a later take of the same handle
/// is refused. Together with the grant contracts this says that each handle
/// is issued at most once over a channel's whole lifetime.
pub proof fn lemma_grants_are_permanent(s: ProtocolState, steps: Seq<Step>)
    ensures
        s.producer_taken ==> run(s, steps).producer_taken && !take_producer_grants(
            run(s, steps),
        ),
        s.consumer_taken ==> run(s, steps).consumer_taken && !take_consumer_grants(
            run(s, steps),
        ),
    decreases steps.len(),
{
    if steps.len() > 0 {
        lemma_grants_are_permanent(step(s, steps[0]), steps.drop_first());
    }
}

/// The region selected by `writable` in a state: the one the producer may
/// write.
pub open spec fn writable_is_1(s: ProtocolState) -> bool {
    !s.active_is_1
}

/// The transfer mechanism is only ever handed the currently active region.
pub open spec fn transfer_targets_active(s: ProtocolState) -> bool {
    s.last_sent matches Some(region) ==> region == s.active_is_1
}

/// Under any interleaving of producer polls, consumer frame starts and
/// grants, starting from any state in which the last transfer (if any)
/// targeted the active region — the fresh channel in particular — the
/// region the producer may write is never the region most recently handed
/// to the transfer mechanism: a swap is committed only in the consumer's
/// own step, immediately before it hands the new active region over.
pub proof fn lemma_writable_never_transmitting(s: ProtocolState, steps: Seq<Step>)
    requires
        transfer_targets_active(s),
    ensures
        transfer_targets_active(run(s, steps)),
        run(s, steps).last_sent matches Some(region) ==> region != writable_is_1(run(s, steps)),
    decreases steps.len(),
{
    if steps.len() > 0 {
        lemma_writable_never_transmitting(step(s, steps[0]), steps.drop_first());
    }
}

/// A fresh channel trivially satisfies the transfer-safety invariant: no
/// transfer has happened yet.
pub proof fn lemma_initial_is_transfer_safe(s: ProtocolState)
    requires
        initial(s),
    ensures
        transfer_targets_active(s),
{
}

} // verus!
