//! The producer capability: the exclusive right to compute frames into the
//! inactive half of a channel's double buffer, encoding each pixel's scaled
//! color into the strip's self-clocking serial bit pattern.

use vstd::prelude::*;

use crate::brg::BRG;
use crate::channel_config::ChannelConfig;
use crate::channel_config::DisplayType;

verus! {

broadcast use crate::read_write_buffer::lemma_wf_view_lengths;

use vstd::arithmetic::div_mod::lemma_fundamental_div_mod;
use vstd::arithmetic::div_mod::lemma_fundamental_div_mod_converse_div;
use vstd::arithmetic::div_mod::lemma_fundamental_div_mod_converse_mod;

/// The serial symbol for one data bit: a long pulse for 0, a short pulse
/// for 1, before the shift-and-pack step that fits two symbols in a byte.
pub open spec fn mask_of(d: u32) -> u8 {
    if d == 0 {
        0b11110
    } else {
        0b10000
    }
}

/// Bit `k` of a packed pixel value.
pub open spec fn pixel_bit(p: u32, k: u32) -> u32
    recommends
        k < 24,
{
    (p >> k) & 1
}

/// Byte `j` of the twelve encoding one pixel: it carries the two source
/// bits `2 * (11 - j)` and `2 * (11 - j) + 1` (so the pixel's bits appear
/// most-significant-first over the twelve bytes), each mapped through the
/// pulse mask, with the first symbol in the high nibble.
pub open spec fn spec_pixel_byte(p: u32, j: int) -> u8
    recommends
        0 <= j < 12,
{
    let k = (2 * (11 - j)) as u32;
    (mask_of(pixel_bit(p, k)) << 4) | (mask_of(pixel_bit(p, (k + 1) as u32)) >> 1)
}

/// The writable region after pixel `n` was encoded into its twelve-byte
/// window: the window holds the encoding of the packed value `p`, the rest
/// is untouched.
pub open spec fn pixel_written(w: Seq<u8>, n: int, p: u32) -> Seq<u8> {
    Seq::new(
        w.len(),
        |j: int|
            if 12 * n <= j < 12 * n + 12 {
                spec_pixel_byte(p, j - 12 * n)
            } else {
                w[j]
            },
    )
}

/// Whether `r` is a result the display source can yield for pixel `q` of
/// the given frame: for a generator, any result its contract admits; for a
/// static color, exactly that color.
pub open spec fn display_yields<F: Fn(u8, u8, u32, u8) -> Option<BRG>>(
    d: DisplayType<F>,
    id: u8,
    len: u8,
    frame: u32,
    q: int,
    r: Option<BRG>,
) -> bool {
    match d {
        DisplayType::Generator(f) => call_ensures(f, (id, len, frame, q as u8), r),
        DisplayType::Static(c) => r == Some(c),
    }
}

/// The writable region after one whole frame, given the per-pixel results:
/// a pixel whose result is a color carries its encoding at brightness `a`;
/// a pixel whose result was absent, and every byte past the strip's pixels,
/// is untouched.
pub open spec fn frame_written(w: Seq<u8>, results: Seq<Option<BRG>>, a: u8) -> Seq<u8> {
    Seq::new(
        w.len(),
        |j: int|
            if 0 <= j / 12 < results.len() && results[j / 12] is Some {
                spec_pixel_byte(((results[j / 12]->0).spec_into_u32(a)) as u32, j % 12)
            } else {
                w[j]
            },
    )
}

/// The writable region after a frame of one static color on `n` pixels.
pub open spec fn static_frame(w: Seq<u8>, n: int, c: BRG, a: u8) -> Seq<u8>
    recommends
        n >= 0,
{
    frame_written(w, Seq::new(n as nat, |q: int| Some(c)), a)
}

/// Relates the channel before and after one computed frame: `results` holds
/// what the display source yielded for each pixel, the writable region holds
/// the corresponding encodings, and end-of-animation was recorded exactly
/// when the strip is non-empty and the result at its final pixel was absent.
pub open spec fn frame_results_ok<F: Fn(u8, u8, u32, u8) -> Option<BRG>>(
    pre: ChannelConfig<F>,
    post: ChannelConfig<F>,
    results: Seq<Option<BRG>>,
) -> bool {
    &&& results.len() == pre.strip_length as int
    &&& forall|q: int|
        0 <= q < results.len() ==> display_yields(
            pre.display_type,
            pre.strip_id,
            pre.strip_length,
            pre.frame_n,
            q,
            #[trigger] results[q],
        )
    &&& post.buffer.writable() == frame_written(pre.buffer.writable(), results, pre.brightness)
    &&& post.last_frame_calculated == (results.len() > 0 && results[results.len() - 1] is None)
}

/// Handle granting exclusive, non-reentrant access to the producer-side
/// operations of one channel. At most one is ever issued per channel, by
/// `ChannelConfig::take_producer`; it cannot be constructed anywhere else.
pub struct Producer {
    pub(crate) guard: (),
}

impl Producer {
    /// Encode one pixel's color, scaled by the channel's brightness, into
    /// the pixel's twelve-byte window of the inactive region. Nothing else
    /// — in particular not the active region — changes.
    pub fn write_pixel_to_buffer<F>(
        &self,
        ch: &mut ChannelConfig<F>,
        pixel_n: usize,
        pixel: &BRG,
    )
        requires
            old(ch).wf(),
            pixel_n < old(ch).strip_length as usize,
        ensures
            final(ch).wf(),
            *final(ch) == (ChannelConfig { buffer: final(ch).buffer, ..*old(ch) }),
            final(ch).buffer.writable() == pixel_written(
                old(ch).buffer.writable(),
                pixel_n as int,
                (pixel.spec_into_u32(old(ch).brightness)) as u32,
            ),
            final(ch).buffer.readable() == old(ch).buffer.readable(),
            final(ch).buffer.read_is_1() == old(ch).buffer.read_is_1(),
            final(ch).buffer.spec_length() == old(ch).buffer.spec_length(),
    {
        let ghost w0 = ch.buffer.writable();
        let p: u32 = pixel.into_u32(ch.brightness);
        proof {
            crate::brg::lemma_packed_fits(
                pixel.spec_b(),
                pixel.spec_r(),
                pixel.spec_g(),
                ch.brightness,
            );
        }
        let mut i: usize = 0;
        while i < 12
            invariant
                i <= 12,
                ch.wf(),
                pixel_n < ch.strip_length as usize,
                *ch == (ChannelConfig { buffer: ch.buffer, ..*old(ch) }),
                ch.buffer.readable() == old(ch).buffer.readable(),
                ch.buffer.read_is_1() == old(ch).buffer.read_is_1(),
                ch.buffer.spec_length() == old(ch).buffer.spec_length(),
                w0 == old(ch).buffer.writable(),
                w0.len() == ch.buffer.spec_length() as int,
                p == (pixel.spec_into_u32(old(ch).brightness)) as u32,
                ch.buffer.writable() == Seq::new(
                    w0.len(),
                    |j: int|
                        if 12 * (pixel_n as int) + 12 - (i as int) <= j < 12 * (pixel_n as int)
                            + 12 {
                            spec_pixel_byte(p, j - 12 * (pixel_n as int))
                        } else {
                            w0[j]
                        },
                ),
            decreases 12 - i,
        {
            let d0: u32 = (p >> ((2 * i) as u32)) & 1;
            let d1: u32 = (p >> ((2 * i + 1) as u32)) & 1;
            let m0: u8 = if d0 == 0 {
                0b11110
            } else {
                0b10000
            };
            let m1: u8 = if d1 == 0 {
                0b11110
            } else {
                0b10000
            };
            let index: usize = pixel_n * 12 + (11 - i);
            let value: u8 = (m0 << 4u8) | (m1 >> 1u8);
            ch.buffer.write_at(index, value);
            proof {
                assert(value == spec_pixel_byte(p, 11 - i as int));
                assert(ch.buffer.writable() =~= Seq::new(
                    w0.len(),
                    |j: int|
                        if 12 * (pixel_n as int) + 12 - (i as int + 1) <= j < 12 * (
                        pixel_n as int) + 12 {
                            spec_pixel_byte(p, j - 12 * (pixel_n as int))
                        } else {
                            w0[j]
                        },
                ));
            }
            i = i + 1;
        }
        proof {
            assert(ch.buffer.writable() =~= pixel_written(w0, pixel_n as int, p));
        }
    }

    /// Compute one frame, if one is due: unless a frame has been requested
    /// and the animation has not ended, this is a no-op. Otherwise every
    /// pixel's color is asked of the display source and encoded into the
    /// inactive region; an absent result at the strip's final pixel records
    /// end-of-animation. The frame counter then advances, the request flag
    /// is cleared, and a swap of the regions is requested — the active
    /// region itself is never touched.
    ///
    /// A generator that yields an absent result before the final pixel
    /// leaves the affected windows untouched and does not end the
    /// animation; doing so is a breach of the generator's calling contract,
    /// tolerated but not given further meaning.
    pub fn neopixel_poll_frame<F: Fn(u8, u8, u32, u8) -> Option<BRG> + Copy>(
        &self,
        ch: &mut ChannelConfig<F>,
    )
        requires
            old(ch).wf(),
            old(ch).display_type matches DisplayType::Generator(f) ==> forall|q: u8|
                q < old(ch).strip_length ==> call_requires(
                    f,
                    (old(ch).strip_id, old(ch).strip_length, old(ch).frame_n, q),
                ),
        ensures
            final(ch).wf(),
            forall|s: crate::protocol::ProtocolState|
                #[trigger] crate::protocol::corresponds(*old(ch), s)
                    ==> crate::protocol::corresponds(
                    *final(ch),
                    crate::protocol::produce_step(
                        s,
                        final(ch).last_frame_calculated && !old(ch).last_frame_calculated,
                    ),
                ),
            !(old(ch).frame_requested && !old(ch).last_frame_calculated) ==> *final(ch) == *old(
                ch,
            ),
            old(ch).frame_requested && !old(ch).last_frame_calculated ==> {
                &&& *final(ch) == (ChannelConfig {
                    buffer: final(ch).buffer,
                    frame_n: old(ch).frame_n.wrapping_add(1),
                    frame_requested: false,
                    swap_requested: true,
                    last_frame_calculated: final(ch).last_frame_calculated,
                    ..*old(ch)
                })
                &&& exists|results: Seq<Option<BRG>>|
                    frame_results_ok(*old(ch), *final(ch), results)
                &&& final(ch).buffer.readable() == old(ch).buffer.readable()
                &&& final(ch).buffer.read_is_1() == old(ch).buffer.read_is_1()
                &&& final(ch).buffer.spec_length() == old(ch).buffer.spec_length()
            },
            old(ch).display_type matches DisplayType::Static(c) ==> (old(ch).frame_requested
                && !old(ch).last_frame_calculated ==> {
                &&& final(ch).buffer.writable() == static_frame(
                    old(ch).buffer.writable(),
                    old(ch).strip_length as int,
                    c,
                    old(ch).brightness,
                )
                &&& final(ch).last_frame_calculated == false
            }),
    {
        if ch.frame_requested && !ch.last_frame_calculated {
            let ghost pre = *ch;
            let ghost mut results: Seq<Option<BRG>> = Seq::empty();
            let strip_length: u8 = ch.strip_length;
            let mut pixel_n: u8 = 0;
            while pixel_n < strip_length
                invariant
                    pixel_n <= strip_length,
                    ch.wf(),
                    pre.wf(),
                    pre.frame_requested,
                    !pre.last_frame_calculated,
                    strip_length == pre.strip_length,
                    *ch == (ChannelConfig {
                        buffer: ch.buffer,
                        last_frame_calculated: ch.last_frame_calculated,
                        ..pre
                    }),
                    ch.buffer.readable() == pre.buffer.readable(),
                    ch.buffer.read_is_1() == pre.buffer.read_is_1(),
                    ch.buffer.spec_length() == pre.buffer.spec_length(),
                    pre.display_type matches DisplayType::Generator(f) ==> forall|q: u8|
                        q < pre.strip_length ==> call_requires(
                            f,
                            (pre.strip_id, pre.strip_length, pre.frame_n, q),
                        ),
                    results.len() == pixel_n as int,
                    forall|q: int|
                        0 <= q < results.len() ==> display_yields(
                            pre.display_type,
                            pre.strip_id,
                            pre.strip_length,
                            pre.frame_n,
                            q,
                            #[trigger] results[q],
                        ),
                    ch.buffer.writable() == frame_written(
                        pre.buffer.writable(),
                        results,
                        pre.brightness,
                    ),
                    ch.last_frame_calculated == (results.len() == strip_length as int
                        && strip_length > 0 && results[strip_length as int - 1] is None),
                    pre.display_type matches DisplayType::Static(c) ==> results == Seq::new(
                        results.len() as nat,
                        |q: int| Some(c),
                    ),
                decreases strip_length - pixel_n,
            {
                let pixel_result: Option<BRG> = match &ch.display_type {
                    DisplayType::Generator(generator) => {
                        let g: F = *generator;
                        g(ch.strip_id, ch.strip_length, ch.frame_n, pixel_n)
                    },
                    DisplayType::Static(color) => Some(*color),
                };
                let ghost results_before = results;
                proof {
                    results = results.push(pixel_result);
                }
                match pixel_result {
                    Some(color) => {
                        let ghost w_before = ch.buffer.writable();
                        self.write_pixel_to_buffer(ch, pixel_n as usize, &color);
                        proof {
                            lemma_frame_written_extend_some(
                                pre.buffer.writable(),
                                results_before,
                                color,
                                pre.brightness,
                                w_before,
                                ch.buffer.writable(),
                            );
                        }
                    },
                    None => {
                        if pixel_n == strip_length - 1 {
                            ch.last_frame_calculated = true;
                        }
                        proof {
                            lemma_frame_written_extend_none(
                                pre.buffer.writable(),
                                results_before,
                                pre.brightness,
                            );
                        }
                    },
                }
                pixel_n = pixel_n + 1;
            }
            ch.frame_n = ch.frame_n.wrapping_add(1);
            ch.frame_requested = false;
            ch.request_swap();
            proof {
                assert(frame_results_ok(pre, *ch, results));
                match pre.display_type {
                    DisplayType::Static(c) => {
                        assert(ch.buffer.writable() =~= static_frame(
                            pre.buffer.writable(),
                            pre.strip_length as int,
                            c,
                            pre.brightness,
                        ));
                    },
                    DisplayType::Generator(_) => {},
                }
            }
        }
    }
}

/// Appending a present result and encoding its pixel extends a partial
/// frame by one window: encoding pixel `results.len()` of `w` into the
/// partial frame for `results` gives the partial frame for
/// `results.push(Some(c))`.
proof fn lemma_frame_written_extend_some(
    w: Seq<u8>,
    results: Seq<Option<BRG>>,
    c: BRG,
    a: u8,
    before: Seq<u8>,
    after: Seq<u8>,
)
    requires
        before == frame_written(w, results, a),
        after == pixel_written(before, results.len() as int, (c.spec_into_u32(a)) as u32),
    ensures
        after == frame_written(w, results.push(Some(c)), a),
{
    let n = results.len() as int;
    let target = frame_written(w, results.push(Some(c)), a);
    assert forall|j: int| 0 <= j < after.len() implies after[j] == target[j] by {
        lemma_window_div(j, n);
    }
    assert(after =~= target);
}

/// Appending an absent result leaves a partial frame unchanged.
proof fn lemma_frame_written_extend_none(w: Seq<u8>, results: Seq<Option<BRG>>, a: u8)
    ensures
        frame_written(w, results, a) == frame_written(w, results.push(None), a),
{
    let n = results.len() as int;
    let before = frame_written(w, results, a);
    let target = frame_written(w, results.push(None), a);
    assert forall|j: int| 0 <= j < before.len() implies before[j] == target[j] by {
        lemma_window_div(j, n);
    }
    assert(before =~= target);
}

/// Position `j` lies in pixel `n`'s twelve-byte window exactly when its
/// quotient by 12 is `n`, and within the window the remainder is the
/// offset.
proof fn lemma_window_div(j: int, n: int)
    requires
        0 <= j,
        0 <= n,
    ensures
        (12 * n <= j < 12 * n + 12) <==> (j / 12 == n),
        12 * n <= j < 12 * n + 12 ==> j % 12 == j - 12 * n,
{
    lemma_fundamental_div_mod(j, 12);
    if 12 * n <= j < 12 * n + 12 {
        lemma_fundamental_div_mod_converse_div(j, 12, n, j - 12 * n);
        lemma_fundamental_div_mod_converse_mod(j, 12, n, j - 12 * n);
    }
}

} // verus!
