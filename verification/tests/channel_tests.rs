//! Tests of the channel protocol: admission, the deferred swap, frame
//! computation, encoding and the end-of-animation drain sequence.

use std::cell::Cell;
use std::cell::RefCell;

use neopixel::brg::BRG;
use neopixel::channel_config::ChannelConfig;
use neopixel::channel_config::DisplayType;
use neopixel::read_write_buffer::ReadWriteBuffer;

type Generator = fn(u8, u8, u32, u8) -> Option<BRG>;

fn never_called(_id: u8, _len: u8, _frame: u32, _pixel: u8) -> Option<BRG> {
    panic!("generator must not be called");
}

/// Colors for every pixel on frame 0, absent for every pixel from frame 1 on.
fn one_frame_then_end(_id: u8, _len: u8, frame: u32, _pixel: u8) -> Option<BRG> {
    if frame == 0 {
        Some(BRG::new(1, 1, 1))
    } else {
        None
    }
}

fn fresh_channel(strip_length: u8) -> ChannelConfig<Generator> {
    let buffer = ReadWriteBuffer::new(strip_length as u16 * 12);
    ChannelConfig::new(1, buffer, strip_length)
}

fn takes_first(cfg: &mut ChannelConfig<Generator>) {
    assert!(cfg.take_producer().is_some());
}

fn takes_second(cfg: &mut ChannelConfig<Generator>) {
    assert!(cfg.take_producer().is_none());
}

#[test]
fn shared_between_functions() {
    let mut cfg = fresh_channel(1);
    takes_first(&mut cfg);
    takes_second(&mut cfg);
}

#[test]
fn producer_taken_only_once() {
    let mut cfg = fresh_channel(1);
    assert!(cfg.take_producer().is_some());
    assert!(cfg.take_producer().is_none());
    assert!(cfg.take_producer().is_none());
}

#[test]
fn consumer_taken_only_once() {
    let mut cfg = fresh_channel(1);
    assert!(cfg.take_consumer().is_some());
    assert!(cfg.take_consumer().is_none());
    assert!(cfg.take_consumer().is_none());
}

#[test]
fn scale_full_brightness_is_identity() {
    let c = BRG::new(10, 20, 30);
    assert_eq!(c.into_u32(255), (10 << 16) | (20 << 8) | 30);
}

#[test]
fn scale_zero_brightness_is_off() {
    let c = BRG::new(10, 20, 30);
    assert_eq!(c.into_u32(0), 0);
}

#[test]
fn scale_truncates() {
    // 200 * 128 / 255 = 100, 1 * 128 / 255 = 0, 2 * 128 / 255 = 1
    let c = BRG::new(200, 1, 2);
    assert_eq!(c.into_u32(128), (100 << 16) | 1);
}

#[test]
fn builders_replace_single_channels() {
    let c = BRG::off().b(5).r(6).g(7);
    assert_eq!(c.into_u32(255), (5 << 16) | (6 << 8) | 7);
}

#[test]
fn commit_twice_swaps_once() {
    let mut cfg = fresh_channel(1);
    cfg.buffer.borrow_mut()[0] = 9;
    cfg.request_swap();
    cfg.try_swap();
    assert_eq!(cfg.buffer.borrow()[0], 9);
    // no intervening request: the second commit must not swap again
    cfg.try_swap();
    assert_eq!(cfg.buffer.borrow()[0], 9);
}

#[test]
fn try_swap_rearms_frame_request() {
    let mut cfg = fresh_channel(1);
    cfg.frame_requested = false;
    cfg.try_swap();
    // nothing pending: no re-arm
    assert!(!cfg.frame_requested);
    cfg.request_swap();
    cfg.try_swap();
    assert!(cfg.frame_requested);
    assert!(!cfg.swap_requested);
}

/// Decode one pixel's twelve encoded bytes back into the packed value, by
/// undoing the mask table: a byte's high nibble came from the mask of source
/// bit `2 * (11 - j)` and its low nibble from the mask of the following bit.
fn decode_pixel(bytes: &[u8]) -> u32 {
    assert_eq!(bytes.len(), 12);
    let mut p: u32 = 0;
    for (j, byte) in bytes.iter().enumerate() {
        let k: u32 = 2 * (11 - j as u32);
        // mask 0b11110 << 4 truncates to 0xE0; mask 0b10000 << 4 to 0x00
        let d0: u32 = if byte & 0xF0 == 0xE0 {
            0
        } else {
            1
        };
        // mask 0b11110 >> 1 is 0x0F; mask 0b10000 >> 1 is 0x08
        let d1: u32 = if byte & 0x0F == 0x0F {
            0
        } else {
            1
        };
        p |= d0 << k;
        p |= d1 << (k + 1);
    }
    p
}

#[test]
fn static_color_frame_encodes_every_pixel() {
    let mut cfg = fresh_channel(3);
    cfg.display_type = DisplayType::Static(BRG::new(10, 20, 30));
    cfg.brightness = 255;
    let producer = cfg.take_producer().unwrap();
    let consumer = cfg.take_consumer().unwrap();

    producer.neopixel_poll_frame(&mut cfg);

    let sent: RefCell<Vec<u8>> = RefCell::new(Vec::new());
    let lengths: Cell<u32> = Cell::new(0);
    consumer.start_frame(&mut cfg, |buffer: &Vec<u8>, length: u32| -> Option<BRG> {
        sent.borrow_mut().extend_from_slice(buffer);
        lengths.set(length);
        None
    });

    let sent = sent.into_inner();
    assert_eq!(sent.len(), 36);
    assert_eq!(lengths.get(), 36);
    assert_eq!(decode_pixel(&sent[0..12]), (10 << 16) | (20 << 8) | 30);
    // every pixel of a static frame carries the same twelve bytes
    assert_eq!(&sent[12..24], &sent[0..12]);
    assert_eq!(&sent[24..36], &sent[0..12]);
}

#[test]
fn static_frame_respects_brightness() {
    let mut cfg = fresh_channel(1);
    cfg.display_type = DisplayType::Static(BRG::new(200, 1, 2));
    cfg.brightness = 128;
    let producer = cfg.take_producer().unwrap();
    producer.neopixel_poll_frame(&mut cfg);
    cfg.try_swap();
    assert_eq!(decode_pixel(&cfg.buffer.borrow()[0..12]), (100 << 16) | 1);
}

#[test]
fn poll_frame_never_touches_active_region() {
    let mut cfg = fresh_channel(2);
    cfg.display_type = DisplayType::Static(BRG::new(255, 255, 255));
    cfg.brightness = 255;
    let producer = cfg.take_producer().unwrap();
    producer.neopixel_poll_frame(&mut cfg);
    // the frame went to the inactive region; the active one is still zeroed
    assert_eq!(cfg.buffer.borrow().as_slice(), [0u8; 24]);
    assert!(cfg.swap_requested);
    assert!(!cfg.frame_requested);
    assert_eq!(cfg.frame_n, 1);
}

#[test]
fn poll_frame_is_a_no_op_until_requested() {
    let mut cfg = fresh_channel(1);
    cfg.display_type = DisplayType::Static(BRG::new(1, 2, 3));
    let producer = cfg.take_producer().unwrap();
    producer.neopixel_poll_frame(&mut cfg);
    assert_eq!(cfg.frame_n, 1);
    // the frame request was consumed: polling again computes nothing
    producer.neopixel_poll_frame(&mut cfg);
    assert_eq!(cfg.frame_n, 1);
    assert!(!cfg.frame_requested);
}

#[test]
fn animation_end_grace_frame() {
    let mut cfg = fresh_channel(2);
    cfg.display_type = DisplayType::Generator(one_frame_then_end);
    cfg.brightness = 255;
    let producer = cfg.take_producer().unwrap();
    let consumer = cfg.take_consumer().unwrap();

    let transfers: Cell<u32> = Cell::new(0);
    let transfer = |_buffer: &Vec<u8>, _length: u32| -> Option<BRG> {
        transfers.set(transfers.get() + 1);
        None
    };

    // first cycle: frame 0 is computed and transmitted
    producer.neopixel_poll_frame(&mut cfg);
    assert!(!cfg.last_frame_calculated);
    consumer.start_frame(&mut cfg, transfer);
    assert_eq!(transfers.get(), 1);

    // second cycle: the generator ends the animation at the final pixel
    producer.neopixel_poll_frame(&mut cfg);
    assert!(cfg.last_frame_calculated);

    // the next frame start still transmits once more: the grace frame
    consumer.start_frame(&mut cfg, transfer);
    assert_eq!(transfers.get(), 2);
    assert!(cfg.last_frame_shown);

    // after the grace frame nothing is transmitted again
    consumer.start_frame(&mut cfg, transfer);
    consumer.start_frame(&mut cfg, transfer);
    assert_eq!(transfers.get(), 2);
}

#[test]
fn animation_ended_reports_grace_then_stop() {
    let mut cfg = fresh_channel(1);
    cfg.display_type = DisplayType::Generator(never_called);
    let consumer = cfg.take_consumer().unwrap();
    assert!(!consumer.animation_ended(&mut cfg));
    assert!(!cfg.last_frame_shown);
    cfg.last_frame_calculated = true;
    // first check after the final frame: grace, not yet ended
    assert!(!consumer.animation_ended(&mut cfg));
    assert!(cfg.last_frame_shown);
    // second check: the animation is over
    assert!(consumer.animation_ended(&mut cfg));
}

#[test]
fn transfer_receives_the_produced_frame() {
    let mut cfg = fresh_channel(1);
    cfg.display_type = DisplayType::Static(BRG::new(10, 20, 30));
    cfg.brightness = 255;
    let producer = cfg.take_producer().unwrap();
    let consumer = cfg.take_consumer().unwrap();

    producer.neopixel_poll_frame(&mut cfg);
    let sent: RefCell<Vec<u8>> = RefCell::new(Vec::new());
    consumer.start_frame(&mut cfg, |buffer: &Vec<u8>, _length: u32| -> Option<BRG> {
        sent.borrow_mut().extend_from_slice(buffer);
        None
    });
    assert_eq!(decode_pixel(&sent.into_inner()), (10 << 16) | (20 << 8) | 30);

    // what the producer may write next is not the region just transmitted
    producer.neopixel_poll_frame(&mut cfg);
    assert_eq!(decode_pixel(&cfg.buffer.borrow()[0..12]), (10 << 16) | (20 << 8) | 30);
}
