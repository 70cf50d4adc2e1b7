use cornix::event::ControllerEvent;
use cornix::led::{
    decode_bits, decode_duty, encode_bit, encode_bits, encode_frame, status_color, Color, LedController,
    LedStatus, Wake, BITS_PER_LED, DECODE_THRESHOLD, END_DELAY_PERIODS, LOW_BATTERY_PERCENT,
    PWM_PERIOD_TICKS, RESET_DUTY, RESET_MIN_TICKS, STATUS_BRIGHTNESS, T0H, T1H,
};

fn byte_bits_msb_first(b: u8) -> Vec<bool> {
    (0..8).map(|i| (b >> (7 - i)) & 1 == 1).collect()
}

#[test]
fn bit_duties() {
    assert_eq!(encode_bit(true), 13);
    assert_eq!(encode_bit(false), 7);
    assert_eq!(T1H, 13);
    assert_eq!(T0H, 7);
}

#[test]
fn duty_threshold() {
    assert!(decode_duty(T1H));
    assert!(!decode_duty(T0H));
    assert!(!decode_duty(DECODE_THRESHOLD));
    assert!(decode_duty(DECODE_THRESHOLD + 1));
    assert!(!decode_duty(RESET_DUTY));
}

#[test]
fn bits_round_trip() {
    let bits = vec![true, false, false, true, true, true, false, true, false, false, true];
    let words = encode_bits(&bits);
    assert_eq!(words, vec![13, 7, 7, 13, 13, 13, 7, 13, 7, 7, 13]);
    assert_eq!(decode_bits(&words), bits);
}

#[test]
fn empty_bits_round_trip() {
    let words = encode_bits(&[]);
    assert!(words.is_empty());
    assert!(decode_bits(&words).is_empty());
}

#[test]
fn frame_is_green_red_blue_msb_first() {
    let c = Color { r: 0xA5, g: 0x3C, b: 0x01 };
    let frame = encode_frame(&[c]);
    assert_eq!(frame.len(), BITS_PER_LED + 1);
    assert_eq!(*frame.last().unwrap(), RESET_DUTY);
    let mut expected = byte_bits_msb_first(0x3C);
    expected.extend(byte_bits_msb_first(0xA5));
    expected.extend(byte_bits_msb_first(0x01));
    assert_eq!(decode_bits(&frame[..BITS_PER_LED]), expected);
    assert_eq!(frame[0], T0H);
    assert_eq!(frame[2], T1H);
}

#[test]
fn frame_of_a_chain() {
    let a = Color { r: 1, g: 2, b: 3 };
    let b = Color { r: 0xFF, g: 0, b: 0x80 };
    let frame = encode_frame(&[a, b]);
    assert_eq!(frame.len(), 2 * BITS_PER_LED + 1);
    let first = encode_frame(&[a]);
    assert_eq!(&frame[..BITS_PER_LED], &first[..BITS_PER_LED]);
    let second = encode_frame(&[b]);
    assert_eq!(&frame[BITS_PER_LED..], &second[..]);
}

fn sequence_ticks(len: usize) -> u64 {
    (len as u64 + END_DELAY_PERIODS as u64) * PWM_PERIOD_TICKS as u64
}

#[test]
fn frame_timing_at_full_duty() {
    let frame = encode_frame(&[Color { r: 0xFF, g: 0xFF, b: 0xFF }]);
    assert!(frame[..BITS_PER_LED].iter().all(|&w| w == T1H));
    assert!(sequence_ticks(frame.len()) >= RESET_MIN_TICKS);
    let gap = (1 + END_DELAY_PERIODS as u64) * PWM_PERIOD_TICKS as u64;
    assert_eq!(frame[BITS_PER_LED], 0);
    assert!(gap >= RESET_MIN_TICKS);
    assert_eq!(sequence_ticks(frame.len()), 16500);
}

#[test]
fn frame_timing_at_least_duty() {
    let frame = encode_frame(&[Color { r: 0, g: 0, b: 0 }]);
    assert!(frame[..BITS_PER_LED].iter().all(|&w| w == T0H));
    assert_eq!(frame[BITS_PER_LED], 0);
    assert!(sequence_ticks(frame.len()) >= RESET_MIN_TICKS);
}

#[test]
fn status_colours() {
    let low = LedStatus { peripheral_connected: true, battery_low: true };
    assert_eq!(status_color(low), Color { r: STATUS_BRIGHTNESS, g: 0, b: 0 });
    let linked = LedStatus { peripheral_connected: true, battery_low: false };
    assert_eq!(status_color(linked), Color { r: 0, g: STATUS_BRIGHTNESS, b: 0 });
    let alone = LedStatus { peripheral_connected: false, battery_low: false };
    assert_eq!(status_color(alone), Color { r: 0, g: 0, b: STATUS_BRIGHTNESS });
}

#[test]
fn controller_starts_on_its_frame() {
    let led = LedController::new();
    let shown = led.shown();
    assert_eq!(shown, Color { r: 0, g: 0, b: STATUS_BRIGHTNESS });
    assert_eq!(led.seq_words(), &encode_frame(&[shown])[..]);
    assert_eq!(led.status(), LedStatus { peripheral_connected: false, battery_low: false });
}

#[test]
fn update_is_idempotent() {
    let mut led = LedController::new();
    let before = led.seq_words().to_vec();
    assert!(!led.update());
    assert!(!led.update());
    assert_eq!(led.seq_words(), &before[..]);
}

#[test]
fn update_restarts_once_on_a_change() {
    let mut led = LedController::new();
    led.process_event(ControllerEvent::SplitPeripheral { id: 0, connected: true });
    assert_eq!(led.shown(), Color { r: 0, g: 0, b: STATUS_BRIGHTNESS });
    assert!(led.update());
    assert_eq!(led.shown(), Color { r: 0, g: STATUS_BRIGHTNESS, b: 0 });
    assert_eq!(led.seq_words(), &encode_frame(&[led.shown()])[..]);
    assert!(!led.update());
}

#[test]
fn battery_threshold() {
    let mut led = LedController::new();
    led.process_event(ControllerEvent::Battery(LOW_BATTERY_PERCENT));
    assert!(!led.status().battery_low);
    led.process_event(ControllerEvent::Battery(LOW_BATTERY_PERCENT - 1));
    assert!(led.status().battery_low);
    assert!(led.update());
    assert_eq!(led.shown(), Color { r: STATUS_BRIGHTNESS, g: 0, b: 0 });
}

#[test]
fn unrelated_events_are_ignored() {
    let mut led = LedController::new();
    let before = led.status();
    led.process_event(ControllerEvent::Key { row: 0, col: 0, pressed: true });
    led.process_event(ControllerEvent::Layer(2));
    led.process_event(ControllerEvent::ChargingState(true));
    led.process_event(ControllerEvent::ConnectionType(1));
    assert_eq!(led.status(), before);
    assert!(!led.update());
}

#[test]
fn wake_handling() {
    let mut led = LedController::new();
    assert!(!led.on_wake(Wake::Message(ControllerEvent::Battery(3))));
    assert!(led.on_wake(Wake::Tick));
    assert!(!led.on_wake(Wake::Tick));
}
