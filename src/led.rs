use vstd::prelude::*;
use crate::event::ControllerEvent;

verus! {

/// PWM ticks in one bit period (1.25 µs with a 16 MHz PWM clock).
pub const PWM_PERIOD_TICKS: u16 = 20;

/// High ticks that encode a `1` bit (0.8 µs of 1.25 µs, 65 % duty).
pub const T1H: u16 = 13;

/// High ticks that encode a `0` bit (0.4 µs of 1.25 µs, 35 % duty).
pub const T0H: u16 = 7;

/// A pulse whose high time exceeds this many ticks is read as a `1`.
pub const DECODE_THRESHOLD: u16 = 10;

/// Duty of the reset slot that closes a frame: the line stays low.
pub const RESET_DUTY: u16 = 0;

/// Bits sent per LED: green, red and blue, eight bits each.
pub const BITS_PER_LED: usize = 24;

/// Minimum low time, in PWM ticks, that latches a frame (50 µs).
pub const RESET_MIN_TICKS: u64 = 800;

/// Whole PWM periods that the sequencer idles low after the reset slot
/// before it plays the frame again.
pub const END_DELAY_PERIODS: u32 = 800;

/// The duty word that encodes one bit.
pub open spec fn duty_of(bit: bool) -> u16 {
    if bit { T1H } else { T0H }
}

/// How a receiver reads one duty word.
pub open spec fn bit_of_duty(duty: u16) -> bool {
    duty > DECODE_THRESHOLD
}

/// The duty words for a sequence of bits, one word per bit.
pub open spec fn encode_spec(bits: Seq<bool>) -> Seq<u16> {
    bits.map_values(|b: bool| duty_of(b))
}

/// The bits that a receiver reads from a sequence of duty words.
pub open spec fn decode_spec(words: Seq<u16>) -> Seq<bool> {
    words.map_values(|w: u16| bit_of_duty(w))
}

/// Bit `i` of `b`, counted from the most significant bit.
pub open spec fn msb_bit(b: u8, i: int) -> bool {
    (b >> ((7 - i) as u8)) & 1u8 == 1u8
}

/// The eight bits of a byte, most significant first.
pub open spec fn byte_bits(b: u8) -> Seq<bool> {
    Seq::new(8, |i: int| msb_bit(b, i))
}

/// A colour as the LED receives it.
#[derive(Clone, Copy, Debug, PartialEq, Eq, Structural)]
pub struct Color {
    pub r: u8,
    pub g: u8,
    pub b: u8,
}

/// The 24 bits of one colour on the wire: green, red, blue, each MSB first.
pub open spec fn color_bits(c: Color) -> Seq<bool> {
    byte_bits(c.g) + byte_bits(c.r) + byte_bits(c.b)
}

/// The bits of a chain of LEDs, first LED first.
pub open spec fn chain_bits(colors: Seq<Color>) -> Seq<bool>
    decreases colors.len(),
{
    if colors.len() == 0 {
        Seq::empty()
    } else {
        chain_bits(colors.drop_last()) + color_bits(colors.last())
    }
}

/// The duty sequence of one frame: every bit of the chain, then one reset slot.
pub open spec fn frame_spec(colors: Seq<Color>) -> Seq<u16> {
    encode_spec(chain_bits(colors)).push(RESET_DUTY)
}

/// Ticks that one pass of a sequence of `len` words takes, followed by
/// `end_delay` idle periods.
pub open spec fn sequence_ticks(len: nat, end_delay: nat) -> nat {
    ((len + end_delay) * PWM_PERIOD_TICKS) as nat
}

/// Number of words at the end of `words` whose duty is zero.
pub open spec fn trailing_low_slots(words: Seq<u16>) -> nat
    decreases words.len(),
{
    if words.len() == 0 {
        0
    } else if words.last() == RESET_DUTY {
        1 + trailing_low_slots(words.drop_last())
    } else {
        0
    }
}

/// Ticks during which the line stays low between the last bit of one pass
/// and the first bit of the next, with `end_delay` idle periods between them.
pub open spec fn reset_gap_ticks(words: Seq<u16>, end_delay: nat) -> nat {
    ((trailing_low_slots(words) + end_delay) * PWM_PERIOD_TICKS) as nat
}

/// Encodes one bit as a duty word.
pub fn encode_bit(bit: bool) -> (r: u16)
    ensures
        r == duty_of(bit),
{
    if bit { T1H } else { T0H }
}

/// Reads one duty word back as a bit.
pub fn decode_duty(duty: u16) -> (r: bool)
    ensures
        r == bit_of_duty(duty),
{
    duty > DECODE_THRESHOLD
}

/// Encodes a sequence of bits, one duty word per bit.
pub fn encode_bits(bits: &[bool]) -> (r: Vec<u16>)
    ensures
        r@ == encode_spec(bits@),
{
    let mut out: Vec<u16> = Vec::new();
    let mut i: usize = 0;
    while i < bits.len()
        invariant
            i <= bits@.len(),
            out@ == encode_spec(bits@.take(i as int)),
        decreases bits@.len() - i,
    {
        out.push(encode_bit(bits[i]));
        assert(bits@.take(i as int + 1) == bits@.take(i as int).push(bits@[i as int]));
        i = i + 1;
    }
    assert(bits@.take(i as int) == bits@);
    out
}

/// Reads a sequence of duty words back as bits.
pub fn decode_bits(words: &[u16]) -> (r: Vec<bool>)
    ensures
        r@ == decode_spec(words@),
{
    let mut out: Vec<bool> = Vec::new();
    let mut i: usize = 0;
    while i < words.len()
        invariant
            i <= words@.len(),
            out@ == decode_spec(words@.take(i as int)),
        decreases words@.len() - i,
    {
        out.push(decode_duty(words[i]));
        assert(words@.take(i as int + 1) == words@.take(i as int).push(words@[i as int]));
        i = i + 1;
    }
    assert(words@.take(i as int) == words@);
    out
}

/// Decoding the duty words of any bit sequence gives that bit sequence back.
pub proof fn lemma_round_trip(bits: Seq<bool>)
    ensures
        decode_spec(encode_spec(bits)) == bits,
{
    assert(decode_spec(encode_spec(bits)) =~= bits);
}

/// The duty words of a concatenation are the concatenation of the duty words.
pub proof fn lemma_encode_concat(a: Seq<bool>, b: Seq<bool>)
    ensures
        encode_spec(a + b) == encode_spec(a) + encode_spec(b),
{
    assert(encode_spec(a + b) =~= encode_spec(a) + encode_spec(b));
}

/// Appends the duty words of one byte, most significant bit first.
fn push_byte(out: &mut Vec<u16>, b: u8)
    ensures
        final(out)@ == old(out)@ + encode_spec(byte_bits(b)),
{
    let ghost start = out@;
    let mut i: u8 = 0;
    while i < 8
        invariant
            i <= 8,
            out@ == start + encode_spec(byte_bits(b).take(i as int)),
        decreases 8 - i,
    {
        let bit = (b >> (7 - i)) & 1 == 1;
        assert(bit == msb_bit(b, i as int));
        out.push(encode_bit(bit));
        assert(byte_bits(b).take(i as int + 1) == byte_bits(b).take(i as int).push(bit));
        i = i + 1;
    }
    assert(byte_bits(b).take(8) == byte_bits(b));
}

/// Appends the 24 duty words of one colour: green, red, blue.
fn push_color(out: &mut Vec<u16>, c: Color)
    ensures
        final(out)@ == old(out)@ + encode_spec(color_bits(c)),
{
    push_byte(out, c.g);
    push_byte(out, c.r);
    push_byte(out, c.b);
    proof {
        lemma_encode_concat(byte_bits(c.g), byte_bits(c.r));
        lemma_encode_concat(byte_bits(c.g) + byte_bits(c.r), byte_bits(c.b));
    }
    assert(out@ =~= old(out)@ + encode_spec(color_bits(c)));
}

/// Builds the duty sequence of one frame for a chain of LEDs: the bits of
/// every colour in chain order, then a reset slot of zero duty.
pub fn encode_frame(colors: &[Color]) -> (r: Vec<u16>)
    ensures
        r@ == frame_spec(colors@),
{
    let mut out: Vec<u16> = Vec::new();
    let mut k: usize = 0;
    while k < colors.len()
        invariant
            k <= colors@.len(),
            out@ == encode_spec(chain_bits(colors@.take(k as int))),
        decreases colors@.len() - k,
    {
        let ghost before = out@;
        push_color(&mut out, colors[k]);
        proof {
            let next = colors@.take(k as int + 1);
            assert(next.drop_last() == colors@.take(k as int));
            assert(next.last() == colors@[k as int]);
            lemma_encode_concat(chain_bits(colors@.take(k as int)), color_bits(colors@[k as int]));
        }
        k = k + 1;
    }
    assert(colors@.take(k as int) == colors@);
    out.push(RESET_DUTY);
    out
}

/// Reading back the colour words of a frame, without its reset slot, gives
/// exactly the bits of the chain.
pub proof fn lemma_frame_round_trip(colors: Seq<Color>)
    ensures
        decode_spec(frame_spec(colors).drop_last()) == chain_bits(colors),
{
    assert(frame_spec(colors).drop_last() =~= encode_spec(chain_bits(colors)));
    lemma_round_trip(chain_bits(colors));
}

/// Every frame, whatever the duty of its bits, lasts at least the reset time,
/// and the low gap that closes it is at least the reset time too, with any
/// end delay that, together with the reset slot, spans the reset time: the
/// configured one among them.
pub proof fn lemma_frame_timing(colors: Seq<Color>, end_delay: nat)
    requires
        (end_delay + 1) * PWM_PERIOD_TICKS >= RESET_MIN_TICKS,
    ensures
        sequence_ticks(frame_spec(colors).len(), end_delay) >= RESET_MIN_TICKS,
        reset_gap_ticks(frame_spec(colors), end_delay) >= RESET_MIN_TICKS,
        frame_spec(colors).last() == RESET_DUTY,
        (END_DELAY_PERIODS + 1) * PWM_PERIOD_TICKS >= RESET_MIN_TICKS,
{
    let f = frame_spec(colors);
    assert(f.last() == RESET_DUTY);
    let t = trailing_low_slots(f);
    assert(t >= 1);
    let n = f.len();
    assert((t + end_delay) * 20 >= 800 && (n + end_delay) * 20 >= 800) by (nonlinear_arith)
        requires
            t >= 1,
            n >= 1,
            (end_delay + 1) * 20 >= 800,
    ;
}

/// Battery level, in percent, below which the status LED warns.
pub const LOW_BATTERY_PERCENT: u8 = 20;

/// Brightness of a lit status channel, out of 255.
pub const STATUS_BRIGHTNESS: u8 = 16;

/// What the status LED shows.
#[derive(Clone, Copy, Debug, PartialEq, Eq, Structural)]
pub struct LedStatus {
    pub peripheral_connected: bool,
    pub battery_low: bool,
}

/// The status at start-up: no peripheral yet, battery assumed fine.
pub open spec fn initial_status() -> LedStatus {
    LedStatus { peripheral_connected: false, battery_low: false }
}

/// The colour for a status: red for a low battery, else green while the
/// peripheral half is linked and blue while it is not.
pub open spec fn status_color_spec(s: LedStatus) -> Color {
    if s.battery_low {
        Color { r: STATUS_BRIGHTNESS, g: 0, b: 0 }
    } else if s.peripheral_connected {
        Color { r: 0, g: STATUS_BRIGHTNESS, b: 0 }
    } else {
        Color { r: 0, g: 0, b: STATUS_BRIGHTNESS }
    }
}

/// The status after a controller event: battery levels and peripheral links
/// count, every other event leaves it as it is.
pub open spec fn next_status(s: LedStatus, e: ControllerEvent) -> LedStatus {
    match e {
        ControllerEvent::Battery(level) => LedStatus {
            peripheral_connected: s.peripheral_connected,
            battery_low: level < LOW_BATTERY_PERCENT,
        },
        ControllerEvent::SplitPeripheral { connected, .. } => LedStatus {
            peripheral_connected: connected,
            battery_low: s.battery_low,
        },
        _ => s,
    }
}

/// Whether an update tick must reload and restart the sequencer.
pub open spec fn restart_needed(status: LedStatus, shown: Color) -> bool {
    status_color_spec(status) != shown
}

/// The colour for a status.
pub fn status_color(s: LedStatus) -> (r: Color)
    ensures
        r == status_color_spec(s),
{
    if s.battery_low {
        Color { r: STATUS_BRIGHTNESS, g: 0, b: 0 }
    } else if s.peripheral_connected {
        Color { r: 0, g: STATUS_BRIGHTNESS, b: 0 }
    } else {
        Color { r: 0, g: 0, b: STATUS_BRIGHTNESS }
    }
}

/// What wakes the LED task: the update period ran out, or a controller
/// event arrived.
#[derive(Clone, Copy, Debug, PartialEq, Eq, Structural)]
pub enum Wake {
    Tick,
    Message(ControllerEvent),
}

/// Drives a one-LED status indicator through a looping PWM sequence.
///
/// `seq_words` is the buffer that the sequencer plays; it always holds the
/// frame of `shown`, and changes only in `update`, which reports when the
/// sequencer has to be restarted on it.
pub struct LedController {
    status: LedStatus,
    shown: Color,
    seq_words: Vec<u16>,
}

impl LedController {
    /// The buffer always holds the frame of the colour it is said to show.
    #[verifier::type_invariant]
    spec fn buffer_matches(&self) -> bool {
        self.seq_words@ == frame_spec(seq![self.shown])
    }

    /// The status last reported by controller events.
    pub closed spec fn status_spec(&self) -> LedStatus {
        self.status
    }

    /// The colour that the sequence buffer holds.
    pub closed spec fn shown_spec(&self) -> Color {
        self.shown
    }

    /// The sequence buffer.
    pub closed spec fn words_spec(&self) -> Seq<u16> {
        self.seq_words@
    }

    /// A controller for the start-up status, its buffer filled with that
    /// status's frame, ready for the sequencer to loop.
    pub fn new() -> (r: Self)
        ensures
            r.status_spec() == initial_status(),
            r.shown_spec() == status_color_spec(initial_status()),
            r.words_spec() == frame_spec(seq![r.shown_spec()]),
    {
        let status = LedStatus { peripheral_connected: false, battery_low: false };
        let shown = status_color(status);
        let colors = [shown];
        let seq_words = encode_frame(&colors);
        assert(colors@ == seq![shown]);
        LedController { status, shown, seq_words }
    }

    /// The sequence buffer for the sequencer to play: the frame of the
    /// colour shown.
    pub fn seq_words(&self) -> (r: &[u16])
        ensures
            r@ == self.words_spec(),
            r@ == frame_spec(seq![self.shown_spec()]),
    {
        proof {
            use_type_invariant(self);
        }
        self.seq_words.as_slice()
    }

    pub fn status(&self) -> (r: LedStatus)
        ensures
            r == self.status_spec(),
    {
        self.status
    }

    pub fn shown(&self) -> (r: Color)
        ensures
            r == self.shown_spec(),
    {
        self.shown
    }

    /// Takes in a controller event. Only the status changes; the buffer is
    /// left for the next update.
    pub fn process_event(&mut self, event: ControllerEvent)
        ensures
            final(self).status_spec() == next_status(old(self).status_spec(), event),
            final(self).shown_spec() == old(self).shown_spec(),
            final(self).words_spec() == old(self).words_spec(),
            final(self).words_spec() == frame_spec(seq![final(self).shown_spec()]),
    {
        proof {
            use_type_invariant(&*self);
        }
        match event {
            ControllerEvent::Battery(level) => {
                self.status.battery_low = level < LOW_BATTERY_PERCENT;
            },
            ControllerEvent::SplitPeripheral { connected, .. } => {
                self.status.peripheral_connected = connected;
            },
            _ => {},
        }
    }

    /// One update tick. When the status colour differs from the colour in the
    /// buffer, rewrites the buffer with the new frame and returns `true`: the
    /// sequencer must be restarted on it. Otherwise leaves everything as it is
    /// and returns `false`.
    pub fn update(&mut self) -> (restart: bool)
        ensures
            restart == restart_needed(old(self).status_spec(), old(self).shown_spec()),
            final(self).status_spec() == old(self).status_spec(),
            final(self).shown_spec() == status_color_spec(old(self).status_spec()),
            final(self).words_spec() == frame_spec(seq![final(self).shown_spec()]),
            !restart ==> final(self).words_spec() == old(self).words_spec(),
    {
        proof {
            use_type_invariant(&*self);
        }
        let want = status_color(self.status);
        if want == self.shown {
            false
        } else {
            let colors = [want];
            assert(colors@ == seq![want]);
            let seq_words = encode_frame(&colors);
            *self = LedController { status: self.status, shown: want, seq_words };
            true
        }
    }

    /// Handles one wake-up of the LED task: an event is taken in, a tick
    /// runs an update. Returns whether the sequencer must be restarted.
    pub fn on_wake(&mut self, wake: Wake) -> (restart: bool)
        ensures
            final(self).words_spec() == frame_spec(seq![final(self).shown_spec()]),
            match wake {
                Wake::Tick => {
                    &&& restart == restart_needed(old(self).status_spec(), old(self).shown_spec())
                    &&& final(self).status_spec() == old(self).status_spec()
                    &&& final(self).shown_spec() == status_color_spec(old(self).status_spec())
                },
                Wake::Message(e) => {
                    &&& !restart
                    &&& final(self).status_spec() == next_status(old(self).status_spec(), e)
                    &&& final(self).shown_spec() == old(self).shown_spec()
                    &&& final(self).words_spec() == old(self).words_spec()
                },
            },
    {
        match wake {
            Wake::Tick => self.update(),
            Wake::Message(e) => {
                self.process_event(e);
                false
            },
        }
    }
}

/// Once an update has brought the buffer to the status colour, further
/// updates under the same status never restart the sequencer, and neither
/// does one after an event that leaves the status colour as it was.
pub proof fn lemma_update_idempotent(status: LedStatus, e: ControllerEvent)
    ensures
        !restart_needed(status, status_color_spec(status)),
        status_color_spec(next_status(status, e)) == status_color_spec(status)
            ==> !restart_needed(next_status(status, e), status_color_spec(status)),
{
}

} // verus!
