use vstd::prelude::*;
use crate::event::{AnalogKind, Event};

verus! {

/// The battery level, in percent, of a raw reading, given the readings of an
/// empty and of a full battery: linear between the two, clamped outside them.
pub open spec fn percent_spec(raw: int, empty: int, full: int) -> int {
    if raw <= empty {
        0
    } else if raw >= full {
        100
    } else {
        (raw - empty) * 100 / (full - empty)
    }
}

/// Turns raw battery readings into battery-level events.
pub struct BatteryProcessor {
    empty: u16,
    full: u16,
}

impl BatteryProcessor {
    /// The calibration is ordered: an empty battery reads below a full one.
    #[verifier::type_invariant]
    spec fn calibrated(&self) -> bool {
        self.empty < self.full
    }

    /// The reading of an empty battery.
    pub closed spec fn empty_spec(&self) -> u16 {
        self.empty
    }

    /// The reading of a full battery.
    pub closed spec fn full_spec(&self) -> u16 {
        self.full
    }

    /// A processor calibrated on two readings; `None` unless `empty < full`.
    pub fn new(empty: u16, full: u16) -> (r: Option<Self>)
        ensures
            r.is_some() == (empty < full),
            r matches Some(p) ==> p.empty_spec() == empty && p.full_spec() == full && empty < full,
    {
        if empty < full {
            Some(BatteryProcessor { empty, full })
        } else {
            None
        }
    }

    pub fn empty(&self) -> (r: u16)
        ensures
            r == self.empty_spec(),
    {
        self.empty
    }

    pub fn full(&self) -> (r: u16)
        ensures
            r == self.full_spec(),
    {
        self.full
    }

    /// The battery level, in percent, of a raw reading.
    pub fn battery_percent(&self, raw: u16) -> (r: u8)
        ensures
            r as int == percent_spec(raw as int, self.empty_spec() as int, self.full_spec() as int),
            r <= 100,
    {
        proof {
            use_type_invariant(self);
        }
        if raw <= self.empty {
            0
        } else if raw >= self.full {
            100
        } else {
            let num: u32 = (raw - self.empty) as u32 * 100;
            let den: u32 = (self.full - self.empty) as u32;
            proof {
                let a = (raw - self.empty) as int;
                let d = den as int;
                assert(0 < a < d);
                assert(a * 100 / d <= 100) by (nonlinear_arith)
                    requires 0 < a < d;
            }
            (num / den) as u8
        }
    }

    /// The event that this stage publishes for an input event.
    pub open spec fn process_spec(&self, event: Event) -> Option<Event> {
        match event {
            Event::Analog { kind: AnalogKind::Battery, value } => Some(
                Event::BatteryState(
                    percent_spec(value as int, self.empty_spec() as int, self.full_spec() as int) as u8,
                ),
            ),
            _ => None,
        }
    }

    /// The event that this stage publishes for an input event: a battery
    /// level for a battery reading, nothing for anything else.
    pub fn process(&self, event: Event) -> (r: Option<Event>)
        ensures
            r == self.process_spec(event),
    {
        match event {
            Event::Analog { kind: AnalogKind::Battery, value } => Some(
                Event::BatteryState(self.battery_percent(value)),
            ),
            _ => None,
        }
    }
}

/// Both calibration readings map to the ends of the scale, readings outside
/// them are clamped, and every level lies between 0 and 100.
pub proof fn lemma_percent_calibration(raw: int, empty: int, full: int)
    requires
        empty < full,
    ensures
        percent_spec(empty, empty, full) == 0,
        percent_spec(full, empty, full) == 100,
        raw <= empty ==> percent_spec(raw, empty, full) == 0,
        raw >= full ==> percent_spec(raw, empty, full) == 100,
        0 <= percent_spec(raw, empty, full) <= 100,
{
    if empty < raw < full {
        let a = raw - empty;
        let d = full - empty;
        assert(0 <= a * 100 / d <= 100) by (nonlinear_arith)
            requires 0 < a < d;
    }
}

} // verus!
