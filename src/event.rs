use vstd::prelude::*;

verus! {

/// What an analog input measures.
#[derive(Clone, Copy, Debug, PartialEq, Eq, Structural)]
pub enum AnalogKind {
    Battery,
    Joystick(u8),
}

/// An input event on the shared event queue.
#[derive(Clone, Copy, Debug, PartialEq, Eq, Structural)]
pub enum Event {
    /// A key of the matrix changed state.
    Matrix { row: u8, col: u8, pressed: bool },
    /// A rotary encoder moved one step.
    Encoder { index: u8, clockwise: bool },
    /// A raw reading of an analog input.
    Analog { kind: AnalogKind, value: u16 },
    /// A battery level, in percent, derived from an analog reading.
    BatteryState(u8),
}

/// The kind of producer that emits an event.
#[derive(Clone, Copy, Debug, PartialEq, Eq, Structural)]
pub enum Source {
    Matrix,
    Encoder,
    Analog,
    Processor,
}

/// The producer kind of an event.
pub open spec fn source_spec(e: Event) -> Source {
    match e {
        Event::Matrix { .. } => Source::Matrix,
        Event::Encoder { .. } => Source::Encoder,
        Event::Analog { .. } => Source::Analog,
        Event::BatteryState(_) => Source::Processor,
    }
}

impl Event {
    /// The producer kind of this event.
    pub fn source(&self) -> (r: Source)
        ensures
            r == source_spec(*self),
    {
        match self {
            Event::Matrix { .. } => Source::Matrix,
            Event::Encoder { .. } => Source::Encoder,
            Event::Analog { .. } => Source::Analog,
            Event::BatteryState(_) => Source::Processor,
        }
    }
}

/// A status event on the controller broadcast channel.
#[derive(Clone, Copy, Debug, PartialEq, Eq, Structural)]
pub enum ControllerEvent {
    /// A key was pressed or released.
    Key { row: u8, col: u8, pressed: bool },
    /// The battery level changed, in percent.
    Battery(u8),
    /// Charging started or stopped.
    ChargingState(bool),
    /// The active layer changed.
    Layer(u8),
    /// The connection to the host changed: 0 for USB, 1 for BLE.
    ConnectionType(u8),
    /// The link to a peripheral half came up or went down.
    SplitPeripheral { id: u8, connected: bool },
}

/// The status event that the controllers see for an input event: key changes
/// and battery levels are broadcast, everything else is not.
pub open spec fn controller_event_spec(e: Event) -> Option<ControllerEvent> {
    match e {
        Event::Matrix { row, col, pressed } => Some(ControllerEvent::Key { row, col, pressed }),
        Event::BatteryState(level) => Some(ControllerEvent::Battery(level)),
        _ => None,
    }
}

/// The status event that the controllers see for an input event.
pub fn controller_event(e: Event) -> (r: Option<ControllerEvent>)
    ensures
        r == controller_event_spec(e),
{
    match e {
        Event::Matrix { row, col, pressed } => Some(ControllerEvent::Key { row, col, pressed }),
        Event::BatteryState(level) => Some(ControllerEvent::Battery(level)),
        _ => None,
    }
}

} // verus!
