use cornix::battery::BatteryProcessor;
use cornix::chain::{processor_step, ChainStep};
use cornix::channel::EventQueue;
use cornix::event::{controller_event, AnalogKind, ControllerEvent, Event, Source};

fn press(col: u8) -> Event {
    Event::Matrix { row: 0, col, pressed: true }
}

#[test]
fn new_queue_is_empty() {
    let mut q = EventQueue::new(3, 2);
    assert_eq!(q.depth_of(), 3);
    assert_eq!(q.subscriber_count(), 2);
    assert_eq!(q.backlog_len(), 0);
    assert_eq!(q.receive(0), None);
    assert_eq!(q.receive(1), None);
}

#[test]
fn every_subscriber_sees_every_event_once_in_order() {
    let mut q = EventQueue::new(4, 2);
    let events = [
        press(1),
        Event::Encoder { index: 0, clockwise: true },
        Event::Analog { kind: AnalogKind::Battery, value: 2100 },
        press(2),
    ];
    for e in events {
        assert!(q.send(e));
    }
    let mut seen0 = Vec::new();
    let mut seen1 = Vec::new();
    // Interleave the two readers unevenly.
    seen1.push(q.receive(1).unwrap());
    seen0.push(q.receive(0).unwrap());
    seen1.push(q.receive(1).unwrap());
    seen1.push(q.receive(1).unwrap());
    while let Some(e) = q.receive(0) {
        seen0.push(e);
    }
    while let Some(e) = q.receive(1) {
        seen1.push(e);
    }
    assert_eq!(seen0, events.to_vec());
    assert_eq!(seen1, events.to_vec());
    assert_eq!(q.backlog_len(), 0);
}

#[test]
fn full_queue_pushes_back() {
    let mut q = EventQueue::new(2, 2);
    assert!(q.send(press(1)));
    assert!(q.send(press(2)));
    assert!(!q.send(press(3)));
    assert_eq!(q.backlog_len(), 2);
    // One reader alone does not free room: the other still needs the event.
    assert_eq!(q.receive(0), Some(press(1)));
    assert!(!q.send(press(3)));
    assert_eq!(q.receive(1), Some(press(1)));
    assert!(q.send(press(3)));
    assert_eq!(q.receive(1), Some(press(2)));
    assert_eq!(q.receive(1), Some(press(3)));
    assert_eq!(q.receive(1), None);
    assert_eq!(q.receive(0), Some(press(2)));
    assert_eq!(q.receive(0), Some(press(3)));
    assert_eq!(q.backlog_len(), 0);
}

#[test]
fn producers_keep_their_own_order() {
    let mut q = EventQueue::new(8, 1);
    let sent = [
        press(1),
        Event::Encoder { index: 0, clockwise: true },
        press(2),
        Event::Encoder { index: 0, clockwise: false },
        press(3),
    ];
    for e in sent {
        assert!(q.send(e));
    }
    let mut got = Vec::new();
    while let Some(e) = q.receive(0) {
        got.push(e);
    }
    let matrix: Vec<Event> = got.iter().copied().filter(|e| e.source() == Source::Matrix).collect();
    assert_eq!(matrix, vec![press(1), press(2), press(3)]);
    let encoder: Vec<Event> = got.iter().copied().filter(|e| e.source() == Source::Encoder).collect();
    assert_eq!(
        encoder,
        vec![Event::Encoder { index: 0, clockwise: true }, Event::Encoder { index: 0, clockwise: false }]
    );
}

#[test]
fn event_sources() {
    assert_eq!(press(0).source(), Source::Matrix);
    assert_eq!(Event::Encoder { index: 1, clockwise: false }.source(), Source::Encoder);
    assert_eq!(Event::Analog { kind: AnalogKind::Battery, value: 1 }.source(), Source::Analog);
    assert_eq!(Event::BatteryState(9).source(), Source::Processor);
}

#[test]
fn controller_events_of_inputs() {
    assert_eq!(
        controller_event(Event::Matrix { row: 2, col: 5, pressed: false }),
        Some(ControllerEvent::Key { row: 2, col: 5, pressed: false })
    );
    assert_eq!(controller_event(Event::BatteryState(64)), Some(ControllerEvent::Battery(64)));
    assert_eq!(controller_event(Event::Encoder { index: 0, clockwise: true }), None);
    assert_eq!(controller_event(Event::Analog { kind: AnalogKind::Battery, value: 2500 }), None);
}

#[test]
fn chain_step_outcomes() {
    let stage = BatteryProcessor::new(2000, 2806).unwrap();
    let mut q = EventQueue::new(2, 2);
    assert_eq!(processor_step(&mut q, 0, &stage), ChainStep::Idle);
    assert!(q.send(press(4)));
    assert_eq!(processor_step(&mut q, 0, &stage), ChainStep::Consumed);
    assert!(q.send(Event::Analog { kind: AnalogKind::Battery, value: 2806 }));
    // The keyboard reader still holds both events: no room for the level.
    assert_eq!(processor_step(&mut q, 0, &stage), ChainStep::Blocked(Event::BatteryState(100)));
    assert_eq!(q.backlog_len(), q.depth_of());
    assert_eq!(q.receive(1), Some(press(4)));
    assert!(q.send(Event::BatteryState(100)));
    assert_eq!(q.receive(1), Some(Event::Analog { kind: AnalogKind::Battery, value: 2806 }));
    assert_eq!(q.receive(1), Some(Event::BatteryState(100)));
    assert_eq!(processor_step(&mut q, 0, &stage), ChainStep::Consumed);
    assert_eq!(processor_step(&mut q, 0, &stage), ChainStep::Idle);
}

#[test]
fn chain_publishes_when_there_is_room() {
    let stage = BatteryProcessor::new(2000, 2806).unwrap();
    let mut q = EventQueue::new(4, 2);
    assert!(q.send(Event::Analog { kind: AnalogKind::Battery, value: 2000 }));
    assert_eq!(processor_step(&mut q, 0, &stage), ChainStep::Published(Event::BatteryState(0)));
    assert_eq!(q.receive(1), Some(Event::Analog { kind: AnalogKind::Battery, value: 2000 }));
    assert_eq!(q.receive(1), Some(Event::BatteryState(0)));
}
