use dpedal::keyboard::{clear_key, set_key, KeyboardEvent, KeyboardReport, Keyboard};
use dpedal::keys::KeyboardInput;
use dpedal::model::MouseInput;
use dpedal::mouse::{Mouse, MouseEvent, MouseReport, RATE_PERIOD};
use dpedal::queue::{EventQueue, QUEUE_CAPACITY};

#[test]
fn duplicate_press_holds_one_slot_and_one_release_clears_it() {
    let mut w = Keyboard::new();
    let r = w.process_write(&[
        KeyboardEvent::Pressed(KeyboardInput::A),
        KeyboardEvent::Pressed(KeyboardInput::A),
    ]);
    assert_eq!(r.keycodes, [0x04, 0, 0, 0, 0, 0]);
    let r = w.process_write(&[KeyboardEvent::Released(KeyboardInput::A)]);
    assert_eq!(r.keycodes, [0; 6]);
}

#[test]
fn seventh_key_is_dropped_without_eviction() {
    let mut report = KeyboardReport::new();
    for code in [4u8, 5, 6, 7, 8, 9] {
        set_key(&mut report, code);
    }
    set_key(&mut report, 10);
    assert_eq!(report.keycodes, [4, 5, 6, 7, 8, 9]);
    clear_key(&mut report, 6);
    assert_eq!(report.keycodes, [4, 5, 0, 7, 8, 9]);
    set_key(&mut report, 10);
    assert_eq!(report.keycodes, [4, 5, 10, 7, 8, 9]);
    assert_eq!((report.modifier, report.leds, report.reserved), (0, 0, 0));
}

#[test]
fn release_clears_every_slot_with_the_key() {
    let mut report = KeyboardReport { keycodes: [7, 9, 7, 0, 0, 7], modifier: 0, leds: 0, reserved: 0 };
    clear_key(&mut report, 7);
    assert_eq!(report.keycodes, [0, 9, 0, 0, 0, 0]);
}

#[test]
fn held_scroll_steps_only_on_rate_period() {
    let mut w = Mouse::new();
    let mut reports: Vec<Option<MouseReport>> = Vec::new();
    reports.push(w.process_write(&[MouseEvent::Pressed(MouseInput::ScrollUp(10))]));
    // Three seconds of one-millisecond cycles.
    for _ in 1..3000 {
        reports.push(w.process_write(&[]));
    }
    for (i, r) in reports.iter().enumerate() {
        let tick = (i + 1) as u32;
        if tick % RATE_PERIOD == 0 {
            assert_eq!(*r, Some(MouseReport { buttons: 0, x: 0, y: 0, wheel: 1, pan: 0 }));
        } else {
            assert_eq!(*r, None);
        }
    }
    assert_eq!(reports.iter().flatten().count(), 3000 / 80);
}

#[test]
fn directions_and_magnitudes() {
    let mut w = Mouse::new();
    w.process_write(&[
        MouseEvent::Pressed(MouseInput::ScrollDown(30)),
        MouseEvent::Pressed(MouseInput::MoveUp(25)),
        MouseEvent::Pressed(MouseInput::MoveRight(-19)),
        MouseEvent::Pressed(MouseInput::ScrollRight(20000)),
    ]);
    let mut last = None;
    for _ in 1..RATE_PERIOD {
        last = w.process_write(&[]);
    }
    assert_eq!(last, Some(MouseReport { buttons: 0, x: -1, y: -2, wheel: -3, pan: 127 }));
}

#[test]
fn clicks_are_levels_and_release_sends_once() {
    let mut w = Mouse::new();
    let r = w.process_write(&[MouseEvent::Pressed(MouseInput::ClickLeft)]);
    assert_eq!(r, Some(MouseReport { buttons: 1, x: 0, y: 0, wheel: 0, pan: 0 }));
    let r = w.process_write(&[MouseEvent::Pressed(MouseInput::ClickMiddle)]);
    assert_eq!(r.unwrap().buttons, 0b101);
    let r = w.process_write(&[MouseEvent::Pressed(MouseInput::ClickRight)]);
    assert_eq!(r.unwrap().buttons, 0b111);
    let r = w.process_write(&[
        MouseEvent::Released(MouseInput::ClickLeft),
        MouseEvent::Released(MouseInput::ClickMiddle),
        MouseEvent::Released(MouseInput::ClickRight),
    ]);
    assert_eq!(r, Some(MouseReport { buttons: 0, x: 0, y: 0, wheel: 0, pan: 0 }));
    assert_eq!(w.process_write(&[]), None);
}

#[test]
fn released_scroll_stops_stepping() {
    let mut w = Mouse::new();
    w.process_write(&[MouseEvent::Pressed(MouseInput::ScrollUp(10))]);
    w.process_write(&[MouseEvent::Released(MouseInput::ScrollUp(10))]);
    for _ in 0..500 {
        assert_eq!(w.process_write(&[]), None);
    }
    assert!(w.active.is_empty());
}

#[test]
fn queue_is_fifo_and_refuses_when_full() {
    let mut q: EventQueue<KeyboardEvent> = EventQueue::new();
    for i in 0..QUEUE_CAPACITY {
        let k = if i % 2 == 0 { KeyboardInput::A } else { KeyboardInput::B };
        assert!(q.try_send(KeyboardEvent::Pressed(k)));
    }
    assert!(!q.try_send(KeyboardEvent::Released(KeyboardInput::A)));
    let drained = q.drain();
    assert_eq!(drained.len(), QUEUE_CAPACITY);
    assert_eq!(drained[0], KeyboardEvent::Pressed(KeyboardInput::A));
    assert_eq!(drained[1], KeyboardEvent::Pressed(KeyboardInput::B));
    assert!(q.drain().is_empty());
    assert!(q.try_send(KeyboardEvent::Released(KeyboardInput::A)));
}
