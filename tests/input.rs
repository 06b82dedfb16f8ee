use dpedal::input::{
    dispatch, pressed, released, DpedalInputState, InputEvent, Inputs, MappingState,
    PinAssignment, Route,
};
use dpedal::keyboard::KeyboardEvent;
use dpedal::keys::KeyboardInput;
use dpedal::model::{
    ComputerInput, Config, DPedalControl, DpedalInput, Mapping, MouseInput, PinRemapping, Profile,
};
use dpedal::mouse::{MouseEvent, Mouse};

fn nothing_held() -> DpedalInputState {
    DpedalInputState {
        button_left: false,
        button_right: false,
        dpad_up: false,
        dpad_down: false,
        dpad_left: false,
        dpad_right: false,
    }
}

fn everything_held() -> DpedalInputState {
    DpedalInputState {
        button_left: true,
        button_right: true,
        dpad_up: true,
        dpad_down: true,
        dpad_left: true,
        dpad_right: true,
    }
}

#[test]
fn empty_combo_never_fires() {
    let profile = Profile {
        mappings: vec![Mapping {
            input: vec![],
            output: vec![ComputerInput::Keyboard(KeyboardInput::A)],
        }],
    };
    let mut engine = Inputs::new();
    for state in [everything_held(), nothing_held(), everything_held()] {
        assert!(!state.is_all_pressed(&[]));
        let events = engine.tick(&profile, &state);
        assert!(events.is_empty());
        assert_eq!(engine.states, vec![MappingState::Released]);
    }
}

#[test]
fn combo_needs_every_input() {
    let combo = [DpedalInput::DpadUp, DpedalInput::ButtonLeft];
    let mut s = nothing_held();
    s.dpad_up = true;
    s.button_left = true;
    assert!(s.is_all_pressed(&combo));
    for k in combo {
        assert!(!s.with_released(k).is_all_pressed(&combo));
    }
    s.button_left = false;
    assert!(!s.is_all_pressed(&combo));
    assert!(everything_held().is_all_pressed(&combo));
}

#[test]
fn events_only_on_edges() {
    let outputs = vec![
        ComputerInput::Keyboard(KeyboardInput::B),
        ComputerInput::Mouse(MouseInput::ClickLeft),
    ];
    let profile = Profile {
        mappings: vec![Mapping { input: vec![DpedalInput::DpadDown], output: outputs.clone() }],
    };
    let mut held = nothing_held();
    held.dpad_down = true;
    let mut engine = Inputs::new();
    let first = engine.tick(&profile, &held);
    assert_eq!(first, outputs.iter().map(|o| InputEvent::Pressed(*o)).collect::<Vec<_>>());
    for _ in 0..100 {
        assert!(engine.tick(&profile, &held).is_empty());
    }
    let up = engine.tick(&profile, &nothing_held());
    assert_eq!(up, outputs.iter().map(|o| InputEvent::Released(*o)).collect::<Vec<_>>());
    assert!(engine.tick(&profile, &nothing_held()).is_empty());
}

#[test]
fn detectors_follow_the_mapping_count() {
    let one = Mapping {
        input: vec![DpedalInput::DpadUp],
        output: vec![ComputerInput::Keyboard(KeyboardInput::C)],
    };
    let mut held = nothing_held();
    held.dpad_up = true;
    let mut engine = Inputs::new();
    let small = Profile { mappings: vec![one.clone()] };
    assert_eq!(engine.tick(&small, &held).len(), 1);
    let big = Profile { mappings: vec![one.clone(), one.clone(), one.clone()] };
    // The first mapping is still held; the two new ones start released and fire once.
    assert_eq!(engine.tick(&big, &held).len(), 2);
    assert_eq!(engine.states.len(), 3);
    let none = Profile { mappings: vec![] };
    assert!(engine.tick(&none, &held).is_empty());
    assert!(engine.states.is_empty());
}

#[test]
fn routing_by_device_class() {
    let k = ComputerInput::Keyboard(KeyboardInput::Z);
    let m = ComputerInput::Mouse(MouseInput::ScrollUp(10));
    assert_eq!(pressed(k), Route::Keyboard(KeyboardEvent::Pressed(KeyboardInput::Z)));
    assert_eq!(released(m), Route::Mouse(MouseEvent::Released(MouseInput::ScrollUp(10))));
    assert_eq!(pressed(ComputerInput::Nothing), Route::Dropped);
    assert_eq!(released(ComputerInput::Control(DPedalControl::DoNothing)), Route::Dropped);
    let (keys, mice) = dispatch(&vec![
        InputEvent::Pressed(m),
        InputEvent::Pressed(k),
        InputEvent::Pressed(ComputerInput::Nothing),
        InputEvent::Released(k),
    ]);
    assert_eq!(
        keys,
        vec![KeyboardEvent::Pressed(KeyboardInput::Z), KeyboardEvent::Released(KeyboardInput::Z)]
    );
    assert_eq!(mice, vec![MouseEvent::Pressed(MouseInput::ScrollUp(10))]);
}

#[test]
fn pins_default_and_last_remapping_wins() {
    let defaults = PinAssignment::resolve(&[]);
    assert_eq!(defaults.pin(DpedalInput::ButtonLeft), 13);
    assert_eq!(defaults.pin(DpedalInput::ButtonRight), 27);
    assert_eq!(defaults.pin(DpedalInput::DpadUp), 26);
    assert_eq!(defaults.pin(DpedalInput::DpadDown), 16);
    assert_eq!(defaults.pin(DpedalInput::DpadLeft), 17);
    assert_eq!(defaults.pin(DpedalInput::DpadRight), 22);
    let r = PinAssignment::resolve(&[
        PinRemapping { input: DpedalInput::DpadUp, pin: 2 },
        PinRemapping { input: DpedalInput::DpadUp, pin: 3 },
    ]);
    assert_eq!(r.pin(DpedalInput::DpadUp), 3);
    assert_eq!(r.pin(DpedalInput::DpadDown), 16);
}

#[test]
fn default_config_dpad_left_scrolls_left_then_stops() {
    let config = Config::default();
    let mut engine = Inputs::new();
    let mut mouse = Mouse::new();
    let mut left = nothing_held();
    left.dpad_left = true;

    let events = engine.process(&config, &left);
    assert_eq!(
        events,
        vec![InputEvent::Pressed(ComputerInput::Mouse(MouseInput::ScrollLeft(10)))]
    );
    let (keys, mice) = dispatch(&events);
    assert!(keys.is_empty());
    assert_eq!(mice, vec![MouseEvent::Pressed(MouseInput::ScrollLeft(10))]);

    let mut sent = Vec::new();
    sent.push(mouse.process_write(&mice));
    for _ in 1..200 {
        let (_, mice) = dispatch(&engine.process(&config, &left));
        sent.push(mouse.process_write(&mice));
    }
    let pans: Vec<i8> = sent.iter().flatten().map(|r| r.pan).collect();
    assert_eq!(pans, vec![-1, -1]);

    let events = engine.process(&config, &nothing_held());
    assert_eq!(
        events,
        vec![InputEvent::Released(ComputerInput::Mouse(MouseInput::ScrollLeft(10)))]
    );
    let (_, mice) = dispatch(&events);
    assert!(mouse.process_write(&mice).is_none());
    for _ in 0..400 {
        let (_, mice) = dispatch(&engine.process(&config, &nothing_held()));
        assert!(mice.is_empty());
        assert!(mouse.process_write(&mice).is_none());
    }
}
