use dpedal::model::{
    ComputerInput, Config, DPedalControl, Device, DpedalInput, Mapping, MouseInput, Profile,
};
use dpedal::keys::KeyboardInput;
use dpedal::text::parse_i16;

fn mapping(input: Vec<DpedalInput>, output: Vec<ComputerInput>) -> Mapping {
    Mapping { input, output }
}

#[test]
fn default_config_maps_dpad_to_scroll_and_buttons_to_pages() {
    let c = Config::default();
    assert_eq!(c.version, 0);
    assert_eq!(c.nickname, "my DPedal");
    assert_eq!(c.device, Device::Dpedal);
    assert_eq!(c.color, 0x1790e3);
    assert_eq!(c.profiles.len(), 1);
    assert!(c.pin_remappings.is_empty());
    let m = &c.profiles[0].mappings;
    assert_eq!(m.len(), 6);
    assert_eq!(m[0].input, vec![DpedalInput::DpadLeft]);
    assert_eq!(m[0].output, vec![ComputerInput::Mouse(MouseInput::ScrollLeft(10))]);
    assert_eq!(m[4].output, vec![ComputerInput::Keyboard(KeyboardInput::PageUp)]);
    assert_eq!(m[5].input, vec![DpedalInput::ButtonRight]);
    assert!(c.check_limits());
}

#[test]
fn input_names_in_both_cases() {
    assert_eq!(DpedalInput::from_string("DpadUp"), Some(DpedalInput::DpadUp));
    assert_eq!(DpedalInput::from_string("ButtonRight"), Some(DpedalInput::ButtonRight));
    assert_eq!(DpedalInput::from_string("dpad-up"), None);
    assert_eq!(DpedalInput::from_string_kebab("dpad-up"), Some(DpedalInput::DpadUp));
    assert_eq!(DpedalInput::from_string_kebab("button-left"), Some(DpedalInput::ButtonLeft));
    assert_eq!(DpedalInput::from_string_kebab("DpadUp"), None);
}

#[test]
fn mouse_names_take_a_magnitude() {
    assert_eq!(MouseInput::from_string("ScrollUp", "10"), Some(MouseInput::ScrollUp(10)));
    assert_eq!(MouseInput::from_string("move-left", "-25"), Some(MouseInput::MoveLeft(-25)));
    assert_eq!(MouseInput::from_string("scroll-down", "+7"), Some(MouseInput::ScrollDown(7)));
    assert_eq!(MouseInput::from_string("ScrollUp", "ten"), None);
    assert_eq!(MouseInput::from_string("ScrollUp", ""), None);
    assert_eq!(MouseInput::from_string("click-left", "whatever"), Some(MouseInput::ClickLeft));
    assert_eq!(MouseInput::from_string("click-middle", ""), Some(MouseInput::ClickMiddle));
    assert_eq!(MouseInput::from_string("ClickRight", ""), Some(MouseInput::ClickRight));
    assert_eq!(MouseInput::from_string("wiggle", "10"), None);
}

#[test]
fn control_names() {
    assert_eq!(DPedalControl::from_string("DoNothing"), Some(DPedalControl::DoNothing));
    assert_eq!(DPedalControl::from_string("do-nothing"), None);
}

#[test]
fn decimal_i16_edges() {
    assert_eq!(parse_i16("0"), Some(0));
    assert_eq!(parse_i16("32767"), Some(32767));
    assert_eq!(parse_i16("32768"), None);
    assert_eq!(parse_i16("-32768"), Some(-32768));
    assert_eq!(parse_i16("-32769"), None);
    assert_eq!(parse_i16("-"), None);
    assert_eq!(parse_i16("+"), None);
    assert_eq!(parse_i16("1 "), None);
    assert_eq!(parse_i16("0000000000012"), Some(12));
    assert_eq!(parse_i16("99999999999999999999"), None);
}

#[test]
fn limits_refuse_twenty_five_mappings() {
    let mut c = Config::default();
    let one = mapping(vec![DpedalInput::DpadUp], vec![ComputerInput::Nothing]);
    c.profiles[0] = Profile { mappings: (0..25).map(|_| one.clone()).collect() };
    assert!(!c.check_limits());
    c.profiles[0].mappings.truncate(20);
    assert!(c.check_limits());
}

#[test]
fn limits_refuse_repeated_or_too_many_combo_inputs() {
    let repeated = mapping(vec![DpedalInput::DpadUp, DpedalInput::DpadUp], vec![]);
    assert!(!repeated.check_limits());
    let five = mapping(
        vec![
            DpedalInput::DpadUp,
            DpedalInput::DpadDown,
            DpedalInput::DpadLeft,
            DpedalInput::DpadRight,
            DpedalInput::ButtonLeft,
        ],
        vec![],
    );
    assert!(!five.check_limits());
    let mut c = Config::default();
    c.nickname = "x".repeat(51);
    assert!(!c.check_limits());
    c.nickname = "x".repeat(50);
    assert!(c.check_limits());
}
