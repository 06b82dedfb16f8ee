use dpedal::config_file::keyboard_from_string_kebab;
use dpedal::keys::KeyboardInput;

#[test]
fn test_keyboard_from_string_kebab() {
    assert_eq!(
        keyboard_from_string_kebab("page-up").unwrap(),
        KeyboardInput::PageUp
    );
    assert_eq!(keyboard_from_string_kebab("a").unwrap(), KeyboardInput::A);
}

#[test]
fn kebab_lookup_rejects_unknown_names() {
    assert_eq!(keyboard_from_string_kebab("page-sideways"), None);
    assert_eq!(keyboard_from_string_kebab(""), None);
    assert_eq!(
        keyboard_from_string_kebab("right-arrow"),
        Some(KeyboardInput::RightArrow)
    );
}

#[test]
fn key_lookup_is_exact_and_case_sensitive() {
    assert_eq!(KeyboardInput::from_str("PageDown"), Some(KeyboardInput::PageDown));
    assert_eq!(KeyboardInput::from_str("pagedown"), None);
    assert_eq!(KeyboardInput::from_str("PageDown "), None);
}

#[test]
fn key_codes_follow_the_usage_table() {
    assert_eq!(KeyboardInput::A.code(), 0x04);
    assert_eq!(KeyboardInput::B.code(), 0x05);
    assert_eq!(KeyboardInput::PageUp.code(), 0x4B);
    assert_eq!(KeyboardInput::PageDown.code(), 0x4E);
    assert_eq!(KeyboardInput::RightWindows.code(), 0xE7);
    assert_eq!(KeyboardInput::PageUp.name(), "PageUp");
}

#[test]
fn common_and_obscure_keys_partition_the_table() {
    let common = KeyboardInput::common_iter();
    let obscure = KeyboardInput::obscure_iter();
    assert_eq!(common.len(), 93);
    assert_eq!(common[0], KeyboardInput::RightArrow);
    assert_eq!(obscure.len(), 215 - 93);
    for k in &obscure {
        assert!(!common.contains(k));
    }
    assert_eq!(obscure[0], KeyboardInput::CapsLock);
    assert_eq!(KeyboardInput::default(), KeyboardInput::A);
}
