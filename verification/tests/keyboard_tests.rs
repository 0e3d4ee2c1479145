use monmouse::keyboard::shortcut_from_str;
use monmouse::keyboard::shortcut_str_to_win;
use monmouse::keyboard::shortcut_to_str;
use monmouse::keyboard::str_to_key;
use monmouse::keyboard::Code;
use monmouse::keyboard::Modifiers;

fn mods(ctrl: bool, meta: bool, alt: bool, shift: bool) -> Modifiers {
    Modifiers {
        ctrl,
        meta,
        alt,
        shift,
    }
}

#[test]
fn test_shortcut_str() {
    let test_ok = |modifiers: Modifiers, code: Option<Code>, str: &str| {
        assert_eq!(shortcut_to_str(modifiers, code), str);
        if code.is_some() {
            assert_eq!(shortcut_from_str(str), Some((modifiers, code.unwrap())));
        } else {
            assert_eq!(shortcut_from_str(str), None);
        }
    };

    test_ok(
        mods(true, false, true, false),
        Some(Code::F9),
        "Ctrl+Alt+F9",
    );
    test_ok(
        mods(false, false, true, true),
        Some(Code::Home),
        "Alt+Shift+Home",
    );
    test_ok(mods(false, false, true, true), None, "Alt+Shift+");

    // different order
    assert_eq!(
        shortcut_from_str("Shift+Alt+Ctrl+3"),
        Some((mods(true, false, true, true), Code::Digit3))
    );
    // start with plus
    assert_eq!(shortcut_from_str("+Shift+3"), None);
    // Invalid
    assert_eq!(shortcut_from_str("Ctrl+Shift+GI"), None);
    // End with plus
    assert_eq!(shortcut_from_str("Ctrl+Shift+4+"), None);
    // No key
    assert_eq!(shortcut_from_str("Ctrl+Shift"), None);
    // Multiple key
    assert_eq!(shortcut_from_str("Ctrl+Shift+A+D"), None);
    // No modifier
    assert_eq!(shortcut_from_str("A"), None);
}

#[test]
fn test_str_to_key_samples() {
    assert_eq!(str_to_key("Down"), Some(Code::ArrowDown));
    assert_eq!(str_to_key("Plus"), Some(Code::Equal));
    assert_eq!(str_to_key("F20"), Some(Code::F20));
    assert_eq!(str_to_key("f20"), None);
    assert_eq!(str_to_key(""), None);
}

#[test]
fn test_shortcut_str_to_win_values() {
    // Ctrl is MOD_CONTROL (2), Alt is MOD_ALT (1); F9 is virtual key 0x78.
    assert_eq!(shortcut_str_to_win("Ctrl+Alt+F9"), Some((3, 0x78)));
    // Win+Escape: the meta flag is MOD_WIN (8); Escape is 0x1B.
    assert_eq!(shortcut_str_to_win("Ctrl+Escape"), Some((2, 0x1B)));
    assert_eq!(shortcut_str_to_win("Ctrl+"), None);
    assert_eq!(shortcut_str_to_win("NotAKey+X"), None);
}

#[test]
fn test_empty_shortcut_is_invalid() {
    assert_eq!(shortcut_from_str(""), None);
}
