use doubao_voice_input::keys::{
    combine, key_named, modifier_named, parse_combo_key, parse_key_code, parse_tap_hold_target,
    single_key, target_named, virtual_keys_of_modifier, ComboPart, KeyError, ModifierKey,
    TapHoldTarget,
};
use doubao_voice_input::keys;
use global_hotkey::hotkey::{Code, HotKey, Modifiers};
use windows::Win32::UI::Input::KeyboardAndMouse as win;

fn target(name: &str) -> (Vec<u16>, Vec<u32>) {
    let target = parse_tap_hold_target(name).unwrap();
    (target.virtual_keys, target.scan_codes)
}

fn virtual_keys(name: &str) -> Vec<u16> {
    let (virtual_keys, scan_codes) = target(name);
    assert!(scan_codes.is_empty());
    virtual_keys
}

#[test]
fn virtual_keys_are_those_of_windows() {
    assert_eq!(keys::VK_BACK, win::VK_BACK.0);
    assert_eq!(keys::VK_RETURN, win::VK_RETURN.0);
    assert_eq!(keys::VK_SHIFT, win::VK_SHIFT.0);
    assert_eq!(keys::VK_CONTROL, win::VK_CONTROL.0);
    assert_eq!(keys::VK_MENU, win::VK_MENU.0);
    assert_eq!(keys::VK_ESCAPE, win::VK_ESCAPE.0);
    assert_eq!(keys::VK_SPACE, win::VK_SPACE.0);
    assert_eq!(keys::VK_V, win::VK_V.0);
    assert_eq!(keys::VK_F1, win::VK_F1.0);
    assert_eq!(keys::VK_F23, win::VK_F23.0);
    assert_eq!(keys::VK_F24, win::VK_F24.0);
    assert_eq!(keys::VK_LSHIFT, win::VK_LSHIFT.0);
    assert_eq!(keys::VK_RSHIFT, win::VK_RSHIFT.0);
    assert_eq!(keys::VK_LCONTROL, win::VK_LCONTROL.0);
    assert_eq!(keys::VK_RCONTROL, win::VK_RCONTROL.0);
    assert_eq!(keys::VK_LMENU, win::VK_LMENU.0);
    assert_eq!(keys::VK_RMENU, win::VK_RMENU.0);
}

#[test]
fn key_codes_by_name() {
    assert_eq!(parse_key_code("A").unwrap(), Code::KeyA);
    assert_eq!(parse_key_code("z").unwrap(), Code::KeyZ);
    assert_eq!(parse_key_code("0").unwrap(), Code::Digit0);
    assert_eq!(parse_key_code("9").unwrap(), Code::Digit9);
    assert_eq!(parse_key_code("space").unwrap(), Code::Space);
    assert_eq!(parse_key_code("Enter").unwrap(), Code::Enter);
    assert_eq!(parse_key_code("RETURN").unwrap(), Code::Enter);
    assert_eq!(parse_key_code("esc").unwrap(), Code::Escape);
    assert_eq!(parse_key_code("Escape").unwrap(), Code::Escape);
    assert_eq!(parse_key_code("f1").unwrap(), Code::F1);
    assert_eq!(parse_key_code("F12").unwrap(), Code::F12);
}

#[test]
fn every_letter_and_digit_has_its_key() {
    for c in ('A'..='Z').chain('0'..='9') {
        let name = if c.is_ascii_digit() { format!("Digit{c}") } else { format!("Key{c}") };
        let code: Code = name.parse().unwrap();
        assert_eq!(key_named(&c.to_string()), Some(code));
        assert_eq!(parse_key_code(&c.to_lowercase().to_string()).unwrap(), code);
    }
    for n in 1..=12 {
        let code: Code = format!("F{n}").parse().unwrap();
        assert_eq!(key_named(&format!("F{n}")), Some(code));
    }
}

#[test]
fn unknown_keys_are_errors() {
    for name in ["", "F13", "F0", "Tab", " A", "RightAlt", "AB", "语"] {
        let error = parse_key_code(name).unwrap_err();
        assert!(matches!(&error, KeyError::UnknownKey(n) if n == name));
        assert_eq!(error.message(), format!("Unknown key: {name}"));
    }
    assert_eq!(key_named("a"), None);
}

#[test]
fn upper_case_is_that_of_unicode() {
    // The long s has the upper-case form S, and so names the key S.
    assert_eq!(parse_key_code("\u{17f}").unwrap(), Code::KeyS);
    // The Kelvin sign has the lower-case form k; it is an upper-case letter itself.
    assert!(parse_key_code("\u{212a}").is_err());
    // A ligature becomes two letters.
    assert!(parse_key_code("\u{fb00}").is_err());
}

#[test]
fn modifiers_by_name() {
    assert_eq!(modifier_named("ctrl"), Some(ModifierKey::Control));
    assert_eq!(modifier_named("control"), Some(ModifierKey::Control));
    assert_eq!(modifier_named("shift"), Some(ModifierKey::Shift));
    assert_eq!(modifier_named("alt"), Some(ModifierKey::Alt));
    assert_eq!(modifier_named("super"), Some(ModifierKey::Super));
    assert_eq!(modifier_named("win"), Some(ModifierKey::Super));
    assert_eq!(modifier_named("meta"), Some(ModifierKey::Super));
    assert_eq!(modifier_named("Ctrl"), None);
    assert_eq!(modifier_named("v"), None);
}

#[test]
fn combinations() {
    let hotkey = parse_combo_key("Ctrl+Shift+V").unwrap();
    assert_eq!(hotkey, HotKey::new(Some(Modifiers::CONTROL | Modifiers::SHIFT), Code::KeyV));
    assert_eq!(hotkey.mods, Modifiers::CONTROL | Modifiers::SHIFT);
    assert_eq!(hotkey.key, Code::KeyV);

    let hotkey = parse_combo_key(" alt + Win + f5 ").unwrap();
    assert_eq!(hotkey.mods, Modifiers::ALT | Modifiers::SUPER);
    assert_eq!(hotkey.key, Code::F5);

    let hotkey = parse_combo_key("meta+CONTROL+space").unwrap();
    assert_eq!(hotkey.mods, Modifiers::SUPER | Modifiers::CONTROL);
    assert_eq!(hotkey.key, Code::Space);

    let hotkey = parse_combo_key("X").unwrap();
    assert_eq!(hotkey.mods, Modifiers::empty());
    assert_eq!(hotkey.key, Code::KeyX);
}

#[test]
fn modifier_flags_have_the_stated_bits() {
    assert_eq!(Modifiers::ALT.bits(), 0x1);
    assert_eq!(Modifiers::CONTROL.bits(), 0x8);
    assert_eq!(Modifiers::META.bits(), 0x40);
    assert_eq!(Modifiers::SHIFT.bits(), 0x200);
    assert_eq!(Modifiers::SUPER.bits(), 0x2000);
    assert_eq!(
        HotKey::new(Some(Modifiers::META | Modifiers::ALT), Code::KeyA).mods,
        Modifiers::SUPER | Modifiers::ALT
    );
}

#[test]
fn combination_does_not_depend_on_the_order_of_its_parts() {
    let a = parse_combo_key("Ctrl+Shift+Alt+V").unwrap();
    let b = parse_combo_key("V+Alt+Shift+Ctrl+Ctrl").unwrap();
    assert_eq!(a, b);
    assert_eq!(a.mods, Modifiers::CONTROL | Modifiers::SHIFT | Modifiers::ALT);
}

#[test]
fn last_key_of_a_combination_counts() {
    let hotkey = parse_combo_key("Ctrl+A+B").unwrap();
    assert_eq!(hotkey.key, Code::KeyB);
    assert_eq!(hotkey.mods, Modifiers::CONTROL);
}

#[test]
fn combinations_that_are_not_understood() {
    let error = parse_combo_key("Ctrl+Shift").unwrap_err();
    assert!(matches!(&error, KeyError::NoKeyInCombo(c) if c == "Ctrl+Shift"));
    assert_eq!(error.message(), "No key specified in combo: Ctrl+Shift");

    let error = parse_combo_key("Ctrl+ Foo +Bar").unwrap_err();
    assert_eq!(error.message(), "Unknown key: Foo");

    assert_eq!(parse_combo_key("").unwrap_err().message(), "Unknown key: ");
    assert_eq!(parse_combo_key("Ctrl+").unwrap_err().message(), "Unknown key: ");
}

#[test]
fn parts_are_put_together() {
    let part = |text: &str| ComboPart {
        text: text.to_string(),
        lower: text.to_lowercase(),
        upper: text.to_uppercase(),
    };
    let hotkey = combine(&vec![part("Alt"), part("q")], "Alt+q").unwrap();
    assert_eq!(hotkey, HotKey::new(Some(Modifiers::ALT), Code::KeyQ));
    assert_eq!(
        combine(&vec![], "").unwrap_err().message(),
        "No key specified in combo: "
    );
}

#[test]
fn single_keys() {
    let hotkey = single_key("f8").unwrap();
    assert_eq!(hotkey, HotKey::new(None, Code::F8));
    assert_eq!(single_key("Ctrl").unwrap_err().message(), "Unknown key: Ctrl");
}

#[test]
fn right_alt_can_be_tapped_and_held() {
    assert_eq!(virtual_keys("RightAlt"), vec![win::VK_RMENU.0]);
    assert_eq!(virtual_keys(" rightalt "), vec![win::VK_RMENU.0]);
}

#[test]
fn tap_hold_targets() {
    assert_eq!(target("Fn"), (vec![0xFF, 0x86, 0x87], vec![0x63]));
    let ctrl = vec![win::VK_CONTROL.0, win::VK_LCONTROL.0, win::VK_RCONTROL.0];
    assert_eq!(virtual_keys("ctrl"), ctrl);
    assert_eq!(virtual_keys("Control"), ctrl);
    assert_eq!(
        virtual_keys("Shift"),
        vec![win::VK_SHIFT.0, win::VK_LSHIFT.0, win::VK_RSHIFT.0]
    );
    assert_eq!(
        virtual_keys("ALT"),
        vec![win::VK_MENU.0, win::VK_LMENU.0, win::VK_RMENU.0]
    );
    assert_eq!(virtual_keys("space"), vec![win::VK_SPACE.0]);
    assert_eq!(virtual_keys("esc"), vec![win::VK_ESCAPE.0]);
    assert_eq!(virtual_keys("escape"), vec![win::VK_ESCAPE.0]);
    assert_eq!(virtual_keys("enter"), vec![0x0D]);
    assert_eq!(virtual_keys("return"), vec![0x0D]);
    assert_eq!(virtual_keys("q"), vec![win::VK_Q.0]);
    assert_eq!(virtual_keys("7"), vec![win::VK_7.0]);
    assert_eq!(virtual_keys("F"), vec![win::VK_F.0]);
    assert_eq!(virtual_keys("F1"), vec![win::VK_F1.0]);
    assert_eq!(virtual_keys("f24"), vec![win::VK_F24.0]);
    assert_eq!(virtual_keys("F+5"), vec![win::VK_F5.0]);
}

#[test]
fn tap_hold_keys_that_are_not_understood() {
    let message = |name: &str| parse_tap_hold_target(name).unwrap_err().message();
    assert_eq!(message("F0"), "Function key out of range: F0");
    assert_eq!(message(" f25 "), "Function key out of range: F25");
    assert_eq!(message("foo"), "Unknown tap/hold key: FOO");
    assert_eq!(message(" tab "), "Unknown tap/hold key:  tab ");
    assert_eq!(message(""), "Unknown tap/hold key: ");
    assert_eq!(message("F70000"), "Unknown tap/hold key: F70000");
    assert!(matches!(
        parse_tap_hold_target("LeftAlt").unwrap_err(),
        KeyError::UnknownTapHoldKey(n) if n == "LeftAlt"
    ));
    assert!(matches!(
        target_named("F99", "f99").unwrap_err(),
        KeyError::FunctionKeyOutOfRange(n) if n == "F99"
    ));
}

#[test]
fn targets_match_by_virtual_key_or_scan_code() {
    let fn_key = parse_tap_hold_target("fn").unwrap();
    assert!(fn_key.matches(0xFF, 0));
    assert!(fn_key.matches(0x86, 0));
    assert!(fn_key.matches(0, 0x63));
    assert!(!fn_key.matches(0x63, 0xFF));
    let keys = TapHoldTarget::from_virtual_keys(vec![1, 2]);
    assert!(keys.matches(2, 0));
    assert!(!keys.matches(3, 1));
}

#[test]
fn modifiers_have_virtual_keys() {
    assert_eq!(
        virtual_keys_of_modifier("ctrl"),
        vec![win::VK_CONTROL.0, win::VK_LCONTROL.0, win::VK_RCONTROL.0]
    );
    assert_eq!(virtual_keys_of_modifier("shift"), vec![win::VK_LSHIFT.0, win::VK_RSHIFT.0]);
    assert_eq!(virtual_keys_of_modifier("alt"), vec![win::VK_LMENU.0, win::VK_RMENU.0]);
    assert!(virtual_keys_of_modifier("win").is_empty());
}

#[test]
fn combination_ignores_case_padding_and_repetition() {
    let hotkey = parse_combo_key("Ctrl+Alt+A+B").unwrap();
    assert_eq!(hotkey.key, Code::KeyB);
    for other in [
        "cTRL+aLT+a+b",
        "  Ctrl +\tAlt+ A + B ",
        "Alt+Ctrl+Alt+A+B",
        "A+Control+B+alt",
        "A+B+ctrl+CTRL+alt",
    ] {
        let other = parse_combo_key(other).unwrap();
        assert_eq!(other, hotkey);
        assert_eq!(other.id, hotkey.id);
    }
    assert_ne!(parse_combo_key("Ctrl+Alt+B+A").unwrap(), hotkey);
    assert_ne!(parse_combo_key("Ctrl+A+B").unwrap(), hotkey);
}

#[test]
fn hotkeys_have_their_id() {
    let hotkey = parse_combo_key("Win+Shift+F3").unwrap();
    let expected = HotKey::new(Some(Modifiers::SHIFT | Modifiers::SUPER), Code::F3);
    assert_eq!(hotkey.id(), expected.id());
    assert_eq!(HotKey::new(Some(Modifiers::SHIFT | Modifiers::META), Code::F3).id(), hotkey.id());
    assert_ne!(hotkey.id(), parse_combo_key("Win+F3").unwrap().id());
    assert_ne!(hotkey.id(), 0);
    assert_eq!(single_key("x").unwrap().id(), HotKey::new(None, Code::KeyX).id());
}

#[test]
fn tap_hold_name_ignores_case_and_padding() {
    for name in [
        "Fn", "ctrl", " Control", "shift\t", "aLt", "rightAlt", "space", "esc", "escape", "enter",
        "return", "q", "7", "f1", " F24 ", "f0", "f99", "fx", "tab", "", "  ",
    ] {
        let upper = name.trim().to_uppercase();
        match (parse_tap_hold_target(name), parse_tap_hold_target(&upper)) {
            (Ok(a), Ok(b)) => {
                assert_eq!(a.virtual_keys, b.virtual_keys);
                assert_eq!(a.scan_codes, b.scan_codes);
                assert!(!a.virtual_keys.is_empty());
                for (i, vk) in a.virtual_keys.iter().enumerate() {
                    assert!(!a.virtual_keys[..i].contains(vk));
                }
                assert_eq!(!a.scan_codes.is_empty(), upper == "FN");
            }
            (Err(_), Err(_)) => {}
            other => panic!("{name:?}: {other:?}"),
        }
    }
}
