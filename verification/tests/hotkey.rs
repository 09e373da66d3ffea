use doubao_voice_input::config::HotkeyConfig;
use doubao_voice_input::hotkey::{
    key_needs_hook, DoubleTap, HotkeyEvent, HotkeyInput, HotkeyListener, HotkeyManager, HotkeyMode,
    KeyEvent,
    ModifierDoubleTap, RegisteredHotkey, TapHoldDetector, INACTIVE_PAUSE_MS, WM_KEYDOWN, WM_KEYUP,
    WM_SYSKEYDOWN, WM_SYSKEYUP,
};
use doubao_voice_input::keys::{parse_tap_hold_target, VK_LCONTROL, VK_LMENU, VK_RMENU};
use global_hotkey::hotkey::{Code, HotKey, Modifiers};
use windows::Win32::UI::WindowsAndMessaging as win;

const MS: u128 = 1_000_000;

fn key(message: u32, vk_code: u16) -> KeyEvent {
    KeyEvent { code: 0, message, vk_code: vk_code as u32, scan_code: 0 }
}

fn detector(name: &str, threshold_ms: u64) -> TapHoldDetector {
    TapHoldDetector::new(parse_tap_hold_target(name).unwrap(), threshold_ms)
}

fn config(mode: &str) -> HotkeyConfig {
    HotkeyConfig { mode: mode.to_string(), ..HotkeyConfig::default() }
}

#[test]
fn messages_are_those_of_windows() {
    assert_eq!(WM_KEYDOWN, win::WM_KEYDOWN);
    assert_eq!(WM_KEYUP, win::WM_KEYUP);
    assert_eq!(WM_SYSKEYDOWN, win::WM_SYSKEYDOWN);
    assert_eq!(WM_SYSKEYUP, win::WM_SYSKEYUP);
}

#[test]
fn modes_by_name() {
    assert_eq!(HotkeyMode::from_name("combo"), HotkeyMode::Combo);
    assert_eq!(HotkeyMode::from_name("double_tap"), HotkeyMode::DoubleTap);
    assert_eq!(HotkeyMode::from_name("tap_hold"), HotkeyMode::TapHold);
    assert_eq!(HotkeyMode::from_name("Combo"), HotkeyMode::TapHold);
    assert_eq!(HotkeyMode::from_name(""), HotkeyMode::TapHold);
}

#[test]
fn double_tap_within_the_interval() {
    let mut taps = DoubleTap::new(300);
    assert!(!taps.tap(1000 * MS));
    assert!(taps.tap(1300 * MS));
    assert!(!taps.tap(1301 * MS));
    assert!(taps.tap(1302 * MS));
}

#[test]
fn slow_second_tap_counts_as_first() {
    let mut taps = DoubleTap::new(300);
    assert!(!taps.tap(0));
    assert!(!taps.tap(300 * MS + 1));
    assert!(taps.tap(600 * MS));
}

#[test]
fn modifier_is_tapped_by_its_release() {
    let mut taps = ModifierDoubleTap::new("ctrl", 300);
    assert_eq!(taps.on_key(true, key(WM_KEYDOWN, VK_LCONTROL), 0), None);
    assert_eq!(taps.on_key(true, key(WM_KEYUP, VK_LCONTROL), 10 * MS), None);
    assert_eq!(taps.on_key(true, key(WM_KEYUP, VK_LMENU), 20 * MS), None);
    assert_eq!(taps.on_key(false, key(WM_KEYUP, VK_LCONTROL), 30 * MS), None);
    let unrelated = KeyEvent { code: -1, ..key(WM_KEYUP, VK_LCONTROL) };
    assert_eq!(taps.on_key(true, unrelated, 40 * MS), None);
    assert_eq!(
        taps.on_key(true, key(WM_SYSKEYUP, VK_LCONTROL), 310 * MS),
        Some(HotkeyEvent::Toggle)
    );
    assert_eq!(taps.on_key(true, key(WM_KEYUP, VK_LCONTROL), 311 * MS), None);
}

#[test]
fn tap_and_hold() {
    let mut right_alt = detector("RightAlt", 300);
    let down = key(WM_SYSKEYDOWN, VK_RMENU);
    let up = key(WM_KEYUP, VK_RMENU);
    assert_eq!(right_alt.on_key(true, down, 0), Some(HotkeyEvent::Start));
    assert_eq!(right_alt.on_key(true, down, 100 * MS), None);
    assert_eq!(right_alt.on_key(true, up, 300 * MS - 1), Some(HotkeyEvent::Tap));
    assert_eq!(right_alt.on_key(true, up, 301 * MS), None);
    assert_eq!(right_alt.on_key(true, down, 400 * MS), Some(HotkeyEvent::Start));
    assert_eq!(right_alt.on_key(true, down, 600 * MS), None);
    assert_eq!(right_alt.on_key(true, up, 700 * MS), Some(HotkeyEvent::Stop));
}

#[test]
fn starts_and_ends_take_turns() {
    let mut fn_key = detector("Fn", 300);
    let mut open = false;
    let mut seed: u32 = 1;
    for step in 0..2000u128 {
        seed = seed.wrapping_mul(1103515245).wrapping_add(12345);
        let message = [WM_KEYDOWN, WM_KEYUP, WM_SYSKEYDOWN, WM_SYSKEYUP, 0][(seed >> 16) as usize % 5];
        let vk = [0xFFu16, 0x86, 0x11][(seed >> 8) as usize % 3];
        match fn_key.on_key(seed % 7 != 0, key(message, vk), step * 50 * MS) {
            Some(HotkeyEvent::Start) => {
                assert!(!open);
                open = true;
            }
            Some(HotkeyEvent::Stop) | Some(HotkeyEvent::Tap) => {
                assert!(open);
                open = false;
            }
            Some(HotkeyEvent::Toggle) => panic!("no toggle"),
            None => {}
        }
    }
}

#[test]
fn other_keys_and_a_stopped_hotkey_do_nothing() {
    let mut right_alt = detector("RightAlt", 300);
    assert_eq!(right_alt.on_key(true, key(WM_KEYDOWN, VK_LMENU), 0), None);
    assert_eq!(right_alt.on_key(false, key(WM_KEYDOWN, VK_RMENU), 0), None);
    let unrelated = KeyEvent { code: -1, ..key(WM_KEYDOWN, VK_RMENU) };
    assert_eq!(right_alt.on_key(true, unrelated, 0), None);
    assert_eq!(right_alt.on_key(true, key(0x102, VK_RMENU), 0), None);
    assert_eq!(right_alt.on_key(true, key(WM_KEYDOWN, VK_RMENU), 0), Some(HotkeyEvent::Start));
}

#[test]
fn virtual_key_is_the_low_half() {
    let mut right_alt = detector("RightAlt", 300);
    let event = KeyEvent {
        code: 0,
        message: WM_KEYDOWN,
        vk_code: 0x10000 + VK_RMENU as u32,
        scan_code: 0,
    };
    assert_eq!(right_alt.on_key(true, event, 0), Some(HotkeyEvent::Start));
}

#[test]
fn fn_is_known_by_its_scan_code() {
    let mut fn_key = detector("Fn", 300);
    let event = KeyEvent { code: 0, message: WM_KEYDOWN, vk_code: 0, scan_code: 0x63 };
    assert_eq!(fn_key.on_key(true, event, 0), Some(HotkeyEvent::Start));
}

#[test]
fn registered_combination_toggles() {
    let mut combo = RegisteredHotkey::Combo;
    assert_eq!(combo.on_press(true, 0), Some(HotkeyEvent::Toggle));
    assert_eq!(combo.on_press(true, 1), Some(HotkeyEvent::Toggle));
    assert_eq!(INACTIVE_PAUSE_MS, 100);
}

#[test]
fn registered_double_tap_toggles() {
    let mut taps = RegisteredHotkey::DoubleTap(DoubleTap::new(200));
    assert_eq!(taps.on_press(true, 0), None);
    assert_eq!(taps.on_press(true, 200 * MS), Some(HotkeyEvent::Toggle));
    assert_eq!(taps.on_press(true, 201 * MS), None);
}

#[test]
fn modifiers_that_need_the_hook() {
    assert!(key_needs_hook("ctrl"));
    assert!(key_needs_hook("shift"));
    assert!(key_needs_hook("alt"));
    assert!(!key_needs_hook("win"));
    assert!(!key_needs_hook("Ctrl"));
}

#[test]
fn default_hotkey_is_right_alt() {
    let (manager, hotkey) = HotkeyManager::new(&HotkeyConfig::default()).unwrap();
    assert!(hotkey.is_none());
    assert!(manager.is_active());
    match manager.on_event().unwrap() {
        HotkeyListener::TapHold(mut right_alt) => {
            assert_eq!(
                right_alt.on_key(true, key(WM_SYSKEYDOWN, VK_RMENU), 0),
                Some(HotkeyEvent::Start)
            );
            assert_eq!(
                right_alt.on_key(true, key(WM_SYSKEYUP, VK_RMENU), 300 * MS),
                Some(HotkeyEvent::Stop)
            );
        }
        other => panic!("{other:?}"),
    }
}

#[test]
fn combination_is_registered() {
    let (manager, hotkey) = HotkeyManager::new(&config("combo")).unwrap();
    assert_eq!(
        hotkey.unwrap(),
        HotKey::new(Some(Modifiers::CONTROL | Modifiers::SHIFT), Code::KeyV)
    );
    assert!(matches!(
        manager.on_event().unwrap(),
        HotkeyListener::Registered(RegisteredHotkey::Combo)
    ));
    let wrong = HotkeyConfig { combo_key: "Ctrl+Nope".to_string(), ..config("combo") };
    assert_eq!(HotkeyManager::new(&wrong).unwrap_err().message(), "Unknown key: Nope");
}

#[test]
fn double_tap_of_a_modifier_uses_the_hook() {
    for name in ["Ctrl", "SHIFT", "alt"] {
        let config = HotkeyConfig { double_tap_key: name.to_string(), ..config("double_tap") };
        let (manager, hotkey) = HotkeyManager::new(&config).unwrap();
        assert!(hotkey.is_none());
        assert!(matches!(manager.on_event().unwrap(), HotkeyListener::Modifier(_)));
    }
}

#[test]
fn double_tap_of_another_key_is_registered() {
    let f9 = HotkeyConfig { double_tap_key: "f9".to_string(), ..config("double_tap") };
    let (manager, hotkey) = HotkeyManager::new(&f9).unwrap();
    assert_eq!(hotkey.unwrap(), HotKey::new(None, Code::F9));
    match manager.on_event().unwrap() {
        HotkeyListener::Registered(mut taps) => {
            assert_eq!(taps.on_press(true, 0), None);
            assert_eq!(taps.on_press(true, 300 * MS), Some(HotkeyEvent::Toggle));
        }
        other => panic!("{other:?}"),
    }
    let wrong = HotkeyConfig { double_tap_key: "Win".to_string(), ..config("double_tap") };
    assert_eq!(HotkeyManager::new(&wrong).unwrap_err().message(), "Unknown key: Win");
}

#[test]
fn unknown_tap_hold_key_is_an_error() {
    let wrong = HotkeyConfig { tap_hold_key: "Nope".to_string(), ..config("tap_hold") };
    let (manager, _) = HotkeyManager::new(&wrong).unwrap();
    assert_eq!(manager.on_event().unwrap_err().message(), "Unknown tap/hold key: Nope");
}

#[test]
fn triggers_are_toggles() {
    let (manager, _) = HotkeyManager::new(&config("combo")).unwrap();
    assert!(manager.on_trigger(HotkeyEvent::Toggle));
    assert!(!manager.on_trigger(HotkeyEvent::Start));
    assert!(!manager.on_trigger(HotkeyEvent::Stop));
    assert!(!manager.on_trigger(HotkeyEvent::Tap));
}

#[test]
fn stopped_manager_is_not_active() {
    let (mut manager, _) = HotkeyManager::new(&config("combo")).unwrap();
    assert!(manager.is_active());
    manager.stop();
    assert!(!manager.is_active());
}

#[test]
fn settings_in_use_register_nothing() {
    for mode in ["combo", "double_tap"] {
        let (manager, hotkey) = HotkeyManager::new(&config(mode).in_use()).unwrap();
        assert!(hotkey.is_none());
        assert!(matches!(manager.on_event().unwrap(), HotkeyListener::TapHold(_)));
    }
}

#[test]
fn presses_of_a_stopped_hotkey_do_nothing() {
    let mut combo = RegisteredHotkey::Combo;
    assert_eq!(combo.on_press(false, 0), None);
    let mut taps = RegisteredHotkey::DoubleTap(DoubleTap::new(200));
    assert_eq!(taps.on_press(true, 0), None);
    assert_eq!(taps.on_press(false, 100 * MS), None);
    assert_eq!(taps.on_press(true, 200 * MS), Some(HotkeyEvent::Toggle));
}

#[test]
fn listeners_hear_their_inputs() {
    let listener = |config: &HotkeyConfig| HotkeyManager::new(config).unwrap().0.on_event().unwrap();

    let mut tap_hold = listener(&config("tap_hold"));
    let down = HotkeyInput::Key(key(WM_KEYDOWN, VK_RMENU));
    assert_eq!(tap_hold.on_input(true, HotkeyInput::Press, 0), None);
    assert_eq!(tap_hold.on_input(true, down, 0), Some(HotkeyEvent::Start));

    let mut modifier = listener(&config("double_tap"));
    let up = HotkeyInput::Key(key(WM_KEYUP, VK_LCONTROL));
    assert_eq!(modifier.on_input(true, HotkeyInput::Press, 0), None);
    assert_eq!(modifier.on_input(true, up, 0), None);
    assert_eq!(modifier.on_input(true, up, 300 * MS), Some(HotkeyEvent::Toggle));

    let mut combo = listener(&config("combo"));
    assert_eq!(combo.on_input(true, down, 0), None);
    assert_eq!(combo.on_input(true, HotkeyInput::Press, 0), Some(HotkeyEvent::Toggle));

    let f9 = HotkeyConfig { double_tap_key: "F9".to_string(), ..config("double_tap") };
    let mut taps = listener(&f9);
    assert_eq!(taps.on_input(true, HotkeyInput::Press, 0), None);
    assert_eq!(taps.on_input(true, up, 1), None);
    assert_eq!(taps.on_input(true, HotkeyInput::Press, 2), Some(HotkeyEvent::Toggle));
}

#[test]
fn stopped_manager_is_silent_in_every_mode() {
    let f9 = HotkeyConfig { double_tap_key: "F9".to_string(), ..config("double_tap") };
    for config in [config("tap_hold"), config("double_tap"), config("combo"), f9] {
        let (mut manager, _) = HotkeyManager::new(&config).unwrap();
        let mut listener = manager.on_event().unwrap();
        manager.stop();
        manager.stop();
        for now in 0..10u128 {
            for message in [WM_KEYDOWN, WM_KEYUP] {
                for vk in [VK_RMENU, VK_LCONTROL] {
                    let input = HotkeyInput::Key(key(message, vk));
                    assert_eq!(listener.on_input(manager.is_active(), input, now * MS), None);
                }
            }
            let press = HotkeyInput::Press;
            assert_eq!(listener.on_input(manager.is_active(), press, now * MS), None);
        }
    }
}
