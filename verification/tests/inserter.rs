use doubao_voice_input::config::TextInsertionConfig;
use doubao_voice_input::inserter::{
    check_sent, clipboard_from_text, create_key_input, create_unicode_input,
    inputs_for_backspaces, inputs_for_paste, inputs_for_text, text_from_clipboard, InsertError,
    KeyInput, Reply, Step, TextInserter, TextTask, KEYEVENTF_KEYUP, KEYEVENTF_UNICODE, SETTLE_MS,
    UNICODE_KEYUP,
};
use doubao_voice_input::keys::{VK_BACK, VK_CONTROL, VK_V};
use windows::Win32::UI::Input::KeyboardAndMouse as win;

fn inserter(mode: &str, threshold: usize, delay: u64) -> TextInserter {
    TextInserter::with_config(TextInsertionConfig {
        mode: mode.to_string(),
        clipboard_threshold_chars: threshold,
        clipboard_restore_delay_ms: delay,
    })
}

/// A window that takes every input, and a clipboard.
struct Desktop {
    text: String,
    clipboard: Option<String>,
    waits: Vec<u64>,
}

impl Desktop {
    fn new(text: &str, clipboard: Option<&str>) -> Self {
        Desktop {
            text: text.to_string(),
            clipboard: clipboard.map(str::to_string),
            waits: Vec::new(),
        }
    }

    fn press(&mut self, inputs: &[KeyInput]) {
        let mut units: Vec<u16> = self.text.encode_utf16().collect();
        let mut ctrl = false;
        for input in inputs {
            if input.flags == KEYEVENTF_UNICODE {
                units.push(input.scan);
            } else if input.virtual_key == VK_CONTROL {
                ctrl = input.flags == 0;
            } else if input.virtual_key == VK_BACK && input.flags == 0 {
                let mut text = String::from_utf16(&units).unwrap();
                text.pop();
                units = text.encode_utf16().collect();
            } else if input.virtual_key == VK_V && input.flags == 0 && ctrl {
                units.extend(self.clipboard.clone().unwrap_or_default().encode_utf16());
            }
        }
        self.text = String::from_utf16(&units).unwrap();
    }

    fn run(&mut self, inserter: &TextInserter, begin: (TextTask, Step)) -> Result<(), String> {
        let (mut task, mut step) = begin;
        for _ in 0..9 {
            let reply = match step {
                Step::Done => return Ok(()),
                Step::Fail(error) => return Err(error.message()),
                Step::ReadClipboard => Reply::Clipboard(self.clipboard.clone()),
                Step::WriteClipboard(units) => {
                    self.clipboard = Some(text_from_clipboard(&units));
                    Reply::Written
                }
                Step::Wait(ms) => {
                    self.waits.push(ms);
                    Reply::Waited
                }
                Step::SendKeys(inputs) => {
                    self.press(&inputs);
                    Reply::Sent(inputs.len() as u32)
                }
            };
            assert!(task.accepts(&reply));
            (task, step) = inserter.resume(task, reply);
        }
        panic!("the task does not end")
    }
}

#[test]
fn flags_are_those_of_windows() {
    assert_eq!(KEYEVENTF_KEYUP, win::KEYEVENTF_KEYUP.0);
    assert_eq!(KEYEVENTF_UNICODE, win::KEYEVENTF_UNICODE.0);
    assert_eq!(UNICODE_KEYUP, (win::KEYEVENTF_UNICODE | win::KEYEVENTF_KEYUP).0);
}

#[test]
fn single_inputs() {
    assert_eq!(
        create_unicode_input(0x8bed, true),
        KeyInput { virtual_key: 0, scan: 0x8bed, flags: 4 }
    );
    assert_eq!(
        create_unicode_input(0x8bed, false),
        KeyInput { virtual_key: 0, scan: 0x8bed, flags: 6 }
    );
    assert_eq!(create_key_input(8, true), KeyInput { virtual_key: 8, scan: 0, flags: 0 });
    assert_eq!(create_key_input(8, false), KeyInput { virtual_key: 8, scan: 0, flags: 2 });
}

#[test]
fn rows_of_inputs() {
    assert_eq!(
        inputs_for_text("a🎤"),
        vec![
            create_unicode_input(0x61, true),
            create_unicode_input(0x61, false),
            create_unicode_input(0xD83C, true),
            create_unicode_input(0xD83C, false),
            create_unicode_input(0xDFA4, true),
            create_unicode_input(0xDFA4, false),
        ]
    );
    assert_eq!(
        inputs_for_backspaces(2),
        vec![
            create_key_input(VK_BACK, true),
            create_key_input(VK_BACK, false),
            create_key_input(VK_BACK, true),
            create_key_input(VK_BACK, false),
        ]
    );
    assert!(inputs_for_backspaces(0).is_empty());
    assert_eq!(
        inputs_for_paste(),
        vec![
            create_key_input(VK_CONTROL, true),
            create_key_input(VK_V, true),
            create_key_input(VK_V, false),
            create_key_input(VK_CONTROL, false),
        ]
    );
}

#[test]
fn every_pressed_key_is_released() {
    let mut rows = vec![inputs_for_text("语音 🎤"), inputs_for_backspaces(3), inputs_for_paste()];
    for row in rows.drain(..) {
        let mut down: Vec<(u16, u16)> = Vec::new();
        for input in row {
            let key = (input.virtual_key, input.scan);
            if input.flags & KEYEVENTF_KEYUP == 0 {
                down.push(key);
            } else {
                down.retain(|k| *k != key);
            }
        }
        assert!(down.is_empty());
    }
}

#[test]
fn clipboard_gives_back_what_was_written() {
    for text in ["", "abc", "语音输入🎤"] {
        let units = clipboard_from_text(text);
        assert_eq!(units.last(), Some(&0));
        assert_eq!(text_from_clipboard(&units), text);
    }
    assert_eq!(text_from_clipboard(&[0x61, 0, 0x62]), "a");
    assert_eq!(text_from_clipboard(&[]), "");
    assert_eq!(text_from_clipboard(&clipboard_from_text("a\0b")), "a");
}

#[test]
fn insert_types() {
    let inserter = inserter("clipboard", 0, 0);
    let mut desktop = Desktop::new("before ", Some("old"));
    desktop.run(&inserter, inserter.insert("a long enough text 语音🎤")).unwrap();
    assert_eq!(desktop.text, "before a long enough text 语音🎤");
    assert_eq!(desktop.clipboard.as_deref(), Some("old"));
    assert!(desktop.waits.is_empty());
}

#[test]
fn empty_texts_need_nothing() {
    let inserter = TextInserter::new();
    assert!(matches!(inserter.insert("").1, Step::Done));
    assert!(matches!(inserter.insert_fast("").1, Step::Done));
    assert!(matches!(inserter.delete_chars(0).1, Step::Done));
    assert!(matches!(inserter.replace(0, String::new(), true).1, Step::Done));
}

#[test]
fn fast_insert_of_a_long_text_pastes() {
    let inserter = TextInserter::default();
    let mut desktop = Desktop::new("", Some("old"));
    desktop.run(&inserter, inserter.insert_fast("一二三四五六七八")).unwrap();
    assert_eq!(desktop.text, "一二三四五六七八");
    assert_eq!(desktop.clipboard.as_deref(), Some("old"));
    assert_eq!(desktop.waits, vec![SETTLE_MS, 350]);
    assert_eq!(SETTLE_MS, 30);
}

#[test]
fn fast_insert_of_a_short_text_types() {
    let inserter = TextInserter::new();
    let mut desktop = Desktop::new("", Some("old"));
    desktop.run(&inserter, inserter.insert_fast("一二三四五六七")).unwrap();
    assert_eq!(desktop.text, "一二三四五六七");
    assert!(desktop.waits.is_empty());
}

#[test]
fn modes_of_fast_insertion() {
    let reads = |mode: &str, threshold: usize, text: &str| {
        matches!(inserter(mode, threshold, 1).insert_fast(text).1, Step::ReadClipboard)
    };
    assert!(reads("clipboard", 100, "a"));
    assert!(reads("ClipBoard", 100, "a"));
    assert!(reads("AUTO", 3, "abc"));
    assert!(!reads("auto", 3, "ab"));
    assert!(!reads("send_input", 0, "abcdefghij"));
    assert!(!reads("other", 0, "abcdefghij"));
    assert!(reads("auto", 0, "a"));
}

#[test]
fn paste_without_delay_or_previous_text() {
    let inserter = inserter("clipboard", 0, 0);
    let mut desktop = Desktop::new("x", None);
    desktop.run(&inserter, inserter.insert_fast("yz")).unwrap();
    assert_eq!(desktop.text, "xyz");
    assert_eq!(desktop.clipboard.as_deref(), Some("yz"));
    assert_eq!(desktop.waits, vec![30]);
}

#[test]
fn deletion_presses_backspace() {
    let inserter = TextInserter::new();
    let mut desktop = Desktop::new("ab🎤", None);
    desktop.run(&inserter, inserter.delete_chars(2)).unwrap();
    assert_eq!(desktop.text, "a");
}

#[test]
fn replacement_deletes_then_inserts() {
    for (mode, fast) in [("auto", false), ("auto", true), ("clipboard", true), ("send_input", true)] {
        let inserter = inserter(mode, 4, 80);
        let mut desktop = Desktop::new("你好吗", Some("old"));
        desktop.run(&inserter, inserter.replace(1, "，世界和平".to_string(), fast)).unwrap();
        assert_eq!(desktop.text, "你好，世界和平");
        assert_eq!(desktop.clipboard.as_deref(), Some("old"));
    }
}

#[test]
fn blocked_input_is_reported() {
    let inserter = TextInserter::new();
    let (task, _) = inserter.insert("ab");
    match inserter.resume(task, Reply::Sent(3)).1 {
        Step::Fail(error) => {
            assert!(matches!(error, InsertError::Blocked { sent: 3, total: 4 }));
            assert_eq!(
                error.message(),
                "SendInput sent 3 of 4 inputs; target may be elevated or blocked"
            );
        }
        other => panic!("{other:?}"),
    }
    assert!(check_sent(4, 4).is_ok());
    assert!(check_sent(0, 4).is_err());
    assert!(check_sent(0, 0).is_ok());
}

#[test]
fn refused_input_is_reported() {
    let inserter = TextInserter::new();
    let (task, _) = inserter.delete_chars(1);
    match inserter.resume(task, Reply::Failed("no desktop".to_string())).1 {
        Step::Fail(error) => assert_eq!(error.message(), "no desktop"),
        other => panic!("{other:?}"),
    }
}

#[test]
fn failed_deletion_inserts_nothing() {
    let inserter = TextInserter::new();
    let (task, _) = inserter.replace(2, "abc".to_string(), true);
    assert!(matches!(inserter.resume(task, Reply::Sent(1)).1, Step::Fail(_)));
}

#[test]
fn clipboard_failure_falls_back_to_typing() {
    let inserter = inserter("auto", 1, 350);
    let (task, _) = inserter.insert_fast("abc");
    let (task, _) = inserter.resume(task, Reply::Clipboard(None));
    match inserter.resume(task, Reply::Failed("busy".to_string())).1 {
        Step::SendKeys(inputs) => assert_eq!(inputs, inputs_for_text("abc")),
        other => panic!("{other:?}"),
    }
}

#[test]
fn blocked_paste_falls_back_to_typing() {
    let inserter = inserter("auto", 1, 350);
    let (task, _) = inserter.insert_fast("abc");
    let (task, _) = inserter.resume(task, Reply::Clipboard(Some("old".to_string())));
    let (task, _) = inserter.resume(task, Reply::Written);
    let (task, step) = inserter.resume(task, Reply::Waited);
    assert!(matches!(step, Step::SendKeys(inputs) if inputs == inputs_for_paste()));
    match inserter.resume(task, Reply::Sent(2)).1 {
        Step::SendKeys(inputs) => assert_eq!(inputs, inputs_for_text("abc")),
        other => panic!("{other:?}"),
    }
}

#[test]
fn clipboard_mode_reports_its_failure() {
    let inserter = inserter("clipboard", 1, 350);
    let (task, _) = inserter.insert_fast("abc");
    let (task, _) = inserter.resume(task, Reply::Clipboard(None));
    match inserter.resume(task, Reply::Failed("busy".to_string())).1 {
        Step::Fail(error) => assert_eq!(error.message(), "busy"),
        other => panic!("{other:?}"),
    }
}

#[test]
fn failure_to_restore_does_not_count() {
    let inserter = inserter("clipboard", 1, 0);
    let (task, _) = inserter.insert_fast("abc");
    let (task, _) = inserter.resume(task, Reply::Clipboard(Some("old".to_string())));
    let (task, _) = inserter.resume(task, Reply::Written);
    let (task, _) = inserter.resume(task, Reply::Waited);
    let (task, step) = inserter.resume(task, Reply::Sent(4));
    assert!(matches!(step, Step::WriteClipboard(units) if units == clipboard_from_text("old")));
    assert!(matches!(
        inserter.resume(task, Reply::Failed("busy".to_string())).1,
        Step::Done
    ));
}

#[test]
fn tasks_accept_the_replies_to_their_steps() {
    let inserter = inserter("clipboard", 1, 0);
    let (task, _) = inserter.insert_fast("abc");
    assert!(task.accepts(&Reply::Clipboard(None)));
    assert!(!task.accepts(&Reply::Written));
    let (task, _) = inserter.insert("abc");
    assert!(task.accepts(&Reply::Sent(6)));
    assert!(task.accepts(&Reply::Failed(String::new())));
    assert!(!task.accepts(&Reply::Waited));
    let (task, _) = inserter.insert("");
    assert!(!task.accepts(&Reply::Sent(0)));
}
