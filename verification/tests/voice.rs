use doubao_voice_input::asr::{AsrResponse, ResponseType};
use doubao_voice_input::config::{AsrConfig, TextInsertionConfig};
use doubao_voice_input::hotkey::{HotkeyEvent, KeyEvent, TapHoldDetector, WM_KEYDOWN, WM_KEYUP};
use doubao_voice_input::inserter::{
    inputs_for_backspaces, inputs_for_text, text_from_clipboard, KeyInput, Reply, Step,
    TextInserter, KEYEVENTF_UNICODE,
};
use doubao_voice_input::keys::{parse_tap_hold_target, VK_BACK, VK_RMENU, VK_V};
use doubao_voice_input::voice::{
    common_prefix_chars, notice, rollback_chars, update_text, HotkeyControl, Poll, Reaction,
    Received, SessionEnd, TextUpdate, VoiceCommand, VoiceController, VoiceSession,
    RECEIVE_WAIT_MS,
};

const MS: u128 = 1_000_000;

fn response(response_type: ResponseType, text: &str) -> AsrResponse {
    AsrResponse { response_type, text: text.to_string(), error_msg: String::new() }
}

fn interim(text: &str) -> Received {
    Received::Response(response(ResponseType::InterimResult, text))
}

fn settled(text: &str) -> Received {
    Received::Response(response(ResponseType::FinalResult, text))
}

fn update(reaction: &Reaction) -> (&str, &str, bool) {
    let update = reaction.update.as_ref().unwrap();
    (&update.old_text, &update.new_text, update.fast)
}

fn controller() -> VoiceController {
    VoiceController::new(TextInserter::new(), AsrConfig::default())
}

/// Carries out an update on the text before the cursor, with a clipboard that holds a text.
fn write(text: &mut String, controller: &VoiceController, update: &TextUpdate) {
    let mut clipboard = "old".to_string();
    let (mut task, mut step) = controller.update(update);
    loop {
        let reply = match step {
            Step::Done => break,
            Step::Fail(error) => panic!("{}", error.message()),
            Step::ReadClipboard => Reply::Clipboard(Some(clipboard.clone())),
            Step::WriteClipboard(units) => {
                clipboard = text_from_clipboard(&units);
                Reply::Written
            }
            Step::Wait(_) => Reply::Waited,
            Step::SendKeys(inputs) => {
                press(text, &clipboard, &inputs);
                Reply::Sent(inputs.len() as u32)
            }
        };
        assert!(task.accepts(&reply));
        (task, step) = controller.resume_update(task, reply);
    }
    assert_eq!(clipboard, "old");
}

fn press(text: &mut String, clipboard: &str, inputs: &[KeyInput]) {
    let mut units: Vec<u16> = Vec::new();
    for input in inputs {
        if input.flags == KEYEVENTF_UNICODE {
            units.push(input.scan);
        } else if input.virtual_key == VK_BACK && input.flags == 0 {
            text.pop();
        } else if input.virtual_key == VK_V && input.flags == 0 {
            text.push_str(clipboard);
        }
    }
    text.push_str(&String::from_utf16(&units).unwrap());
}

#[test]
fn common_prefixes() {
    assert_eq!(common_prefix_chars("", "abc"), 0);
    assert_eq!(common_prefix_chars("abc", ""), 0);
    assert_eq!(common_prefix_chars("abc", "abd"), 2);
    assert_eq!(common_prefix_chars("今天天气", "今天天汽好"), 3);
    assert_eq!(common_prefix_chars("abc", "abc"), 3);
    assert_eq!(common_prefix_chars("xbc", "abc"), 0);
}

#[test]
fn rollbacks() {
    assert_eq!(rollback_chars("今天天气", "今天天汽好"), 1);
    assert_eq!(rollback_chars("abc", "abcdef"), 0);
    assert_eq!(rollback_chars("abc", ""), 3);
    assert_eq!(rollback_chars("", "abc"), 0);
}

#[test]
fn update_deletes_and_adds_what_differs() {
    let inserter = TextInserter::new();
    let (task, step) = update_text(&inserter, "今天天气", "今天天汽好", false);
    assert!(matches!(step, Step::SendKeys(inputs) if inputs == inputs_for_backspaces(1)));
    let (_, step) = inserter.resume(task, Reply::Sent(2));
    assert!(matches!(step, Step::SendKeys(inputs) if inputs == inputs_for_text("汽好")));

    let (_, step) = update_text(&inserter, "ab", "abc", true);
    assert!(matches!(step, Step::SendKeys(inputs) if inputs == inputs_for_text("c")));

    assert!(matches!(update_text(&inserter, "ab", "ab", true).1, Step::Done));

    let (_, step) = update_text(&inserter, "", "一二三四五六七八", true);
    assert!(matches!(step, Step::ReadClipboard));
    let (_, step) = update_text(&inserter, "", "一二三四五六七八", false);
    assert!(matches!(step, Step::SendKeys(_)));
}

#[test]
fn update_turns_one_text_into_the_other() {
    let controller = controller();
    for (old, new) in [
        ("", ""),
        ("", "新"),
        ("旧", ""),
        ("今天天气", "今天天汽好"),
        ("abc", "xyz and more than eight"),
        ("🎤a", "🎤b"),
    ] {
        for fast in [false, true] {
            let mut text = format!("前文{old}");
            let update = TextUpdate { old_text: old.to_string(), new_text: new.to_string(), fast };
            write(&mut text, &controller, &update);
            assert_eq!(text, format!("前文{new}"));
        }
    }
}

#[test]
fn first_interim_text_is_written_at_once() {
    let mut session = VoiceSession::new(AsrConfig::default(), 1000 * MS);
    let reaction = session.on_received(interim("今天"), 1000 * MS);
    assert_eq!(update(&reaction), ("", "今天", false));
    assert!(reaction.end.is_none());
}

#[test]
fn young_clock_delays_the_first_interim_text() {
    let mut session = VoiceSession::new(AsrConfig::default(), 100 * MS);
    assert!(session.on_received(interim("今天"), 249 * MS).update.is_none());
    assert!(session.on_received(interim("今天"), 250 * MS).update.is_some());
}

#[test]
fn interim_texts_are_spaced() {
    let mut session = VoiceSession::new(AsrConfig::default(), 1000 * MS);
    assert!(session.on_received(interim("今"), 1000 * MS).update.is_some());
    session.interim_written(1005 * MS);
    assert!(session.on_received(interim("今天"), 1154 * MS).update.is_none());
    let reaction = session.on_received(interim("今天天"), 1155 * MS);
    assert_eq!(update(&reaction), ("今", "今天天", false));
}

#[test]
fn interim_texts_do_not_delete_too_much() {
    let mut session = VoiceSession::new(AsrConfig::default(), 1000 * MS);
    session.on_received(interim("一二三四五六七"), 1000 * MS);
    session.interim_written(1000 * MS);
    assert!(session.on_received(interim("二"), 2000 * MS).update.is_none());
    let reaction = session.on_received(interim("一"), 2000 * MS);
    assert_eq!(update(&reaction), ("一二三四五六七", "一", false));
}

#[test]
fn empty_texts_write_nothing() {
    let mut session = VoiceSession::new(AsrConfig::default(), 1000 * MS);
    session.on_received(interim("今天"), 1000 * MS);
    assert!(session.on_received(interim(""), 2000 * MS).update.is_none());
    let reaction = session.on_received(settled(""), 2000 * MS);
    assert!(reaction.update.is_none() && reaction.end.is_none());
    let reaction = session.on_received(settled("今天好"), 2000 * MS);
    assert_eq!(update(&reaction), ("今天", "今天好", true));
}

#[test]
fn settled_text_is_not_touched_again() {
    let mut session = VoiceSession::new(AsrConfig::default(), 1000 * MS);
    session.on_received(interim("今天"), 1000 * MS);
    let reaction = session.on_received(settled("今天。"), 1010 * MS);
    assert_eq!(update(&reaction), ("今天", "今天。", true));
    let reaction = session.on_received(interim("明"), 3000 * MS);
    assert_eq!(update(&reaction), ("", "明", false));
}

#[test]
fn without_interim_texts_only_settled_ones_are_written() {
    let config = AsrConfig { interim_insert: false, ..AsrConfig::default() };
    let mut session = VoiceSession::new(config, 1000 * MS);
    assert!(session.on_received(interim("今天"), 2000 * MS).update.is_none());
    let reaction = session.on_received(settled("今天。"), 3000 * MS);
    assert_eq!(update(&reaction), ("", "今天。", true));
}

#[test]
fn stop_waits_for_the_last_messages() {
    let mut session = VoiceSession::new(AsrConfig::default(), 1000 * MS);
    assert_eq!(session.poll(false, 1000 * MS), Poll::Receive);
    assert_eq!(session.poll(true, 1100 * MS), Poll::StopMicrophone);
    session.begin_drain(1100 * MS);
    assert_eq!(session.poll(true, 1100 * MS), Poll::Receive);
    assert_eq!(session.poll(true, 2600 * MS - 1), Poll::Receive);
    assert_eq!(session.poll(true, 2600 * MS), Poll::TimedOut);
    assert_eq!(session.poll(false, 2600 * MS), Poll::TimedOut);
    assert_eq!(RECEIVE_WAIT_MS, 100);
}

#[test]
fn settled_text_after_the_stop_ends_the_session() {
    let mut session = VoiceSession::new(AsrConfig::default(), 1000 * MS);
    session.on_received(interim("今天"), 1000 * MS);
    session.begin_drain(1100 * MS);
    let reaction = session.on_received(interim("今天好"), 1200 * MS);
    assert!(reaction.end.is_none());
    let reaction = session.on_received(settled("今天好。"), 1300 * MS);
    assert_eq!(update(&reaction), ("今天好", "今天好。", true));
    assert!(matches!(reaction.end, Some(SessionEnd::FinalAfterStop)));

    let mut session = VoiceSession::new(AsrConfig::default(), 1000 * MS);
    session.begin_drain(1100 * MS);
    let reaction = session.on_received(settled(""), 1300 * MS);
    assert!(reaction.update.is_none());
    assert!(matches!(reaction.end, Some(SessionEnd::FinalAfterStop)));
}

#[test]
fn sessions_end() {
    let mut session = VoiceSession::new(AsrConfig::default(), 0);
    let finished = Received::Response(response(ResponseType::SessionFinished, "x"));
    assert!(matches!(
        session.on_received(finished, 0).end,
        Some(SessionEnd::SessionFinished)
    ));
    let error = Received::Response(AsrResponse {
        response_type: ResponseType::Error,
        text: String::new(),
        error_msg: "quota".to_string(),
    });
    assert!(matches!(
        session.on_received(error, 0).end,
        Some(SessionEnd::ServerError(reason)) if reason == "quota"
    ));
    assert!(matches!(
        session.on_received(Received::Closed, 0).end,
        Some(SessionEnd::ChannelClosed)
    ));
    assert!(session.on_received(Received::Idle, 0).end.is_none());
    for t in [
        ResponseType::TaskStarted,
        ResponseType::SessionStarted,
        ResponseType::VadStart,
        ResponseType::Other,
    ] {
        let reaction = session.on_received(Received::Response(response(t, "x")), 0);
        assert!(reaction.update.is_none() && reaction.end.is_none());
    }
}

#[test]
fn dictation() {
    let controller = controller();
    let mut session = controller.begin_session(1000 * MS);
    let mut text = "你说：".to_string();
    let mut now = 1000 * MS;
    for received in [
        interim("今天"),
        interim("今天天气"),
        interim("今天天汽很"),
        settled("今天天气很好。"),
        interim("我们"),
        interim("完全不同的一句话开始"),
        settled("我们去公园散步，好吗？"),
        interim("好"),
    ] {
        let reaction = session.on_received(received, now);
        if let Some(update) = reaction.update {
            write(&mut text, &controller, &update);
            if !update.fast {
                session.interim_written(now);
            }
        }
        now += 200 * MS;
    }
    assert_eq!(text, "你说：今天天气很好。我们去公园散步，好吗？好");
}

#[test]
fn notices() {
    let line = |t: ResponseType| notice(&response(t, "你好"));
    assert_eq!(line(ResponseType::InterimResult).as_deref(), Some("📝 [识别中] 你好"));
    assert_eq!(line(ResponseType::FinalResult).as_deref(), Some("✅ [确认] 你好"));
    assert_eq!(line(ResponseType::SessionFinished).as_deref(), Some("🏁 [会话结束]"));
    assert_eq!(line(ResponseType::VadStart), None);
    let error = AsrResponse {
        response_type: ResponseType::Error,
        text: String::new(),
        error_msg: "坏了".to_string(),
    };
    assert_eq!(notice(&error).as_deref(), Some("❌ [错误] 坏了"));
}

#[test]
fn toggling_goes_round() {
    let mut controller = controller();
    assert!(!controller.is_recording());
    assert_eq!(controller.toggle(), VoiceCommand::StartCapture);
    assert!(controller.is_recording() && !controller.stop_requested());
    assert_eq!(controller.toggle(), VoiceCommand::StopCapture);
    assert!(controller.is_recording() && controller.stop_requested());
    controller.session_ended();
    assert!(!controller.is_recording() && !controller.stop_requested());
}

#[test]
fn starting_and_stopping_twice() {
    let mut controller = controller();
    assert_eq!(controller.stop(), VoiceCommand::Nothing);
    assert!(!controller.stop_requested());
    assert_eq!(controller.start(), VoiceCommand::StartCapture);
    assert_eq!(controller.start(), VoiceCommand::Nothing);
    assert!(controller.is_recording());
    assert_eq!(controller.stop(), VoiceCommand::StopCapture);
    assert_eq!(controller.stop(), VoiceCommand::StopCapture);
    assert_eq!(controller.start(), VoiceCommand::Nothing);
    assert!(controller.stop_requested());
}

#[test]
fn tap_toggles() {
    let mut controller = controller();
    let mut control = HotkeyControl::new();
    assert_eq!(
        control.on_event(&mut controller, HotkeyEvent::Start),
        VoiceCommand::StartCapture
    );
    assert_eq!(control.on_event(&mut controller, HotkeyEvent::Tap), VoiceCommand::Nothing);
    assert!(controller.is_recording() && !controller.stop_requested());
    assert_eq!(control.on_event(&mut controller, HotkeyEvent::Start), VoiceCommand::Nothing);
    assert_eq!(control.on_event(&mut controller, HotkeyEvent::Tap), VoiceCommand::StopCapture);
    assert!(controller.stop_requested());
}

#[test]
fn hold_records_until_release() {
    let mut controller = controller();
    let mut control = HotkeyControl::new();
    assert_eq!(
        control.on_event(&mut controller, HotkeyEvent::Start),
        VoiceCommand::StartCapture
    );
    assert_eq!(control.on_event(&mut controller, HotkeyEvent::Stop), VoiceCommand::StopCapture);
    controller.session_ended();
    assert_eq!(
        control.on_event(&mut controller, HotkeyEvent::Toggle),
        VoiceCommand::StartCapture
    );
}

#[test]
fn controller_uses_its_settings() {
    let config = TextInsertionConfig { mode: "clipboard".to_string(), ..TextInsertionConfig::default() };
    let asr = AsrConfig { interim_update_interval_ms: 10, ..AsrConfig::default() };
    let controller = VoiceController::new(TextInserter::with_config(config), asr);
    let mut session = controller.begin_session(1000 * MS);
    session.interim_written(1000 * MS);
    assert!(session.on_received(interim("a"), 1009 * MS).update.is_none());
    let reaction = session.on_received(interim("a"), 1010 * MS);
    let mut update = reaction.update.unwrap();
    update.fast = true;
    assert!(matches!(controller.update(&update).1, Step::ReadClipboard));
}

#[test]
fn right_alt_switches_voice_input() {
    let mut controller = controller();
    let mut control = HotkeyControl::new();
    let mut key = TapHoldDetector::new(parse_tap_hold_target("RightAlt").unwrap(), 300);
    let mut send = |message: u32, now: u128| {
        let event = KeyEvent { code: 0, message, vk_code: VK_RMENU as u32, scan_code: 0 };
        match key.on_key(true, event, now) {
            Some(event) => control.on_event(&mut controller, event),
            None => VoiceCommand::Nothing,
        }
    };
    assert_eq!(send(WM_KEYDOWN, 0), VoiceCommand::StartCapture);
    assert_eq!(send(WM_KEYUP, 100 * MS), VoiceCommand::Nothing);
    assert_eq!(send(WM_KEYDOWN, 5000 * MS), VoiceCommand::Nothing);
    assert_eq!(send(WM_KEYUP, 5100 * MS), VoiceCommand::StopCapture);
    assert!(controller.stop_requested());
    controller.session_ended();

    let mut send = |message: u32, now: u128| {
        let event = KeyEvent { code: 0, message, vk_code: VK_RMENU as u32, scan_code: 0 };
        match key.on_key(true, event, now) {
            Some(event) => control.on_event(&mut controller, event),
            None => VoiceCommand::Nothing,
        }
    };
    assert_eq!(send(WM_KEYDOWN, 9000 * MS), VoiceCommand::StartCapture);
    assert_eq!(send(WM_KEYDOWN, 9200 * MS), VoiceCommand::Nothing);
    assert_eq!(send(WM_KEYUP, 9300 * MS), VoiceCommand::StopCapture);
}

#[test]
fn failed_start_can_be_tried_again() {
    let mut controller = controller();
    assert_eq!(controller.start(), VoiceCommand::StartCapture);
    controller.start_failed();
    assert!(!controller.is_recording() && !controller.stop_requested());
    assert_eq!(controller.toggle(), VoiceCommand::StartCapture);
    assert_eq!(controller.stop(), VoiceCommand::StopCapture);
    controller.start_failed();
    assert!(!controller.is_recording() && !controller.stop_requested());
    assert_eq!(controller.stop(), VoiceCommand::Nothing);
    assert_eq!(controller.start(), VoiceCommand::StartCapture);
}
