use doubao_voice_input::asr::{AsrResponse, ResponseType};
use doubao_voice_input::probe::{
    drain_wait, handle_response, probe_options, ProbeOption, ProbeStats, Verdict, DRAIN_WAIT,
};

fn response(response_type: ResponseType, text: &str) -> AsrResponse {
    AsrResponse { response_type, text: text.to_string(), error_msg: String::new() }
}

fn options(args: &[&str]) -> Vec<ProbeOption> {
    let args: Vec<String> = args.iter().map(|a| a.to_string()).collect();
    probe_options(&args)
}

#[test]
fn messages_are_measured() {
    let mut stats = ProbeStats::default();
    let mut send = |t: ResponseType, text: &str, now: u128| {
        let more = handle_response(Some(&response(t, text)), now, &mut stats);
        (more, stats)
    };
    assert!(send(ResponseType::VadStart, "", 100).0);
    assert!(send(ResponseType::InterimResult, "", 150).0);
    assert!(send(ResponseType::InterimResult, "今", 400).0);
    assert!(send(ResponseType::FinalResult, "今天", 500).0);
    assert!(send(ResponseType::Other, "", 510).0);
    let (more, stats) = send(ResponseType::SessionFinished, "", 520);
    assert!(!more);
    assert_eq!(stats.responses, 6);
    assert_eq!(stats.interim, 2);
    assert_eq!(stats.final_results, 1);
    assert_eq!(stats.vad_start, 1);
    assert_eq!(stats.errors, 0);
    assert!(stats.session_finished);
    assert_eq!(stats.first_response_at, Some(100));
    assert_eq!(stats.first_interim_at, Some(150));
    assert_eq!(stats.first_text_at, Some(400));
    assert_eq!(stats.last_response_at, Some(520));
    assert_eq!(stats.max_response_gap, 250);
}

#[test]
fn errors_and_the_end_of_messages() {
    let mut stats = ProbeStats::default();
    assert!(!handle_response(None, 5, &mut stats));
    assert_eq!(stats.responses, 0);
    assert_eq!(stats.last_response_at, None);
    assert!(!handle_response(Some(&response(ResponseType::Error, "")), 6, &mut stats));
    assert_eq!(stats.errors, 1);
    assert_eq!(stats.responses, 1);
    assert!(!stats.session_finished);
}

#[test]
fn text_of_other_messages_does_not_count() {
    let mut stats = ProbeStats::default();
    handle_response(Some(&response(ResponseType::Other, "x")), 6, &mut stats);
    assert_eq!(stats.first_text_at, None);
    handle_response(Some(&response(ResponseType::FinalResult, "x")), 7, &mut stats);
    assert_eq!(stats.first_text_at, Some(7));
    handle_response(Some(&response(ResponseType::FinalResult, "x")), 3, &mut stats);
    assert_eq!(stats.max_response_gap, 1);
    assert_eq!(stats.last_response_at, Some(3));
}

#[test]
fn verdicts() {
    let mut stats = ProbeStats::default();
    assert_eq!(stats.verdict(), Verdict::NoText);
    handle_response(Some(&response(ResponseType::FinalResult, "")), 1, &mut stats);
    assert_eq!(stats.verdict(), Verdict::FinalOnly);
    handle_response(Some(&response(ResponseType::InterimResult, "")), 2, &mut stats);
    assert_eq!(stats.verdict(), Verdict::Streaming);
    assert_eq!(
        Verdict::Streaming.line(),
        "结论: ✅ 当前 ASR 会话支持流式输出，已收到 interim 增量结果。"
    );
    assert_eq!(
        Verdict::FinalOnly.line(),
        "结论: ⚠️ 本次只收到 final 结果，表现为非流式/批量输出；请确认说话内容足够长，或检查服务端流式配置。"
    );
    assert_eq!(
        Verdict::NoText.line(),
        "结论: ❌ 未收到文本结果；请检查麦克风、网络、凭证或 ASR 服务状态。"
    );
}

#[test]
fn waits_for_the_last_messages() {
    let mut stats = ProbeStats::default();
    let timeout = 5_000_000_000;
    assert_eq!(DRAIN_WAIT, 500_000_000);
    assert_eq!(drain_wait(&stats, 0, timeout), Some(500_000_000));
    assert_eq!(drain_wait(&stats, 4_900_000_000, timeout), Some(100_000_000));
    assert_eq!(drain_wait(&stats, timeout, timeout), None);
    assert_eq!(drain_wait(&stats, timeout + 1, timeout), None);
    stats.session_finished = true;
    assert_eq!(drain_wait(&stats, 0, timeout), None);
}

#[test]
fn arguments_are_read_in_order() {
    let read = options(&["-d", "8", "x", "--drain-timeout", "3", "--duration", "--help", "-h"]);
    assert_eq!(read.len(), 4);
    assert!(matches!(&read[0], ProbeOption::Duration(v) if v == "8"));
    assert!(matches!(&read[1], ProbeOption::DrainTimeout(v) if v == "3"));
    assert!(matches!(&read[2], ProbeOption::Duration(v) if v == "--help"));
    assert!(matches!(&read[3], ProbeOption::Help));
}

#[test]
fn option_without_a_value_says_nothing() {
    assert!(options(&[]).is_empty());
    assert!(options(&["--duration"]).is_empty());
    assert!(options(&["x", "--drain-timeout"]).is_empty());
    assert_eq!(options(&["--help", "-d"]).len(), 1);
}
