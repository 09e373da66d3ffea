//! Measures how a recognition session responds: whether it streams, and how fast.

use crate::asr::{AsrResponse, ResponseType};
use crate::text::same_text;
use crate::time::elapsed as time_between;
use vstd::prelude::*;

verus! {

broadcast use vstd::string::group_string_axioms;

// ---------------------------------------------------------------------------------------
// Measurements
// ---------------------------------------------------------------------------------------

/// What was measured. Times are nanoseconds from the start of the measurement.
#[derive(Debug, Clone, Copy)]
pub struct ProbeStats {
    /// The number of messages.
    pub responses: u32,
    /// The number of texts that may still change.
    pub interim: u32,
    /// The number of settled texts.
    pub final_results: u32,
    /// How often the speaker has begun to speak.
    pub vad_start: u32,
    /// The number of errors.
    pub errors: u32,
    /// The server has ended the session.
    pub session_finished: bool,
    /// When the first message came.
    pub first_response_at: Option<u128>,
    /// When the first text that is not empty came.
    pub first_text_at: Option<u128>,
    /// When the first text that may still change came.
    pub first_interim_at: Option<u128>,
    /// When the latest message came.
    pub last_response_at: Option<u128>,
    /// The longest time from one message to the next.
    pub max_response_gap: u128,
}

/// Nothing has been measured.
pub open spec fn no_stats() -> ProbeStats {
    ProbeStats {
        responses: 0,
        interim: 0,
        final_results: 0,
        vad_start: 0,
        errors: 0,
        session_finished: false,
        first_response_at: None,
        first_text_at: None,
        first_interim_at: None,
        last_response_at: None,
        max_response_gap: 0,
    }
}

/// No message is counted twice.
pub open spec fn counts_agree(stats: ProbeStats) -> bool {
    stats.interim + stats.final_results + stats.vad_start + stats.errors <= stats.responses
}

/// The earlier time, if there is one, else `now`.
pub open spec fn first_of(earlier: Option<u128>, now: u128) -> Option<u128> {
    match earlier {
        Some(time) => Some(time),
        None => Some(now),
    }
}

/// The longest time between messages, with one more message at `now`.
pub open spec fn longest_gap(stats: ProbeStats, now: u128) -> u128 {
    match stats.last_response_at {
        Some(previous) => {
            let gap = crate::time::since(previous, now) as u128;
            if gap > stats.max_response_gap {
                gap
            } else {
                stats.max_response_gap
            }
        },
        None => stats.max_response_gap,
    }
}

/// What is measured with one more message, at `now`.
pub open spec fn counted(
    stats: ProbeStats,
    response: crate::asr::AsrResponseView,
    now: u128,
) -> ProbeStats {
    let is = |response_type: ResponseType| response.response_type == response_type;
    let more = |count: u32, response_type: ResponseType|
        if is(response_type) {
            (count + 1) as u32
        } else {
            count
        };
    ProbeStats {
        responses: (stats.responses + 1) as u32,
        interim: more(stats.interim, ResponseType::InterimResult),
        final_results: more(stats.final_results, ResponseType::FinalResult),
        vad_start: more(stats.vad_start, ResponseType::VadStart),
        errors: more(stats.errors, ResponseType::Error),
        session_finished: stats.session_finished || is(ResponseType::SessionFinished),
        first_response_at: first_of(stats.first_response_at, now),
        first_text_at: if (is(ResponseType::InterimResult) || is(ResponseType::FinalResult))
            && response.text.len() > 0 {
            first_of(stats.first_text_at, now)
        } else {
            stats.first_text_at
        },
        first_interim_at: if is(ResponseType::InterimResult) {
            first_of(stats.first_interim_at, now)
        } else {
            stats.first_interim_at
        },
        last_response_at: Some(now),
        max_response_gap: longest_gap(stats, now),
    }
}

/// The earlier time, if there is one, else `now`.
fn first_time(earlier: Option<u128>, now: u128) -> (r: Option<u128>)
    ensures
        r == first_of(earlier, now),
{
    match earlier {
        Some(time) => Some(time),
        None => Some(now),
    }
}

impl Default for ProbeStats {
    fn default() -> (r: Self)
        ensures
            r == no_stats(),
    {
        ProbeStats {
            responses: 0,
            interim: 0,
            final_results: 0,
            vad_start: 0,
            errors: 0,
            session_finished: false,
            first_response_at: None,
            first_text_at: None,
            first_interim_at: None,
            last_response_at: None,
            max_response_gap: 0,
        }
    }
}

/// Measures a message that came at `now`; `None` stands for the end of the messages. Tells
/// whether more messages are to be expected.
pub fn handle_response(
    maybe_response: Option<&AsrResponse>,
    now: u128,
    stats: &mut ProbeStats,
) -> (r: bool)
    requires
        counts_agree(*old(stats)),
        maybe_response is Some ==> old(stats).responses < u32::MAX,
    ensures
        match maybe_response {
            Some(response) => {
                &&& *final(stats) == counted(*old(stats), response@, now)
                &&& r == !crate::asr::ends_stream(response.response_type)
            },
            None => *final(stats) == *old(stats) && !r,
        },
        counts_agree(*final(stats)),
{
    let response: &AsrResponse = match maybe_response {
        Some(response) => response,
        None => {
            return false;
        },
    };
    if let Some(previous) = stats.last_response_at {
        let gap: u128 = time_between(previous, now);
        if gap > stats.max_response_gap {
            stats.max_response_gap = gap;
        }
    }
    stats.last_response_at = Some(now);
    stats.first_response_at = first_time(stats.first_response_at, now);
    stats.responses = stats.responses + 1;
    match response.response_type {
        ResponseType::InterimResult => {
            stats.interim = stats.interim + 1;
            stats.first_interim_at = first_time(stats.first_interim_at, now);
            if !response.text.as_str().is_empty() {
                stats.first_text_at = first_time(stats.first_text_at, now);
            }
            true
        },
        ResponseType::FinalResult => {
            stats.final_results = stats.final_results + 1;
            if !response.text.as_str().is_empty() {
                stats.first_text_at = first_time(stats.first_text_at, now);
            }
            true
        },
        ResponseType::VadStart => {
            stats.vad_start = stats.vad_start + 1;
            true
        },
        ResponseType::SessionFinished => {
            stats.session_finished = true;
            false
        },
        ResponseType::Error => {
            stats.errors = stats.errors + 1;
            false
        },
        _ => true,
    }
}

// ---------------------------------------------------------------------------------------
// The verdict
// ---------------------------------------------------------------------------------------

/// What the measurements say of a session.
#[derive(Debug, Clone, Copy, PartialEq, Eq, Structural)]
pub enum Verdict {
    /// Texts came while they could still change.
    Streaming,
    /// Only settled texts came.
    FinalOnly,
    /// No text came.
    NoText,
}

/// What the measurements say of the session.
pub open spec fn verdict_of(stats: ProbeStats) -> Verdict {
    if stats.interim > 0 {
        Verdict::Streaming
    } else if stats.final_results > 0 {
        Verdict::FinalOnly
    } else {
        Verdict::NoText
    }
}

/// The line that tells the user of a verdict.
pub open spec fn verdict_line(verdict: Verdict) -> Seq<char> {
    match verdict {
        Verdict::Streaming => "结论: ✅ 当前 ASR 会话支持流式输出，已收到 interim 增量结果。"@,
        Verdict::FinalOnly => {
            "结论: ⚠️ 本次只收到 final 结果，表现为非流式/批量输出；请确认说话内容足够长，或检查服务端流式配置。"@
        },
        Verdict::NoText => "结论: ❌ 未收到文本结果；请检查麦克风、网络、凭证或 ASR 服务状态。"@,
    }
}

impl ProbeStats {
    /// What the measurements say of the session.
    pub fn verdict(&self) -> (r: Verdict)
        ensures
            r == verdict_of(*self),
    {
        if self.interim > 0 {
            Verdict::Streaming
        } else if self.final_results > 0 {
            Verdict::FinalOnly
        } else {
            Verdict::NoText
        }
    }
}

impl Verdict {
    /// The line that tells the user of the verdict.
    pub fn line(self) -> (r: String)
        ensures
            r@ == verdict_line(self),
    {
        match self {
            Verdict::Streaming => {
                "结论: ✅ 当前 ASR 会话支持流式输出，已收到 interim 增量结果。".to_string()
            },
            Verdict::FinalOnly => {
                "结论: ⚠️ 本次只收到 final 结果，表现为非流式/批量输出；请确认说话内容足够长，或检查服务端流式配置。".to_string()
            },
            Verdict::NoText => {
                "结论: ❌ 未收到文本结果；请检查麦克风、网络、凭证或 ASR 服务状态。".to_string()
            },
        }
    }
}

// ---------------------------------------------------------------------------------------
// Waiting for the last messages
// ---------------------------------------------------------------------------------------

/// The longest single wait for one of the last messages, in nanoseconds.
pub const DRAIN_WAIT: u128 = 500_000_000;

/// How long to wait for the next of the last messages.
pub open spec fn next_wait(stats: ProbeStats, elapsed: u128, timeout: u128) -> Option<u128> {
    if elapsed >= timeout || stats.session_finished {
        None
    } else if timeout - elapsed < DRAIN_WAIT {
        Some((timeout - elapsed) as u128)
    } else {
        Some(DRAIN_WAIT)
    }
}

/// How long to wait for the next of the last messages, `elapsed` after the microphone was
/// stopped: nothing once the session has ended or `timeout` has passed.
pub fn drain_wait(stats: &ProbeStats, elapsed: u128, timeout: u128) -> (r: Option<u128>)
    ensures
        r == next_wait(*stats, elapsed, timeout),
{
    if elapsed >= timeout || stats.session_finished {
        None
    } else if timeout - elapsed < DRAIN_WAIT {
        Some(timeout - elapsed)
    } else {
        Some(DRAIN_WAIT)
    }
}

// ---------------------------------------------------------------------------------------
// Arguments
// ---------------------------------------------------------------------------------------

/// A setting on the command line, with its value as it was written.
#[derive(Debug, Clone)]
pub enum ProbeOption {
    /// How long to record, in seconds.
    Duration(String),
    /// How long to wait for the last messages, in seconds.
    DrainTimeout(String),
    /// Show the usage and end.
    Help,
}

/// A [`ProbeOption`] by its values.
pub enum ProbeOptionView {
    Duration(Seq<char>),
    DrainTimeout(Seq<char>),
    Help,
}

impl View for ProbeOption {
    type V = ProbeOptionView;

    open spec fn view(&self) -> ProbeOptionView {
        match self {
            ProbeOption::Duration(value) => ProbeOptionView::Duration(value@),
            ProbeOption::DrainTimeout(value) => ProbeOptionView::DrainTimeout(value@),
            ProbeOption::Help => ProbeOptionView::Help,
        }
    }
}

/// The argument asks for the length of the recording.
pub open spec fn names_duration(arg: Seq<char>) -> bool {
    arg == "--duration"@ || arg == "-d"@
}

/// The argument asks for the usage.
pub open spec fn names_help(arg: Seq<char>) -> bool {
    arg == "--help"@ || arg == "-h"@
}

/// The settings that the arguments from the `from`-th on write. An option takes the argument
/// after it as its value; without one it says nothing, and what is not an option is passed
/// over.
pub open spec fn options_from(args: Seq<Seq<char>>, from: int) -> Seq<ProbeOptionView>
    decreases args.len() - from,
{
    if from < 0 || from >= args.len() {
        Seq::empty()
    } else if names_duration(args[from]) {
        if from + 1 < args.len() {
            seq![ProbeOptionView::Duration(args[from + 1])] + options_from(args, from + 2)
        } else {
            Seq::empty()
        }
    } else if args[from] == "--drain-timeout"@ {
        if from + 1 < args.len() {
            seq![ProbeOptionView::DrainTimeout(args[from + 1])] + options_from(args, from + 2)
        } else {
            Seq::empty()
        }
    } else if names_help(args[from]) {
        seq![ProbeOptionView::Help] + options_from(args, from + 1)
    } else {
        options_from(args, from + 1)
    }
}

/// Texts by their characters.
pub open spec fn texts(args: Seq<String>) -> Seq<Seq<char>> {
    args.map_values(|arg: String| arg@)
}

/// Options by their values.
pub open spec fn options(list: Seq<ProbeOption>) -> Seq<ProbeOptionView> {
    list.map_values(|option: ProbeOption| option@)
}

/// The settings that the arguments write, in their order.
pub fn probe_options(args: &[String]) -> (r: Vec<ProbeOption>)
    ensures
        options(r@) == options_from(texts(args@), 0),
{
    let mut r: Vec<ProbeOption> = Vec::new();
    let mut i: usize = 0;
    assert(options(r@) + options_from(texts(args@), 0) =~= options_from(texts(args@), 0));
    while i < args.len()
        invariant
            i <= args@.len(),
            options(r@) + options_from(texts(args@), i as int) == options_from(texts(args@), 0),
        decreases args@.len() - i,
    {
        let ghost before = options(r@);
        let arg: &str = args[i].as_str();
        assert(arg@ == texts(args@)[i as int]);
        let duration: bool = same_text(arg, "--duration") || same_text(arg, "-d");
        let drain_timeout: bool = same_text(arg, "--drain-timeout");
        let help: bool = same_text(arg, "--help") || same_text(arg, "-h");
        if duration || drain_timeout {
            if args.len() - i < 2 {
                assert(before =~= options_from(texts(args@), 0));
                return r;
            }
            let value: String = args[i + 1].clone();
            assert(value@ == texts(args@)[i + 1]);
            let option: ProbeOption = if duration {
                ProbeOption::Duration(value)
            } else {
                ProbeOption::DrainTimeout(value)
            };
            r.push(option);
            assert(options(r@) =~= before + seq![option@]);
            assert(before + (seq![option@] + options_from(texts(args@), i + 2)) =~= options(r@)
                + options_from(texts(args@), i + 2));
            i += 2;
        } else {
            if help {
                r.push(ProbeOption::Help);
                assert(options(r@) =~= before + seq![ProbeOptionView::Help]);
                assert(before + (seq![ProbeOptionView::Help] + options_from(texts(args@), i + 1))
                    =~= options(r@) + options_from(texts(args@), i + 1));
            }
            i += 1;
        }
    }
    assert(options(r@) =~= options_from(texts(args@), 0));
    r
}

// ---------------------------------------------------------------------------------------
// Laws
// ---------------------------------------------------------------------------------------

/// What is measured of a row of messages, each with the time at which it came.
pub open spec fn measured(messages: Seq<(crate::asr::AsrResponseView, u128)>) -> ProbeStats
    decreases messages.len(),
{
    if messages.len() == 0 {
        no_stats()
    } else {
        counted(measured(messages.drop_last()), messages.last().0, messages.last().1)
    }
}

/// How many of the messages are of a type.
pub open spec fn how_many(
    messages: Seq<(crate::asr::AsrResponseView, u128)>,
    response_type: ResponseType,
) -> nat
    decreases messages.len(),
{
    if messages.len() == 0 {
        0
    } else if messages.last().0.response_type == response_type {
        how_many(messages.drop_last(), response_type) + 1
    } else {
        how_many(messages.drop_last(), response_type)
    }
}

/// Every message is counted, once, under its type.
pub proof fn messages_are_counted(messages: Seq<(crate::asr::AsrResponseView, u128)>)
    requires
        messages.len() <= u32::MAX,
    ensures
        ({
            let stats = measured(messages);
            &&& stats.responses == messages.len()
            &&& stats.interim == how_many(messages, ResponseType::InterimResult)
            &&& stats.final_results == how_many(messages, ResponseType::FinalResult)
            &&& stats.vad_start == how_many(messages, ResponseType::VadStart)
            &&& stats.errors == how_many(messages, ResponseType::Error)
            &&& stats.session_finished <==> how_many(messages, ResponseType::SessionFinished) > 0
            &&& counts_agree(stats)
        }),
    decreases messages.len(),
{
    if messages.len() > 0 {
        messages_are_counted(messages.drop_last());
    }
}

/// A type occurs among the messages exactly if there are any of it.
proof fn lemma_how_many(
    messages: Seq<(crate::asr::AsrResponseView, u128)>,
    response_type: ResponseType,
)
    ensures
        how_many(messages, response_type) > 0 <==> exists|i: int|
            0 <= i < messages.len() && #[trigger] messages[i].0.response_type == response_type,
    decreases messages.len(),
{
    if messages.len() > 0 {
        let before = messages.drop_last();
        lemma_how_many(before, response_type);
        if how_many(before, response_type) > 0 {
            let i = choose|i: int|
                0 <= i < before.len() && #[trigger] before[i].0.response_type == response_type;
            assert(messages[i].0.response_type == response_type);
        }
        if messages.last().0.response_type == response_type {
            assert(messages[messages.len() - 1].0.response_type == response_type);
        }
        if exists|i: int|
            0 <= i < messages.len() && #[trigger] messages[i].0.response_type == response_type {
            let i = choose|i: int|
                0 <= i < messages.len() && #[trigger] messages[i].0.response_type
                    == response_type;
            if i < before.len() {
                assert(before[i].0.response_type == response_type);
            }
        }
    }
}

/// A session is found to stream exactly if a text came that could still change.
pub proof fn streaming_means_interim_texts(messages: Seq<(crate::asr::AsrResponseView, u128)>)
    requires
        messages.len() <= u32::MAX,
    ensures
        verdict_of(measured(messages)) == Verdict::Streaming <==> exists|i: int|
            0 <= i < messages.len() && #[trigger] messages[i].0.response_type
                == ResponseType::InterimResult,
{
    messages_are_counted(messages);
    lemma_how_many(messages, ResponseType::InterimResult);
}

/// The longest gap is at least as long as the time between any two messages in a row, and no
/// longer than the longest of these.
pub proof fn longest_gap_is_the_longest(messages: Seq<(crate::asr::AsrResponseView, u128)>)
    ensures
        ({
            let gap = |i: int| crate::time::since(messages[i].1, messages[i + 1].1);
            let longest = measured(messages).max_response_gap;
            &&& forall|i: int| 0 <= i < messages.len() - 1 ==> #[trigger] gap(i) <= longest
            &&& longest > 0 ==> exists|i: int|
                0 <= i < messages.len() - 1 && #[trigger] gap(i) == longest
        }),
        measured(messages).last_response_at == (if messages.len() == 0 {
            None
        } else {
            Some(messages.last().1)
        }),
    decreases messages.len(),
{
    if messages.len() > 0 {
        let before = messages.drop_last();
        longest_gap_is_the_longest(before);
        let old_gap = |i: int| crate::time::since(before[i].1, before[i + 1].1);
        let gap = |i: int| crate::time::since(messages[i].1, messages[i + 1].1);
        let longest = measured(messages).max_response_gap;
        assert forall|i: int| 0 <= i < messages.len() - 1 implies #[trigger] gap(i) <= longest by {
            if i < before.len() - 1 {
                assert(gap(i) == old_gap(i));
            }
        }
        if longest > 0 {
            if longest == measured(before).max_response_gap {
                let i = choose|i: int|
                    0 <= i < before.len() - 1 && #[trigger] old_gap(i) == longest;
                assert(gap(i) == longest);
            } else {
                assert(gap(messages.len() - 2) == longest);
            }
        }
    }
}

/// The verdict is told by the texts alone, whatever other messages come: a session streams if a
/// text came that could still change, gives only final texts if none such but a settled one
/// came, and no text if neither came.
pub proof fn verdict_tells_which_texts_came(messages: Seq<(crate::asr::AsrResponseView, u128)>)
    requires
        messages.len() <= u32::MAX,
    ensures
        ({
            let came = |response_type: ResponseType|
                exists|i: int|
                    0 <= i < messages.len() && #[trigger] messages[i].0.response_type
                        == response_type;
            let interim = came(ResponseType::InterimResult);
            let settled = came(ResponseType::FinalResult);
            let verdict = verdict_of(measured(messages));
            &&& verdict == Verdict::Streaming <==> interim
            &&& verdict == Verdict::FinalOnly <==> !interim && settled
            &&& verdict == Verdict::NoText <==> !interim && !settled
        }),
{
    messages_are_counted(messages);
    lemma_how_many(messages, ResponseType::InterimResult);
    lemma_how_many(messages, ResponseType::FinalResult);
}

/// The verdict asks for the counts of texts alone.
pub proof fn verdict_rests_on_the_counts(stats: ProbeStats)
    ensures
        verdict_of(stats) == Verdict::Streaming <==> stats.interim > 0,
        verdict_of(stats) == Verdict::FinalOnly <==> stats.interim == 0 && stats.final_results > 0,
        verdict_of(stats) == Verdict::NoText <==> stats.interim == 0 && stats.final_results == 0,
{
}

/// When the first of the messages came that is wanted.
pub open spec fn first_at(
    messages: Seq<(crate::asr::AsrResponseView, u128)>,
    wanted: spec_fn(crate::asr::AsrResponseView) -> bool,
) -> Option<u128>
    decreases messages.len(),
{
    if messages.len() == 0 {
        None
    } else if wanted(messages[0].0) {
        Some(messages[0].1)
    } else {
        first_at(messages.drop_first(), wanted)
    }
}

/// One more message is the first one wanted only if none was before.
proof fn lemma_first_at_one_more(
    messages: Seq<(crate::asr::AsrResponseView, u128)>,
    wanted: spec_fn(crate::asr::AsrResponseView) -> bool,
)
    requires
        messages.len() > 0,
    ensures
        first_at(messages, wanted) == match first_at(messages.drop_last(), wanted) {
            Some(time) => Some(time),
            None => if wanted(messages.last().0) {
                Some(messages.last().1)
            } else {
                None
            },
        },
    decreases messages.len(),
{
    if messages.len() == 1 {
        assert(messages.drop_first() =~= messages.drop_last());
        reveal_with_fuel(first_at, 2);
    } else {
        lemma_first_at_one_more(messages.drop_first(), wanted);
        assert(messages.drop_first().drop_last() =~= messages.drop_last().drop_first());
        assert(messages.drop_last()[0] == messages[0]);
        assert(messages.drop_first().last() == messages.last());
    }
}

/// The first times are those of the first message, of the first text that could still change,
/// and of the first text, of either sort, that is not empty.
pub proof fn first_times_are_those_of_the_first_messages(
    messages: Seq<(crate::asr::AsrResponseView, u128)>,
)
    ensures
        measured(messages).first_response_at == first_at(
            messages,
            |response: crate::asr::AsrResponseView| true,
        ),
        measured(messages).first_interim_at == first_at(
            messages,
            |response: crate::asr::AsrResponseView|
                response.response_type == ResponseType::InterimResult,
        ),
        measured(messages).first_text_at == first_at(
            messages,
            |response: crate::asr::AsrResponseView|
                (response.response_type == ResponseType::InterimResult || response.response_type
                    == ResponseType::FinalResult) && response.text.len() > 0,
        ),
    decreases messages.len(),
{
    if messages.len() > 0 {
        first_times_are_those_of_the_first_messages(messages.drop_last());
        lemma_first_at_one_more(messages, |response: crate::asr::AsrResponseView| true);
        lemma_first_at_one_more(
            messages,
            |response: crate::asr::AsrResponseView|
                response.response_type == ResponseType::InterimResult,
        );
        lemma_first_at_one_more(
            messages,
            |response: crate::asr::AsrResponseView|
                (response.response_type == ResponseType::InterimResult || response.response_type
                    == ResponseType::FinalResult) && response.text.len() > 0,
        );
    }
}

/// A message adds one to the number of messages and to that of its own type, and to no other;
/// it sets the times that are not set yet and that it bears on, and the latest one always.
pub proof fn a_message_is_counted_once(
    stats: ProbeStats,
    response: crate::asr::AsrResponseView,
    now: u128,
)
    requires
        counts_agree(stats),
        stats.responses < u32::MAX,
    ensures
        ({
            let after = counted(stats, response, now);
            let is = |response_type: ResponseType| -> int
                {
                    if response.response_type == response_type {
                        1int
                    } else {
                        0int
                    }
                };
            &&& after.responses == stats.responses + 1
            &&& after.interim == stats.interim + is(ResponseType::InterimResult)
            &&& after.final_results == stats.final_results + is(ResponseType::FinalResult)
            &&& after.vad_start == stats.vad_start + is(ResponseType::VadStart)
            &&& after.errors == stats.errors + is(ResponseType::Error)
            &&& after.session_finished <==> stats.session_finished || response.response_type
                == ResponseType::SessionFinished
            &&& after.last_response_at == Some(now)
            &&& after.first_response_at == Some(
                if stats.first_response_at is Some {
                    stats.first_response_at->0
                } else {
                    now
                },
            )
            &&& stats.first_interim_at is Some ==> after.first_interim_at == stats.first_interim_at
            &&& stats.first_text_at is Some ==> after.first_text_at == stats.first_text_at
            &&& stats.last_response_at is None ==> after.max_response_gap == stats.max_response_gap
            &&& stats.last_response_at matches Some(last) ==> {
                &&& after.max_response_gap >= stats.max_response_gap
                &&& last <= now ==> after.max_response_gap >= now - last
                &&& after.max_response_gap == stats.max_response_gap || after.max_response_gap
                    == now - last
            }
        }),
{
}

/// The settings on the command line, read one after the other: an option with a value behind it
/// is that setting, and both are passed; one without a value behind it is nothing; a call for
/// help is that; and anything else is passed over.
pub proof fn arguments_are_read_one_by_one(args: Seq<Seq<char>>, from: int)
    requires
        0 <= from < args.len(),
    ensures
        ({
            let arg = args[from];
            let rest = options_from(args, from);
            let duration = arg == "--duration"@ || arg == "-d"@;
            let drain = arg == "--drain-timeout"@;
            let help = arg == "--help"@ || arg == "-h"@;
            let valued = from + 1 < args.len();
            &&& (duration || drain) && !valued ==> rest.len() == 0
            &&& duration && valued ==> rest.len() > 0 && rest[0] == ProbeOptionView::Duration(
                args[from + 1],
            ) && rest.drop_first() == options_from(args, from + 2)
            &&& drain && valued ==> rest.len() > 0 && rest[0] == ProbeOptionView::DrainTimeout(
                args[from + 1],
            ) && rest.drop_first() == options_from(args, from + 2)
            &&& help ==> rest.len() > 0 && rest[0] is Help && rest.drop_first() == options_from(
                args,
                from + 1,
            )
            &&& !duration && !drain && !help ==> rest == options_from(args, from + 1)
            &&& options_from(args, args.len() as int).len() == 0
        }),
{
    reveal_strlit("--duration");
    reveal_strlit("-d");
    reveal_strlit("--drain-timeout");
    reveal_strlit("--help");
    reveal_strlit("-h");
    assert("--duration"@.len() == 10 && "--drain-timeout"@.len() == 15 && "--help"@.len() == 6);
    assert("-d"@[1] == 'd' && "-h"@[1] == 'h');
    let rest = options_from(args, from);
    assert(rest.len() > 0 ==> rest.drop_first() =~= rest.skip(1));
    let value = args[from + 1];
    assert((seq![ProbeOptionView::Duration(value)] + options_from(args, from + 2)).drop_first()
        =~= options_from(args, from + 2));
    assert((seq![ProbeOptionView::DrainTimeout(value)] + options_from(args, from + 2)).drop_first()
        =~= options_from(args, from + 2));
    assert((seq![ProbeOptionView::Help] + options_from(args, from + 1)).drop_first()
        =~= options_from(args, from + 1));
}

/// The wait for the last messages is over exactly if the session has ended or the time for it
/// has passed; a single wait never outlasts that time, nor half a second, and is as long as
/// these two allow.
pub proof fn waits_stay_within_the_time(stats: ProbeStats, elapsed: u128, timeout: u128)
    ensures
        next_wait(stats, elapsed, timeout) is None <==> stats.session_finished || elapsed
            >= timeout,
        next_wait(stats, elapsed, timeout) matches Some(wait) ==> {
            &&& 0 < wait <= 500_000_000
            &&& elapsed + wait <= timeout
            &&& wait == 500_000_000 || elapsed + wait == timeout
        },
{
}

} // verus!
