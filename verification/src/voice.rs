//! Voice input: when to record, and what to do with the recognised text.

use crate::asr::{AsrResponse, ResponseType};
use crate::config::AsrConfig;
use crate::desktop::Desktop;
use crate::hotkey::HotkeyEvent;
use crate::inserter::{Reply, Step, TextInserter, TextTask};
use crate::text::{chars_of, string_of};
use crate::time::{elapsed, nanos_of_millis};
use vstd::prelude::*;

verus! {

broadcast use vstd::string::group_string_axioms;

// ---------------------------------------------------------------------------------------
// Incremental text updates
// ---------------------------------------------------------------------------------------

/// The number of characters that two texts have in common at their start.
pub open spec fn common_prefix(old_text: Seq<char>, new_text: Seq<char>) -> nat
    decreases old_text.len(),
{
    if old_text.len() == 0 || new_text.len() == 0 || old_text[0] != new_text[0] {
        0
    } else {
        1 + common_prefix(old_text.drop_first(), new_text.drop_first())
    }
}

/// The number of characters of the old text that an update to the new text deletes.
pub open spec fn rollback(old_text: Seq<char>, new_text: Seq<char>) -> int {
    old_text.len() - common_prefix(old_text, new_text)
}

/// The characters of the new text that an update from the old text inserts.
pub open spec fn appended(old_text: Seq<char>, new_text: Seq<char>) -> Seq<char> {
    new_text.skip(common_prefix(old_text, new_text) as int)
}

/// The common prefix is a prefix of both texts, and the longest one.
pub proof fn common_prefix_is_longest(old_text: Seq<char>, new_text: Seq<char>)
    ensures
        ({
            let n = common_prefix(old_text, new_text);
            &&& n <= old_text.len()
            &&& n <= new_text.len()
            &&& old_text.take(n as int) == new_text.take(n as int)
            &&& forall|m: int|
                0 <= m <= old_text.len() && m <= new_text.len() && #[trigger] old_text.take(m)
                    == new_text.take(m) ==> m <= n
        }),
    decreases old_text.len(),
{
    let n = common_prefix(old_text, new_text);
    if old_text.len() == 0 || new_text.len() == 0 || old_text[0] != new_text[0] {
        assert(old_text.take(0) =~= new_text.take(0));
        assert forall|m: int|
            0 <= m <= old_text.len() && m <= new_text.len() && #[trigger] old_text.take(m)
                == new_text.take(m) implies m <= n by {
            if m > 0 {
                assert(old_text.take(m)[0] == new_text.take(m)[0]);
            }
        }
    } else {
        let old_rest = old_text.drop_first();
        let new_rest = new_text.drop_first();
        common_prefix_is_longest(old_rest, new_rest);
        let k = common_prefix(old_rest, new_rest) as int;
        assert forall|i: int| 0 <= i < n implies old_text.take(n as int)[i] == new_text.take(
            n as int,
        )[i] by {
            if i > 0 {
                assert(old_rest.take(k)[i - 1] == new_rest.take(k)[i - 1]);
            }
        }
        assert(old_text.take(n as int) =~= new_text.take(n as int));
        assert forall|m: int|
            0 <= m <= old_text.len() && m <= new_text.len() && #[trigger] old_text.take(m)
                == new_text.take(m) implies m <= n by {
            if m > 0 {
                let shorter = m - 1;
                assert forall|i: int| 0 <= i < shorter implies old_rest.take(shorter)[i]
                    == new_rest.take(shorter)[i] by {
                    assert(old_text.take(m)[i + 1] == new_text.take(m)[i + 1]);
                }
                assert(old_rest.take(shorter) =~= new_rest.take(shorter));
            }
        }
    }
}

/// Deleting what the update deletes and inserting what it inserts turns the old text into the
/// new one.
pub proof fn update_turns_old_into_new(old_text: Seq<char>, new_text: Seq<char>)
    ensures
        old_text.take(old_text.len() - rollback(old_text, new_text)) + appended(old_text, new_text)
            == new_text,
        0 <= rollback(old_text, new_text) <= old_text.len(),
{
    common_prefix_is_longest(old_text, new_text);
    let n = common_prefix(old_text, new_text) as int;
    assert(new_text.take(n) + new_text.skip(n) =~= new_text);
}

/// A text that only grows is never deleted from: what is new is added at its end.
pub proof fn growing_text_is_only_appended(old_text: Seq<char>, more: Seq<char>)
    ensures
        rollback(old_text, old_text + more) == 0,
        appended(old_text, old_text + more) == more,
{
    common_prefix_is_longest(old_text, old_text + more);
    let n = old_text.len() as int;
    assert(old_text.take(n) =~= (old_text + more).take(n));
    assert(n <= common_prefix(old_text, old_text + more));
    assert((old_text + more).skip(n) =~= more);
}

/// The number of characters that two texts have in common at their start.
pub fn common_prefix_chars(old_text: &str, new_text: &str) -> (r: usize)
    ensures
        r == common_prefix(old_text@, new_text@),
{
    let old_chars: Vec<char> = chars_of(old_text);
    let new_chars: Vec<char> = chars_of(new_text);
    let mut n: usize = 0;
    assert(old_chars@.skip(0) =~= old_chars@);
    assert(new_chars@.skip(0) =~= new_chars@);
    while n < old_chars.len() && n < new_chars.len() && old_chars[n] == new_chars[n]
        invariant
            n <= old_chars@.len(),
            n <= new_chars@.len(),
            n + common_prefix(old_chars@.skip(n as int), new_chars@.skip(n as int))
                == common_prefix(old_chars@, new_chars@),
        decreases old_chars@.len() - n,
    {
        assert(old_chars@.skip(n as int).drop_first() =~= old_chars@.skip(n as int + 1));
        assert(new_chars@.skip(n as int).drop_first() =~= new_chars@.skip(n as int + 1));
        n += 1;
    }
    n
}

/// The number of characters of the old text that an update to the new text deletes.
pub fn rollback_chars(old_text: &str, new_text: &str) -> (r: usize)
    ensures
        r == rollback(old_text@, new_text@),
{
    proof {
        common_prefix_is_longest(old_text@, new_text@);
    }
    chars_of(old_text).len() - common_prefix_chars(old_text, new_text)
}

/// The task that turns `old_text`, which is before the cursor, into `new_text`: only what
/// follows the common prefix is deleted, and only what is new is inserted.
pub fn update_text(
    text_inserter: &TextInserter,
    old_text: &str,
    new_text: &str,
    prefer_fast_insert: bool,
) -> (r: (TextTask, Step))
    ensures
        crate::inserter::task_view(r) == crate::inserter::replaced(
            text_inserter@,
            rollback(old_text@, new_text@) as nat,
            appended(old_text@, new_text@),
            prefer_fast_insert,
        ),
{
    proof {
        common_prefix_is_longest(old_text@, new_text@);
    }
    let kept: usize = common_prefix_chars(old_text, new_text);
    let chars_to_delete: usize = rollback_chars(old_text, new_text);
    let new_chars: Vec<char> = chars_of(new_text);
    let mut suffix: Vec<char> = Vec::new();
    let mut i: usize = kept;
    while i < new_chars.len()
        invariant
            kept <= i <= new_chars@.len(),
            suffix@ == new_chars@.subrange(kept as int, i as int),
        decreases new_chars@.len() - i,
    {
        suffix.push(new_chars[i]);
        i += 1;
        assert(new_chars@.subrange(kept as int, i as int) =~= new_chars@.subrange(
            kept as int,
            i as int - 1,
        ).push(new_chars@[i as int - 1]));
    }
    assert(suffix@ =~= new_chars@.skip(kept as int));
    let text_to_append: String = string_of(suffix.as_slice());
    text_inserter.replace(chars_to_delete, text_to_append, prefer_fast_insert)
}

// ---------------------------------------------------------------------------------------
// One session
// ---------------------------------------------------------------------------------------

/// The longest wait for a message between two looks at the stop signal, in milliseconds.
pub const RECEIVE_WAIT_MS: u64 = 100;

/// What came of waiting for a message.
#[derive(Debug)]
pub enum Received {
    /// A message.
    Response(AsrResponse),
    /// There will be no more messages.
    Closed,
    /// No message came in time.
    Idle,
}

/// A [`Received`] by its values.
pub enum ReceivedView {
    Response(crate::asr::AsrResponseView),
    Closed,
    Idle,
}

impl View for Received {
    type V = ReceivedView;

    open spec fn view(&self) -> ReceivedView {
        match self {
            Received::Response(response) => ReceivedView::Response(response@),
            Received::Closed => ReceivedView::Closed,
            Received::Idle => ReceivedView::Idle,
        }
    }
}

/// An update of the text before the cursor.
#[derive(Debug, Clone)]
pub struct TextUpdate {
    pub old_text: String,
    pub new_text: String,
    pub fast: bool,
}

/// A [`TextUpdate`] by its values.
pub struct TextUpdateView {
    pub old_text: Seq<char>,
    pub new_text: Seq<char>,
    pub fast: bool,
}

impl View for TextUpdate {
    type V = TextUpdateView;

    open spec fn view(&self) -> TextUpdateView {
        TextUpdateView { old_text: self.old_text@, new_text: self.new_text@, fast: self.fast }
    }
}

/// The task that carries out an update of the text.
pub open spec fn update_task(
    config: crate::config::TextInsertionConfigView,
    update: TextUpdateView,
) -> (crate::inserter::StageView, crate::inserter::StepView) {
    crate::inserter::replaced(
        config,
        rollback(update.old_text, update.new_text) as nat,
        appended(update.old_text, update.new_text),
        update.fast,
    )
}

/// Why a session is over.
#[derive(Debug, Clone)]
pub enum SessionEnd {
    /// A settled text has come after the stop.
    FinalAfterStop,
    /// The server has ended the session.
    SessionFinished,
    /// The server has reported an error.
    ServerError(String),
    /// There are no more messages.
    ChannelClosed,
}

/// A [`SessionEnd`] by its values.
pub enum SessionEndView {
    FinalAfterStop,
    SessionFinished,
    ServerError(Seq<char>),
    ChannelClosed,
}

impl View for SessionEnd {
    type V = SessionEndView;

    open spec fn view(&self) -> SessionEndView {
        match self {
            SessionEnd::FinalAfterStop => SessionEndView::FinalAfterStop,
            SessionEnd::SessionFinished => SessionEndView::SessionFinished,
            SessionEnd::ServerError(reason) => SessionEndView::ServerError(reason@),
            SessionEnd::ChannelClosed => SessionEndView::ChannelClosed,
        }
    }
}

/// What to do about a message: first the update of the text, then the end of the session.
#[derive(Debug)]
pub struct Reaction {
    pub update: Option<TextUpdate>,
    pub end: Option<SessionEnd>,
}

/// A [`Reaction`] by its values.
pub struct ReactionView {
    pub update: Option<TextUpdateView>,
    pub end: Option<SessionEndView>,
}

impl View for Reaction {
    type V = ReactionView;

    open spec fn view(&self) -> ReactionView {
        ReactionView {
            update: match self.update {
                Some(update) => Some(update@),
                None => None,
            },
            end: match self.end {
                Some(end) => Some(end@),
                None => None,
            },
        }
    }
}

/// What a session has to do before its next message.
#[derive(Debug, Clone, Copy, PartialEq, Eq, Structural)]
pub enum Poll {
    /// Stop the microphone, then begin to wait for the last messages.
    StopMicrophone,
    /// Wait for a message.
    Receive,
    /// End: the last messages have not come in time.
    TimedOut,
}

/// A session under way.
#[derive(Debug)]
pub struct VoiceSession {
    config: AsrConfig,
    last_text: String,
    drain_started_at: Option<u128>,
    last_interim_update_at: u128,
}

/// A [`VoiceSession`] by its values.
pub struct VoiceSessionView {
    /// The recognition settings.
    pub config: AsrConfig,
    /// The text before the cursor that may still change.
    pub last_text: Seq<char>,
    /// When the session began to wait for its last messages.
    pub drain_started_at: Option<u128>,
    /// When a text that may still change was written last.
    pub last_interim_update_at: u128,
}

impl View for VoiceSession {
    type V = VoiceSessionView;

    closed spec fn view(&self) -> VoiceSessionView {
        VoiceSessionView {
            config: self.config,
            last_text: self.last_text@,
            drain_started_at: self.drain_started_at,
            last_interim_update_at: self.last_interim_update_at,
        }
    }
}

/// A session that begins at `now`. The first text may be written at once, unless the clock
/// does not reach back as far as one update interval.
pub open spec fn fresh_session(config: AsrConfig, now: u128) -> VoiceSessionView {
    let interval = crate::time::millis(config.interim_update_interval_ms);
    VoiceSessionView {
        config,
        last_text: Seq::empty(),
        drain_started_at: None,
        last_interim_update_at: if interval <= now {
            (now - interval) as u128
        } else {
            now
        },
    }
}

/// No reaction.
pub open spec fn no_reaction() -> ReactionView {
    ReactionView { update: None, end: None }
}

/// A text that may still change is written: such texts are wanted, the update interval has
/// passed, and not too many characters would be deleted.
pub open spec fn writes_interim(session: VoiceSessionView, text: Seq<char>, now: u128) -> bool {
    &&& text.len() > 0
    &&& session.config.interim_insert
    &&& crate::time::since(session.last_interim_update_at, now) >= crate::time::millis(
        session.config.interim_update_interval_ms,
    )
    &&& rollback(session.last_text, text) <= session.config.max_interim_rollback_chars
}

/// The session after a message at `now`, and what to do about it.
pub open spec fn reaction(session: VoiceSessionView, received: ReceivedView, now: u128) -> (
    VoiceSessionView,
    ReactionView,
) {
    match received {
        ReceivedView::Idle => (session, no_reaction()),
        ReceivedView::Closed => (
            session,
            ReactionView { update: None, end: Some(SessionEndView::ChannelClosed) },
        ),
        ReceivedView::Response(response) => match response.response_type {
            ResponseType::InterimResult => if writes_interim(session, response.text, now) {
                (
                    VoiceSessionView { last_text: response.text, ..session },
                    ReactionView {
                        update: Some(
                            TextUpdateView {
                                old_text: session.last_text,
                                new_text: response.text,
                                fast: false,
                            },
                        ),
                        end: None,
                    },
                )
            } else {
                (session, no_reaction())
            },
            ResponseType::FinalResult => (
                if response.text.len() > 0 {
                    VoiceSessionView { last_text: Seq::empty(), ..session }
                } else {
                    session
                },
                ReactionView {
                    update: if response.text.len() > 0 {
                        Some(
                            TextUpdateView {
                                old_text: session.last_text,
                                new_text: response.text,
                                fast: true,
                            },
                        )
                    } else {
                        None
                    },
                    end: if session.drain_started_at is Some {
                        Some(SessionEndView::FinalAfterStop)
                    } else {
                        None
                    },
                },
            ),
            ResponseType::SessionFinished => (
                session,
                ReactionView { update: None, end: Some(SessionEndView::SessionFinished) },
            ),
            ResponseType::Error => (
                session,
                ReactionView {
                    update: None,
                    end: Some(SessionEndView::ServerError(response.error_msg)),
                },
            ),
            _ => (session, no_reaction()),
        },
    }
}

/// The session has waited for its last messages as long as it may.
pub open spec fn drain_is_over(session: VoiceSessionView, now: u128) -> bool {
    session.drain_started_at matches Some(started) && crate::time::since(started, now)
        >= crate::time::millis(session.config.final_drain_timeout_ms)
}

/// What a session has to do at `now` before its next message.
pub open spec fn polled(session: VoiceSessionView, stop_requested: bool, now: u128) -> Poll {
    if stop_requested && session.drain_started_at is None {
        Poll::StopMicrophone
    } else if drain_is_over(session, now) {
        Poll::TimedOut
    } else {
        Poll::Receive
    }
}

impl VoiceSession {
    /// A session that begins at `now`.
    pub fn new(config: AsrConfig, now: u128) -> (r: Self)
        ensures
            r@ == fresh_session(config, now),
    {
        let interval: u128 = nanos_of_millis(config.interim_update_interval_ms);
        VoiceSession {
            config,
            last_text: String::new(),
            drain_started_at: None,
            last_interim_update_at: if interval <= now {
                now - interval
            } else {
                now
            },
        }
    }

    /// What to do at `now` before the next message.
    pub fn poll(&self, stop_requested: bool, now: u128) -> (r: Poll)
        ensures
            r == polled(self@, stop_requested, now),
    {
        match self.drain_started_at {
            None => if stop_requested {
                Poll::StopMicrophone
            } else {
                Poll::Receive
            },
            Some(started) => if elapsed(started, now) >= nanos_of_millis(
                self.config.final_drain_timeout_ms,
            ) {
                Poll::TimedOut
            } else {
                Poll::Receive
            },
        }
    }

    /// The microphone has been stopped at `now`: waits for the last messages from then on.
    pub fn begin_drain(&mut self, now: u128)
        ensures
            final(self)@ == (VoiceSessionView { drain_started_at: Some(now), ..old(self)@ }),
    {
        self.drain_started_at = Some(now);
    }

    /// Takes what came of waiting for a message, at `now`.
    pub fn on_received(&mut self, received: Received, now: u128) -> (r: Reaction)
        ensures
            (final(self)@, r@) == reaction(old(self)@, received@, now),
    {
        match received {
            Received::Idle => Reaction { update: None, end: None },
            Received::Closed => Reaction { update: None, end: Some(SessionEnd::ChannelClosed) },
            Received::Response(response) => match response.response_type {
                ResponseType::InterimResult => self.on_interim(response.text, now),
                ResponseType::FinalResult => self.on_final(response.text),
                ResponseType::SessionFinished => Reaction {
                    update: None,
                    end: Some(SessionEnd::SessionFinished),
                },
                ResponseType::Error => Reaction {
                    update: None,
                    end: Some(SessionEnd::ServerError(response.error_msg)),
                },
                _ => Reaction { update: None, end: None },
            },
        }
    }

    /// Takes a text that may still change.
    fn on_interim(&mut self, text: String, now: u128) -> (r: Reaction)
        ensures
            if writes_interim(old(self)@, text@, now) {
                &&& final(self)@ == (VoiceSessionView { last_text: text@, ..old(self)@ })
                &&& r@ == (ReactionView {
                    update: Some(
                        TextUpdateView {
                            old_text: old(self)@.last_text,
                            new_text: text@,
                            fast: false,
                        },
                    ),
                    end: None,
                })
            } else {
                final(self)@ == old(self)@ && r@ == no_reaction()
            },
    {
        if text.as_str().is_empty() || !self.config.interim_insert {
            return Reaction { update: None, end: None };
        }
        if elapsed(self.last_interim_update_at, now) < nanos_of_millis(
            self.config.interim_update_interval_ms,
        ) {
            return Reaction { update: None, end: None };
        }
        if rollback_chars(self.last_text.as_str(), text.as_str())
            > self.config.max_interim_rollback_chars {
            return Reaction { update: None, end: None };
        }
        let old_text: String = self.last_text.clone();
        self.last_text = text.clone();
        Reaction { update: Some(TextUpdate { old_text, new_text: text, fast: false }), end: None }
    }

    /// Takes a text that is settled. What was written of it is not touched any more.
    fn on_final(&mut self, text: String) -> (r: Reaction)
        ensures
            final(self)@ == (if text@.len() > 0 {
                VoiceSessionView { last_text: Seq::empty(), ..old(self)@ }
            } else {
                old(self)@
            }),
            r@ == (ReactionView {
                update: if text@.len() > 0 {
                    Some(
                        TextUpdateView {
                            old_text: old(self)@.last_text,
                            new_text: text@,
                            fast: true,
                        },
                    )
                } else {
                    None
                },
                end: if old(self)@.drain_started_at is Some {
                    Some(SessionEndView::FinalAfterStop)
                } else {
                    None
                },
            }),
    {
        let end: Option<SessionEnd> = if self.drain_started_at.is_some() {
            Some(SessionEnd::FinalAfterStop)
        } else {
            None
        };
        if text.as_str().is_empty() {
            return Reaction { update: None, end };
        }
        let old_text: String = self.last_text.clone();
        self.last_text = String::new();
        Reaction { update: Some(TextUpdate { old_text, new_text: text, fast: true }), end }
    }

    /// A text that may still change has been written; the update was done at `now`.
    pub fn interim_written(&mut self, now: u128)
        ensures
            final(self)@ == (VoiceSessionView { last_interim_update_at: now, ..old(self)@ }),
    {
        self.last_interim_update_at = now;
    }
}

// ---------------------------------------------------------------------------------------
// Notices
// ---------------------------------------------------------------------------------------

/// The line that tells the user of a message, if it is one to be told of.
pub open spec fn notice_of(response: crate::asr::AsrResponseView) -> Option<Seq<char>> {
    match response.response_type {
        ResponseType::InterimResult => Some("📝 [识别中] "@ + response.text),
        ResponseType::FinalResult => Some("✅ [确认] "@ + response.text),
        ResponseType::SessionFinished => Some("🏁 [会话结束]"@),
        ResponseType::Error => Some("❌ [错误] "@ + response.error_msg),
        _ => None,
    }
}

/// The line that tells the user of a message, if it is one to be told of.
pub fn notice(response: &AsrResponse) -> (r: Option<String>)
    ensures
        match notice_of(response@) {
            Some(line) => r matches Some(text) && text@ == line,
            None => r is None,
        },
{
    match response.response_type {
        ResponseType::InterimResult => Some(
            "📝 [识别中] ".to_string().concat(response.text.as_str()),
        ),
        ResponseType::FinalResult => Some(
            "✅ [确认] ".to_string().concat(response.text.as_str()),
        ),
        ResponseType::SessionFinished => Some("🏁 [会话结束]".to_string()),
        ResponseType::Error => Some("❌ [错误] ".to_string().concat(response.error_msg.as_str())),
        _ => None,
    }
}

// ---------------------------------------------------------------------------------------
// The controller
// ---------------------------------------------------------------------------------------

/// What the microphone has to do.
#[derive(Debug, Clone, Copy, PartialEq, Eq, Structural)]
pub enum VoiceCommand {
    /// Nothing.
    Nothing,
    /// Start the microphone, then connect and begin a session.
    StartCapture,
    /// Stop the microphone; the session goes on until its last messages have come.
    StopCapture,
}

/// Decides when voice input starts and stops.
#[derive(Debug)]
pub struct VoiceController {
    text_inserter: TextInserter,
    asr_config: AsrConfig,
    recording: bool,
    stop_requested: bool,
}

/// A [`VoiceController`] by its values.
pub struct VoiceControllerView {
    /// The settings of the text insertion.
    pub text_insertion: crate::config::TextInsertionConfigView,
    /// The recognition settings.
    pub asr_config: AsrConfig,
    /// A session is under way, or waiting for its last messages.
    pub recording: bool,
    /// The session is to end.
    pub stop_requested: bool,
}

impl View for VoiceController {
    type V = VoiceControllerView;

    closed spec fn view(&self) -> VoiceControllerView {
        VoiceControllerView {
            text_insertion: self.text_inserter@,
            asr_config: self.asr_config,
            recording: self.recording,
            stop_requested: self.stop_requested,
        }
    }
}

/// Starting voice input: nothing where it is on already.
pub open spec fn started(controller: VoiceControllerView) -> (VoiceControllerView, VoiceCommand) {
    if controller.recording {
        (controller, VoiceCommand::Nothing)
    } else {
        (
            VoiceControllerView { recording: true, stop_requested: false, ..controller },
            VoiceCommand::StartCapture,
        )
    }
}

/// Stopping voice input: nothing where it is off. It stays on until its session has ended.
pub open spec fn stopped(controller: VoiceControllerView) -> (VoiceControllerView, VoiceCommand) {
    if controller.recording {
        (
            VoiceControllerView { stop_requested: true, ..controller },
            VoiceCommand::StopCapture,
        )
    } else {
        (controller, VoiceCommand::Nothing)
    }
}

/// Switching voice input: stops it where it is on, else starts it.
pub open spec fn toggled(controller: VoiceControllerView) -> (VoiceControllerView, VoiceCommand) {
    if controller.recording {
        stopped(controller)
    } else {
        started(controller)
    }
}

/// The session has ended, or could not be opened: voice input is off.
pub open spec fn ended(controller: VoiceControllerView) -> VoiceControllerView {
    VoiceControllerView { recording: false, stop_requested: false, ..controller }
}

/// The session that a controller begins at `now`.
pub open spec fn session_begun(controller: VoiceControllerView, now: u128) -> VoiceSessionView {
    fresh_session(controller.asr_config, now)
}

impl VoiceController {
    /// A controller with voice input off.
    pub fn new(text_inserter: TextInserter, asr_config: AsrConfig) -> (r: Self)
        ensures
            r@ == (VoiceControllerView {
                text_insertion: text_inserter@,
                asr_config,
                recording: false,
                stop_requested: false,
            }),
    {
        VoiceController { text_inserter, asr_config, recording: false, stop_requested: false }
    }

    /// Whether a session is under way, or waiting for its last messages.
    pub fn is_recording(&self) -> (r: bool)
        ensures
            r == self@.recording,
    {
        self.recording
    }

    /// Whether the session is to end.
    pub fn stop_requested(&self) -> (r: bool)
        ensures
            r == self@.stop_requested,
    {
        self.stop_requested
    }

    /// Switches voice input on or off.
    pub fn toggle(&mut self) -> (r: VoiceCommand)
        ensures
            (final(self)@, r) == toggled(old(self)@),
    {
        if self.is_recording() {
            self.stop()
        } else {
            self.start()
        }
    }

    /// Switches voice input on.
    pub fn start(&mut self) -> (r: VoiceCommand)
        ensures
            (final(self)@, r) == started(old(self)@),
    {
        if self.recording {
            return VoiceCommand::Nothing;
        }
        self.recording = true;
        self.stop_requested = false;
        VoiceCommand::StartCapture
    }

    /// Switches voice input off.
    pub fn stop(&mut self) -> (r: VoiceCommand)
        ensures
            (final(self)@, r) == stopped(old(self)@),
    {
        if !self.recording {
            return VoiceCommand::Nothing;
        }
        self.stop_requested = true;
        VoiceCommand::StopCapture
    }

    /// The session that begins at `now`.
    pub fn begin_session(&self, now: u128) -> (r: VoiceSession)
        ensures
            r@ == session_begun(self@, now),
    {
        VoiceSession::new(self.asr_config, now)
    }

    /// The task that carries out an update of the text.
    pub fn update(&self, update: &TextUpdate) -> (r: (TextTask, Step))
        ensures
            crate::inserter::task_view(r) == update_task(self@.text_insertion, update@),
    {
        update_text(
            &self.text_inserter,
            update.old_text.as_str(),
            update.new_text.as_str(),
            update.fast,
        )
    }

    /// The next step of such a task, after the reply to the last one.
    pub fn resume_update(&self, task: TextTask, reply: Reply) -> (r: (TextTask, Step))
        requires
            crate::inserter::answers(task@, reply@),
        ensures
            crate::inserter::task_view(r) == crate::inserter::resumed(
                self@.text_insertion,
                task@,
                reply@,
            ),
    {
        self.text_inserter.resume(task, reply)
    }

    /// The microphone or the session could not be opened after [`VoiceCommand::StartCapture`]:
    /// nothing is recorded, and voice input can be started again.
    pub fn start_failed(&mut self)
        ensures
            final(self)@ == ended(old(self)@),
    {
        self.recording = false;
        self.stop_requested = false;
    }

    /// The session has ended.
    pub fn session_ended(&mut self)
        ensures
            final(self)@ == ended(old(self)@),
    {
        self.recording = false;
        self.stop_requested = false;
    }
}

// ---------------------------------------------------------------------------------------
// Hotkey events
// ---------------------------------------------------------------------------------------

/// Lets the events of a hotkey switch voice input. A press of the tap/hold key always starts;
/// at its end a tap keeps the recording that the press began and stops one that was already
/// under way, and a hold stops.
#[derive(Debug)]
pub struct HotkeyControl {
    began: bool,
}

/// What an event of the hotkey does, where the latest press of the tap/hold key `began` a
/// recording or did not.
pub open spec fn controlled(
    controller: VoiceControllerView,
    began: bool,
    event: HotkeyEvent,
) -> (VoiceControllerView, bool, VoiceCommand) {
    let (after, command) = match event {
        HotkeyEvent::Toggle => toggled(controller),
        HotkeyEvent::Start => started(controller),
        HotkeyEvent::Stop => stopped(controller),
        HotkeyEvent::Tap => if began {
            (controller, VoiceCommand::Nothing)
        } else {
            stopped(controller)
        },
    };
    (
        after,
        if event == HotkeyEvent::Start {
            !controller.recording
        } else {
            began
        },
        command,
    )
}

impl HotkeyControl {
    /// The latest press of the tap/hold key began a recording.
    pub closed spec fn began(self) -> bool {
        self.began
    }

    /// No press has begun a recording yet.
    pub fn new() -> (r: Self)
        ensures
            !r.began(),
    {
        HotkeyControl { began: false }
    }

    /// Takes an event of the hotkey.
    pub fn on_event(&mut self, controller: &mut VoiceController, event: HotkeyEvent) -> (r:
        VoiceCommand)
        ensures
            (final(controller)@, final(self).began(), r) == controlled(
                old(controller)@,
                old(self).began(),
                event,
            ),
    {
        match event {
            HotkeyEvent::Toggle => controller.toggle(),
            HotkeyEvent::Start => {
                self.began = !controller.is_recording();
                controller.start()
            },
            HotkeyEvent::Stop => controller.stop(),
            HotkeyEvent::Tap => if self.began {
                VoiceCommand::Nothing
            } else {
                controller.stop()
            },
        }
    }
}

// ---------------------------------------------------------------------------------------
// Laws
// ---------------------------------------------------------------------------------------

/// One thing that happens to a session.
pub enum Turn {
    /// Something was received at `now`; if a text was written, that was done at `written_at`.
    Received { received: ReceivedView, now: u128, written_at: u128 },
    /// The microphone was stopped at `now`.
    Stopped { now: u128 },
}

/// What a session does at a turn.
pub open spec fn turn_reaction(session: VoiceSessionView, turn: Turn) -> ReactionView {
    match turn {
        Turn::Received { received, now, .. } => reaction(session, received, now).1,
        Turn::Stopped { .. } => no_reaction(),
    }
}

/// A text that may still change is written at a turn.
pub open spec fn interim_written_at(session: VoiceSessionView, turn: Turn) -> bool {
    turn_reaction(session, turn).update matches Some(update) && !update.fast
}

/// A session after a turn.
pub open spec fn turn_taken(session: VoiceSessionView, turn: Turn) -> VoiceSessionView {
    match turn {
        Turn::Received { received, now, written_at } => {
            let after = reaction(session, received, now).0;
            if interim_written_at(session, turn) {
                VoiceSessionView { last_interim_update_at: written_at, ..after }
            } else {
                after
            }
        },
        Turn::Stopped { now } => VoiceSessionView { drain_started_at: Some(now), ..session },
    }
}

/// A session after a row of turns.
pub open spec fn session_run(session: VoiceSessionView, turns: Seq<Turn>) -> VoiceSessionView
    decreases turns.len(),
{
    if turns.len() == 0 {
        session
    } else {
        turn_taken(session_run(session, turns.drop_last()), turns.last())
    }
}

/// The desktop after a row of turns, if every update of the text succeeds.
pub open spec fn desktop_run(
    config: crate::config::TextInsertionConfigView,
    desktop: Desktop,
    session: VoiceSessionView,
    turns: Seq<Turn>,
) -> Desktop
    decreases turns.len(),
{
    if turns.len() == 0 {
        desktop
    } else {
        let before = desktop_run(config, desktop, session, turns.drop_last());
        match turn_reaction(session_run(session, turns.drop_last()), turns.last()).update {
            Some(update) => crate::desktop::completed(config, before, update_task(config, update)),
            None => before,
        }
    }
}

/// The settled texts of a row of turns, one after the other.
pub open spec fn settled_text(turns: Seq<Turn>) -> Seq<char>
    decreases turns.len(),
{
    if turns.len() == 0 {
        Seq::empty()
    } else {
        let before = settled_text(turns.drop_last());
        match turns.last() {
            Turn::Received { received: ReceivedView::Response(response), .. } => if response
                .response_type == ResponseType::FinalResult {
                before + response.text
            } else {
                before
            },
            _ => before,
        }
    }
}

/// What an update adds arrives whole.
pub open spec fn update_arrives(
    config: crate::config::TextInsertionConfigView,
    update: Option<TextUpdateView>,
) -> bool {
    update matches Some(u) ==> crate::desktop::arrives_whole(
        config,
        appended(u.old_text, u.new_text),
        u.fast,
    )
}

/// What every update in a row of turns adds arrives whole.
pub open spec fn updates_arrive(
    config: crate::config::TextInsertionConfigView,
    session: VoiceSessionView,
    turns: Seq<Turn>,
) -> bool
    decreases turns.len(),
{
    turns.len() > 0 ==> {
        &&& updates_arrive(config, session, turns.drop_last())
        &&& update_arrives(
            config,
            turn_reaction(session_run(session, turns.drop_last()), turns.last()).update,
        )
    }
}

/// An update carried out turns the old text before the cursor into the new one, whatever
/// stands before it.
pub proof fn update_rewrites_the_text(
    config: crate::config::TextInsertionConfigView,
    desktop: Desktop,
    before: Seq<char>,
    update: TextUpdateView,
)
    requires
        desktop.text == before + update.old_text,
        crate::desktop::valid(desktop),
        update_arrives(config, Some(update)),
    ensures
        ({
            let after = crate::desktop::completed(config, desktop, update_task(config, update));
            &&& after.text == before + update.new_text
            &&& desktop.clipboard is Some ==> after.clipboard == desktop.clipboard
            &&& crate::desktop::valid(after)
        }),
{
    let old_text = update.old_text;
    let new_text = update.new_text;
    let count = rollback(old_text, new_text);
    update_turns_old_into_new(old_text, new_text);
    crate::desktop::replacement_rewrites_the_text(
        config,
        desktop,
        count as nat,
        appended(old_text, new_text),
        update.fast,
    );
    assert(desktop.text.take(desktop.text.len() - count) + appended(old_text, new_text) =~= before
        + (old_text.take(old_text.len() - count) + appended(old_text, new_text)));
}

/// Dictation writes what was recognised: if every update succeeds, and no NUL has to go through
/// the clipboard, where it would end the text, the text before the cursor is the text that was
/// there at the beginning, the settled texts in their order, and the latest text that may still
/// change. The clipboard, which holds no NUL either, holds its text again, if it held one.
pub proof fn dictation_writes_what_was_recognised(
    config: crate::config::TextInsertionConfigView,
    desktop: Desktop,
    session: VoiceSessionView,
    turns: Seq<Turn>,
)
    requires
        crate::desktop::valid(desktop),
        session.last_text.len() == 0,
        updates_arrive(config, session, turns),
    ensures
        ({
            let after = desktop_run(config, desktop, session, turns);
            &&& after.text == desktop.text + settled_text(turns) + session_run(
                session,
                turns,
            ).last_text
            &&& desktop.clipboard is Some ==> after.clipboard == desktop.clipboard
            &&& crate::desktop::valid(after)
        }),
    decreases turns.len(),
{
    if turns.len() == 0 {
        assert(desktop.text + settled_text(turns) + session.last_text =~= desktop.text);
    } else {
        let earlier = turns.drop_last();
        let turn = turns.last();
        dictation_writes_what_was_recognised(config, desktop, session, earlier);
        let shown = desktop_run(config, desktop, session, earlier);
        let settled = desktop.text + settled_text(earlier);
        let at = session_run(session, earlier);
        if let Some(update) = turn_reaction(at, turn).update {
            update_rewrites_the_text(config, shown, settled, update);
            if update.fast {
                assert(settled + update.new_text =~= desktop.text + settled_text(turns)
                    + session_run(session, turns).last_text);
            }
        } else {
            assert(settled_text(turns) =~= settled_text(earlier));
        }
    }
}

/// The settled texts of the first turns begin the settled texts of all turns.
proof fn lemma_settled_text_grows(turns: Seq<Turn>, k: int)
    requires
        0 <= k <= turns.len(),
    ensures
        settled_text(turns.take(k)).len() <= settled_text(turns).len(),
        settled_text(turns).take(settled_text(turns.take(k)).len() as int) == settled_text(
            turns.take(k),
        ),
    decreases turns.len() - k,
{
    let first = settled_text(turns.take(k));
    if k == turns.len() {
        assert(turns.take(k) =~= turns);
        assert(first.take(first.len() as int) =~= first);
    } else {
        lemma_settled_text_grows(turns, k + 1);
        assert(turns.take(k + 1).drop_last() =~= turns.take(k));
        let next = settled_text(turns.take(k + 1));
        assert(next.take(first.len() as int) =~= first);
        assert(settled_text(turns).take(first.len() as int) =~= settled_text(turns).take(
            next.len() as int,
        ).take(first.len() as int));
    }
}

/// Settled text is not touched any more: if every update succeeds, and no NUL has to go through
/// the clipboard, what was settled after the first turns still follows the text that was there
/// at the beginning.
pub proof fn settled_text_stays(
    config: crate::config::TextInsertionConfigView,
    desktop: Desktop,
    session: VoiceSessionView,
    turns: Seq<Turn>,
    k: int,
)
    requires
        crate::desktop::valid(desktop),
        session.last_text.len() == 0,
        updates_arrive(config, session, turns),
        0 <= k <= turns.len(),
    ensures
        ({
            let settled = desktop.text + settled_text(turns.take(k));
            let after = desktop_run(config, desktop, session, turns).text;
            settled.len() <= after.len() && after.take(settled.len() as int) == settled
        }),
{
    dictation_writes_what_was_recognised(config, desktop, session, turns);
    lemma_settled_text_grows(turns, k);
    let first = settled_text(turns.take(k));
    let settled = desktop.text + first;
    let after = desktop_run(config, desktop, session, turns).text;
    assert forall|i: int| 0 <= i < settled.len() implies after[i] == settled[i] by {
        if i >= desktop.text.len() {
            let n = i - desktop.text.len();
            assert(settled_text(turns).take(first.len() as int)[n] == first[n]);
        }
    }
    assert(after.take(settled.len() as int) =~= settled);
}

/// An update with a text that may still change deletes no more characters than the settings
/// allow.
pub proof fn interim_rollback_is_bounded(session: VoiceSessionView, turn: Turn)
    requires
        interim_written_at(session, turn),
    ensures
        ({
            let update = turn_reaction(session, turn).update->0;
            rollback(update.old_text, update.new_text)
                <= session.config.max_interim_rollback_chars
        }),
{
}

/// The settings of a session do not change.
proof fn lemma_settings_stay(session: VoiceSessionView, turns: Seq<Turn>)
    ensures
        session_run(session, turns).config == session.config,
    decreases turns.len(),
{
    if turns.len() > 0 {
        lemma_settings_stay(session, turns.drop_last());
    }
}

/// Turns that write no text that may still change leave the time of the last such text alone.
proof fn lemma_last_interim_stays(session: VoiceSessionView, turns: Seq<Turn>, i: int, j: int)
    requires
        0 <= i < j <= turns.len(),
        interim_written_at(session_run(session, turns.take(i)), turns[i]),
        forall|k: int|
            i < k < j ==> !interim_written_at(
                session_run(session, #[trigger] turns.take(k)),
                turns[k],
            ),
    ensures
        session_run(session, turns.take(j)).last_interim_update_at
            == turns[i]->Received_written_at,
    decreases j,
{
    let previous = j - 1;
    assert(turns.take(j).drop_last() =~= turns.take(previous));
    if previous > i {
        lemma_last_interim_stays(session, turns, i, previous);
        assert(!interim_written_at(session_run(session, turns.take(previous)), turns[previous]));
    }
}

/// Texts that may still change are written at most once in the update interval: from one such
/// text to the next it has passed.
pub proof fn interim_updates_are_spaced(
    session: VoiceSessionView,
    turns: Seq<Turn>,
    i: int,
    j: int,
)
    requires
        0 <= i < j < turns.len(),
        interim_written_at(session_run(session, turns.take(i)), turns[i]),
        interim_written_at(session_run(session, turns.take(j)), turns[j]),
        forall|k: int|
            i < k < j ==> !interim_written_at(
                session_run(session, #[trigger] turns.take(k)),
                turns[k],
            ),
    ensures
        crate::time::since(turns[i]->Received_written_at, turns[j]->Received_now)
            >= crate::time::millis(session.config.interim_update_interval_ms),
{
    lemma_last_interim_stays(session, turns, i, j);
    lemma_settings_stay(session, turns.take(j));
}

/// The first text of a session is written at once, if the clock reaches back as far as one
/// update interval when the session begins.
pub proof fn first_text_is_written_at_once(
    config: AsrConfig,
    begun_at: u128,
    text: Seq<char>,
    now: u128,
)
    requires
        config.interim_insert,
        crate::time::millis(config.interim_update_interval_ms) <= begun_at <= now,
        text.len() > 0,
    ensures
        writes_interim(fresh_session(config, begun_at), text, now),
{
}

/// Without texts that may still change, every update adds a settled text and deletes nothing.
pub proof fn only_settled_texts_are_written(session: VoiceSessionView, turns: Seq<Turn>, turn: Turn)
    requires
        !session.config.interim_insert,
        session.last_text.len() == 0,
    ensures
        ({
            let at = session_run(session, turns);
            turn_reaction(at, turn).update matches Some(update) ==> {
                &&& update.fast
                &&& rollback(update.old_text, update.new_text) == 0
                &&& appended(update.old_text, update.new_text) == update.new_text
                &&& settled_text(seq![turn]) == update.new_text
            }
        }),
{
    lemma_settings_stay(session, turns);
    lemma_no_interim_text(session, turns);
    let at = session_run(session, turns);
    if let Some(update) = turn_reaction(at, turn).update {
        growing_text_is_only_appended(update.old_text, update.new_text);
        assert(update.old_text + update.new_text =~= update.new_text);
        assert(seq![turn].drop_last() =~= Seq::<Turn>::empty());
        reveal_with_fuel(settled_text, 2);
        assert(settled_text(seq![turn]) =~= update.new_text);
    }
}

/// Without texts that may still change, there is never one before the cursor.
proof fn lemma_no_interim_text(session: VoiceSessionView, turns: Seq<Turn>)
    requires
        !session.config.interim_insert,
        session.last_text.len() == 0,
    ensures
        session_run(session, turns).last_text.len() == 0,
    decreases turns.len(),
{
    if turns.len() > 0 {
        lemma_no_interim_text(session, turns.drop_last());
        lemma_settings_stay(session, turns.drop_last());
    }
}

/// Once the microphone has been stopped, it is not stopped again, and the session ends at the
/// latest when the time for the last messages has passed, whatever is received.
pub proof fn drain_ends_in_time(
    session: VoiceSessionView,
    turns: Seq<Turn>,
    stopped_at: u128,
    stop_requested: bool,
    now: u128,
)
    requires
        session.drain_started_at == Some(stopped_at),
        forall|k: int| 0 <= k < turns.len() ==> turns[k] is Received,
    ensures
        polled(session_run(session, turns), stop_requested, now) == (if crate::time::since(
            stopped_at,
            now,
        ) >= crate::time::millis(session.config.final_drain_timeout_ms) {
            Poll::TimedOut
        } else {
            Poll::Receive
        }),
{
    lemma_settings_stay(session, turns);
    lemma_drain_goes_on(session, turns);
}

/// What is received does not change when the wait for the last messages began.
proof fn lemma_drain_goes_on(session: VoiceSessionView, turns: Seq<Turn>)
    requires
        forall|k: int| 0 <= k < turns.len() ==> turns[k] is Received,
    ensures
        session_run(session, turns).drain_started_at == session.drain_started_at,
    decreases turns.len(),
{
    if turns.len() > 0 {
        assert forall|k: int| 0 <= k < turns.drop_last().len() implies turns.drop_last()[k]
            is Received by {
            assert(turns[k] is Received);
        }
        lemma_drain_goes_on(session, turns.drop_last());
        assert(turns.last() is Received);
    }
}

/// A session ends on a settled text after the stop, on the end of the session, on an error, or
/// when there are no more messages; on nothing else.
pub proof fn what_ends_a_session(session: VoiceSessionView, received: ReceivedView, now: u128)
    ensures
        reaction(session, received, now).1.end is Some <==> match received {
            ReceivedView::Idle => false,
            ReceivedView::Closed => true,
            ReceivedView::Response(response) => {
                ||| response.response_type == ResponseType::SessionFinished
                ||| response.response_type == ResponseType::Error
                ||| response.response_type == ResponseType::FinalResult
                    && session.drain_started_at is Some
            },
        },
{
}

/// From off to off: switching on starts the microphone; switching again stops it, and voice
/// input stays on for the last messages; the end of the session switches it off, and the
/// controller is then as it was.
pub proof fn toggling_goes_round(controller: VoiceControllerView)
    requires
        !controller.recording,
        !controller.stop_requested,
    ensures
        ({
            let (on, first) = toggled(controller);
            let (stopping, second) = toggled(on);
            &&& first == VoiceCommand::StartCapture
            &&& on.recording && !on.stop_requested
            &&& second == VoiceCommand::StopCapture
            &&& stopping.recording && stopping.stop_requested
            &&& ended(stopping) == controller
        }),
{
}

/// After a start that failed, voice input is off as before it, whatever was asked for in
/// between, and the next start or toggle starts the microphone again.
pub proof fn failed_start_can_be_tried_again(controller: VoiceControllerView)
    requires
        !controller.recording,
        !controller.stop_requested,
    ensures
        started(controller).1 == VoiceCommand::StartCapture,
        ended(started(controller).0) == controller,
        ended(stopped(started(controller).0).0) == controller,
        started(ended(started(controller).0)).1 == VoiceCommand::StartCapture,
        toggled(ended(started(controller).0)).1 == VoiceCommand::StartCapture,
{
}

/// A tap of the key starts voice input where it is off, and stops it where it is on.
pub proof fn tap_toggles(controller: VoiceControllerView, began: bool)
    ensures
        ({
            let (pressed, now_began, first) = controlled(controller, began, HotkeyEvent::Start);
            let (after, _, second) = controlled(pressed, now_began, HotkeyEvent::Tap);
            if controller.recording {
                &&& first == VoiceCommand::Nothing
                &&& second == VoiceCommand::StopCapture
                &&& after == toggled(controller).0
            } else {
                &&& first == VoiceCommand::StartCapture
                &&& second == VoiceCommand::Nothing
                &&& after == toggled(controller).0
            }
        }),
{
}

/// Holding the key records, and letting it go stops.
pub proof fn hold_records_until_release(controller: VoiceControllerView, began: bool)
    ensures
        ({
            let (pressed, now_began, first) = controlled(controller, began, HotkeyEvent::Start);
            let (after, _, second) = controlled(pressed, now_began, HotkeyEvent::Stop);
            &&& pressed.recording
            &&& first == VoiceCommand::StartCapture <==> !controller.recording
            &&& second == VoiceCommand::StopCapture
            &&& after.stop_requested
        }),
{
}

/// The tap/hold key, from its events to voice input: pressing it switches voice input on where
/// it is off. Releasing it before the threshold leaves voice input as one toggle would;
/// releasing it at the threshold or later asks for its end.
pub proof fn key_switches_voice_input(
    target: crate::keys::TapHoldTargetView,
    threshold: nat,
    down: crate::hotkey::TapHoldInput,
    up: crate::hotkey::TapHoldInput,
    controller: VoiceControllerView,
    began: bool,
)
    requires
        crate::hotkey::concerns(target, down),
        down.event.is_down(),
        crate::hotkey::concerns(target, up),
        up.event.is_up(),
    ensures
        ({
            let released = crate::hotkey::TapHoldState::released();
            let (held, first) = crate::hotkey::tap_hold_step(target, threshold, released, down);
            let (_, second) = crate::hotkey::tap_hold_step(target, threshold, held, up);
            &&& first is Some && second is Some
            &&& {
                let (pressed, now_began, _) = controlled(controller, began, first->0);
                let after = controlled(pressed, now_began, second->0).0;
                &&& pressed.recording
                &&& if crate::time::since(down.now, up.now) < threshold {
                    after == toggled(controller).0
                } else {
                    after == stopped(started(controller).0).0
                }
            }
        }),
{
    crate::hotkey::press_and_release(target, threshold, down, up);
    tap_toggles(controller, began);
    hold_records_until_release(controller, began);
}

/// While voice input is on, nothing but the end of the session, or the failure to open it,
/// switches it off, and the microphone is not started a second time.
pub proof fn recording_lasts_until_the_session_ends(controller: VoiceControllerView)
    requires
        controller.recording,
    ensures
        started(controller).0.recording,
        stopped(controller).0.recording,
        toggled(controller).0.recording,
        started(controller).1 != VoiceCommand::StartCapture,
        toggled(controller).1 != VoiceCommand::StartCapture,
        !ended(controller).recording,
{
}

/// Stopping is asked for only while voice input is on.
pub proof fn stop_is_asked_for_while_recording(controller: VoiceControllerView)
    requires
        controller.stop_requested ==> controller.recording,
    ensures
        started(controller).0.stop_requested ==> started(controller).0.recording,
        stopped(controller).0.stop_requested ==> stopped(controller).0.recording,
        toggled(controller).0.stop_requested ==> toggled(controller).0.recording,
        ended(controller).stop_requested ==> ended(controller).recording,
{
}

/// What an update deletes and adds is told by the longest text with which both the old and the
/// new text begin: everything of the old text behind it goes, and everything of the new text
/// behind it comes.
pub proof fn updates_keep_the_longest_common_beginning(
    old_text: Seq<char>,
    new_text: Seq<char>,
    n: int,
)
    requires
        0 <= n <= old_text.len(),
        n <= new_text.len(),
        forall|i: int| 0 <= i < n ==> old_text[i] == new_text[i],
        n == old_text.len() || n == new_text.len() || old_text[n] != new_text[n],
    ensures
        common_prefix(old_text, new_text) == n,
        rollback(old_text, new_text) == old_text.len() - n,
        appended(old_text, new_text).len() == new_text.len() - n,
        forall|i: int|
            0 <= i < new_text.len() - n ==> #[trigger] appended(old_text, new_text)[i] == new_text[n
                + i],
{
    common_prefix_is_longest(old_text, new_text);
    let k = common_prefix(old_text, new_text) as int;
    assert(old_text.take(n) =~= new_text.take(n));
    assert(n <= k);
    if n < k {
        assert(old_text.take(k)[n] == new_text.take(k)[n]);
    }
}

/// An update deletes first, then adds, in the way that it asks for. One with a text that may
/// still change is typed, whatever the settings say.
pub proof fn updates_replace_what_differs(
    config: crate::config::TextInsertionConfigView,
    update: TextUpdateView,
)
    ensures
        ({
            let count = rollback(update.old_text, update.new_text) as nat;
            let more = appended(update.old_text, update.new_text);
            let (stage, step) = update_task(config, update);
            &&& count > 0 ==> step == crate::inserter::StepView::SendKeys(
                crate::inserter::backspaces(count),
            )
            &&& count > 0 ==> stage == (crate::inserter::StageView::Erasing {
                total: 2 * count,
                append: more,
                fast: update.fast,
            })
            &&& count == 0 && more.len() == 0 ==> step is Done
            &&& count == 0 && more.len() > 0 && !update.fast ==> step
                == crate::inserter::StepView::SendKeys(
                crate::inserter::typed(crate::text::utf16(more)),
            )
            &&& count == 0 && update.fast ==> (stage, step) == crate::inserter::inserted_fast(
                config,
                more,
            )
        }),
{
}

/// A session begins with nothing before the cursor that may change, with its microphone on, and
/// with the settings it was given. The last update counts as one interval ago, or as now where
/// the clock does not reach back that far.
pub proof fn sessions_begin_afresh(config: AsrConfig, now: u128)
    ensures
        ({
            let session = fresh_session(config, now);
            let interval = config.interim_update_interval_ms * 1_000_000;
            &&& session.config == config
            &&& session.last_text.len() == 0
            &&& session.drain_started_at is None
            &&& now >= interval ==> session.last_interim_update_at == now - interval
            &&& now < interval ==> session.last_interim_update_at == now
        }),
{
}

/// An interim result is written exactly if it is not empty, such results are wanted, the update
/// interval has passed since the last one was written, and no more characters would be deleted
/// than the settings allow. What is written then, and what the session takes to be before the
/// cursor, is exactly the text of the response; otherwise nothing changes. It never ends the
/// session.
pub proof fn interim_results_are_written_whole(
    session: VoiceSessionView,
    response: crate::asr::AsrResponseView,
    now: u128,
)
    requires
        response.response_type == ResponseType::InterimResult,
    ensures
        ({
            let (after, done) = reaction(session, ReceivedView::Response(response), now);
            let last = session.last_interim_update_at;
            let passed = if last <= now {
                now - last
            } else {
                0
            };
            let written = response.text.len() > 0 && session.config.interim_insert && passed
                >= session.config.interim_update_interval_ms * 1_000_000 && rollback(
                session.last_text,
                response.text,
            ) <= session.config.max_interim_rollback_chars;
            &&& done.end is None
            &&& done.update is Some <==> written
            &&& done.update matches Some(update) ==> {
                &&& update.new_text == response.text
                &&& update.old_text == session.last_text
                &&& !update.fast
                &&& after.last_text == response.text
            }
            &&& done.update is None ==> after.last_text == session.last_text
            &&& after.config == session.config
            &&& after.drain_started_at == session.drain_started_at
            &&& after.last_interim_update_at == session.last_interim_update_at
        }),
{
}

/// A final result that is not empty is written at any time, whole and the fast way, over what
/// was written of it, and nothing before the cursor may change after it. It ends the session
/// exactly if the microphone was stopped, empty or not.
pub proof fn final_results_are_written_whole(
    session: VoiceSessionView,
    response: crate::asr::AsrResponseView,
    now: u128,
)
    requires
        response.response_type == ResponseType::FinalResult,
    ensures
        ({
            let (after, done) = reaction(session, ReceivedView::Response(response), now);
            &&& done.update is Some <==> response.text.len() > 0
            &&& done.update matches Some(update) ==> {
                &&& update.new_text == response.text
                &&& update.old_text == session.last_text
                &&& update.fast
                &&& after.last_text.len() == 0
            }
            &&& done.update is None ==> after.last_text == session.last_text
            &&& done.end is Some <==> session.drain_started_at is Some
            &&& done.end matches Some(end) ==> end is FinalAfterStop
            &&& after.config == session.config
            &&& after.drain_started_at == session.drain_started_at
            &&& after.last_interim_update_at == session.last_interim_update_at
        }),
{
}

/// Whatever else is received leaves the session and the text alone. The end of the session, an
/// error, with its reason whole, and the end of the messages end it; anything else goes by.
pub proof fn other_messages_write_nothing(
    session: VoiceSessionView,
    received: ReceivedView,
    now: u128,
)
    requires
        received matches ReceivedView::Response(response) ==> response.response_type
            != ResponseType::InterimResult && response.response_type != ResponseType::FinalResult,
    ensures
        ({
            let (after, done) = reaction(session, received, now);
            &&& after == session
            &&& done.update is None
            &&& match received {
                ReceivedView::Idle => done.end is None,
                ReceivedView::Closed => done.end matches Some(end) && end is ChannelClosed,
                ReceivedView::Response(response) => match response.response_type {
                    ResponseType::SessionFinished => done.end matches Some(end) && end
                        is SessionFinished,
                    ResponseType::Error => done.end matches Some(end) && end
                        == SessionEndView::ServerError(response.error_msg),
                    _ => done.end is None,
                },
            }
        }),
{
}

/// The text that may still change after a row of turns, told from the responses: that of the
/// latest interim result that was written, since the last final result that was not empty.
pub open spec fn unsettled_text(session: VoiceSessionView, turns: Seq<Turn>) -> Seq<char>
    decreases turns.len(),
{
    if turns.len() == 0 {
        Seq::empty()
    } else {
        let before = unsettled_text(session, turns.drop_last());
        match turns.last() {
            Turn::Received { received: ReceivedView::Response(response), .. } => if response
                .response_type == ResponseType::FinalResult && response.text.len() > 0 {
                Seq::empty()
            } else if response.response_type == ResponseType::InterimResult && turn_reaction(
                session_run(session, turns.drop_last()),
                turns.last(),
            ).update is Some {
                response.text
            } else {
                before
            },
            _ => before,
        }
    }
}

/// The text that a session takes to be before the cursor is that of the responses.
proof fn lemma_last_text_is_unsettled(session: VoiceSessionView, turns: Seq<Turn>)
    requires
        session.last_text.len() == 0,
    ensures
        session_run(session, turns).last_text == unsettled_text(session, turns),
    decreases turns.len(),
{
    if turns.len() > 0 {
        lemma_last_text_is_unsettled(session, turns.drop_last());
    } else {
        assert(session.last_text =~= Seq::<char>::empty());
    }
}

/// The window shows the responses: if every update succeeds, and no NUL has to go through the
/// clipboard, the text before the cursor is what was there at the beginning, the texts of the
/// final results, and the text of the interim result that was written last since, each exactly
/// as the server sent it.
pub proof fn window_shows_the_responses(
    config: crate::config::TextInsertionConfigView,
    desktop: Desktop,
    session: VoiceSessionView,
    turns: Seq<Turn>,
)
    requires
        crate::desktop::valid(desktop),
        session.last_text.len() == 0,
        updates_arrive(config, session, turns),
    ensures
        desktop_run(config, desktop, session, turns).text == desktop.text + settled_text(turns)
            + unsettled_text(session, turns),
{
    dictation_writes_what_was_recognised(config, desktop, session, turns);
    lemma_last_text_is_unsettled(session, turns);
}

/// Before its next message a session stops the microphone exactly if that was asked for and has
/// not been done; it gives up exactly if the microphone was stopped and the configured time has
/// passed since; and it waits for a message otherwise.
pub proof fn what_a_session_does_next(session: VoiceSessionView, stop_requested: bool, now: u128)
    ensures
        ({
            let next = polled(session, stop_requested, now);
            let timeout = session.config.final_drain_timeout_ms * 1_000_000;
            match session.drain_started_at {
                None => {
                    &&& stop_requested ==> next == Poll::StopMicrophone
                    &&& !stop_requested ==> next == Poll::Receive
                },
                Some(stopped_at) => {
                    let passed = if stopped_at <= now {
                        now - stopped_at
                    } else {
                        0
                    };
                    &&& passed >= timeout ==> next == Poll::TimedOut
                    &&& passed < timeout ==> next == Poll::Receive
                },
            }
        }),
{
}

/// The user is told of every text and every error, whole, and of the end of the session, and of
/// nothing else.
pub proof fn notices_hold_the_text(response: crate::asr::AsrResponseView)
    ensures
        ({
            let notice = notice_of(response);
            match response.response_type {
                ResponseType::InterimResult => notice matches Some(line) && line.len() == 8
                    + response.text.len() && line.take(8) == "📝 [识别中] "@ && line.skip(8)
                    == response.text,
                ResponseType::FinalResult => notice matches Some(line) && line.len() == 7
                    + response.text.len() && line.take(7) == "✅ [确认] "@ && line.skip(7)
                    == response.text,
                ResponseType::SessionFinished => notice matches Some(line) && line
                    == "🏁 [会话结束]"@,
                ResponseType::Error => notice matches Some(line) && line.len() == 7
                    + response.error_msg.len() && line.take(7) == "❌ [错误] "@ && line.skip(7)
                    == response.error_msg,
                _ => notice is None,
            }
        }),
{
    reveal_strlit("📝 [识别中] ");
    reveal_strlit("✅ [确认] ");
    reveal_strlit("❌ [错误] ");
}

/// Switching voice input on and off, wherever it stands, and what the microphone has to do. The
/// settings stay as they are.
pub proof fn what_switching_does(controller: VoiceControllerView)
    ensures
        ({
            let (on, start) = started(controller);
            let (off, stop) = stopped(controller);
            let toggle = toggled(controller);
            &&& on.recording
            &&& start == VoiceCommand::StartCapture <==> !controller.recording
            &&& start == VoiceCommand::Nothing <==> controller.recording
            &&& on.stop_requested <==> controller.recording && controller.stop_requested
            &&& off.recording == controller.recording
            &&& stop == VoiceCommand::StopCapture <==> controller.recording
            &&& stop == VoiceCommand::Nothing <==> !controller.recording
            &&& off.stop_requested <==> controller.recording || controller.stop_requested
            &&& controller.recording ==> toggle == (off, stop)
            &&& !controller.recording ==> toggle == (on, start)
            &&& !ended(controller).recording && !ended(controller).stop_requested
            &&& on.asr_config == controller.asr_config && off.asr_config == controller.asr_config
            &&& ended(controller).asr_config == controller.asr_config
            &&& on.text_insertion == controller.text_insertion
            &&& off.text_insertion == controller.text_insertion
            &&& ended(controller).text_insertion == controller.text_insertion
        }),
{
}

/// What each event of the hotkey does: a toggle toggles, a start starts, a stop stops, and a tap
/// stops exactly if the press before it found voice input on already.
pub proof fn what_hotkey_events_do(controller: VoiceControllerView, began: bool)
    ensures
        ({
            let (after, still, command) = controlled(controller, began, HotkeyEvent::Toggle);
            (after, command) == toggled(controller) && still == began
        }),
        ({
            let (after, now_began, command) = controlled(controller, began, HotkeyEvent::Start);
            (after, command) == started(controller) && now_began == !controller.recording
        }),
        ({
            let (after, still, command) = controlled(controller, began, HotkeyEvent::Stop);
            (after, command) == stopped(controller) && still == began
        }),
        ({
            let (after, still, command) = controlled(controller, began, HotkeyEvent::Tap);
            &&& still == began
            &&& began ==> after == controller && command == VoiceCommand::Nothing
            &&& !began ==> (after, command) == stopped(controller)
        }),
{
}

/// A session runs with the recognition settings of its controller, all of them, and starts with
/// no text and its microphone on, whether or not voice input was to stop.
pub proof fn sessions_run_with_the_settings_of_the_controller(
    controller: VoiceControllerView,
    now: u128,
)
    ensures
        session_begun(controller, now).config == controller.asr_config,
        session_begun(controller, now).last_text.len() == 0,
        session_begun(controller, now).drain_started_at is None,
        session_begun(controller, now).last_interim_update_at <= now,
        now >= controller.asr_config.interim_update_interval_ms * 1_000_000 ==> now - session_begun(
            controller,
            now,
        ).last_interim_update_at == controller.asr_config.interim_update_interval_ms * 1_000_000,
{
}

} // verus!
