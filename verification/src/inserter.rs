//! Text insertion into the focused window, by simulated keys or through the clipboard.
//!
//! The inserter decides what to do; the caller does it. An insertion is a [`TextTask`]: every
//! call hands out one [`Step`], the caller performs it and resumes the task with the
//! [`Reply`].

use crate::config::TextInsertionConfig;
use crate::keys::{VK_BACK, VK_CONTROL, VK_V};
use crate::text::{
    chars_of, decode_utf16_lossy, encode_utf16, same_text, to_ascii_lowercase, to_decimal,
};
use vstd::prelude::*;

verus! {

broadcast use vstd::string::group_string_axioms;

// ---------------------------------------------------------------------------------------
// Simulated keys
// ---------------------------------------------------------------------------------------

/// Flag of a key that goes up.
pub const KEYEVENTF_KEYUP: u32 = 0x2;

/// Flag of a key that stands for the UTF-16 code unit in its scan code.
pub const KEYEVENTF_UNICODE: u32 = 0x4;

/// Flags of a code unit that goes up.
pub const UNICODE_KEYUP: u32 = 0x6;

/// One simulated keyboard input: virtual key, scan code and flags.
#[derive(Debug, Clone, Copy, PartialEq, Eq, Structural)]
pub struct KeyInput {
    pub virtual_key: u16,
    pub scan: u16,
    pub flags: u32,
}

/// The input that presses or releases a UTF-16 code unit.
pub open spec fn unicode_input(unit: u16, key_down: bool) -> KeyInput {
    KeyInput {
        virtual_key: 0,
        scan: unit,
        flags: if key_down {
            KEYEVENTF_UNICODE
        } else {
            UNICODE_KEYUP
        },
    }
}

/// The input that presses or releases a virtual key.
pub open spec fn key_input(virtual_key: u16, key_down: bool) -> KeyInput {
    KeyInput {
        virtual_key,
        scan: 0,
        flags: if key_down {
            0
        } else {
            KEYEVENTF_KEYUP
        },
    }
}

/// The inputs that type the code units: each goes down and up, one after the other.
pub open spec fn typed(units: Seq<u16>) -> Seq<KeyInput> {
    Seq::new(2 * units.len(), |i: int| unicode_input(units[i / 2], i % 2 == 0))
}

/// The inputs that press Backspace `count` times.
pub open spec fn backspaces(count: nat) -> Seq<KeyInput> {
    Seq::new(2 * count, |i: int| key_input(VK_BACK, i % 2 == 0))
}

/// The inputs of Ctrl+V.
pub open spec fn ctrl_v() -> Seq<KeyInput> {
    seq![
        key_input(VK_CONTROL, true),
        key_input(VK_V, true),
        key_input(VK_V, false),
        key_input(VK_CONTROL, false),
    ]
}

/// The input that presses or releases a UTF-16 code unit.
pub fn create_unicode_input(unit: u16, key_down: bool) -> (r: KeyInput)
    ensures
        r == unicode_input(unit, key_down),
{
    KeyInput {
        virtual_key: 0,
        scan: unit,
        flags: if key_down {
            KEYEVENTF_UNICODE
        } else {
            UNICODE_KEYUP
        },
    }
}

/// The input that presses or releases a virtual key.
pub fn create_key_input(virtual_key: u16, key_down: bool) -> (r: KeyInput)
    ensures
        r == key_input(virtual_key, key_down),
{
    KeyInput {
        virtual_key,
        scan: 0,
        flags: if key_down {
            0
        } else {
            KEYEVENTF_KEYUP
        },
    }
}

/// The inputs that type `text`.
pub fn inputs_for_text(text: &str) -> (r: Vec<KeyInput>)
    ensures
        r@ == typed(crate::text::utf16(text@)),
{
    let units: Vec<u16> = encode_utf16(text);
    let mut r: Vec<KeyInput> = Vec::new();
    let mut i: usize = 0;
    while i < units.len()
        invariant
            i <= units@.len(),
            r@ == typed(units@.take(i as int)),
        decreases units@.len() - i,
    {
        r.push(create_unicode_input(units[i], true));
        r.push(create_unicode_input(units[i], false));
        i += 1;
        assert(r@ =~= typed(units@.take(i as int)));
    }
    assert(units@.take(i as int) =~= units@);
    r
}

/// The inputs that press Backspace `count` times.
pub fn inputs_for_backspaces(count: usize) -> (r: Vec<KeyInput>)
    ensures
        r@ == backspaces(count as nat),
{
    let mut r: Vec<KeyInput> = Vec::new();
    let mut i: usize = 0;
    assert(r@ =~= backspaces(0));
    while i < count
        invariant
            i <= count,
            r@ == backspaces(i as nat),
        decreases count - i,
    {
        r.push(create_key_input(VK_BACK, true));
        r.push(create_key_input(VK_BACK, false));
        i += 1;
        assert(r@ =~= backspaces(i as nat));
    }
    r
}

/// The inputs of Ctrl+V.
pub fn inputs_for_paste() -> (r: Vec<KeyInput>)
    ensures
        r@ == ctrl_v(),
{
    let r: Vec<KeyInput> = vec![
        create_key_input(VK_CONTROL, true),
        create_key_input(VK_V, true),
        create_key_input(VK_V, false),
        create_key_input(VK_CONTROL, false),
    ];
    assert(r@ =~= ctrl_v());
    r
}

/// The code units that a row of simulated inputs types: the units that go down.
pub open spec fn units_typed(inputs: Seq<KeyInput>) -> Seq<u16>
    decreases inputs.len(),
{
    if inputs.len() == 0 {
        Seq::empty()
    } else if inputs.last().flags == KEYEVENTF_UNICODE {
        units_typed(inputs.drop_last()).push(inputs.last().scan)
    } else {
        units_typed(inputs.drop_last())
    }
}

/// The inputs for code units type these units.
proof fn lemma_units_typed(units: Seq<u16>)
    ensures
        units_typed(typed(units)) == units,
    decreases units.len(),
{
    if units.len() > 0 {
        let all = typed(units);
        let before = units.drop_last();
        lemma_units_typed(before);
        assert(all.drop_last().drop_last() =~= typed(before));
        assert(all.last() == unicode_input(units.last(), false));
        assert(all.drop_last().last() == unicode_input(units.last(), true));
        reveal_with_fuel(units_typed, 3);
        assert(units_typed(all) =~= before.push(units.last()));
        assert(before.push(units.last()) =~= units);
    } else {
        assert(typed(units) =~= Seq::<KeyInput>::empty());
        assert(units_typed(typed(units)) =~= units);
    }
}

/// Typing a text writes that text: the code units that go down decode to it.
pub proof fn typing_writes_the_text(text: Seq<char>)
    ensures
        crate::text::utf16_text(units_typed(typed(crate::text::utf16(text)))) == text,
{
    lemma_units_typed(crate::text::utf16(text));
    crate::text::utf16_round_trip(text);
}

// ---------------------------------------------------------------------------------------
// Clipboard contents
// ---------------------------------------------------------------------------------------

/// The code units before the first NUL.
pub open spec fn until_nul(units: Seq<u16>) -> Seq<u16>
    decreases units.len(),
{
    if units.len() == 0 || units[0] == 0 {
        Seq::empty()
    } else {
        seq![units[0]] + until_nul(units.drop_first())
    }
}

/// What the clipboard holds for a text: its code units and a NUL.
pub open spec fn clipboard_units(text: Seq<char>) -> Seq<u16> {
    crate::text::utf16(text).push(0)
}

/// What the clipboard is to hold for `text`.
pub fn clipboard_from_text(text: &str) -> (r: Vec<u16>)
    ensures
        r@ == clipboard_units(text@),
{
    let mut r: Vec<u16> = encode_utf16(text);
    r.push(0);
    r
}

/// The text that the clipboard holds: its code units before the first NUL.
pub fn text_from_clipboard(units: &[u16]) -> (r: String)
    ensures
        r@ == crate::text::utf16_text(until_nul(units@)),
{
    let mut kept: Vec<u16> = Vec::new();
    let mut i: usize = 0;
    assert(units@.skip(0) =~= units@);
    assert(kept@ + until_nul(units@) =~= until_nul(units@));
    while i < units.len() && units[i] != 0
        invariant
            i <= units@.len(),
            kept@ + until_nul(units@.skip(i as int)) == until_nul(units@),
        decreases units@.len() - i,
    {
        let ghost rest = units@.skip(i as int);
        let ghost before = kept@;
        kept.push(units[i]);
        i += 1;
        proof {
            assert(rest.drop_first() =~= units@.skip(i as int));
            assert(kept@ + until_nul(rest.drop_first()) =~= before + until_nul(rest));
        }
    }
    assert(kept@ + until_nul(units@.skip(i as int)) =~= kept@);
    decode_utf16_lossy(kept.as_slice())
}

/// Units without a zero are all before the first NUL.
proof fn lemma_until_nul(units: Seq<u16>)
    requires
        forall|i: int| 0 <= i < units.len() ==> units[i] != 0,
    ensures
        until_nul(units.push(0)) == units,
    decreases units.len(),
{
    if units.len() > 0 {
        lemma_until_nul(units.drop_first());
        assert(units.push(0).drop_first() =~= units.drop_first().push(0));
        assert(seq![units[0]] + units.drop_first() =~= units);
    }
}

/// Reading the clipboard gives back the text that was written to it, if the text has no NUL.
pub proof fn clipboard_round_trip(text: Seq<char>)
    requires
        !text.contains('\0'),
    ensures
        crate::text::utf16_text(until_nul(clipboard_units(text))) == text,
{
    crate::text::utf16_has_no_nul(text);
    lemma_until_nul(crate::text::utf16(text));
    crate::text::utf16_round_trip(text);
}

// ---------------------------------------------------------------------------------------
// Steps, replies and errors
// ---------------------------------------------------------------------------------------

/// Why a text could not be inserted.
#[derive(Debug, Clone)]
pub enum InsertError {
    /// The clipboard or the keyboard could not be used, for the reason given.
    Refused(String),
    /// Only `sent` of `total` simulated inputs were taken.
    Blocked { sent: u32, total: usize },
}

/// An [`InsertError`] by its values.
pub enum InsertErrorView {
    Refused(Seq<char>),
    Blocked { sent: u32, total: usize },
}

impl View for InsertError {
    type V = InsertErrorView;

    open spec fn view(&self) -> InsertErrorView {
        match self {
            InsertError::Refused(reason) => InsertErrorView::Refused(reason@),
            InsertError::Blocked { sent, total } => InsertErrorView::Blocked {
                sent: *sent,
                total: *total,
            },
        }
    }
}

/// The message of an insertion error.
pub open spec fn insert_error_message(error: InsertErrorView) -> Seq<char> {
    match error {
        InsertErrorView::Refused(reason) => reason,
        InsertErrorView::Blocked { sent, total } => "SendInput sent "@ + crate::text::decimal(
            sent as nat,
        ) + " of "@ + crate::text::decimal(total as nat)
            + " inputs; target may be elevated or blocked"@,
    }
}

impl InsertError {
    /// The message of the error.
    pub fn message(&self) -> (r: String)
        ensures
            r@ == insert_error_message(self@),
    {
        match self {
            InsertError::Refused(reason) => reason.clone(),
            InsertError::Blocked { sent, total } => "SendInput sent ".to_string().concat(
                to_decimal(*sent as u64).as_str(),
            ).concat(" of ").concat(to_decimal(*total as u64).as_str()).concat(
                " inputs; target may be elevated or blocked",
            ),
        }
    }
}

/// What the caller has to do next.
#[derive(Debug, Clone)]
pub enum Step {
    /// Read the text on the clipboard.
    ReadClipboard,
    /// Put these code units on the clipboard.
    WriteClipboard(Vec<u16>),
    /// Wait this many milliseconds.
    Wait(u64),
    /// Send these inputs to the focused window.
    SendKeys(Vec<KeyInput>),
    /// Nothing: the task is done.
    Done,
    /// Nothing: the task has failed.
    Fail(InsertError),
}

/// A [`Step`] by its values.
pub enum StepView {
    ReadClipboard,
    WriteClipboard(Seq<u16>),
    Wait(u64),
    SendKeys(Seq<KeyInput>),
    Done,
    Fail(InsertErrorView),
}

impl View for Step {
    type V = StepView;

    open spec fn view(&self) -> StepView {
        match self {
            Step::ReadClipboard => StepView::ReadClipboard,
            Step::WriteClipboard(units) => StepView::WriteClipboard(units@),
            Step::Wait(ms) => StepView::Wait(*ms),
            Step::SendKeys(inputs) => StepView::SendKeys(inputs@),
            Step::Done => StepView::Done,
            Step::Fail(error) => StepView::Fail(error@),
        }
    }
}

/// What came of a step.
#[derive(Debug, Clone)]
pub enum Reply {
    /// The text that was on the clipboard, if there was any to be had.
    Clipboard(Option<String>),
    /// The clipboard was written.
    Written,
    /// The time has passed.
    Waited,
    /// This many inputs were taken.
    Sent(u32),
    /// The clipboard could not be written, or nothing could be sent, for the reason given.
    Failed(String),
}

/// A [`Reply`] by its values.
pub enum ReplyView {
    Clipboard(Option<Seq<char>>),
    Written,
    Waited,
    Sent(u32),
    Failed(Seq<char>),
}

/// An optional text by its characters.
pub open spec fn optional_text(text: Option<String>) -> Option<Seq<char>> {
    match text {
        Some(t) => Some(t@),
        None => None,
    }
}

impl View for Reply {
    type V = ReplyView;

    open spec fn view(&self) -> ReplyView {
        match self {
            Reply::Clipboard(text) => ReplyView::Clipboard(optional_text(*text)),
            Reply::Written => ReplyView::Written,
            Reply::Waited => ReplyView::Waited,
            Reply::Sent(count) => ReplyView::Sent(*count),
            Reply::Failed(reason) => ReplyView::Failed(reason@),
        }
    }
}

/// Where an insertion stands: the step that was handed out last, and what is left to do.
#[derive(Debug)]
enum Stage {
    Erasing { total: usize, append: String, fast: bool },
    Reading { text: String },
    Writing { text: String, previous: Option<String> },
    Settling { text: String, previous: Option<String> },
    Pasting { text: String, previous: Option<String> },
    Holding { previous: Option<String> },
    Restoring,
    Typing { total: usize },
    Ended,
}

/// Where an insertion stands.
pub enum StageView {
    /// Backspaces have been sent; `append` is inserted next, the fast way or by keys.
    Erasing { total: nat, append: Seq<char>, fast: bool },
    /// The clipboard is being read.
    Reading { text: Seq<char> },
    /// The text is being put on the clipboard, which held `previous`.
    Writing { text: Seq<char>, previous: Option<Seq<char>> },
    /// The focused window gets time to see the new clipboard.
    Settling { text: Seq<char>, previous: Option<Seq<char>> },
    /// Ctrl+V has been sent.
    Pasting { text: Seq<char>, previous: Option<Seq<char>> },
    /// The focused window gets time to paste.
    Holding { previous: Option<Seq<char>> },
    /// The previous text is being put back on the clipboard.
    Restoring,
    /// The text has been sent as keys.
    Typing { total: nat },
    /// There is nothing left to do.
    Ended,
}

/// An insertion under way.
#[derive(Debug)]
pub struct TextTask {
    stage: Stage,
}

impl View for TextTask {
    type V = StageView;

    closed spec fn view(&self) -> StageView {
        match self.stage {
            Stage::Erasing { total, append, fast } => StageView::Erasing {
                total: total as nat,
                append: append@,
                fast,
            },
            Stage::Reading { text } => StageView::Reading { text: text@ },
            Stage::Writing { text, previous } => StageView::Writing {
                text: text@,
                previous: optional_text(previous),
            },
            Stage::Settling { text, previous } => StageView::Settling {
                text: text@,
                previous: optional_text(previous),
            },
            Stage::Pasting { text, previous } => StageView::Pasting {
                text: text@,
                previous: optional_text(previous),
            },
            Stage::Holding { previous } => StageView::Holding { previous: optional_text(previous) },
            Stage::Restoring => StageView::Restoring,
            Stage::Typing { total } => StageView::Typing { total: total as nat },
            Stage::Ended => StageView::Ended,
        }
    }
}

/// `reply` answers the step that was handed out at `stage`.
pub open spec fn answers(stage: StageView, reply: ReplyView) -> bool {
    match stage {
        StageView::Reading { .. } => reply is Clipboard,
        StageView::Writing { .. } | StageView::Restoring => reply is Written || reply is Failed,
        StageView::Settling { .. } | StageView::Holding { .. } => reply is Waited,
        StageView::Erasing { .. } | StageView::Pasting { .. } | StageView::Typing { .. } => reply
            is Sent || reply is Failed,
        StageView::Ended => false,
    }
}

impl TextTask {
    /// Whether `reply` answers the step that was handed out last.
    pub fn accepts(&self, reply: &Reply) -> (r: bool)
        ensures
            r == answers(self@, reply@),
    {
        match &self.stage {
            Stage::Reading { .. } => match reply {
                Reply::Clipboard(_) => true,
                _ => false,
            },
            Stage::Writing { .. } | Stage::Restoring => match reply {
                Reply::Written | Reply::Failed(_) => true,
                _ => false,
            },
            Stage::Settling { .. } | Stage::Holding { .. } => match reply {
                Reply::Waited => true,
                _ => false,
            },
            Stage::Erasing { .. } | Stage::Pasting { .. } | Stage::Typing { .. } => match reply {
                Reply::Sent(_) | Reply::Failed(_) => true,
                _ => false,
            },
            Stage::Ended => false,
        }
    }
}

// ---------------------------------------------------------------------------------------
// How an insertion goes
// ---------------------------------------------------------------------------------------

/// The time that the focused window gets to see a new clipboard, in milliseconds.
pub const SETTLE_MS: u64 = 30;

/// An insertion that types `text`.
pub open spec fn typing(text: Seq<char>) -> (StageView, StepView) {
    let inputs = typed(crate::text::utf16(text));
    (StageView::Typing { total: inputs.len() }, StepView::SendKeys(inputs))
}

/// An insertion with nothing to do.
pub open spec fn finished() -> (StageView, StepView) {
    (StageView::Ended, StepView::Done)
}

/// An insertion that has failed.
pub open spec fn failed(error: InsertErrorView) -> (StageView, StepView) {
    (StageView::Ended, StepView::Fail(error))
}

/// The insertion of `text` by keys.
pub open spec fn inserted(text: Seq<char>) -> (StageView, StepView) {
    if text.len() == 0 {
        finished()
    } else {
        typing(text)
    }
}

/// The clipboard alone is to be used.
pub open spec fn clipboard_only(config: crate::config::TextInsertionConfigView) -> bool {
    crate::text::ascii_lowercase(config.mode) == "clipboard"@
}

/// `text` goes through the clipboard: always in the mode `clipboard`, and from the threshold
/// on in the mode `auto`.
pub open spec fn wants_clipboard(
    config: crate::config::TextInsertionConfigView,
    text: Seq<char>,
) -> bool {
    clipboard_only(config) || (crate::text::ascii_lowercase(config.mode) == "auto"@ && text.len()
        >= config.clipboard_threshold_chars)
}

/// The insertion of `text` the fast way.
pub open spec fn inserted_fast(
    config: crate::config::TextInsertionConfigView,
    text: Seq<char>,
) -> (StageView, StepView) {
    if text.len() == 0 {
        finished()
    } else if wants_clipboard(config, text) {
        (StageView::Reading { text }, StepView::ReadClipboard)
    } else {
        typing(text)
    }
}

/// The clipboard has failed: the text is typed instead, unless the clipboard alone is to be
/// used.
pub open spec fn clipboard_failed(
    config: crate::config::TextInsertionConfigView,
    text: Seq<char>,
    error: InsertErrorView,
) -> (StageView, StepView) {
    if clipboard_only(config) {
        failed(error)
    } else {
        typing(text)
    }
}

/// The previous text goes back on the clipboard, if there was one.
pub open spec fn restored(previous: Option<Seq<char>>) -> (StageView, StepView) {
    match previous {
        Some(text) => (StageView::Restoring, StepView::WriteClipboard(clipboard_units(text))),
        None => finished(),
    }
}

/// Ctrl+V has been sent: the focused window gets time to paste, then the clipboard is restored.
pub open spec fn pasted(
    config: crate::config::TextInsertionConfigView,
    previous: Option<Seq<char>>,
) -> (StageView, StepView) {
    if config.clipboard_restore_delay_ms > 0 {
        (StageView::Holding { previous }, StepView::Wait(config.clipboard_restore_delay_ms))
    } else {
        restored(previous)
    }
}

/// The deletion of `count` characters before the cursor and the insertion of `append`.
pub open spec fn replaced(
    config: crate::config::TextInsertionConfigView,
    count: nat,
    append: Seq<char>,
    fast: bool,
) -> (StageView, StepView) {
    if count > 0 {
        let inputs = backspaces(count);
        (StageView::Erasing { total: inputs.len(), append, fast }, StepView::SendKeys(inputs))
    } else if fast {
        inserted_fast(config, append)
    } else {
        inserted(append)
    }
}

/// What went wrong with sending `total` inputs, if anything.
pub open spec fn sending_error(total: nat, reply: ReplyView) -> Option<InsertErrorView> {
    match reply {
        ReplyView::Failed(reason) => Some(InsertErrorView::Refused(reason)),
        ReplyView::Sent(sent) => if sent == (total as usize) as u32 {
            None
        } else {
            Some(InsertErrorView::Blocked { sent, total: total as usize })
        },
        _ => None,
    }
}

/// What follows the reply to the step handed out at `stage`.
pub open spec fn resumed(
    config: crate::config::TextInsertionConfigView,
    stage: StageView,
    reply: ReplyView,
) -> (StageView, StepView) {
    match stage {
        StageView::Erasing { total, append, fast } => match sending_error(total, reply) {
            Some(error) => failed(error),
            None => if fast {
                inserted_fast(config, append)
            } else {
                inserted(append)
            },
        },
        StageView::Reading { text } => (
            StageView::Writing { text, previous: reply->Clipboard_0 },
            StepView::WriteClipboard(clipboard_units(text)),
        ),
        StageView::Writing { text, previous } => match reply {
            ReplyView::Failed(reason) => clipboard_failed(
                config,
                text,
                InsertErrorView::Refused(reason),
            ),
            _ => (StageView::Settling { text, previous }, StepView::Wait(SETTLE_MS)),
        },
        StageView::Settling { text, previous } => (
            StageView::Pasting { text, previous },
            StepView::SendKeys(ctrl_v()),
        ),
        StageView::Pasting { text, previous } => match sending_error(ctrl_v().len(), reply) {
            Some(error) => clipboard_failed(config, text, error),
            None => pasted(config, previous),
        },
        StageView::Holding { previous } => restored(previous),
        StageView::Restoring => finished(),
        StageView::Typing { total } => match sending_error(total, reply) {
            Some(error) => failed(error),
            None => finished(),
        },
        StageView::Ended => finished(),
    }
}

// ---------------------------------------------------------------------------------------
// The inserter
// ---------------------------------------------------------------------------------------

/// Inserts text into the focused window.
#[derive(Debug, Clone)]
pub struct TextInserter {
    config: TextInsertionConfig,
}

impl View for TextInserter {
    type V = crate::config::TextInsertionConfigView;

    closed spec fn view(&self) -> crate::config::TextInsertionConfigView {
        self.config@
    }
}

/// A task at its beginning or at a later step, with the step to perform.
pub open spec fn task_view(r: (TextTask, Step)) -> (StageView, StepView) {
    (r.0@, r.1@)
}

/// Checks that all of `total` inputs were taken.
pub fn check_sent(sent: u32, total: usize) -> (r: Result<(), InsertError>)
    ensures
        match sending_error(total as nat, ReplyView::Sent(sent)) {
            Some(error) => r matches Err(e) && e@ == error,
            None => r is Ok,
        },
{
    if sent != total as u32 {
        Err(InsertError::Blocked { sent, total })
    } else {
        Ok(())
    }
}

/// Checks the reply to sending `total` inputs.
fn check_reply(reply: Reply, total: usize) -> (r: Result<(), InsertError>)
    ensures
        match sending_error(total as nat, reply@) {
            Some(error) => r matches Err(e) && e@ == error,
            None => r is Ok,
        },
{
    match reply {
        Reply::Failed(reason) => Err(InsertError::Refused(reason)),
        Reply::Sent(sent) => check_sent(sent, total),
        _ => Ok(()),
    }
}

/// A task with nothing to do.
fn finish() -> (r: (TextTask, Step))
    ensures
        task_view(r) == finished(),
{
    (TextTask { stage: Stage::Ended }, Step::Done)
}

/// A task that has failed.
fn fail(error: InsertError) -> (r: (TextTask, Step))
    ensures
        task_view(r) == failed(error@),
{
    (TextTask { stage: Stage::Ended }, Step::Fail(error))
}

/// A task that types `text`.
fn type_text(text: &str) -> (r: (TextTask, Step))
    ensures
        task_view(r) == typing(text@),
{
    let inputs: Vec<KeyInput> = inputs_for_text(text);
    (TextTask { stage: Stage::Typing { total: inputs.len() } }, Step::SendKeys(inputs))
}

/// Puts the previous text back on the clipboard, if there was one.
fn restore(previous: Option<String>) -> (r: (TextTask, Step))
    ensures
        task_view(r) == restored(optional_text(previous)),
{
    match previous {
        Some(text) => (
            TextTask { stage: Stage::Restoring },
            Step::WriteClipboard(clipboard_from_text(text.as_str())),
        ),
        None => finish(),
    }
}

impl Default for TextInserter {
    fn default() -> (r: Self)
        ensures
            r@ == crate::config::default_text_insertion(),
    {
        TextInserter::new()
    }
}

impl TextInserter {
    /// An inserter with the default settings.
    pub fn new() -> (r: Self)
        ensures
            r@ == crate::config::default_text_insertion(),
    {
        TextInserter::with_config(TextInsertionConfig::default())
    }

    /// An inserter with the given settings.
    pub fn with_config(config: TextInsertionConfig) -> (r: Self)
        ensures
            r@ == config@,
    {
        TextInserter { config }
    }

    /// Inserts `text` the way the settings ask for.
    pub fn insert_fast(&self, text: &str) -> (r: (TextTask, Step))
        ensures
            task_view(r) == inserted_fast(self@, text@),
    {
        if text.is_empty() {
            return finish();
        }
        let mode: String = to_ascii_lowercase(self.config.mode.as_str());
        let length: usize = chars_of(text).len();
        if same_text(mode.as_str(), "clipboard") || (same_text(mode.as_str(), "auto") && length
            >= self.config.clipboard_threshold_chars) {
            (TextTask { stage: Stage::Reading { text: text.to_string() } }, Step::ReadClipboard)
        } else {
            type_text(text)
        }
    }

    /// Inserts `text` by simulated keys.
    pub fn insert(&self, text: &str) -> (r: (TextTask, Step))
        ensures
            task_view(r) == inserted(text@),
    {
        if text.is_empty() {
            finish()
        } else {
            type_text(text)
        }
    }

    /// Deletes `count` characters before the cursor.
    pub fn delete_chars(&self, count: usize) -> (r: (TextTask, Step))
        ensures
            task_view(r) == replaced(self@, count as nat, Seq::empty(), false),
    {
        self.replace(count, String::new(), false)
    }

    /// Deletes `count` characters before the cursor, then inserts `append`, the fast way or by
    /// keys.
    pub fn replace(&self, count: usize, append: String, fast: bool) -> (r: (TextTask, Step))
        ensures
            task_view(r) == replaced(self@, count as nat, append@, fast),
    {
        if count > 0 {
            let inputs: Vec<KeyInput> = inputs_for_backspaces(count);
            (
                TextTask { stage: Stage::Erasing { total: inputs.len(), append, fast } },
                Step::SendKeys(inputs),
            )
        } else if fast {
            self.insert_fast(append.as_str())
        } else {
            self.insert(append.as_str())
        }
    }

    /// Types `text` after the clipboard has failed, unless the clipboard alone is to be used.
    fn after_clipboard_failure(&self, text: String, error: InsertError) -> (r: (TextTask, Step))
        ensures
            task_view(r) == clipboard_failed(self@, text@, error@),
    {
        let mode: String = to_ascii_lowercase(self.config.mode.as_str());
        if same_text(mode.as_str(), "clipboard") {
            fail(error)
        } else {
            type_text(text.as_str())
        }
    }

    /// The next step of a task, after the reply to the last one.
    pub fn resume(&self, task: TextTask, reply: Reply) -> (r: (TextTask, Step))
        requires
            answers(task@, reply@),
        ensures
            task_view(r) == resumed(self@, task@, reply@),
    {
        match task.stage {
            Stage::Erasing { total, append, fast } => match check_reply(reply, total) {
                Err(error) => fail(error),
                Ok(()) => if fast {
                    self.insert_fast(append.as_str())
                } else {
                    self.insert(append.as_str())
                },
            },
            Stage::Reading { text } => {
                let previous: Option<String> = match reply {
                    Reply::Clipboard(previous) => previous,
                    _ => None,
                };
                let units: Vec<u16> = clipboard_from_text(text.as_str());
                (
                    TextTask { stage: Stage::Writing { text, previous } },
                    Step::WriteClipboard(units),
                )
            },
            Stage::Writing { text, previous } => match reply {
                Reply::Failed(reason) => self.after_clipboard_failure(
                    text,
                    InsertError::Refused(reason),
                ),
                _ => (
                    TextTask { stage: Stage::Settling { text, previous } },
                    Step::Wait(SETTLE_MS),
                ),
            },
            Stage::Settling { text, previous } => (
                TextTask { stage: Stage::Pasting { text, previous } },
                Step::SendKeys(inputs_for_paste()),
            ),
            Stage::Pasting { text, previous } => match check_reply(reply, 4) {
                Err(error) => self.after_clipboard_failure(text, error),
                Ok(()) => if self.config.clipboard_restore_delay_ms > 0 {
                    (
                        TextTask { stage: Stage::Holding { previous } },
                        Step::Wait(self.config.clipboard_restore_delay_ms),
                    )
                } else {
                    restore(previous)
                },
            },
            Stage::Holding { previous } => restore(previous),
            Stage::Restoring => finish(),
            Stage::Typing { total } => match check_reply(reply, total) {
                Err(error) => fail(error),
                Ok(()) => finish(),
            },
            Stage::Ended => finish(),
        }
    }
}

// ---------------------------------------------------------------------------------------
// Laws
// ---------------------------------------------------------------------------------------

/// The keys that are down after a row of inputs, each by its virtual key and scan code.
pub open spec fn keys_down(inputs: Seq<KeyInput>) -> Set<(u16, u16)>
    decreases inputs.len(),
{
    if inputs.len() == 0 {
        Set::empty()
    } else {
        let before = keys_down(inputs.drop_last());
        let key = (inputs.last().virtual_key, inputs.last().scan);
        if inputs.last().flags == KEYEVENTF_KEYUP || inputs.last().flags == UNICODE_KEYUP {
            before.remove(key)
        } else {
            before.insert(key)
        }
    }
}

/// A pair of inputs that press and release one key leaves the keys as they were, if none was
/// down before.
proof fn lemma_pair_released(inputs: Seq<KeyInput>)
    requires
        inputs.len() >= 2,
        keys_down(inputs.drop_last().drop_last()) == Set::<(u16, u16)>::empty(),
        inputs.drop_last().last().virtual_key == inputs.last().virtual_key,
        inputs.drop_last().last().scan == inputs.last().scan,
        inputs.drop_last().last().flags != KEYEVENTF_KEYUP,
        inputs.drop_last().last().flags != UNICODE_KEYUP,
        inputs.last().flags == KEYEVENTF_KEYUP || inputs.last().flags == UNICODE_KEYUP,
    ensures
        keys_down(inputs) == Set::<(u16, u16)>::empty(),
{
    reveal_with_fuel(keys_down, 3);
    assert(keys_down(inputs) =~= Set::<(u16, u16)>::empty());
}

/// Typing a text releases every key that it presses.
pub proof fn typing_releases_all_keys(units: Seq<u16>)
    ensures
        keys_down(typed(units)) == Set::<(u16, u16)>::empty(),
    decreases units.len(),
{
    let inputs = typed(units);
    if units.len() > 0 {
        typing_releases_all_keys(units.drop_last());
        assert(inputs.drop_last().drop_last() =~= typed(units.drop_last()));
        lemma_pair_released(inputs);
    } else {
        assert(inputs =~= Seq::<KeyInput>::empty());
    }
}

/// Deleting characters releases every key that it presses.
pub proof fn deleting_releases_all_keys(count: nat)
    ensures
        keys_down(backspaces(count)) == Set::<(u16, u16)>::empty(),
    decreases count,
{
    let inputs = backspaces(count);
    if count > 0 {
        deleting_releases_all_keys((count - 1) as nat);
        assert(inputs.drop_last().drop_last() =~= backspaces((count - 1) as nat));
        lemma_pair_released(inputs);
    } else {
        assert(inputs =~= Seq::<KeyInput>::empty());
    }
}

/// Ctrl+V releases every key that it presses.
pub proof fn pasting_releases_all_keys()
    ensures
        keys_down(ctrl_v()) == Set::<(u16, u16)>::empty(),
{
    let inputs = ctrl_v();
    let two = inputs.drop_last().drop_last();
    assert(two.drop_last().drop_last() =~= Seq::<KeyInput>::empty());
    reveal_with_fuel(keys_down, 5);
    assert(keys_down(inputs) =~= Set::<(u16, u16)>::empty());
}

/// Where a task stands after a row of replies, and the steps that it handed out.
pub open spec fn task_run(
    config: crate::config::TextInsertionConfigView,
    start: (StageView, StepView),
    replies: Seq<ReplyView>,
) -> (StageView, Seq<StepView>)
    decreases replies.len(),
{
    if replies.len() == 0 {
        (start.0, seq![start.1])
    } else {
        let before = task_run(config, start, replies.drop_last());
        let next = resumed(config, before.0, replies.last());
        (next.0, before.1.push(next.1))
    }
}

/// One more reply leads one step further.
proof fn lemma_one_more(
    config: crate::config::TextInsertionConfigView,
    start: (StageView, StepView),
    replies: Seq<ReplyView>,
    reply: ReplyView,
)
    ensures
        ({
            let before = task_run(config, start, replies);
            let next = resumed(config, before.0, reply);
            task_run(config, start, replies.push(reply)) == (next.0, before.1.push(next.1))
        }),
{
    assert(replies.push(reply).drop_last() =~= replies);
}

/// How far a task is from its end.
pub open spec fn steps_left(stage: StageView) -> nat {
    match stage {
        StageView::Erasing { .. } => 8,
        StageView::Reading { .. } => 7,
        StageView::Writing { .. } => 6,
        StageView::Settling { .. } => 5,
        StageView::Pasting { .. } => 4,
        StageView::Holding { .. } => 3,
        StageView::Restoring => 2,
        StageView::Typing { .. } => 1,
        StageView::Ended => 0,
    }
}

/// Every reply brings a task closer to its end, so it ends after eight replies at most; and it
/// has ended exactly when it hands out no more work.
pub proof fn tasks_end(
    config: crate::config::TextInsertionConfigView,
    stage: StageView,
    reply: ReplyView,
)
    requires
        answers(stage, reply),
    ensures
        steps_left(resumed(config, stage, reply).0) < steps_left(stage) <= 8,
        resumed(config, stage, reply).0 is Ended <==> (resumed(config, stage, reply).1 is Done
            || resumed(config, stage, reply).1 is Fail),
{
}

/// A text that goes through the clipboard is written to it, gets time to be seen, and is
/// pasted; then, after the configured delay, the text that was on the clipboard before is put
/// back. A failure to put it back does not count.
pub proof fn paste_restores_the_clipboard(
    config: crate::config::TextInsertionConfigView,
    text: Seq<char>,
    previous: Option<Seq<char>>,
    restoring: ReplyView,
)
    requires
        text.len() > 0,
        wants_clipboard(config, text),
        restoring is Written || restoring is Failed,
    ensures
        ({
            let delay = config.clipboard_restore_delay_ms;
            let replies = seq![
                ReplyView::Clipboard(previous),
                ReplyView::Written,
                ReplyView::Waited,
                ReplyView::Sent(4),
            ] + (if delay > 0 {
                seq![ReplyView::Waited]
            } else {
                Seq::empty()
            }) + (if previous is Some {
                seq![restoring]
            } else {
                Seq::empty()
            });
            let steps = seq![
                StepView::ReadClipboard,
                StepView::WriteClipboard(clipboard_units(text)),
                StepView::Wait(SETTLE_MS),
                StepView::SendKeys(ctrl_v()),
            ] + (if delay > 0 {
                seq![StepView::Wait(delay)]
            } else {
                Seq::empty()
            }) + (match previous {
                Some(before) => seq![StepView::WriteClipboard(clipboard_units(before))],
                None => Seq::empty(),
            }) + seq![StepView::Done];
            task_run(config, inserted_fast(config, text), replies) == (StageView::Ended, steps)
        }),
{
    let delay = config.clipboard_restore_delay_ms;
    let start = inserted_fast(config, text);
    let none = Seq::<ReplyView>::empty();
    let r1 = none.push(ReplyView::Clipboard(previous));
    let r2 = r1.push(ReplyView::Written);
    let r3 = r2.push(ReplyView::Waited);
    let r4 = r3.push(ReplyView::Sent(4));
    lemma_one_more(config, start, none, ReplyView::Clipboard(previous));
    lemma_one_more(config, start, r1, ReplyView::Written);
    lemma_one_more(config, start, r2, ReplyView::Waited);
    lemma_one_more(config, start, r3, ReplyView::Sent(4));
    let r5 = if delay > 0 {
        r4.push(ReplyView::Waited)
    } else {
        r4
    };
    lemma_one_more(config, start, r4, ReplyView::Waited);
    let r6 = if previous is Some {
        r5.push(restoring)
    } else {
        r5
    };
    lemma_one_more(config, start, r5, restoring);
    assert(r6 =~= seq![
        ReplyView::Clipboard(previous),
        ReplyView::Written,
        ReplyView::Waited,
        ReplyView::Sent(4),
    ] + (if delay > 0 {
        seq![ReplyView::Waited]
    } else {
        Seq::empty()
    }) + (if previous is Some {
        seq![restoring]
    } else {
        Seq::empty()
    }));
    let steps = seq![
        StepView::ReadClipboard,
        StepView::WriteClipboard(clipboard_units(text)),
        StepView::Wait(SETTLE_MS),
        StepView::SendKeys(ctrl_v()),
    ] + (if delay > 0 {
        seq![StepView::Wait(delay)]
    } else {
        Seq::empty()
    }) + (match previous {
        Some(before) => seq![StepView::WriteClipboard(clipboard_units(before))],
        None => Seq::empty(),
    }) + seq![StepView::Done];
    assert(task_run(config, start, r6).1 =~= steps);
}

/// Whatever goes wrong with the clipboard, the text is typed instead, except in the mode
/// `clipboard`, where the error is reported and nothing is typed.
pub proof fn clipboard_failures_fall_back_to_typing(
    config: crate::config::TextInsertionConfigView,
    text: Seq<char>,
    previous: Option<Seq<char>>,
    reason: Seq<char>,
    sent: u32,
)
    requires
        sent != 4,
    ensures
        ({
            let write = StageView::Writing { text, previous };
            let paste = StageView::Pasting { text, previous };
            let refused = ReplyView::Failed(reason);
            let blocked = ReplyView::Sent(sent);
            if clipboard_only(config) {
                &&& resumed(config, write, refused) == failed(InsertErrorView::Refused(reason))
                &&& resumed(config, paste, refused) == failed(InsertErrorView::Refused(reason))
                &&& resumed(config, paste, blocked) == failed(
                    InsertErrorView::Blocked { sent, total: 4 },
                )
            } else {
                &&& resumed(config, write, refused) == typing(text)
                &&& resumed(config, paste, refused) == typing(text)
                &&& resumed(config, paste, blocked) == typing(text)
            }
        }),
{
}

/// With the default settings, a text of eight characters or more goes through the clipboard
/// and a shorter one is typed.
pub proof fn long_texts_use_the_clipboard(text: Seq<char>)
    requires
        text.len() > 0,
    ensures
        text.len() >= 8 ==> inserted_fast(crate::config::default_text_insertion(), text) == (
            StageView::Reading { text },
            StepView::ReadClipboard,
        ),
        text.len() < 8 ==> inserted_fast(crate::config::default_text_insertion(), text) == typing(
            text,
        ),
{
    reveal_strlit("auto");
    reveal_strlit("clipboard");
    assert(crate::text::ascii_lowercase("auto"@) =~= "auto"@);
    assert("auto"@.len() != "clipboard"@.len());
}

/// In the mode `send_input` every text is typed.
pub proof fn send_input_mode_always_types(
    config: crate::config::TextInsertionConfigView,
    text: Seq<char>,
)
    requires
        crate::text::ascii_lowercase(config.mode) == "send_input"@,
    ensures
        inserted_fast(config, text) == inserted(text),
{
    reveal_strlit("send_input");
    reveal_strlit("clipboard");
    reveal_strlit("auto");
    assert("send_input"@.len() != "clipboard"@.len());
    assert("send_input"@.len() != "auto"@.len());
}

/// Typing presses and releases each code unit of the text in turn, by its number, and nothing
/// else.
pub proof fn typing_sends_the_code_units(units: Seq<u16>)
    ensures
        typed(units).len() == 2 * units.len(),
        forall|i: int|
            0 <= i < units.len() ==> {
                let down = #[trigger] typed(units)[2 * i];
                let up = typed(units)[2 * i + 1];
                &&& down.virtual_key == 0 && down.scan == units[i] && down.flags == 4
                &&& up.virtual_key == 0 && up.scan == units[i] && up.flags == 6
            },
{
}

/// Deleting presses and releases Backspace once for each character, and nothing else.
pub proof fn deleting_sends_backspaces(count: nat)
    ensures
        backspaces(count).len() == 2 * count,
        forall|i: int|
            0 <= i < count ==> {
                let down = #[trigger] backspaces(count)[2 * i];
                let up = backspaces(count)[2 * i + 1];
                &&& down.virtual_key == 8 && down.scan == 0 && down.flags == 0
                &&& up.virtual_key == 8 && up.scan == 0 && up.flags == 2
            },
{
}

/// Pasting presses Ctrl, presses and releases V, and releases Ctrl.
pub proof fn pasting_sends_ctrl_v()
    ensures
        ctrl_v().len() == 4,
        forall|i: int| 0 <= i < 4 ==> (#[trigger] ctrl_v()[i]).scan == 0,
        ctrl_v()[0].virtual_key == 0x11 && ctrl_v()[0].flags == 0,
        ctrl_v()[1].virtual_key == 0x56 && ctrl_v()[1].flags == 0,
        ctrl_v()[2].virtual_key == 0x56 && ctrl_v()[2].flags == 2,
        ctrl_v()[3].virtual_key == 0x11 && ctrl_v()[3].flags == 2,
{
}

/// The clipboard is handed the code units of the text and a NUL behind them.
pub proof fn clipboard_holds_the_code_units(text: Seq<char>)
    ensures
        ({
            let units = crate::text::utf16(text);
            &&& clipboard_units(text).len() == units.len() + 1
            &&& clipboard_units(text)[units.len() as int] == 0
            &&& forall|i: int| 0 <= i < units.len() ==> #[trigger] clipboard_units(text)[i] == units[i]
        }),
{
}

/// What is read from the clipboard ends at its first NUL, or with it where there is none.
pub proof fn clipboard_is_read_to_the_first_nul(units: Seq<u16>)
    ensures
        ({
            let n = until_nul(units).len() as int;
            &&& n <= units.len()
            &&& until_nul(units) == units.take(n)
            &&& n < units.len() ==> units[n] == 0
            &&& forall|i: int| 0 <= i < n ==> #[trigger] units[i] != 0
        }),
    decreases units.len(),
{
    if units.len() > 0 && units[0] != 0 {
        let rest = units.drop_first();
        clipboard_is_read_to_the_first_nul(rest);
        let n = until_nul(units).len() as int;
        assert(forall|i: int| 0 < i < units.len() ==> #[trigger] units[i] == rest[i - 1]);
        assert(until_nul(units) =~= units.take(n));
    } else {
        assert(until_nul(units) =~= units.take(0));
    }
}

/// A text goes through the clipboard exactly if it is not empty and the mode, in whatever
/// letter case, is `clipboard`, or is `auto` and the text has at least as many characters as
/// the threshold says. Any other text that is not empty is typed, whole, and an empty one needs
/// nothing.
pub proof fn when_a_text_goes_through_the_clipboard(
    config: crate::config::TextInsertionConfigView,
    text: Seq<char>,
)
    ensures
        ({
            let mode = crate::text::ascii_lowercase(config.mode);
            let pastes = mode == "clipboard"@ || (mode == "auto"@ && text.len()
                >= config.clipboard_threshold_chars);
            let (stage, step) = inserted_fast(config, text);
            &&& step is ReadClipboard <==> text.len() > 0 && pastes
            &&& text.len() > 0 && pastes ==> stage == (StageView::Reading { text })
            &&& text.len() > 0 && !pastes ==> step == StepView::SendKeys(
                typed(crate::text::utf16(text)),
            ) && stage == (StageView::Typing { total: 2 * crate::text::utf16(text).len() })
            &&& text.len() == 0 ==> step is Done && stage is Ended
            &&& clipboard_only(config) <==> mode == "clipboard"@
        }),
{
}

/// Insertion by keys types every text that is not empty, whole and in one go, and needs nothing
/// for an empty one.
pub proof fn insertion_by_keys_types(text: Seq<char>)
    ensures
        text.len() > 0 ==> inserted(text) == (
            StageView::Typing { total: 2 * crate::text::utf16(text).len() },
            StepView::SendKeys(typed(crate::text::utf16(text))),
        ),
        text.len() == 0 ==> inserted(text).0 is Ended && inserted(text).1 is Done,
{
}

/// A replacement first sends one Backspace for each character to delete, and goes on with the
/// insertion only when all of these were taken; with nothing to delete it begins with the
/// insertion.
pub proof fn replacement_deletes_before_it_inserts(
    config: crate::config::TextInsertionConfigView,
    count: nat,
    append: Seq<char>,
    fast: bool,
    reply: ReplyView,
)
    ensures
        ({
            let insertion = if fast {
                inserted_fast(config, append)
            } else {
                inserted(append)
            };
            let (stage, step) = replaced(config, count, append, fast);
            &&& count == 0 ==> (stage, step) == insertion
            &&& count > 0 ==> step == StepView::SendKeys(backspaces(count)) && !(stage is Ended)
            &&& count > 0 && 2 * count <= u32::MAX ==> {
                &&& resumed(config, stage, ReplyView::Sent((2 * count) as u32)) == insertion
                &&& (reply matches ReplyView::Sent(sent) && sent != 2 * count) ==> resumed(
                    config,
                    stage,
                    reply,
                ) == failed(
                    InsertErrorView::Blocked { sent: reply->Sent_0, total: (2 * count) as usize },
                )
                &&& reply matches ReplyView::Failed(reason) ==> resumed(config, stage, reply)
                    == failed(InsertErrorView::Refused(reason))
            }
        }),
{
}

/// Typing is done when all inputs were taken; otherwise it fails, with how many were taken or
/// with the reason.
pub proof fn typing_is_done_when_all_is_taken(
    config: crate::config::TextInsertionConfigView,
    total: nat,
    sent: u32,
    reason: Seq<char>,
)
    requires
        total <= u32::MAX,
    ensures
        ({
            let stage = StageView::Typing { total };
            let (after, step) = resumed(config, stage, ReplyView::Sent(sent));
            &&& after is Ended
            &&& sent == total ==> step is Done
            &&& sent != total ==> step == StepView::Fail(
                InsertErrorView::Blocked { sent, total: total as usize },
            )
            &&& resumed(config, stage, ReplyView::Failed(reason)) == (
                StageView::Ended,
                StepView::Fail(InsertErrorView::Refused(reason)),
            )
        }),
{
}

/// A paste goes on, whatever the text and the settings: after the clipboard was read it is
/// written, after that 30 ms pass, after these Ctrl+V is sent, after it the configured delay
/// passes if there is one, and then the text that was read is written back if there was one.
pub proof fn paste_goes_step_by_step(
    config: crate::config::TextInsertionConfigView,
    text: Seq<char>,
    previous: Option<Seq<char>>,
)
    ensures
        ({
            let delay = config.clipboard_restore_delay_ms;
            let read = resumed(
                config,
                StageView::Reading { text },
                ReplyView::Clipboard(previous),
            );
            let written = resumed(
                config,
                StageView::Writing { text, previous },
                ReplyView::Written,
            );
            let settled = resumed(
                config,
                StageView::Settling { text, previous },
                ReplyView::Waited,
            );
            let sent = resumed(
                config,
                StageView::Pasting { text, previous },
                ReplyView::Sent(4),
            );
            let waited = resumed(config, StageView::Holding { previous }, ReplyView::Waited);
            let back = match previous {
                Some(before) => (
                    StageView::Restoring,
                    StepView::WriteClipboard(crate::text::utf16(before).push(0)),
                ),
                None => (StageView::Ended, StepView::Done),
            };
            &&& read == (
                StageView::Writing { text, previous },
                StepView::WriteClipboard(crate::text::utf16(text).push(0)),
            )
            &&& written == (StageView::Settling { text, previous }, StepView::Wait(30))
            &&& settled == (StageView::Pasting { text, previous }, StepView::SendKeys(ctrl_v()))
            &&& delay > 0 ==> sent == (StageView::Holding { previous }, StepView::Wait(delay))
            &&& delay == 0 ==> sent == back
            &&& waited == back
        }),
{
}

/// Putting the text back on the clipboard ends the insertion well, whether it succeeds or not.
pub proof fn restoring_ends_the_insertion(
    config: crate::config::TextInsertionConfigView,
    reason: Seq<char>,
)
    ensures
        resumed(config, StageView::Restoring, ReplyView::Written) == (
            StageView::Ended,
            StepView::Done,
        ),
        resumed(config, StageView::Restoring, ReplyView::Failed(reason)) == (
            StageView::Ended,
            StepView::Done,
        ),
{
}

/// The step that is handed out belongs to where the insertion stands, and the replies that are
/// taken are those to that step.
pub open spec fn step_belongs(stage: StageView, step: StepView) -> bool {
    match step {
        StepView::ReadClipboard => stage is Reading,
        StepView::WriteClipboard(_) => stage is Writing || stage is Restoring,
        StepView::Wait(_) => stage is Settling || stage is Holding,
        StepView::SendKeys(_) => stage is Erasing || stage is Pasting || stage is Typing,
        StepView::Done => stage is Ended,
        StepView::Fail(_) => stage is Ended,
    }
}

/// Exactly the replies to the step that was handed out are taken: the clipboard to a read, that
/// it was written or not to a write, that the time has passed to a wait, how many were taken or
/// a refusal to keys, and none once there is nothing to do. And the step after a reply belongs
/// to where the insertion then stands.
pub proof fn replies_are_those_to_the_step(
    config: crate::config::TextInsertionConfigView,
    stage: StageView,
    step: StepView,
    reply: ReplyView,
)
    requires
        step_belongs(stage, step),
    ensures
        answers(stage, reply) <==> match step {
            StepView::ReadClipboard => reply is Clipboard,
            StepView::WriteClipboard(_) => reply is Written || reply is Failed,
            StepView::Wait(_) => reply is Waited,
            StepView::SendKeys(_) => reply is Sent || reply is Failed,
            StepView::Done => false,
            StepView::Fail(_) => false,
        },
        answers(stage, reply) ==> step_belongs(
            resumed(config, stage, reply).0,
            resumed(config, stage, reply).1,
        ),
{
}

/// The first step of every insertion and replacement belongs to where it stands.
pub proof fn insertions_begin_with_their_step(
    config: crate::config::TextInsertionConfigView,
    count: nat,
    text: Seq<char>,
    fast: bool,
)
    ensures
        step_belongs(inserted(text).0, inserted(text).1),
        step_belongs(inserted_fast(config, text).0, inserted_fast(config, text).1),
        step_belongs(
            replaced(config, count, text, fast).0,
            replaced(config, count, text, fast).1,
        ),
{
}

/// The message of an insertion error is the reason, whole, or says in full how many of how many
/// inputs were taken.
pub proof fn insertion_error_messages(reason: Seq<char>, sent: u32, total: usize)
    ensures
        insert_error_message(InsertErrorView::Refused(reason)) == reason,
        ({
            let message = insert_error_message(InsertErrorView::Blocked { sent, total });
            let first = crate::text::decimal(sent as nat);
            let second = crate::text::decimal(total as nat);
            let a = 15 + first.len() as int;
            let b = a + 4;
            let c = b + second.len();
            &&& message.len() == c + 42
            &&& message.subrange(0, 15) == "SendInput sent "@
            &&& message.subrange(15, a) == first
            &&& message.subrange(a, b) == " of "@
            &&& message.subrange(b, c) == second
            &&& message.subrange(c, c + 42) == " inputs; target may be elevated or blocked"@
        }),
{
    reveal_strlit("SendInput sent ");
    reveal_strlit(" of ");
    reveal_strlit(" inputs; target may be elevated or blocked");
    let message = insert_error_message(InsertErrorView::Blocked { sent, total });
    let first = crate::text::decimal(sent as nat);
    let second = crate::text::decimal(total as nat);
    let a = 15 + first.len() as int;
    let c = a + 4 + second.len();
    assert(message.subrange(0, 15) =~= "SendInput sent "@);
    assert(message.subrange(15, a) =~= first);
    assert(message.subrange(a, a + 4) =~= " of "@);
    assert(message.subrange(a + 4, c) =~= second);
    assert(message.subrange(c, c + 42) =~= " inputs; target may be elevated or blocked"@);
}

} // verus!
