//! What the simulated inputs do to the focused window and the clipboard.

use crate::config::TextInsertionConfigView;
use crate::inserter::{KeyInput, ReplyView, StageView, StepView, KEYEVENTF_UNICODE};
use crate::keys::{VK_BACK, VK_CONTROL, VK_V};
use vstd::prelude::*;

verus! {

/// The text before the cursor of the focused window, and the text on the clipboard, if any.
pub struct Desktop {
    pub text: Seq<char>,
    pub clipboard: Option<Seq<char>>,
}

/// The code units without those of the last character.
pub open spec fn without_last_char(units: Seq<u16>) -> Seq<u16> {
    crate::text::utf16(crate::text::utf16_text(units).drop_last())
}

/// The code units before the cursor after a row of inputs: a code unit that goes down is
/// added, Backspace deletes a character, and Ctrl+V adds the clipboard.
pub open spec fn pressed(units: Seq<u16>, clipboard: Seq<u16>, inputs: Seq<KeyInput>) -> Seq<u16>
    decreases inputs.len(),
{
    if inputs.len() == 0 {
        units
    } else {
        let before = pressed(units, clipboard, inputs.drop_last());
        let input = inputs.last();
        if input.flags == KEYEVENTF_UNICODE {
            before.push(input.scan)
        } else if input.flags == 0 && input.virtual_key == VK_BACK && before.len() > 0 {
            without_last_char(before)
        } else if input.flags == 0 && input.virtual_key == VK_V && crate::inserter::keys_down(
            inputs.drop_last(),
        ).contains((VK_CONTROL, 0)) {
            before + clipboard
        } else {
            before
        }
    }
}

/// The code units on the clipboard, as far as they are text.
pub open spec fn pastable(clipboard: Option<Seq<char>>) -> Seq<u16> {
    match clipboard {
        Some(text) => crate::text::utf16(text),
        None => Seq::empty(),
    }
}

/// The desktop after a step that succeeds, and the reply to the step.
pub open spec fn performed(desktop: Desktop, step: StepView) -> (
    Desktop,
    ReplyView,
) {
    match step {
        StepView::ReadClipboard => (
            desktop,
            ReplyView::Clipboard(desktop.clipboard),
        ),
        StepView::WriteClipboard(units) => (
            Desktop {
                clipboard: Some(crate::text::utf16_text(crate::inserter::until_nul(units))),
                ..desktop
            },
            ReplyView::Written,
        ),
        StepView::SendKeys(inputs) => (
            Desktop {
                text: crate::text::utf16_text(
                    pressed(
                        crate::text::utf16(desktop.text),
                        pastable(desktop.clipboard),
                        inputs,
                    ),
                ),
                ..desktop
            },
            ReplyView::Sent((inputs.len() as usize) as u32),
        ),
        _ => (desktop, ReplyView::Waited),
    }
}

/// The desktop after a task, of which every step succeeds, has handed out `steps` steps or has
/// ended.
pub open spec fn carried_out(
    config: TextInsertionConfigView,
    desktop: Desktop,
    task: (StageView, StepView),
    steps: nat,
) -> Desktop
    decreases steps,
{
    if steps == 0 || task.0 is Ended {
        desktop
    } else {
        let (after, reply) = performed(desktop, task.1);
        carried_out(
            config,
            after,
            crate::inserter::resumed(config, task.0, reply),
            (steps - 1) as nat,
        )
    }
}

/// The desktop after a task of which every step succeeds; no task takes more steps than these.
pub open spec fn completed(
    config: TextInsertionConfigView,
    desktop: Desktop,
    task: (StageView, StepView),
) -> Desktop {
    carried_out(config, desktop, task, 8)
}

/// Encoding two texts one after the other encodes the whole.
proof fn lemma_utf16_concat(first: Seq<char>, second: Seq<char>)
    ensures
        crate::text::utf16(first + second) == crate::text::utf16(first) + crate::text::utf16(
            second,
        ),
{
    crate::text::utf16_goes_character_by_character(first, second);
}

/// Typing code units adds them.
proof fn lemma_typed(units: Seq<u16>, clipboard: Seq<u16>, more: Seq<u16>)
    ensures
        pressed(units, clipboard, crate::inserter::typed(more)) == units + more,
    decreases more.len(),
{
    let inputs = crate::inserter::typed(more);
    if more.len() > 0 {
        lemma_typed(units, clipboard, more.drop_last());
        assert(inputs.drop_last().drop_last() =~= crate::inserter::typed(more.drop_last()));
        reveal_with_fuel(pressed, 3);
        assert((units + more.drop_last()).push(more.last()) =~= units + more);
    } else {
        assert(inputs =~= Seq::<KeyInput>::empty());
        assert(units + more =~= units);
    }
}

/// Pressing Backspace deletes the last characters.
proof fn lemma_backspaces(text: Seq<char>, clipboard: Seq<u16>, count: nat)
    requires
        count <= text.len(),
    ensures
        pressed(crate::text::utf16(text), clipboard, crate::inserter::backspaces(count))
            == crate::text::utf16(text.take(text.len() - count)),
    decreases count,
{
    let inputs = crate::inserter::backspaces(count);
    if count > 0 {
        let fewer = (count - 1) as nat;
        lemma_backspaces(text, clipboard, fewer);
        assert(inputs.drop_last().drop_last() =~= crate::inserter::backspaces(fewer));
        let before = text.take(text.len() - fewer);
        crate::text::utf16_round_trip(before);
        lemma_utf16_concat(before.drop_last(), seq![before.last()]);
        assert(before.drop_last() + seq![before.last()] =~= before);
        assert(before.drop_last() =~= text.take(text.len() - count));
        assert(crate::text::utf16(before).len() > 0);
        reveal_with_fuel(pressed, 3);
    } else {
        assert(inputs =~= Seq::<KeyInput>::empty());
        assert(text.take(text.len() as int) =~= text);
    }
}

/// Ctrl+V adds the clipboard.
proof fn lemma_ctrl_v(units: Seq<u16>, clipboard: Seq<u16>)
    ensures
        pressed(units, clipboard, crate::inserter::ctrl_v()) == units + clipboard,
{
    let inputs = crate::inserter::ctrl_v();
    let two = inputs.drop_last().drop_last();
    let one = two.drop_last();
    assert(one.drop_last() =~= Seq::<KeyInput>::empty());
    reveal_with_fuel(pressed, 5);
    reveal_with_fuel(crate::inserter::keys_down, 3);
    assert(crate::inserter::keys_down(one).contains((VK_CONTROL, 0)));
}

/// Typing a text writes it at the cursor and leaves the clipboard alone.
pub proof fn typing_adds_the_text(desktop: Desktop, text: Seq<char>)
    ensures
        performed(desktop, crate::inserter::typing(text).1).0 == (Desktop {
            text: desktop.text + text,
            ..desktop
        }),
{
    lemma_typed(
        crate::text::utf16(desktop.text),
        pastable(desktop.clipboard),
        crate::text::utf16(text),
    );
    lemma_utf16_concat(desktop.text, text);
    crate::text::utf16_round_trip(desktop.text + text);
}

/// Pressing Backspace `count` times deletes `count` characters and leaves the clipboard alone.
pub proof fn backspaces_delete_characters(desktop: Desktop, count: nat)
    requires
        count <= desktop.text.len(),
    ensures
        performed(
            desktop,
            StepView::SendKeys(crate::inserter::backspaces(count)),
        ).0 == (Desktop { text: desktop.text.take(desktop.text.len() - count), ..desktop }),
{
    lemma_backspaces(desktop.text, pastable(desktop.clipboard), count);
    crate::text::utf16_round_trip(desktop.text.take(desktop.text.len() - count));
}

/// Ctrl+V writes the text that is on the clipboard at the cursor.
pub proof fn pasting_adds_the_clipboard(desktop: Desktop, text: Seq<char>)
    requires
        desktop.clipboard == Some(text),
    ensures
        performed(
            desktop,
            StepView::SendKeys(crate::inserter::ctrl_v()),
        ).0 == (Desktop { text: desktop.text + text, ..desktop }),
{
    lemma_ctrl_v(crate::text::utf16(desktop.text), crate::text::utf16(text));
    lemma_utf16_concat(desktop.text, text);
    crate::text::utf16_round_trip(desktop.text + text);
}

/// The clipboard's text ends at its first NUL, so it holds none.
pub open spec fn valid(desktop: Desktop) -> bool {
    desktop.clipboard matches Some(text) ==> !text.contains('\0')
}

/// The insertion of `text` does not put a NUL on the clipboard, where it would end the text.
pub open spec fn arrives_whole(
    config: TextInsertionConfigView,
    text: Seq<char>,
    fast: bool,
) -> bool {
    text.contains('\0') ==> !(fast && crate::inserter::wants_clipboard(config, text))
}

/// The insertion of a text by keys or the fast way.
pub open spec fn insertion(config: TextInsertionConfigView, text: Seq<char>, fast: bool) -> (
    StageView,
    StepView,
) {
    if fast {
        crate::inserter::inserted_fast(config, text)
    } else {
        crate::inserter::inserted(text)
    }
}

/// `after` is `before` with `text` at the cursor. The clipboard holds its text again; where it
/// held none, it may hold `text`.
pub open spec fn text_added(before: Desktop, after: Desktop, text: Seq<char>) -> bool {
    &&& after.text == before.text + text
    &&& match before.clipboard {
        Some(_) => after.clipboard == before.clipboard,
        None => after.clipboard is None || after.clipboard == Some(text),
    }
    &&& valid(after)
}

/// An insertion takes no more than seven steps.
proof fn lemma_insertion(
    config: TextInsertionConfigView,
    desktop: Desktop,
    text: Seq<char>,
    fast: bool,
    steps: nat,
)
    requires
        arrives_whole(config, text, fast),
        valid(desktop),
        steps >= 7,
    ensures
        text_added(
            desktop,
            carried_out(config, desktop, insertion(config, text, fast), steps),
            text,
        ),
{
    reveal_with_fuel(carried_out, 8);
    if text.len() == 0 {
        assert(desktop.text + text =~= desktop.text);
    } else {
        typing_adds_the_text(desktop, text);
        if !text.contains('\0') {
            crate::inserter::clipboard_round_trip(text);
        }
        pasting_adds_the_clipboard(Desktop { clipboard: Some(text), ..desktop }, text);
        if let Some(previous) = desktop.clipboard {
            crate::inserter::clipboard_round_trip(previous);
        }
    }
}

/// Inserting a text, by keys or through the clipboard, writes it at the cursor. The clipboard
/// holds its text again at the end; where it held none, it may hold the inserted text.
pub proof fn insertion_writes_the_text(
    config: TextInsertionConfigView,
    desktop: Desktop,
    text: Seq<char>,
    fast: bool,
)
    requires
        arrives_whole(config, text, fast),
        valid(desktop),
    ensures
        text_added(desktop, completed(config, desktop, insertion(config, text, fast)), text),
{
    lemma_insertion(config, desktop, text, fast, 8);
}

/// Deleting characters and inserting a text replaces the characters by the text.
pub proof fn replacement_rewrites_the_text(
    config: TextInsertionConfigView,
    desktop: Desktop,
    count: nat,
    text: Seq<char>,
    fast: bool,
)
    requires
        count <= desktop.text.len(),
        arrives_whole(config, text, fast),
        valid(desktop),
    ensures
        text_added(
            Desktop { text: desktop.text.take(desktop.text.len() - count), ..desktop },
            completed(config, desktop, crate::inserter::replaced(config, count, text, fast)),
            text,
        ),
{
    let task = crate::inserter::replaced(config, count, text, fast);
    if count > 0 {
        backspaces_delete_characters(desktop, count);
        let (erased, reply) = performed(desktop, task.1);
        lemma_insertion(config, erased, text, fast, 7);
        assert(crate::inserter::resumed(config, task.0, reply) == insertion(config, text, fast));
    } else {
        lemma_insertion(config, desktop, text, fast, 8);
        assert(desktop.text.take(desktop.text.len() as int) =~= desktop.text);
    }
}

} // verus!
