//! Hotkeys that trigger voice input: combinations, double taps, and taps or holds of one key.

use crate::config::HotkeyConfig;
use crate::keys::{
    contains_u16, parse_combo_key, parse_tap_hold_target, single_key, virtual_keys_of_modifier,
    KeyError, TapHoldTarget,
};
use crate::text::{same_text, to_lowercase};
use crate::time::{elapsed, nanos_of_millis};
use global_hotkey::hotkey::HotKey;
use vstd::prelude::*;

verus! {

broadcast use vstd::string::group_string_axioms;

/// How the hotkey works.
#[derive(Debug, Clone, Copy, PartialEq, Eq, Structural)]
pub enum HotkeyMode {
    /// A combination such as Ctrl+Shift+V.
    Combo,
    /// Two quick presses of one key.
    DoubleTap,
    /// A tap toggles; a hold records until the key is released.
    TapHold,
}

/// What a hotkey asks for.
#[derive(Debug, Clone, Copy, PartialEq, Eq, Structural)]
pub enum HotkeyEvent {
    /// Turn voice input on or off.
    Toggle,
    /// Start voice input.
    Start,
    /// Stop voice input.
    Stop,
    /// A quick tap of the tap/hold key has ended.
    Tap,
}

/// The mode with the given name; an unknown name stands for tap/hold.
pub open spec fn named_mode(name: Seq<char>) -> HotkeyMode {
    if name == "combo"@ {
        HotkeyMode::Combo
    } else if name == "double_tap"@ {
        HotkeyMode::DoubleTap
    } else {
        HotkeyMode::TapHold
    }
}

impl HotkeyMode {
    /// The mode with the given name; an unknown name stands for tap/hold.
    pub fn from_name(name: &str) -> (r: HotkeyMode)
        ensures
            r == named_mode(name@),
    {
        if same_text(name, "combo") {
            HotkeyMode::Combo
        } else if same_text(name, "double_tap") {
            HotkeyMode::DoubleTap
        } else {
            HotkeyMode::TapHold
        }
    }
}

// ---------------------------------------------------------------------------------------
// Double taps
// ---------------------------------------------------------------------------------------

/// What a tap at `now` does after one at `last`: the tap to remember, and whether the two
/// make a double tap.
pub open spec fn tapped(interval: nat, last: Option<u128>, now: u128) -> (Option<u128>, bool) {
    match last {
        Some(previous) => if crate::time::since(previous, now) <= interval {
            (None, true)
        } else {
            (Some(now), false)
        },
        None => (Some(now), false),
    }
}

/// What a tap at `now` does after one at `last`, if it counts: the tap to remember, and a toggle
/// where the two make a double tap.
pub open spec fn double_tap_step(
    interval: nat,
    last: Option<u128>,
    counts: bool,
    now: u128,
) -> (Option<u128>, Option<HotkeyEvent>) {
    if counts {
        let (waiting, double) = tapped(interval, last, now);
        (
            waiting,
            if double {
                Some(HotkeyEvent::Toggle)
            } else {
                None
            },
        )
    } else {
        (last, None)
    }
}

/// Recognises two taps within an interval.
#[derive(Debug)]
pub struct DoubleTap {
    interval_ms: u64,
    last: Option<u128>,
}

impl DoubleTap {
    /// The longest time between the two taps, in nanoseconds.
    pub closed spec fn interval(self) -> nat {
        crate::time::millis(self.interval_ms)
    }

    /// The tap that waits for a second one.
    pub closed spec fn last(self) -> Option<u128> {
        self.last
    }

    /// Waits for a first tap.
    pub fn new(interval_ms: u64) -> (r: Self)
        ensures
            r.interval() == crate::time::millis(interval_ms),
            r.last() is None,
    {
        DoubleTap { interval_ms, last: None }
    }

    /// Takes a tap at `now`; tells whether it completes a double tap.
    pub fn tap(&mut self, now: u128) -> (r: bool)
        ensures
            final(self).interval() == old(self).interval(),
            (final(self).last(), r) == tapped(old(self).interval(), old(self).last(), now),
    {
        if let Some(previous) = self.last {
            if elapsed(previous, now) <= nanos_of_millis(self.interval_ms) {
                self.last = None;
                return true;
            }
        }
        self.last = Some(now);
        false
    }
}

/// A tap that completes a double tap starts over: the tap after it is a first tap again and
/// completes none.
pub proof fn double_taps_do_not_overlap(interval: nat, last: Option<u128>, now: u128, next: u128)
    requires
        tapped(interval, last, now).1,
    ensures
        tapped(interval, tapped(interval, last, now).0, next) == (Some(next), false),
{
}

/// Two taps within the interval make a double tap; two that are further apart do not, and the
/// second of them counts as a first tap.
pub proof fn two_taps(interval: nat, first: u128, second: u128)
    ensures
        ({
            let waiting = tapped(interval, None, first).0;
            let r = tapped(interval, waiting, second);
            &&& r.1 == (crate::time::since(first, second) <= interval)
            &&& !r.1 ==> r.0 == Some(second)
        }),
{
}

// ---------------------------------------------------------------------------------------
// Key events of the keyboard hook
// ---------------------------------------------------------------------------------------

pub const WM_KEYDOWN: u32 = 0x100;

pub const WM_KEYUP: u32 = 0x101;

pub const WM_SYSKEYDOWN: u32 = 0x104;

pub const WM_SYSKEYUP: u32 = 0x105;

/// A call of the low-level keyboard hook: its code, its message, and the key it reports.
#[derive(Debug, Clone, Copy, PartialEq, Eq, Structural)]
pub struct KeyEvent {
    pub code: i32,
    pub message: u32,
    pub vk_code: u32,
    pub scan_code: u32,
}

impl KeyEvent {
    /// The hook call carries a key event.
    pub open spec fn is_action(self) -> bool {
        self.code >= 0
    }

    /// A key goes down.
    pub open spec fn is_down(self) -> bool {
        self.message == WM_KEYDOWN || self.message == WM_SYSKEYDOWN
    }

    /// A key goes up.
    pub open spec fn is_up(self) -> bool {
        self.message == WM_KEYUP || self.message == WM_SYSKEYUP
    }

    /// The virtual key: the low 16 bits of what the hook reports.
    pub open spec fn virtual_key(self) -> u16 {
        self.vk_code as u16
    }
}

/// Recognises a double tap of a modifier key from the events of the keyboard hook.
#[derive(Debug)]
pub struct ModifierDoubleTap {
    target_vks: Vec<u16>,
    taps: DoubleTap,
}

/// A key event ends a tap of one of the `targets`.
pub open spec fn releases(targets: Seq<u16>, active: bool, event: KeyEvent) -> bool {
    event.is_action() && active && targets.contains(event.virtual_key()) && event.is_up()
}

impl ModifierDoubleTap {
    /// The virtual keys of the modifier.
    pub closed spec fn targets(self) -> Seq<u16> {
        self.target_vks@
    }

    /// The longest time between the two taps, in nanoseconds.
    pub closed spec fn interval(self) -> nat {
        self.taps.interval()
    }

    /// The release that waits for a second one.
    pub closed spec fn last_release(self) -> Option<u128> {
        self.taps.last()
    }

    /// Watches the virtual keys of the modifier `lower`, a name in lower case.
    pub fn new(lower: &str, interval_ms: u64) -> (r: Self)
        ensures
            r.targets() == crate::keys::modifier_virtual_keys(lower@),
            r.interval() == crate::time::millis(interval_ms),
            r.last_release() is None,
    {
        ModifierDoubleTap {
            target_vks: virtual_keys_of_modifier(lower),
            taps: DoubleTap::new(interval_ms),
        }
    }

    /// Takes a key event at `now`, while the hotkey is active or not. A release of the
    /// modifier is a tap; a double tap is a toggle.
    pub fn on_key(&mut self, active: bool, event: KeyEvent, now: u128) -> (r: Option<HotkeyEvent>)
        ensures
            final(self).targets() == old(self).targets(),
            final(self).interval() == old(self).interval(),
            (final(self).last_release(), r) == double_tap_step(
                old(self).interval(),
                old(self).last_release(),
                releases(old(self).targets(), active, event),
                now,
            ),
    {
        let is_up: bool = event.message == WM_KEYUP || event.message == WM_SYSKEYUP;
        if event.code >= 0 && active && contains_u16(&self.target_vks, event.vk_code as u16)
            && is_up {
            if self.taps.tap(now) {
                return Some(HotkeyEvent::Toggle);
            }
        }
        None
    }
}

// ---------------------------------------------------------------------------------------
// Tap or hold
// ---------------------------------------------------------------------------------------

/// Where a tap/hold key stands.
pub struct TapHoldState {
    pub press_time: Option<u128>,
    pub is_pressed: bool,
}

impl TapHoldState {
    /// The key is up.
    pub open spec fn released() -> TapHoldState {
        TapHoldState { press_time: None, is_pressed: false }
    }

    /// A press has a time exactly while it lasts.
    pub open spec fn well_formed(self) -> bool {
        self.is_pressed <==> self.press_time is Some
    }
}

/// One call of the keyboard hook: whether the hotkey is active, the event and its time.
pub struct TapHoldInput {
    pub active: bool,
    pub event: KeyEvent,
    pub now: u128,
}

/// A key event that the tap/hold key answers to.
pub open spec fn concerns(target: crate::keys::TapHoldTargetView, input: TapHoldInput) -> bool {
    input.event.is_action() && input.active && target.covers(
        input.event.virtual_key(),
        input.event.scan_code,
    )
}

/// How long the key has been down.
pub open spec fn held_for(state: TapHoldState, now: u128) -> nat {
    match state.press_time {
        Some(pressed_at) => crate::time::since(pressed_at, now),
        None => 0,
    }
}

/// What a key event does to a tap/hold key. The key going down starts; going up again it
/// stops after a hold, and ends a tap before that. Repeated downs, as a held key sends them,
/// do nothing.
pub open spec fn tap_hold_step(
    target: crate::keys::TapHoldTargetView,
    threshold: nat,
    state: TapHoldState,
    input: TapHoldInput,
) -> (TapHoldState, Option<HotkeyEvent>) {
    if !concerns(target, input) {
        (state, None)
    } else if input.event.is_down() && !state.is_pressed {
        (
            TapHoldState { press_time: Some(input.now), is_pressed: true },
            Some(HotkeyEvent::Start),
        )
    } else if input.event.is_up() && state.is_pressed {
        (
            TapHoldState::released(),
            Some(
                if held_for(state, input.now) >= threshold {
                    HotkeyEvent::Stop
                } else {
                    HotkeyEvent::Tap
                },
            ),
        )
    } else {
        (state, None)
    }
}

/// Tells taps and holds of one key apart, from the events of the keyboard hook.
#[derive(Debug)]
pub struct TapHoldDetector {
    target: TapHoldTarget,
    hold_threshold_ms: u64,
    press_time: Option<u128>,
    is_pressed: bool,
}

impl TapHoldDetector {
    /// The key.
    pub closed spec fn target(self) -> crate::keys::TapHoldTargetView {
        self.target@
    }

    /// The shortest hold, in nanoseconds.
    pub closed spec fn threshold(self) -> nat {
        crate::time::millis(self.hold_threshold_ms)
    }

    /// Where the key stands.
    pub closed spec fn state(self) -> TapHoldState {
        TapHoldState { press_time: self.press_time, is_pressed: self.is_pressed }
    }

    /// Starts with the key up.
    pub fn new(target: TapHoldTarget, hold_threshold_ms: u64) -> (r: Self)
        ensures
            r.target() == target@,
            r.threshold() == crate::time::millis(hold_threshold_ms),
            r.state() == TapHoldState::released(),
    {
        TapHoldDetector { target, hold_threshold_ms, press_time: None, is_pressed: false }
    }

    /// Takes a key event at `now`, while the hotkey is active or not.
    pub fn on_key(&mut self, active: bool, event: KeyEvent, now: u128) -> (r: Option<HotkeyEvent>)
        ensures
            final(self).target() == old(self).target(),
            final(self).threshold() == old(self).threshold(),
            (final(self).state(), r) == tap_hold_step(
                old(self).target(),
                old(self).threshold(),
                old(self).state(),
                TapHoldInput { active, event, now },
            ),
    {
        if event.code < 0 || !active || !self.target.matches(
            event.vk_code as u16,
            event.scan_code,
        ) {
            return None;
        }
        let is_down: bool = event.message == WM_KEYDOWN || event.message == WM_SYSKEYDOWN;
        let is_up: bool = event.message == WM_KEYUP || event.message == WM_SYSKEYUP;
        if is_down && !self.is_pressed {
            self.is_pressed = true;
            self.press_time = Some(now);
            Some(HotkeyEvent::Start)
        } else if is_up && self.is_pressed {
            let held: u128 = match self.press_time {
                Some(pressed_at) => elapsed(pressed_at, now),
                None => 0,
            };
            self.is_pressed = false;
            self.press_time = None;
            if held >= nanos_of_millis(self.hold_threshold_ms) {
                Some(HotkeyEvent::Stop)
            } else {
                Some(HotkeyEvent::Tap)
            }
        } else {
            None
        }
    }
}

/// The state after a row of hook calls, and the events that they brought.
pub open spec fn tap_hold_run(
    target: crate::keys::TapHoldTargetView,
    threshold: nat,
    start: TapHoldState,
    inputs: Seq<TapHoldInput>,
) -> (TapHoldState, Seq<HotkeyEvent>)
    decreases inputs.len(),
{
    if inputs.len() == 0 {
        (start, Seq::empty())
    } else {
        let before = tap_hold_run(target, threshold, start, inputs.drop_last());
        let (state, event) = tap_hold_step(target, threshold, before.0, inputs.last());
        match event {
            Some(e) => (state, before.1.push(e)),
            None => (state, before.1),
        }
    }
}

/// Whatever the keyboard sends, starts and ends alternate: every start is followed by exactly
/// one tap or stop before the next start, and a start is open exactly while the key is down.
pub proof fn starts_and_ends_alternate(
    target: crate::keys::TapHoldTargetView,
    threshold: nat,
    inputs: Seq<TapHoldInput>,
)
    ensures
        ({
            let (state, events) = tap_hold_run(
                target,
                threshold,
                TapHoldState::released(),
                inputs,
            );
            &&& state.well_formed()
            &&& state.is_pressed == (events.len() % 2 == 1)
            &&& forall|i: int|
                0 <= i < events.len() ==> (#[trigger] events[i] == HotkeyEvent::Start <==> i % 2
                    == 0)
            &&& forall|i: int|
                0 <= i < events.len() ==> #[trigger] events[i] != HotkeyEvent::Toggle
        }),
    decreases inputs.len(),
{
    if inputs.len() > 0 {
        starts_and_ends_alternate(target, threshold, inputs.drop_last());
    }
}

/// A press and the release after it: the press starts, and the release stops if the key was
/// held for the threshold or longer, and is a tap otherwise. Both leave the key up.
pub proof fn press_and_release(
    target: crate::keys::TapHoldTargetView,
    threshold: nat,
    down: TapHoldInput,
    up: TapHoldInput,
)
    requires
        concerns(target, down),
        down.event.is_down(),
        concerns(target, up),
        up.event.is_up(),
    ensures
        ({
            let (pressed, first) = tap_hold_step(target, threshold, TapHoldState::released(), down);
            let (after, second) = tap_hold_step(target, threshold, pressed, up);
            &&& first == Some(HotkeyEvent::Start)
            &&& second == Some(
                if crate::time::since(down.now, up.now) >= threshold {
                    HotkeyEvent::Stop
                } else {
                    HotkeyEvent::Tap
                },
            )
            &&& after == TapHoldState::released()
        }),
{
}

/// The repeated downs of a held key bring no event and do not restart the hold.
pub proof fn held_key_repeats_do_nothing(
    target: crate::keys::TapHoldTargetView,
    threshold: nat,
    state: TapHoldState,
    input: TapHoldInput,
)
    requires
        state.is_pressed,
        input.event.is_down(),
    ensures
        tap_hold_step(target, threshold, state, input) == (state, None::<HotkeyEvent>),
{
}

// ---------------------------------------------------------------------------------------
// Registered hotkeys
// ---------------------------------------------------------------------------------------

/// The pause between two looks at a stopped hotkey, in milliseconds.
pub const INACTIVE_PAUSE_MS: u64 = 100;

/// Turns the presses of a registered hotkey into events.
#[derive(Debug)]
pub enum RegisteredHotkey {
    /// Every press toggles.
    Combo,
    /// Two quick presses toggle.
    DoubleTap(DoubleTap),
}

impl RegisteredHotkey {
    /// Takes a press at `now`, while the hotkey is active or not.
    pub fn on_press(&mut self, active: bool, now: u128) -> (r: Option<HotkeyEvent>)
        ensures
            match *old(self) {
                RegisteredHotkey::Combo => *final(self) == *old(self) && r == (if active {
                    Some(HotkeyEvent::Toggle)
                } else {
                    None
                }),
                RegisteredHotkey::DoubleTap(taps) => {
                    &&& *final(self) matches RegisteredHotkey::DoubleTap(taps_after)
                    &&& taps_after.interval() == taps.interval()
                    &&& (taps_after.last(), r) == double_tap_step(
                        taps.interval(),
                        taps.last(),
                        active,
                        now,
                    )
                },
            },
            !active ==> *final(self) == *old(self) && r is None,
    {
        if !active {
            return None;
        }
        match self {
            RegisteredHotkey::Combo => Some(HotkeyEvent::Toggle),
            RegisteredHotkey::DoubleTap(taps) => if taps.tap(now) {
                Some(HotkeyEvent::Toggle)
            } else {
                None
            },
        }
    }
}

// ---------------------------------------------------------------------------------------
// The manager
// ---------------------------------------------------------------------------------------

/// A modifier whose double tap only the keyboard hook can see; the name is in lower case.
pub open spec fn needs_hook(lower: Seq<char>) -> bool {
    lower == "ctrl"@ || lower == "shift"@ || lower == "alt"@
}

/// Whether a double tap of the key `lower`, a name in lower case, needs the keyboard hook.
pub fn key_needs_hook(lower: &str) -> (r: bool)
    ensures
        r == needs_hook(lower@),
{
    same_text(lower, "ctrl") || same_text(lower, "shift") || same_text(lower, "alt")
}

/// What listens for the hotkey.
#[derive(Debug)]
pub enum HotkeyListener {
    /// The keyboard hook, for a key that is tapped or held.
    TapHold(TapHoldDetector),
    /// The keyboard hook, for a double tap of a modifier.
    Modifier(ModifierDoubleTap),
    /// The presses of the registered hotkey.
    Registered(RegisteredHotkey),
}

/// A [`HotkeyListener`] by its values.
pub enum HotkeyListenerView {
    TapHold { target: crate::keys::TapHoldTargetView, threshold: nat, state: TapHoldState },
    Modifier { targets: Seq<u16>, interval: nat, last: Option<u128> },
    Combo,
    DoubleTap { interval: nat, last: Option<u128> },
}

impl View for HotkeyListener {
    type V = HotkeyListenerView;

    open spec fn view(&self) -> HotkeyListenerView {
        match self {
            HotkeyListener::TapHold(detector) => HotkeyListenerView::TapHold {
                target: detector.target(),
                threshold: detector.threshold(),
                state: detector.state(),
            },
            HotkeyListener::Modifier(taps) => HotkeyListenerView::Modifier {
                targets: taps.targets(),
                interval: taps.interval(),
                last: taps.last_release(),
            },
            HotkeyListener::Registered(RegisteredHotkey::Combo) => HotkeyListenerView::Combo,
            HotkeyListener::Registered(
                RegisteredHotkey::DoubleTap(taps),
            ) => HotkeyListenerView::DoubleTap { interval: taps.interval(), last: taps.last() },
        }
    }
}

/// What a listener hears.
#[derive(Debug, Clone, Copy, PartialEq, Eq, Structural)]
pub enum HotkeyInput {
    /// A call of the keyboard hook.
    Key(KeyEvent),
    /// A press of the registered hotkey.
    Press,
}

/// What an input at `now` does to a listener, while the hotkey is active or not. The keyboard
/// hook hears keys, the registered hotkey presses; each passes over the other.
pub open spec fn listener_step(
    listener: HotkeyListenerView,
    active: bool,
    input: HotkeyInput,
    now: u128,
) -> (HotkeyListenerView, Option<HotkeyEvent>) {
    match (listener, input) {
        (
            HotkeyListenerView::TapHold { target, threshold, state },
            HotkeyInput::Key(event),
        ) => {
            let (after, heard) = tap_hold_step(
                target,
                threshold,
                state,
                TapHoldInput { active, event, now },
            );
            (HotkeyListenerView::TapHold { target, threshold, state: after }, heard)
        },
        (HotkeyListenerView::Modifier { targets, interval, last }, HotkeyInput::Key(event)) => {
            let counts = releases(targets, active, event);
            let (after, heard) = double_tap_step(interval, last, counts, now);
            (HotkeyListenerView::Modifier { targets, interval, last: after }, heard)
        },
        (HotkeyListenerView::Combo, HotkeyInput::Press) => (
            listener,
            if active {
                Some(HotkeyEvent::Toggle)
            } else {
                None
            },
        ),
        (HotkeyListenerView::DoubleTap { interval, last }, HotkeyInput::Press) => {
            let (after, heard) = double_tap_step(interval, last, active, now);
            (HotkeyListenerView::DoubleTap { interval, last: after }, heard)
        },
        _ => (listener, None),
    }
}

impl HotkeyListener {
    /// Takes an input at `now`, while the hotkey is active or not.
    pub fn on_input(&mut self, active: bool, input: HotkeyInput, now: u128) -> (r: Option<
        HotkeyEvent,
    >)
        ensures
            (final(self)@, r) == listener_step(old(self)@, active, input, now),
    {
        match (self, input) {
            (HotkeyListener::TapHold(detector), HotkeyInput::Key(event)) => detector.on_key(
                active,
                event,
                now,
            ),
            (HotkeyListener::Modifier(taps), HotkeyInput::Key(event)) => taps.on_key(
                active,
                event,
                now,
            ),
            (HotkeyListener::Registered(hotkey), HotkeyInput::Press) => hotkey.on_press(
                active,
                now,
            ),
            _ => None,
        }
    }
}

/// Decides which hotkey to register and what listens for it.
#[derive(Debug)]
pub struct HotkeyManager {
    mode: HotkeyMode,
    double_tap_interval: u64,
    double_tap_key: String,
    tap_hold_key: String,
    tap_hold_threshold: u64,
    is_active: bool,
}

/// A [`HotkeyManager`] by its values.
pub struct HotkeyManagerView {
    pub mode: HotkeyMode,
    pub double_tap_interval: u64,
    pub double_tap_key: Seq<char>,
    pub tap_hold_key: Seq<char>,
    pub tap_hold_threshold: u64,
    pub is_active: bool,
}

impl View for HotkeyManager {
    type V = HotkeyManagerView;

    closed spec fn view(&self) -> HotkeyManagerView {
        HotkeyManagerView {
            mode: self.mode,
            double_tap_interval: self.double_tap_interval,
            double_tap_key: self.double_tap_key@,
            tap_hold_key: self.tap_hold_key@,
            tap_hold_threshold: self.tap_hold_threshold,
            is_active: self.is_active,
        }
    }
}

/// The manager of a configuration, active from the start.
pub open spec fn manager_of(config: crate::config::HotkeyConfigView) -> HotkeyManagerView {
    HotkeyManagerView {
        mode: named_mode(config.mode),
        double_tap_interval: config.double_tap_interval,
        double_tap_key: config.double_tap_key,
        tap_hold_key: config.tap_hold_key,
        tap_hold_threshold: config.tap_hold_threshold,
        is_active: true,
    }
}

/// The hotkey to register, by its flags and key: a combination, or a single key to be tapped
/// twice. A key that the keyboard hook watches is not registered.
pub open spec fn hotkey_to_register(config: crate::config::HotkeyConfigView) -> Result<
    Option<(Set<u32>, global_hotkey::hotkey::Code)>,
    crate::keys::KeyErrorView,
> {
    match named_mode(config.mode) {
        HotkeyMode::Combo => match crate::keys::combo_hotkey(
            crate::keys::combo_parts(config.combo_key),
            config.combo_key,
        ) {
            Ok(hotkey) => Ok(Some(hotkey)),
            Err(error) => Err(error),
        },
        HotkeyMode::DoubleTap => if needs_hook(crate::text::lower_form(config.double_tap_key)) {
            Ok(None)
        } else {
            match crate::keys::named_key(crate::text::upper_form(config.double_tap_key)) {
                Some(code) => Ok(Some((Set::empty(), code))),
                None => Err(crate::keys::KeyErrorView::UnknownKey(config.double_tap_key)),
            }
        },
        HotkeyMode::TapHold => Ok(None),
    }
}

/// What listens for the hotkey of a manager, before it has heard anything.
pub open spec fn listener_of(manager: HotkeyManagerView) -> Result<
    HotkeyListenerView,
    crate::keys::KeyErrorView,
> {
    let lower = crate::text::lower_form(manager.double_tap_key);
    let interval = crate::time::millis(manager.double_tap_interval);
    match manager.mode {
        HotkeyMode::TapHold => match crate::keys::tap_hold_target(manager.tap_hold_key) {
            Ok(target) => Ok(
                HotkeyListenerView::TapHold {
                    target,
                    threshold: crate::time::millis(manager.tap_hold_threshold),
                    state: TapHoldState::released(),
                },
            ),
            Err(error) => Err(error),
        },
        HotkeyMode::DoubleTap => Ok(
            if needs_hook(lower) {
                HotkeyListenerView::Modifier {
                    targets: crate::keys::modifier_virtual_keys(lower),
                    interval,
                    last: None,
                }
            } else {
                HotkeyListenerView::DoubleTap { interval, last: None }
            },
        ),
        HotkeyMode::Combo => Ok(HotkeyListenerView::Combo),
    }
}

/// A manager that has been stopped.
pub open spec fn manager_stopped(manager: HotkeyManagerView) -> HotkeyManagerView {
    HotkeyManagerView { is_active: false, ..manager }
}

impl HotkeyManager {
    /// The manager of a configuration, with the hotkey to register if there is one. A hotkey
    /// with an unknown name is an error.
    pub fn new(config: &HotkeyConfig) -> (r: Result<(Self, Option<HotKey>), KeyError>)
        ensures
            match hotkey_to_register(config@) {
                Ok(wanted) => {
                    &&& r matches Ok((manager, hotkey))
                    &&& manager@ == manager_of(config@)
                    &&& match wanted {
                        Some((flags, code)) => hotkey matches Some(h) && crate::keys::made_of(
                            h,
                            flags,
                            code,
                        ),
                        None => hotkey is None,
                    }
                },
                Err(error) => r matches Err(e) && e@ == error,
            },
    {
        let mode: HotkeyMode = HotkeyMode::from_name(config.mode.as_str());
        let hotkey: Option<HotKey> = match mode {
            HotkeyMode::Combo => match parse_combo_key(config.combo_key.as_str()) {
                Ok(hotkey) => Some(hotkey),
                Err(error) => {
                    return Err(error);
                },
            },
            HotkeyMode::DoubleTap => {
                let lower: String = to_lowercase(config.double_tap_key.as_str());
                if key_needs_hook(lower.as_str()) {
                    None
                } else {
                    match single_key(config.double_tap_key.as_str()) {
                        Ok(hotkey) => Some(hotkey),
                        Err(error) => {
                            return Err(error);
                        },
                    }
                }
            },
            HotkeyMode::TapHold => None,
        };
        Ok(
            (
                HotkeyManager {
                    mode,
                    double_tap_interval: config.double_tap_interval,
                    double_tap_key: config.double_tap_key.clone(),
                    tap_hold_key: config.tap_hold_key.clone(),
                    tap_hold_threshold: config.tap_hold_threshold,
                    is_active: true,
                },
                hotkey,
            ),
        )
    }

    /// What listens for the hotkey. A tap/hold key with an unknown name is an error.
    pub fn on_event(&self) -> (r: Result<HotkeyListener, KeyError>)
        ensures
            match listener_of(self@) {
                Ok(listener) => r matches Ok(l) && l@ == listener,
                Err(error) => r matches Err(e) && e@ == error,
            },
    {
        match self.mode {
            HotkeyMode::TapHold => match parse_tap_hold_target(self.tap_hold_key.as_str()) {
                Ok(target) => Ok(
                    HotkeyListener::TapHold(TapHoldDetector::new(target, self.tap_hold_threshold)),
                ),
                Err(error) => Err(error),
            },
            HotkeyMode::DoubleTap => {
                let lower: String = to_lowercase(self.double_tap_key.as_str());
                if key_needs_hook(lower.as_str()) {
                    Ok(
                        HotkeyListener::Modifier(
                            ModifierDoubleTap::new(lower.as_str(), self.double_tap_interval),
                        ),
                    )
                } else {
                    Ok(
                        HotkeyListener::Registered(
                            RegisteredHotkey::DoubleTap(DoubleTap::new(self.double_tap_interval)),
                        ),
                    )
                }
            },
            HotkeyMode::Combo => Ok(HotkeyListener::Registered(RegisteredHotkey::Combo)),
        }
    }

    /// Whether `event` runs the callback of a toggle-style hotkey.
    pub fn on_trigger(&self, event: HotkeyEvent) -> (r: bool)
        ensures
            r == (event == HotkeyEvent::Toggle),
    {
        event == HotkeyEvent::Toggle
    }

    /// Whether the hotkey is to be acted on.
    pub fn is_active(&self) -> (r: bool)
        ensures
            r == self@.is_active,
    {
        self.is_active
    }

    /// Stops acting on the hotkey.
    pub fn stop(&mut self)
        ensures
            final(self)@ == manager_stopped(old(self)@),
    {
        self.is_active = false;
    }
}

/// The settings that the application runs with always work by tap and hold, whatever mode
/// the file names, and register no hotkey.
pub proof fn settings_in_use_are_tap_hold(config: crate::config::HotkeyConfigView)
    ensures
        ({
            let manager = manager_of(crate::config::settings_in_use(config));
            &&& manager.mode == HotkeyMode::TapHold
            &&& manager.tap_hold_key == config.tap_hold_key
            &&& manager.tap_hold_threshold == config.tap_hold_threshold
        }),
        hotkey_to_register(crate::config::settings_in_use(config)) == Ok::<
            Option<(Set<u32>, global_hotkey::hotkey::Code)>,
            crate::keys::KeyErrorView,
        >(None),
{
    reveal_strlit("tap_hold");
    reveal_strlit("combo");
    reveal_strlit("double_tap");
    assert("tap_hold"@.len() != "combo"@.len());
    assert("tap_hold"@.len() != "double_tap"@.len());
}

/// A listener after a row of inputs, each with its time, and the events that it brought, while
/// the hotkey is active or not all along.
pub open spec fn listener_run(
    listener: HotkeyListenerView,
    active: bool,
    inputs: Seq<(HotkeyInput, u128)>,
) -> (HotkeyListenerView, Seq<HotkeyEvent>)
    decreases inputs.len(),
{
    if inputs.len() == 0 {
        (listener, Seq::empty())
    } else {
        let before = listener_run(listener, active, inputs.drop_last());
        let (after, heard) = listener_step(before.0, active, inputs.last().0, inputs.last().1);
        match heard {
            Some(event) => (after, before.1.push(event)),
            None => (after, before.1),
        }
    }
}

/// A manager that has been stopped is silent: whatever listens for its hotkey, in any mode and
/// wherever it stands, no input brings an event any more or changes the listener.
pub proof fn stopped_hotkey_is_silent(
    manager: HotkeyManagerView,
    listener: HotkeyListenerView,
    inputs: Seq<(HotkeyInput, u128)>,
)
    ensures
        listener_run(listener, manager_stopped(manager).is_active, inputs) == (
            listener,
            Seq::<HotkeyEvent>::empty(),
        ),
    decreases inputs.len(),
{
    if inputs.len() > 0 {
        stopped_hotkey_is_silent(manager, listener, inputs.drop_last());
    }
}

/// Stopping a manager a second time changes nothing.
pub proof fn stopping_twice_is_stopping_once(manager: HotkeyManagerView)
    ensures
        manager_stopped(manager_stopped(manager)) == manager_stopped(manager),
{
}

/// Only the two names of the other modes leave the tap/hold mode.
pub proof fn other_names_mean_tap_hold(name: Seq<char>)
    ensures
        named_mode(name) == HotkeyMode::Combo <==> name == "combo"@,
        named_mode(name) == HotkeyMode::DoubleTap <==> name == "double_tap"@,
        named_mode(name) == HotkeyMode::TapHold <==> name != "combo"@ && name != "double_tap"@,
{
    reveal_strlit("combo");
    reveal_strlit("double_tap");
    assert("combo"@.len() != "double_tap"@.len());
}

/// A double tap is two taps no further apart than the interval, the first of them not used up
/// by an earlier double tap; a tap that completes none is remembered.
pub proof fn double_tap_is_two_close_taps(
    interval: nat,
    last: Option<u128>,
    counts: bool,
    now: u128,
)
    ensures
        ({
            let (after, heard) = double_tap_step(interval, last, counts, now);
            let close = last matches Some(previous) && (now <= previous || now - previous
                <= interval);
            &&& !counts ==> after == last && heard is None
            &&& counts && close ==> after is None && heard == Some(HotkeyEvent::Toggle)
            &&& counts && !close ==> after == Some(now) && heard is None
        }),
{
}

/// A call of the keyboard hook counts as a release of a modifier exactly if it carries an event,
/// while the hotkey is active, of a key going up, with a virtual key of the modifier in the low
/// half of what it reports.
pub proof fn what_counts_as_a_release(targets: Seq<u16>, active: bool, event: KeyEvent)
    ensures
        releases(targets, active, event) <==> {
            &&& active
            &&& event.code >= 0
            &&& event.message == 0x101 || event.message == 0x105
            &&& exists|i: int|
                0 <= i < targets.len() && #[trigger] targets[i] == event.vk_code % 0x10000
        },
{
    lemma_low_half(event.vk_code);
    let vk = event.virtual_key();
    if targets.contains(vk) {
        let i = choose|i: int| 0 <= i < targets.len() && targets[i] == vk;
        assert(targets[i] == event.vk_code % 0x10000);
    }
}

/// The low half of a 32-bit number.
proof fn lemma_low_half(n: u32)
    ensures
        n as u16 == n % 0x10000,
{
    assert(n as u16 == n % 0x10000) by (bit_vector);
}

/// A call of the keyboard hook is heard by a tap/hold key exactly if it carries an event, while
/// the hotkey is active, of the key: by a virtual key, in the low half of what it reports, or by
/// a scan code.
pub proof fn what_concerns_a_tap_hold_key(
    target: crate::keys::TapHoldTargetView,
    input: TapHoldInput,
)
    ensures
        concerns(target, input) <==> {
            &&& input.active
            &&& input.event.code >= 0
            &&& {
                ||| exists|i: int|
                    0 <= i < target.virtual_keys.len() && #[trigger] target.virtual_keys[i]
                        == input.event.vk_code % 0x10000
                ||| exists|i: int|
                    0 <= i < target.scan_codes.len() && #[trigger] target.scan_codes[i]
                        == input.event.scan_code
            }
        },
{
    lemma_low_half(input.event.vk_code);
    let vk = input.event.virtual_key();
    if target.virtual_keys.contains(vk) {
        let i = choose|i: int| 0 <= i < target.virtual_keys.len() && target.virtual_keys[i] == vk;
        assert(target.virtual_keys[i] == input.event.vk_code % 0x10000);
    }
    if target.scan_codes.contains(input.event.scan_code) {
        let i = choose|i: int|
            0 <= i < target.scan_codes.len() && target.scan_codes[i] == input.event.scan_code;
        assert(target.scan_codes[i] == input.event.scan_code);
    }
}

/// What a tap/hold key does, wherever it stands: it starts exactly when it goes down while it
/// was up, at that time; it ends exactly when it goes up while it was down, by a stop if it was
/// down for the threshold or longer and by a tap if not; and nothing else changes it.
pub proof fn tap_hold_key_starts_and_ends(
    target: crate::keys::TapHoldTargetView,
    threshold: nat,
    state: TapHoldState,
    input: TapHoldInput,
)
    requires
        state.well_formed(),
    ensures
        ({
            let (after, heard) = tap_hold_step(target, threshold, state, input);
            let message = input.event.message;
            let down = concerns(target, input) && (message == 0x100 || message == 0x104);
            let up = concerns(target, input) && (message == 0x101 || message == 0x105);
            if down && !state.is_pressed {
                &&& heard == Some(HotkeyEvent::Start)
                &&& after.is_pressed && after.press_time == Some(input.now)
            } else if up && state.is_pressed {
                let pressed_at = state.press_time->0;
                &&& !after.is_pressed && after.press_time is None
                &&& heard == Some(HotkeyEvent::Stop) <==> threshold == 0 || input.now - pressed_at
                    >= threshold
                &&& heard == Some(HotkeyEvent::Tap) <==> threshold > 0 && input.now - pressed_at
                    < threshold
            } else {
                after == state && heard is None
            }
        }),
{
}

/// A configuration by tap and hold, from its settings to the events: for a known key, pressing
/// the key starts, and releasing it stops exactly if `tap_hold_threshold` milliseconds or more
/// have passed, and is a tap otherwise. Nothing is registered with the system.
pub proof fn configured_threshold_tells_taps_from_holds(
    config: crate::config::HotkeyConfigView,
    down: KeyEvent,
    up: KeyEvent,
    pressed_at: u128,
    released_at: u128,
)
    requires
        config.mode != "combo"@,
        config.mode != "double_tap"@,
        pressed_at <= released_at,
    ensures
        crate::keys::tap_hold_target(config.tap_hold_key) matches Ok(target) ==> {
            let listener = listener_of(manager_of(config));
            &&& listener is Ok
            &&& concerns(target, TapHoldInput { active: true, event: down, now: pressed_at }) && (
            down.message == 0x100 || down.message == 0x104) && concerns(
                target,
                TapHoldInput { active: true, event: up, now: released_at },
            ) && (up.message == 0x101 || up.message == 0x105) ==> {
                let (held, first) = listener_step(
                    listener->Ok_0,
                    manager_of(config).is_active,
                    HotkeyInput::Key(down),
                    pressed_at,
                );
                let (_, second) = listener_step(
                    held,
                    manager_of(config).is_active,
                    HotkeyInput::Key(up),
                    released_at,
                );
                &&& first == Some(HotkeyEvent::Start)
                &&& second == Some(HotkeyEvent::Stop) <==> released_at - pressed_at
                    >= config.tap_hold_threshold * 1_000_000
                &&& second == Some(HotkeyEvent::Tap) <==> released_at - pressed_at
                    < config.tap_hold_threshold * 1_000_000
            }
        },
        crate::keys::tap_hold_target(config.tap_hold_key) matches Err(error) ==> listener_of(
            manager_of(config),
        ) matches Err(e) && e == error,
        hotkey_to_register(config) == Ok::<
            Option<(Set<u32>, global_hotkey::hotkey::Code)>,
            crate::keys::KeyErrorView,
        >(None),
{
    other_names_mean_tap_hold(config.mode);
}

/// A configuration by double tap, from its settings to the events: two taps toggle exactly if
/// `double_tap_interval` milliseconds or less lie between them. The taps are releases of a
/// modifier that the keyboard hook sees, or presses of the registered key.
pub proof fn configured_interval_tells_double_taps(
    config: crate::config::HotkeyConfigView,
    event: KeyEvent,
    first_at: u128,
    second_at: u128,
)
    requires
        config.mode == "double_tap"@,
        first_at <= second_at,
    ensures
        ({
            let lower = crate::text::lower_form(config.double_tap_key);
            let modifier = lower == "ctrl"@ || lower == "shift"@ || lower == "alt"@;
            let input = if modifier {
                HotkeyInput::Key(event)
            } else {
                HotkeyInput::Press
            };
            let heard_at_all = modifier ==> releases(
                crate::keys::modifier_virtual_keys(lower),
                true,
                event,
            );
            let manager = manager_of(config);
            &&& listener_of(manager) is Ok
            &&& {
                let (after, first) = listener_step(
                    listener_of(manager)->Ok_0,
                    manager.is_active,
                    input,
                    first_at,
                );
                let (_, second) = listener_step(after, manager.is_active, input, second_at);
                &&& first is None
                &&& second == Some(HotkeyEvent::Toggle) <==> heard_at_all && second_at - first_at
                    <= config.double_tap_interval * 1_000_000
                &&& second is None <==> !(second == Some(HotkeyEvent::Toggle))
            }
            &&& modifier ==> hotkey_to_register(config) == Ok::<
                Option<(Set<u32>, global_hotkey::hotkey::Code)>,
                crate::keys::KeyErrorView,
            >(None)
            &&& !modifier ==> match crate::keys::named_key(
                crate::text::upper_form(config.double_tap_key),
            ) {
                Some(code) => hotkey_to_register(config) matches Ok(Some((flags, key))) && key
                    == code && flags == Set::<u32>::empty(),
                None => hotkey_to_register(config) matches Err(e) && e
                    == crate::keys::KeyErrorView::UnknownKey(config.double_tap_key),
            }
        }),
{
    other_names_mean_tap_hold(config.mode);
}

/// A configuration by combination, from its settings to the events: the hotkey of `combo_key`
/// is registered, or its error reported, and every press of it toggles.
pub proof fn configured_combination_toggles(config: crate::config::HotkeyConfigView, now: u128)
    requires
        config.mode == "combo"@,
    ensures
        ({
            let manager = manager_of(config);
            let wanted = crate::keys::combo_hotkey(
                crate::keys::combo_parts(config.combo_key),
                config.combo_key,
            );
            &&& listener_of(manager) is Ok
            &&& listener_step(
                listener_of(manager)->Ok_0,
                manager.is_active,
                HotkeyInput::Press,
                now,
            ) == (listener_of(manager)->Ok_0, Some(HotkeyEvent::Toggle))
            &&& match wanted {
                Ok((flags, code)) => hotkey_to_register(config) matches Ok(Some((f, c))) && f
                    == flags && c == code,
                Err(error) => hotkey_to_register(config) matches Err(e) && e == error,
            }
        }),
{
    other_names_mean_tap_hold(config.mode);
}

/// A listener passes over what it does not listen for: the keyboard hook over presses of the
/// registered hotkey, and the registered hotkey over keys.
pub proof fn listeners_hear_their_own_inputs(
    listener: HotkeyListenerView,
    active: bool,
    event: KeyEvent,
    now: u128,
)
    ensures
        listener is TapHold || listener is Modifier ==> listener_step(
            listener,
            active,
            HotkeyInput::Press,
            now,
        ) == (listener, None::<HotkeyEvent>),
        listener is Combo || listener is DoubleTap ==> listener_step(
            listener,
            active,
            HotkeyInput::Key(event),
            now,
        ) == (listener, None::<HotkeyEvent>),
{
}

/// A listener of the keyboard hook goes on from where its key stands, with its own key,
/// threshold and interval; so does the registered key that is tapped twice.
pub proof fn listeners_keep_their_settings(
    target: crate::keys::TapHoldTargetView,
    threshold: nat,
    state: TapHoldState,
    targets: Seq<u16>,
    interval: nat,
    last: Option<u128>,
    active: bool,
    event: KeyEvent,
    now: u128,
)
    ensures
        ({
            let (after, heard) = listener_step(
                HotkeyListenerView::TapHold { target, threshold, state },
                active,
                HotkeyInput::Key(event),
                now,
            );
            let step = tap_hold_step(target, threshold, state, TapHoldInput { active, event, now });
            &&& heard == step.1
            &&& after == HotkeyListenerView::TapHold { target, threshold, state: step.0 }
        }),
        ({
            let (after, heard) = listener_step(
                HotkeyListenerView::Modifier { targets, interval, last },
                active,
                HotkeyInput::Key(event),
                now,
            );
            let step = double_tap_step(interval, last, releases(targets, active, event), now);
            &&& heard == step.1
            &&& after == HotkeyListenerView::Modifier { targets, interval, last: step.0 }
        }),
        ({
            let (after, heard) = listener_step(
                HotkeyListenerView::DoubleTap { interval, last },
                active,
                HotkeyInput::Press,
                now,
            );
            let step = double_tap_step(interval, last, active, now);
            &&& heard == step.1
            &&& after == HotkeyListenerView::DoubleTap { interval, last: step.0 }
        }),
        listener_step(HotkeyListenerView::Combo, active, HotkeyInput::Press, now) == (
            HotkeyListenerView::Combo,
            if active {
                Some(HotkeyEvent::Toggle)
            } else {
                None
            },
        ),
{
}

} // verus!
