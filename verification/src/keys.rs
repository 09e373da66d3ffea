//! Key names: combinations for the system-wide hotkey and targets of the keyboard hook.

use crate::text::{chars_of, parse_u16, same_text, split, to_lowercase, to_uppercase, trim};
use global_hotkey::hotkey::{Code, HotKey, Modifiers};
use vstd::prelude::*;

verus! {

broadcast use vstd::string::group_string_axioms;

// ---------------------------------------------------------------------------------------
// Types of the hotkey crate
// ---------------------------------------------------------------------------------------

/// The key codes of `global_hotkey`, all of them unit variants.
#[verifier::external_type_specification]
pub struct ExCode(Code);

/// The modifier set of `global_hotkey`, known by [`modifier_flags`] alone.
#[verifier::external_type_specification]
#[verifier::external_body]
pub struct ExModifiers(Modifiers);

/// The hotkey of `global_hotkey`: its modifiers, its key and its id.
#[verifier::external_type_specification]
pub struct ExHotKey(HotKey);

/// The flags that a modifier set holds, each as its bit.
pub uninterp spec fn modifier_flags(modifiers: Modifiers) -> Set<u32>;

/// `Modifiers::empty`: the set without a flag.
pub assume_specification[ Modifiers::empty ]() -> (r: Modifiers)
    ensures
        modifier_flags(r) == Set::<u32>::empty(),
;

/// `Modifiers::insert`: adds the flag of `key` to the set.
#[verifier::external_body]
fn add_modifier(modifiers: &mut Modifiers, key: ModifierKey)
    ensures
        modifier_flags(*final(modifiers)) == modifier_flags(*old(modifiers)).insert(
            modifier_bit(key),
        ),
{
    modifiers.insert(match key {
        ModifierKey::Control => Modifiers::CONTROL,
        ModifierKey::Shift => Modifiers::SHIFT,
        ModifierKey::Alt => Modifiers::ALT,
        ModifierKey::Super => Modifiers::SUPER,
    });
}

/// The flags of an optional modifier set; none stands for the empty set.
pub open spec fn optional_flags(modifiers: Option<Modifiers>) -> Set<u32> {
    match modifiers {
        Some(m) => modifier_flags(m),
        None => Set::empty(),
    }
}

/// The id of a hotkey with the given modifier flags and key: a hash, without a seed, of the text
/// that `HotKey` writes of both.
pub uninterp spec fn hotkey_id(flags: Set<u32>, key: Code) -> u32;

/// `HotKey::new`: a hotkey of the given key and modifiers, with the flag META turned into
/// SUPER. The id is named by [`hotkey_id`].
pub assume_specification[ HotKey::new ](mods: Option<Modifiers>, key: Code) -> (r: HotKey)
    ensures
        r.key == key,
        modifier_flags(r.mods) == (if optional_flags(mods).contains(0x40) {
            optional_flags(mods).remove(0x40).insert(0x2000)
        } else {
            optional_flags(mods)
        }),
        r.id == hotkey_id(modifier_flags(r.mods), key),
;

// ---------------------------------------------------------------------------------------
// Errors
// ---------------------------------------------------------------------------------------

/// Why a key name was not understood.
#[derive(Debug, Clone)]
pub enum KeyError {
    /// No key code has this name.
    UnknownKey(String),
    /// No key that can be tapped and held has this name.
    UnknownTapHoldKey(String),
    /// A function key other than F1 to F24.
    FunctionKeyOutOfRange(String),
    /// A combination of modifiers alone.
    NoKeyInCombo(String),
}

/// A [`KeyError`] with the text it carries.
pub enum KeyErrorView {
    UnknownKey(Seq<char>),
    UnknownTapHoldKey(Seq<char>),
    FunctionKeyOutOfRange(Seq<char>),
    NoKeyInCombo(Seq<char>),
}

impl View for KeyError {
    type V = KeyErrorView;

    open spec fn view(&self) -> KeyErrorView {
        match self {
            KeyError::UnknownKey(name) => KeyErrorView::UnknownKey(name@),
            KeyError::UnknownTapHoldKey(name) => KeyErrorView::UnknownTapHoldKey(name@),
            KeyError::FunctionKeyOutOfRange(name) => KeyErrorView::FunctionKeyOutOfRange(name@),
            KeyError::NoKeyInCombo(name) => KeyErrorView::NoKeyInCombo(name@),
        }
    }
}

/// The message of a key error.
pub open spec fn key_error_message(error: KeyErrorView) -> Seq<char> {
    match error {
        KeyErrorView::UnknownKey(name) => "Unknown key: "@ + name,
        KeyErrorView::UnknownTapHoldKey(name) => "Unknown tap/hold key: "@ + name,
        KeyErrorView::FunctionKeyOutOfRange(name) => "Function key out of range: "@ + name,
        KeyErrorView::NoKeyInCombo(name) => "No key specified in combo: "@ + name,
    }
}

impl KeyError {
    /// The message of the error.
    pub fn message(&self) -> (r: String)
        ensures
            r@ == key_error_message(self@),
    {
        match self {
            KeyError::UnknownKey(name) => "Unknown key: ".to_string().concat(name.as_str()),
            KeyError::UnknownTapHoldKey(name) => "Unknown tap/hold key: ".to_string().concat(
                name.as_str(),
            ),
            KeyError::FunctionKeyOutOfRange(
                name,
            ) => "Function key out of range: ".to_string().concat(name.as_str()),
            KeyError::NoKeyInCombo(name) => "No key specified in combo: ".to_string().concat(
                name.as_str(),
            ),
        }
    }
}

// ---------------------------------------------------------------------------------------
// Key codes
// ---------------------------------------------------------------------------------------

/// The key that writes an upper-case letter or a digit.
pub open spec fn char_key(c: char) -> Option<Code> {
    match c {
        'A' => Some(Code::KeyA),
        'B' => Some(Code::KeyB),
        'C' => Some(Code::KeyC),
        'D' => Some(Code::KeyD),
        'E' => Some(Code::KeyE),
        'F' => Some(Code::KeyF),
        'G' => Some(Code::KeyG),
        'H' => Some(Code::KeyH),
        'I' => Some(Code::KeyI),
        'J' => Some(Code::KeyJ),
        'K' => Some(Code::KeyK),
        'L' => Some(Code::KeyL),
        'M' => Some(Code::KeyM),
        'N' => Some(Code::KeyN),
        'O' => Some(Code::KeyO),
        'P' => Some(Code::KeyP),
        'Q' => Some(Code::KeyQ),
        'R' => Some(Code::KeyR),
        'S' => Some(Code::KeyS),
        'T' => Some(Code::KeyT),
        'U' => Some(Code::KeyU),
        'V' => Some(Code::KeyV),
        'W' => Some(Code::KeyW),
        'X' => Some(Code::KeyX),
        'Y' => Some(Code::KeyY),
        'Z' => Some(Code::KeyZ),
        '0' => Some(Code::Digit0),
        '1' => Some(Code::Digit1),
        '2' => Some(Code::Digit2),
        '3' => Some(Code::Digit3),
        '4' => Some(Code::Digit4),
        '5' => Some(Code::Digit5),
        '6' => Some(Code::Digit6),
        '7' => Some(Code::Digit7),
        '8' => Some(Code::Digit8),
        '9' => Some(Code::Digit9),
        _ => None,
    }
}

/// The key with the given name, in upper case.
pub open spec fn named_key(upper: Seq<char>) -> Option<Code> {
    if upper.len() == 1 {
        char_key(upper[0])
    } else if upper == "SPACE"@ {
        Some(Code::Space)
    } else if upper == "ENTER"@ {
        Some(Code::Enter)
    } else if upper == "RETURN"@ {
        Some(Code::Enter)
    } else if upper == "ESCAPE"@ {
        Some(Code::Escape)
    } else if upper == "ESC"@ {
        Some(Code::Escape)
    } else if upper == "F1"@ {
        Some(Code::F1)
    } else if upper == "F2"@ {
        Some(Code::F2)
    } else if upper == "F3"@ {
        Some(Code::F3)
    } else if upper == "F4"@ {
        Some(Code::F4)
    } else if upper == "F5"@ {
        Some(Code::F5)
    } else if upper == "F6"@ {
        Some(Code::F6)
    } else if upper == "F7"@ {
        Some(Code::F7)
    } else if upper == "F8"@ {
        Some(Code::F8)
    } else if upper == "F9"@ {
        Some(Code::F9)
    } else if upper == "F10"@ {
        Some(Code::F10)
    } else if upper == "F11"@ {
        Some(Code::F11)
    } else if upper == "F12"@ {
        Some(Code::F12)
    } else {
        None
    }
}

/// The key that writes an upper-case letter or a digit.
fn key_of_char(c: char) -> (r: Option<Code>)
    ensures
        r == char_key(c),
{
    match c {
        'A' => Some(Code::KeyA),
        'B' => Some(Code::KeyB),
        'C' => Some(Code::KeyC),
        'D' => Some(Code::KeyD),
        'E' => Some(Code::KeyE),
        'F' => Some(Code::KeyF),
        'G' => Some(Code::KeyG),
        'H' => Some(Code::KeyH),
        'I' => Some(Code::KeyI),
        'J' => Some(Code::KeyJ),
        'K' => Some(Code::KeyK),
        'L' => Some(Code::KeyL),
        'M' => Some(Code::KeyM),
        'N' => Some(Code::KeyN),
        'O' => Some(Code::KeyO),
        'P' => Some(Code::KeyP),
        'Q' => Some(Code::KeyQ),
        'R' => Some(Code::KeyR),
        'S' => Some(Code::KeyS),
        'T' => Some(Code::KeyT),
        'U' => Some(Code::KeyU),
        'V' => Some(Code::KeyV),
        'W' => Some(Code::KeyW),
        'X' => Some(Code::KeyX),
        'Y' => Some(Code::KeyY),
        'Z' => Some(Code::KeyZ),
        '0' => Some(Code::Digit0),
        '1' => Some(Code::Digit1),
        '2' => Some(Code::Digit2),
        '3' => Some(Code::Digit3),
        '4' => Some(Code::Digit4),
        '5' => Some(Code::Digit5),
        '6' => Some(Code::Digit6),
        '7' => Some(Code::Digit7),
        '8' => Some(Code::Digit8),
        '9' => Some(Code::Digit9),
        _ => None,
    }
}

/// The key with the given name, which is in upper case already.
pub fn key_named(upper: &str) -> (r: Option<Code>)
    ensures
        r == named_key(upper@),
{
    let chars: Vec<char> = chars_of(upper);
    if chars.len() == 1 {
        return key_of_char(chars[0]);
    }
    if same_text(upper, "SPACE") {
        Some(Code::Space)
    } else if same_text(upper, "ENTER") {
        Some(Code::Enter)
    } else if same_text(upper, "RETURN") {
        Some(Code::Enter)
    } else if same_text(upper, "ESCAPE") {
        Some(Code::Escape)
    } else if same_text(upper, "ESC") {
        Some(Code::Escape)
    } else if same_text(upper, "F1") {
        Some(Code::F1)
    } else if same_text(upper, "F2") {
        Some(Code::F2)
    } else if same_text(upper, "F3") {
        Some(Code::F3)
    } else if same_text(upper, "F4") {
        Some(Code::F4)
    } else if same_text(upper, "F5") {
        Some(Code::F5)
    } else if same_text(upper, "F6") {
        Some(Code::F6)
    } else if same_text(upper, "F7") {
        Some(Code::F7)
    } else if same_text(upper, "F8") {
        Some(Code::F8)
    } else if same_text(upper, "F9") {
        Some(Code::F9)
    } else if same_text(upper, "F10") {
        Some(Code::F10)
    } else if same_text(upper, "F11") {
        Some(Code::F11)
    } else if same_text(upper, "F12") {
        Some(Code::F12)
    } else {
        None
    }
}

/// The key with the given name, in any case.
pub fn parse_key_code(key: &str) -> (r: Result<Code, KeyError>)
    ensures
        match named_key(crate::text::upper_form(key@)) {
            Some(code) => r == Ok::<Code, KeyError>(code),
            None => r matches Err(e) && e@ == KeyErrorView::UnknownKey(key@),
        },
{
    let upper: String = to_uppercase(key);
    match key_named(upper.as_str()) {
        Some(code) => Ok(code),
        None => Err(KeyError::UnknownKey(key.to_string())),
    }
}

// ---------------------------------------------------------------------------------------
// Combinations
// ---------------------------------------------------------------------------------------

/// A modifier that a combination can name.
#[derive(Debug, Clone, Copy, PartialEq, Eq, Structural)]
pub enum ModifierKey {
    /// Either Ctrl key.
    Control,
    /// Either Shift key.
    Shift,
    /// Either Alt key.
    Alt,
    /// Either Windows key.
    Super,
}

/// The flag that stands for a modifier in a modifier set.
pub open spec fn modifier_bit(key: ModifierKey) -> u32 {
    match key {
        ModifierKey::Alt => 0x1,
        ModifierKey::Control => 0x8,
        ModifierKey::Shift => 0x200,
        ModifierKey::Super => 0x2000,
    }
}

/// The modifier with the given name, in lower case.
pub open spec fn named_modifier(lower: Seq<char>) -> Option<ModifierKey> {
    if lower == "ctrl"@ || lower == "control"@ {
        Some(ModifierKey::Control)
    } else if lower == "shift"@ {
        Some(ModifierKey::Shift)
    } else if lower == "alt"@ {
        Some(ModifierKey::Alt)
    } else if lower == "super"@ || lower == "win"@ || lower == "meta"@ {
        Some(ModifierKey::Super)
    } else {
        None
    }
}

/// The modifier with the given name, which is in lower case already.
pub fn modifier_named(lower: &str) -> (r: Option<ModifierKey>)
    ensures
        r == named_modifier(lower@),
{
    if same_text(lower, "ctrl") || same_text(lower, "control") {
        Some(ModifierKey::Control)
    } else if same_text(lower, "shift") {
        Some(ModifierKey::Shift)
    } else if same_text(lower, "alt") {
        Some(ModifierKey::Alt)
    } else if same_text(lower, "super") || same_text(lower, "win") || same_text(lower, "meta") {
        Some(ModifierKey::Super)
    } else {
        None
    }
}

/// One part of a combination: the part as written, in lower case and in upper case.
#[derive(Debug, Clone)]
pub struct ComboPart {
    pub text: String,
    pub lower: String,
    pub upper: String,
}

/// A [`ComboPart`] by its characters.
pub struct ComboPartView {
    pub text: Seq<char>,
    pub lower: Seq<char>,
    pub upper: Seq<char>,
}

impl View for ComboPart {
    type V = ComboPartView;

    open spec fn view(&self) -> ComboPartView {
        ComboPartView { text: self.text@, lower: self.lower@, upper: self.upper@ }
    }
}

/// The parts by their characters.
pub open spec fn part_views(parts: Seq<ComboPart>) -> Seq<ComboPartView> {
    parts.map_values(|part: ComboPart| part@)
}

/// The part of a combination that `piece` writes.
pub open spec fn combo_part(piece: Seq<char>) -> ComboPartView {
    let text = crate::text::trimmed(piece);
    ComboPartView {
        text,
        lower: crate::text::lower_form(text),
        upper: crate::text::upper_form(text),
    }
}

/// The parts of a combination: the pieces between the `+` signs.
pub open spec fn combo_parts(combo: Seq<char>) -> Seq<ComboPartView> {
    crate::text::pieces(combo, '+').map_values(|piece: Seq<char>| combo_part(piece))
}

/// The flags of all modifiers among the parts, and the last key among them. The first part
/// that is neither a modifier nor a key is an error.
pub open spec fn flags_and_key(parts: Seq<ComboPartView>) -> Result<
    (Set<u32>, Option<Code>),
    KeyErrorView,
>
    decreases parts.len(),
{
    if parts.len() == 0 {
        Ok((Set::empty(), None))
    } else {
        match flags_and_key(parts.drop_last()) {
            Err(error) => Err(error),
            Ok((flags, key)) => match named_modifier(parts.last().lower) {
                Some(modifier) => Ok((flags.insert(modifier_bit(modifier)), key)),
                None => match named_key(parts.last().upper) {
                    Some(code) => Ok((flags, Some(code))),
                    None => Err(KeyErrorView::UnknownKey(parts.last().text)),
                },
            },
        }
    }
}

/// The hotkey that the parts of `combo` make: its modifier flags and its key.
pub open spec fn combo_hotkey(parts: Seq<ComboPartView>, combo: Seq<char>) -> Result<
    (Set<u32>, Code),
    KeyErrorView,
> {
    match flags_and_key(parts) {
        Err(error) => Err(error),
        Ok((flags, Some(code))) => Ok((flags, code)),
        Ok((_, None)) => Err(KeyErrorView::NoKeyInCombo(combo)),
    }
}

/// `hotkey` has the given modifier flags and key, and their id.
pub open spec fn made_of(hotkey: HotKey, flags: Set<u32>, key: Code) -> bool {
    &&& modifier_flags(hotkey.mods) == flags
    &&& hotkey.key == key
    &&& hotkey.id == hotkey_id(flags, key)
}

/// `r` is the hotkey, or the error, that `expected` describes.
pub open spec fn is_hotkey(
    r: Result<HotKey, KeyError>,
    expected: Result<(Set<u32>, Code), KeyErrorView>,
) -> bool {
    match expected {
        Ok((flags, code)) => r matches Ok(hotkey) && made_of(hotkey, flags, code),
        Err(error) => r matches Err(e) && e@ == error,
    }
}

/// A part that names a modifier or a key.
pub open spec fn known_part(part: ComboPartView) -> bool {
    named_modifier(part.lower) is Some || named_key(part.upper) is Some
}

/// A part that names the modifier with the flag `bit`.
pub open spec fn part_has_flag(part: ComboPartView, bit: u32) -> bool {
    named_modifier(part.lower) matches Some(modifier) && modifier_bit(modifier) == bit
}

/// One of the parts names the modifier with the flag `bit`.
pub open spec fn names_flag(parts: Seq<ComboPartView>, bit: u32) -> bool {
    exists|i: int| 0 <= i < parts.len() && part_has_flag(#[trigger] parts[i], bit)
}

/// The names, in upper case, of the parts that are no modifiers, in their order.
pub open spec fn key_names(parts: Seq<ComboPartView>) -> Seq<Seq<char>>
    decreases parts.len(),
{
    if parts.len() == 0 {
        Seq::empty()
    } else if named_modifier(parts.last().lower) is Some {
        key_names(parts.drop_last())
    } else {
        key_names(parts.drop_last()).push(parts.last().upper)
    }
}

/// The key of the last part that is no modifier.
pub open spec fn last_key(parts: Seq<ComboPartView>) -> Option<Code> {
    if key_names(parts).len() == 0 {
        None
    } else {
        named_key(key_names(parts).last())
    }
}

/// A combination is understood exactly if every part is. It then has the flags of the
/// modifiers among its parts, in whatever order and however often they are named, and its key
/// is the one that its last part names that is no modifier.
pub proof fn combination_holds_its_parts(parts: Seq<ComboPartView>)
    ensures
        flags_and_key(parts) is Ok <==> forall|i: int|
            0 <= i < parts.len() ==> known_part(#[trigger] parts[i]),
        flags_and_key(parts) matches Ok((flags, key)) ==> {
            &&& forall|bit: u32| #[trigger] flags.contains(bit) <==> names_flag(parts, bit)
            &&& key == last_key(parts)
            &&& key is Some <==> key_names(parts).len() > 0
        },
    decreases parts.len(),
{
    if parts.len() > 0 {
        let before = parts.drop_last();
        let last = parts.last();
        let n = parts.len() - 1;
        combination_holds_its_parts(before);
        assert(parts[n] == last);
        assert(forall|i: int| 0 <= i < n ==> #[trigger] parts[i] == before[i]);
        assert(forall|i: int| 0 <= i < n ==> #[trigger] before[i] == parts[i]);
        if let Ok((flags, key)) = flags_and_key(parts) {
            assert forall|bit: u32| #[trigger] flags.contains(bit) <==> names_flag(parts, bit) by {
                lemma_one_more_flag(before, last, bit);
                assert(before.push(last) =~= parts);
            }
        }
    }
}

/// The flags of a row of parts are those of all parts but the last, and that of the last.
proof fn lemma_one_more_flag(parts: Seq<ComboPartView>, last: ComboPartView, bit: u32)
    ensures
        names_flag(parts.push(last), bit) <==> names_flag(parts, bit) || part_has_flag(last, bit),
{
    let all = parts.push(last);
    if names_flag(parts, bit) {
        let i = choose|i: int| 0 <= i < parts.len() && part_has_flag(#[trigger] parts[i], bit);
        assert(part_has_flag(all[i], bit));
    }
    if part_has_flag(last, bit) {
        assert(part_has_flag(all[parts.len() as int], bit));
    }
    if names_flag(all, bit) {
        let i = choose|i: int| 0 <= i < all.len() && part_has_flag(#[trigger] all[i], bit);
        if i < parts.len() {
            assert(part_has_flag(parts[i], bit));
        }
    }
}

/// Two rows of parts name the same modifiers, and the same keys in the same order.
pub open spec fn same_parts(a: Seq<ComboPartView>, b: Seq<ComboPartView>) -> bool {
    &&& forall|bit: u32| #[trigger] names_flag(a, bit) <==> names_flag(b, bit)
    &&& key_names(a) == key_names(b)
}

/// A row of parts is understood exactly if its parts that are no modifiers name keys.
proof fn lemma_understood(parts: Seq<ComboPartView>)
    ensures
        flags_and_key(parts) is Ok <==> forall|i: int|
            0 <= i < key_names(parts).len() ==> named_key(#[trigger] key_names(parts)[i]) is Some,
    decreases parts.len(),
{
    if parts.len() > 0 {
        let before = parts.drop_last();
        lemma_understood(before);
        let names = key_names(parts);
        let earlier = key_names(before);
        if named_modifier(parts.last().lower) is None {
            assert(names[earlier.len() as int] == parts.last().upper);
            assert(forall|i: int| 0 <= i < earlier.len() ==> #[trigger] names[i] == earlier[i]);
            assert(forall|i: int| 0 <= i < earlier.len() ==> #[trigger] earlier[i] == names[i]);
        }
    }
}

/// Combinations that name the same modifiers, and the same keys in the same order, are the same
/// hotkey.
pub proof fn combinations_with_the_same_parts_agree(
    a: Seq<ComboPartView>,
    b: Seq<ComboPartView>,
    combo_a: Seq<char>,
    combo_b: Seq<char>,
)
    requires
        same_parts(a, b),
        combo_hotkey(a, combo_a) is Ok,
    ensures
        combo_hotkey(b, combo_b) == combo_hotkey(a, combo_a),
{
    combination_holds_its_parts(a);
    combination_holds_its_parts(b);
    lemma_understood(a);
    lemma_understood(b);
    let flags_a = flags_and_key(a)->Ok_0.0;
    let flags_b = flags_and_key(b)->Ok_0.0;
    assert forall|bit: u32| flags_a.contains(bit) == flags_b.contains(bit) by {
        assert(names_flag(a, bit) <==> names_flag(b, bit));
    }
    assert(flags_a =~= flags_b);
}

/// The names of the keys in two rows of parts, one after the other.
proof fn lemma_key_names_concat(a: Seq<ComboPartView>, b: Seq<ComboPartView>)
    ensures
        key_names(a + b) == key_names(a) + key_names(b),
    decreases b.len(),
{
    if b.len() == 0 {
        assert(a + b =~= a);
        assert(key_names(a) + key_names(b) =~= key_names(a));
    } else {
        lemma_key_names_concat(a, b.drop_last());
        assert((a + b).drop_last() =~= a + b.drop_last());
        assert(key_names(a + b) =~= key_names(a) + key_names(b));
    }
}

/// The flags of two rows of parts, one after the other.
proof fn lemma_flags_concat(a: Seq<ComboPartView>, b: Seq<ComboPartView>, bit: u32)
    ensures
        names_flag(a + b, bit) <==> names_flag(a, bit) || names_flag(b, bit),
    decreases b.len(),
{
    if b.len() == 0 {
        assert(a + b =~= a);
    } else {
        let most = b.drop_last();
        lemma_flags_concat(a, most, bit);
        lemma_one_more_flag(a + most, b.last(), bit);
        lemma_one_more_flag(most, b.last(), bit);
        assert((a + most).push(b.last()) =~= a + b);
        assert(most.push(b.last()) =~= b);
    }
}

/// A single modifier adds its flag and no key.
proof fn lemma_single_modifier(modifier: ComboPartView)
    requires
        named_modifier(modifier.lower) is Some,
    ensures
        key_names(seq![modifier]) == Seq::<Seq<char>>::empty(),
        forall|bit: u32| #[trigger]
            names_flag(seq![modifier], bit) <==> part_has_flag(modifier, bit),
{
    let one = seq![modifier];
    assert(one.drop_last() =~= Seq::<ComboPartView>::empty());
    reveal_with_fuel(key_names, 2);
    assert forall|bit: u32| #[trigger] names_flag(one, bit) <==> part_has_flag(modifier, bit) by {
        lemma_one_more_flag(Seq::empty(), modifier, bit);
        assert(Seq::<ComboPartView>::empty().push(modifier) =~= one);
    }
}

/// A modifier can stand anywhere in a combination: moving it past other parts changes nothing.
pub proof fn modifiers_can_stand_anywhere(
    before: Seq<ComboPartView>,
    modifier: ComboPartView,
    between: Seq<ComboPartView>,
    after: Seq<ComboPartView>,
)
    requires
        named_modifier(modifier.lower) is Some,
    ensures
        same_parts(
            before + seq![modifier] + between + after,
            before + between + seq![modifier] + after,
        ),
{
    let one = seq![modifier];
    lemma_single_modifier(modifier);
    lemma_key_names_concat(before, one);
    lemma_key_names_concat(before + one, between);
    lemma_key_names_concat(before + one + between, after);
    lemma_key_names_concat(before, between);
    lemma_key_names_concat(before + between, one);
    lemma_key_names_concat(before + between + one, after);
    assert(key_names(before + one + between + after) =~= key_names(
        before + between + one + after,
    ));
    assert forall|bit: u32| #[trigger]
        names_flag(before + one + between + after, bit) <==> names_flag(
            before + between + one + after,
            bit,
        ) by {
        lemma_flags_concat(before, one, bit);
        lemma_flags_concat(before + one, between, bit);
        lemma_flags_concat(before + one + between, after, bit);
        lemma_flags_concat(before, between, bit);
        lemma_flags_concat(before + between, one, bit);
        lemma_flags_concat(before + between + one, after, bit);
    }
}

/// A modifier can be named again: that changes nothing.
pub proof fn modifiers_can_be_repeated(
    before: Seq<ComboPartView>,
    modifier: ComboPartView,
    after: Seq<ComboPartView>,
)
    requires
        named_modifier(modifier.lower) matches Some(key) && names_flag(
            before + after,
            modifier_bit(key),
        ),
    ensures
        same_parts(before + seq![modifier] + after, before + after),
{
    let one = seq![modifier];
    lemma_single_modifier(modifier);
    lemma_key_names_concat(before, one);
    lemma_key_names_concat(before + one, after);
    lemma_key_names_concat(before, after);
    assert(key_names(before + one + after) =~= key_names(before + after));
    assert forall|bit: u32| #[trigger]
        names_flag(before + one + after, bit) <==> names_flag(before + after, bit) by {
        lemma_flags_concat(before, one, bit);
        lemma_flags_concat(before + one, after, bit);
        lemma_flags_concat(before, after, bit);
    }
}

/// Parts that look alike in both letter cases are the same parts.
pub proof fn parts_that_look_alike_agree(a: Seq<ComboPartView>, b: Seq<ComboPartView>)
    requires
        a.len() == b.len(),
        forall|i: int|
            0 <= i < a.len() ==> (#[trigger] a[i]).lower == b[i].lower && a[i].upper == b[i].upper,
    ensures
        same_parts(a, b),
    decreases a.len(),
{
    if a.len() > 0 {
        let n = a.len() - 1;
        assert(a[n].lower == b[n].lower && a[n].upper == b[n].upper);
        assert forall|i: int| 0 <= i < n implies (#[trigger] a.drop_last()[i]).lower
            == b.drop_last()[i].lower && a.drop_last()[i].upper == b.drop_last()[i].upper by {
            assert(a[i].lower == b[i].lower && a[i].upper == b[i].upper);
        }
        parts_that_look_alike_agree(a.drop_last(), b.drop_last());
        assert forall|bit: u32| #[trigger] names_flag(a, bit) <==> names_flag(b, bit) by {
            lemma_one_more_flag(a.drop_last(), a.last(), bit);
            lemma_one_more_flag(b.drop_last(), b.last(), bit);
            assert(a.drop_last().push(a.last()) =~= a);
            assert(b.drop_last().push(b.last()) =~= b);
            assert(names_flag(a.drop_last(), bit) <==> names_flag(b.drop_last(), bit));
        }
    } else {
        assert(a =~= b);
    }
}

/// Letter case, and white space around the parts, do not matter in a combination: two ASCII
/// texts whose parts differ in nothing else are the same hotkey, or both are none.
pub proof fn combination_ignores_case_and_padding(a: Seq<char>, b: Seq<char>)
    requires
        vstd::utf8::is_ascii_chars(a),
        vstd::utf8::is_ascii_chars(b),
        crate::text::pieces(a, '+').len() == crate::text::pieces(b, '+').len(),
        forall|i: int|
            0 <= i < crate::text::pieces(a, '+').len() ==> crate::text::same_name(
                #[trigger] crate::text::pieces(a, '+')[i],
                crate::text::pieces(b, '+')[i],
            ),
    ensures
        same_parts(combo_parts(a), combo_parts(b)),
        combo_hotkey(combo_parts(a), a) is Ok <==> combo_hotkey(combo_parts(b), b) is Ok,
        combo_hotkey(combo_parts(a), a) is Ok ==> combo_hotkey(combo_parts(b), b) == combo_hotkey(
            combo_parts(a),
            a,
        ),
{
    let pieces_a = crate::text::pieces(a, '+');
    let pieces_b = crate::text::pieces(b, '+');
    crate::text::lemma_pieces_ascii(a, '+');
    crate::text::lemma_pieces_ascii(b, '+');
    assert forall|i: int| 0 <= i < combo_parts(a).len() implies (#[trigger] combo_parts(
        a,
    )[i]).lower == combo_parts(b)[i].lower && combo_parts(a)[i].upper == combo_parts(b)[i].upper by {
        assert(vstd::utf8::is_ascii_chars(pieces_a[i]));
        assert(vstd::utf8::is_ascii_chars(pieces_b[i]));
        crate::text::same_names_have_the_same_forms(pieces_a[i], pieces_b[i]);
    }
    parts_that_look_alike_agree(combo_parts(a), combo_parts(b));
    if combo_hotkey(combo_parts(a), a) is Ok {
        combinations_with_the_same_parts_agree(combo_parts(a), combo_parts(b), a, b);
    }
    if combo_hotkey(combo_parts(b), b) is Ok {
        combinations_with_the_same_parts_agree(combo_parts(b), combo_parts(a), b, a);
    }
}

/// An error in a row of parts is the error of every longer row.
proof fn lemma_error_stays(parts: Seq<ComboPartView>, n: int)
    requires
        0 <= n <= parts.len(),
        flags_and_key(parts.take(n)) is Err,
    ensures
        flags_and_key(parts) == flags_and_key(parts.take(n)),
    decreases parts.len(),
{
    if n == parts.len() {
        assert(parts.take(n) =~= parts);
    } else {
        assert(parts.drop_last().take(n) =~= parts.take(n));
        lemma_error_stays(parts.drop_last(), n);
    }
}

/// Puts the parts of `combo` together.
pub fn combine(parts: &Vec<ComboPart>, combo: &str) -> (r: Result<HotKey, KeyError>)
    ensures
        is_hotkey(r, combo_hotkey(part_views(parts@), combo@)),
{
    let ghost views = part_views(parts@);
    let mut modifiers: Modifiers = Modifiers::empty();
    let mut key: Option<Code> = None;
    let mut i: usize = 0;
    assert(views.take(0) =~= Seq::<ComboPartView>::empty());
    while i < parts.len()
        invariant
            i <= parts@.len(),
            views == part_views(parts@),
            flags_and_key(views.take(i as int)) == Ok::<(Set<u32>, Option<Code>), KeyErrorView>(
                (modifier_flags(modifiers), key),
            ),
            !modifier_flags(modifiers).contains(0x40),
        decreases parts@.len() - i,
    {
        assert(views.take(i as int + 1).drop_last() =~= views.take(i as int));
        assert(views.take(i as int + 1).last() == parts@[i as int]@);
        match modifier_named(parts[i].lower.as_str()) {
            Some(modifier) => {
                add_modifier(&mut modifiers, modifier);
            },
            None => match key_named(parts[i].upper.as_str()) {
                Some(code) => {
                    key = Some(code);
                },
                None => {
                    proof {
                        lemma_error_stays(views, i as int + 1);
                    }
                    return Err(KeyError::UnknownKey(parts[i].text.clone()));
                },
            },
        }
        i += 1;
    }
    assert(views.take(i as int) =~= views);
    match key {
        Some(code) => Ok(HotKey::new(Some(modifiers), code)),
        None => Err(KeyError::NoKeyInCombo(combo.to_string())),
    }
}

/// The hotkey of a combination like `Ctrl+Shift+V`.
pub fn parse_combo_key(combo: &str) -> (r: Result<HotKey, KeyError>)
    ensures
        is_hotkey(r, combo_hotkey(combo_parts(combo@), combo@)),
{
    let pieces: Vec<String> = split(combo, '+');
    let ghost texts = crate::text::pieces(combo@, '+');
    let mut parts: Vec<ComboPart> = Vec::new();
    let mut i: usize = 0;
    while i < pieces.len()
        invariant
            i <= pieces@.len(),
            texts == pieces@.map_values(|piece: String| piece@),
            part_views(parts@) == texts.take(i as int).map_values(
                |piece: Seq<char>| combo_part(piece),
            ),
        decreases pieces@.len() - i,
    {
        let text: String = trim(pieces[i].as_str());
        let lower: String = to_lowercase(text.as_str());
        let upper: String = to_uppercase(text.as_str());
        let ghost before = parts@;
        parts.push(ComboPart { text, lower, upper });
        i += 1;
        proof {
            assert(part_views(parts@) =~= part_views(before).push(combo_part(texts[i - 1])));
            assert(texts.take(i as int).map_values(|piece: Seq<char>| combo_part(piece))
                =~= texts.take(i - 1).map_values(|piece: Seq<char>| combo_part(piece)).push(
                combo_part(texts[i - 1]),
            ));
        }
    }
    assert(texts.take(i as int) =~= texts);
    combine(&parts, combo)
}

/// The hotkey of a single key without modifiers.
pub fn single_key(key: &str) -> (r: Result<HotKey, KeyError>)
    ensures
        is_hotkey(
            r,
            match named_key(crate::text::upper_form(key@)) {
                Some(code) => Ok((Set::empty(), code)),
                None => Err(KeyErrorView::UnknownKey(key@)),
            },
        ),
{
    match parse_key_code(key) {
        Ok(code) => Ok(HotKey::new(None, code)),
        Err(error) => Err(error),
    }
}

// ---------------------------------------------------------------------------------------
// Keys of the keyboard hook
// ---------------------------------------------------------------------------------------

pub const VK_BACK: u16 = 0x08;

pub const VK_RETURN: u16 = 0x0D;

pub const VK_SHIFT: u16 = 0x10;

pub const VK_CONTROL: u16 = 0x11;

pub const VK_MENU: u16 = 0x12;

pub const VK_ESCAPE: u16 = 0x1B;

pub const VK_SPACE: u16 = 0x20;

pub const VK_V: u16 = 0x56;

pub const VK_F1: u16 = 0x70;

pub const VK_F23: u16 = 0x86;

pub const VK_F24: u16 = 0x87;

pub const VK_LSHIFT: u16 = 0xA0;

pub const VK_RSHIFT: u16 = 0xA1;

pub const VK_LCONTROL: u16 = 0xA2;

pub const VK_RCONTROL: u16 = 0xA3;

pub const VK_LMENU: u16 = 0xA4;

pub const VK_RMENU: u16 = 0xA5;

/// The virtual key that some keyboards report for Fn.
pub const VK_FN_REPORTED: u16 = 0xFF;

/// The scan code that some keyboards report for Fn.
pub const SCAN_FN_REPORTED: u32 = 0x63;

/// The key events that a tap/hold key is known by.
#[derive(Debug, Clone)]
pub struct TapHoldTarget {
    pub virtual_keys: Vec<u16>,
    pub scan_codes: Vec<u32>,
}

/// A [`TapHoldTarget`] as two sequences.
pub struct TapHoldTargetView {
    pub virtual_keys: Seq<u16>,
    pub scan_codes: Seq<u32>,
}

impl View for TapHoldTarget {
    type V = TapHoldTargetView;

    open spec fn view(&self) -> TapHoldTargetView {
        TapHoldTargetView { virtual_keys: self.virtual_keys@, scan_codes: self.scan_codes@ }
    }
}

impl TapHoldTargetView {
    /// A key event with this virtual key and scan code belongs to the target.
    pub open spec fn covers(self, vk_code: u16, scan_code: u32) -> bool {
        self.virtual_keys.contains(vk_code) || self.scan_codes.contains(scan_code)
    }
}

/// A target of virtual keys alone.
pub open spec fn virtual_keys_only(virtual_keys: Seq<u16>) -> TapHoldTargetView {
    TapHoldTargetView { virtual_keys, scan_codes: Seq::empty() }
}

impl TapHoldTarget {
    /// A target of virtual keys alone.
    pub fn from_virtual_keys(virtual_keys: Vec<u16>) -> (r: Self)
        ensures
            r@ == virtual_keys_only(virtual_keys@),
    {
        TapHoldTarget { virtual_keys, scan_codes: Vec::new() }
    }

    /// Whether a key event belongs to the target.
    pub fn matches(&self, vk_code: u16, scan_code: u32) -> (r: bool)
        ensures
            r == self@.covers(vk_code, scan_code),
    {
        contains_u16(&self.virtual_keys, vk_code) || contains_u32(&self.scan_codes, scan_code)
    }
}

/// Whether `values` holds `value`.
pub(crate) fn contains_u16(values: &Vec<u16>, value: u16) -> (r: bool)
    ensures
        r == values@.contains(value),
{
    let mut i: usize = 0;
    while i < values.len()
        invariant
            i <= values@.len(),
            forall|k: int| 0 <= k < i ==> values@[k] != value,
        decreases values@.len() - i,
    {
        if values[i] == value {
            return true;
        }
        i += 1;
    }
    false
}

/// Whether `values` holds `value`.
fn contains_u32(values: &Vec<u32>, value: u32) -> (r: bool)
    ensures
        r == values@.contains(value),
{
    let mut i: usize = 0;
    while i < values.len()
        invariant
            i <= values@.len(),
            forall|k: int| 0 <= k < i ==> values@[k] != value,
        decreases values@.len() - i,
    {
        if values[i] == value {
            return true;
        }
        i += 1;
    }
    false
}

/// `c` is one of `0` to `9`, `A` to `Z` and `a` to `z`.
pub open spec fn ascii_alphanumeric(c: char) -> bool {
    ('0' <= c <= '9') || ('A' <= c <= 'Z') || ('a' <= c <= 'z')
}

/// The target of the function key with the given name, which starts with `F`.
pub open spec fn function_key_target(upper: Seq<char>) -> Result<TapHoldTargetView, KeyErrorView> {
    match crate::text::u16_value(upper.skip(1)) {
        None => Err(KeyErrorView::UnknownTapHoldKey(upper)),
        Some(number) => if 1 <= number <= 24 {
            Ok(virtual_keys_only(seq![(VK_F1 + number - 1) as u16]))
        } else {
            Err(KeyErrorView::FunctionKeyOutOfRange(upper))
        },
    }
}

/// The target of the tap/hold key with the given name, in upper case; `key` is the name as
/// it was configured.
pub open spec fn named_target(upper: Seq<char>, key: Seq<char>) -> Result<
    TapHoldTargetView,
    KeyErrorView,
> {
    if upper == "FN"@ {
        Ok(
            TapHoldTargetView {
                virtual_keys: seq![VK_FN_REPORTED, VK_F23, VK_F24],
                scan_codes: seq![SCAN_FN_REPORTED],
            },
        )
    } else if upper == "CTRL"@ || upper == "CONTROL"@ {
        Ok(virtual_keys_only(seq![VK_CONTROL, VK_LCONTROL, VK_RCONTROL]))
    } else if upper == "SHIFT"@ {
        Ok(virtual_keys_only(seq![VK_SHIFT, VK_LSHIFT, VK_RSHIFT]))
    } else if upper == "ALT"@ {
        Ok(virtual_keys_only(seq![VK_MENU, VK_LMENU, VK_RMENU]))
    } else if upper == "RIGHTALT"@ {
        Ok(virtual_keys_only(seq![VK_RMENU]))
    } else if upper == "SPACE"@ {
        Ok(virtual_keys_only(seq![VK_SPACE]))
    } else if upper == "ESC"@ || upper == "ESCAPE"@ {
        Ok(virtual_keys_only(seq![VK_ESCAPE]))
    } else if upper == "ENTER"@ || upper == "RETURN"@ {
        Ok(virtual_keys_only(seq![VK_RETURN]))
    } else if upper.len() == 1 && ascii_alphanumeric(upper[0]) {
        Ok(virtual_keys_only(seq![upper[0] as u16]))
    } else if upper.len() > 0 && upper[0] == 'F' {
        function_key_target(upper)
    } else {
        Err(KeyErrorView::UnknownTapHoldKey(key))
    }
}

/// `r` is the target, or the error, that `expected` describes.
pub open spec fn is_target(
    r: Result<TapHoldTarget, KeyError>,
    expected: Result<TapHoldTargetView, KeyErrorView>,
) -> bool {
    match expected {
        Ok(target) => r matches Ok(t) && t@ == target,
        Err(error) => r matches Err(e) && e@ == error,
    }
}

/// The target of the tap/hold key with the name `upper`, which is trimmed and in upper case
/// already; `key` is the name as it was configured.
///
/// Windows has no standard virtual key for Fn. Where a keyboard reports Fn at all, it does so
/// as the virtual key 0xFF, as F23 or F24, or with the scan code 0x63; `FN` covers all four.
pub fn target_named(upper: &str, key: &str) -> (r: Result<TapHoldTarget, KeyError>)
    ensures
        is_target(r, named_target(upper@, key@)),
{
    let chars: Vec<char> = chars_of(upper);
    let virtual_keys: Vec<u16> = if same_text(upper, "FN") {
        let scan_codes: Vec<u32> = vec![SCAN_FN_REPORTED];
        assert(scan_codes@ =~= seq![SCAN_FN_REPORTED]);
        return Ok(
            TapHoldTarget {
                virtual_keys: three_keys(VK_FN_REPORTED, VK_F23, VK_F24),
                scan_codes,
            },
        );
    } else if same_text(upper, "CTRL") || same_text(upper, "CONTROL") {
        three_keys(VK_CONTROL, VK_LCONTROL, VK_RCONTROL)
    } else if same_text(upper, "SHIFT") {
        three_keys(VK_SHIFT, VK_LSHIFT, VK_RSHIFT)
    } else if same_text(upper, "ALT") {
        three_keys(VK_MENU, VK_LMENU, VK_RMENU)
    } else if same_text(upper, "RIGHTALT") {
        one_key(VK_RMENU)
    } else if same_text(upper, "SPACE") {
        one_key(VK_SPACE)
    } else if same_text(upper, "ESC") || same_text(upper, "ESCAPE") {
        one_key(VK_ESCAPE)
    } else if same_text(upper, "ENTER") || same_text(upper, "RETURN") {
        one_key(VK_RETURN)
    } else if chars.len() == 1 && is_ascii_alphanumeric(chars[0]) {
        one_key(chars[0] as u16)
    } else if chars.len() > 0 && chars[0] == 'F' {
        match parse_u16(chars.as_slice(), 1) {
            None => {
                return Err(KeyError::UnknownTapHoldKey(upper.to_string()));
            },
            Some(number) => {
                if 1 <= number && number <= 24 {
                    one_key(VK_F1 + number - 1)
                } else {
                    return Err(KeyError::FunctionKeyOutOfRange(upper.to_string()));
                }
            },
        }
    } else {
        return Err(KeyError::UnknownTapHoldKey(key.to_string()));
    };
    Ok(TapHoldTarget::from_virtual_keys(virtual_keys))
}

/// A list of one key.
fn one_key(a: u16) -> (r: Vec<u16>)
    ensures
        r@ == seq![a],
{
    let r: Vec<u16> = vec![a];
    assert(r@ =~= seq![a]);
    r
}

/// A list of two keys.
fn two_keys(a: u16, b: u16) -> (r: Vec<u16>)
    ensures
        r@ == seq![a, b],
{
    let r: Vec<u16> = vec![a, b];
    assert(r@ =~= seq![a, b]);
    r
}

/// A list of three keys.
fn three_keys(a: u16, b: u16, c: u16) -> (r: Vec<u16>)
    ensures
        r@ == seq![a, b, c],
{
    let r: Vec<u16> = vec![a, b, c];
    assert(r@ =~= seq![a, b, c]);
    r
}

/// Whether `c` is an ASCII letter or digit.
fn is_ascii_alphanumeric(c: char) -> (r: bool)
    ensures
        r == ascii_alphanumeric(c),
{
    ('0' <= c && c <= '9') || ('A' <= c && c <= 'Z') || ('a' <= c && c <= 'z')
}

/// The target of the tap/hold key with the given name, in any case and with white space
/// around it.
pub fn parse_tap_hold_target(key: &str) -> (r: Result<TapHoldTarget, KeyError>)
    ensures
        is_target(r, tap_hold_target(key@)),
{
    let name: String = trim(key);
    let upper: String = to_uppercase(name.as_str());
    target_named(upper.as_str(), key)
}

/// The virtual keys of the modifier with the given name, in lower case.
pub open spec fn modifier_virtual_keys(lower: Seq<char>) -> Seq<u16> {
    if lower == "ctrl"@ {
        seq![VK_CONTROL, VK_LCONTROL, VK_RCONTROL]
    } else if lower == "shift"@ {
        seq![VK_LSHIFT, VK_RSHIFT]
    } else if lower == "alt"@ {
        seq![VK_LMENU, VK_RMENU]
    } else {
        Seq::empty()
    }
}

/// The virtual keys that a double tap of the modifier `lower` is known by.
pub fn virtual_keys_of_modifier(lower: &str) -> (r: Vec<u16>)
    ensures
        r@ == modifier_virtual_keys(lower@),
{
    if same_text(lower, "ctrl") {
        three_keys(VK_CONTROL, VK_LCONTROL, VK_RCONTROL)
    } else if same_text(lower, "shift") {
        two_keys(VK_LSHIFT, VK_RSHIFT)
    } else if same_text(lower, "alt") {
        two_keys(VK_LMENU, VK_RMENU)
    } else {
        Vec::new()
    }
}

// ---------------------------------------------------------------------------------------
// Laws of tap/hold keys
// ---------------------------------------------------------------------------------------

/// Two names give the same target, or both give none.
pub open spec fn same_target(
    a: Result<TapHoldTargetView, KeyErrorView>,
    b: Result<TapHoldTargetView, KeyErrorView>,
) -> bool {
    match a {
        Ok(target) => b matches Ok(other) && other == target,
        Err(_) => b is Err,
    }
}

/// What the tap/hold key with the name `key` stands for.
pub open spec fn tap_hold_target(key: Seq<char>) -> Result<TapHoldTargetView, KeyErrorView> {
    named_target(crate::text::upper_form(crate::text::trimmed(key)), key)
}

/// Names with the same upper-case form, white space around them aside, give the same target.
pub proof fn tap_hold_names_with_one_form_agree(a: Seq<char>, b: Seq<char>)
    ensures
        crate::text::upper_form(crate::text::trimmed(a)) == crate::text::upper_form(
            crate::text::trimmed(b),
        ) ==> same_target(tap_hold_target(a), tap_hold_target(b)),
{
}

/// Letter case, and white space around it, do not matter in the name of a tap/hold key: ASCII
/// names that differ in nothing else give the same target.
pub proof fn tap_hold_name_ignores_case_and_padding(a: Seq<char>, b: Seq<char>)
    requires
        vstd::utf8::is_ascii_chars(a),
        vstd::utf8::is_ascii_chars(b),
        crate::text::same_name(a, b),
    ensures
        same_target(tap_hold_target(a), tap_hold_target(b)),
{
    crate::text::same_names_have_the_same_forms(a, b);
}

/// An ASCII name gives the same target as its trimmed upper-case form.
pub proof fn tap_hold_name_in_upper_case_agrees(key: Seq<char>)
    requires
        vstd::utf8::is_ascii_chars(key),
    ensures
        same_target(
            tap_hold_target(key),
            tap_hold_target(crate::text::upper_form(crate::text::trimmed(key))),
        ),
{
    crate::text::upper_name_is_the_same_name(key);
    tap_hold_name_ignores_case_and_padding(
        key,
        crate::text::upper_form(crate::text::trimmed(key)),
    );
}

/// Every target has virtual keys, none of them twice, and only that of Fn has scan codes.
pub proof fn targets_are_well_formed(upper: Seq<char>, key: Seq<char>)
    ensures
        named_target(upper, key) matches Ok(target) ==> {
            &&& target.virtual_keys.len() > 0
            &&& target.virtual_keys.no_duplicates()
            &&& target.scan_codes.len() > 0 <==> upper == "FN"@
        },
{
}

// ---------------------------------------------------------------------------------------
// Laws of key names
// ---------------------------------------------------------------------------------------

/// A single character names a key exactly if it is a capital letter or a digit, and no two of
/// them name the same key.
pub proof fn letters_and_digits_have_their_own_keys(a: char, b: char)
    ensures
        named_key(seq![a]) is Some <==> 65 <= a as int <= 90 || 48 <= a as int <= 57,
        named_key(seq![a]) is Some && named_key(seq![a]) == named_key(seq![b]) ==> a == b,
{
}

/// A longer name names a key exactly if it is one of these, and then that key.
pub proof fn longer_names_of_keys(upper: Seq<char>)
    requires
        upper.len() != 1,
    ensures
        named_key(upper) == Some(Code::Space) <==> upper == "SPACE"@,
        named_key(upper) == Some(Code::Enter) <==> upper == "ENTER"@ || upper == "RETURN"@,
        named_key(upper) == Some(Code::Escape) <==> upper == "ESC"@ || upper == "ESCAPE"@,
        named_key(upper) == Some(Code::F1) <==> upper == "F1"@,
        named_key(upper) == Some(Code::F2) <==> upper == "F2"@,
        named_key(upper) == Some(Code::F3) <==> upper == "F3"@,
        named_key(upper) == Some(Code::F4) <==> upper == "F4"@,
        named_key(upper) == Some(Code::F5) <==> upper == "F5"@,
        named_key(upper) == Some(Code::F6) <==> upper == "F6"@,
        named_key(upper) == Some(Code::F7) <==> upper == "F7"@,
        named_key(upper) == Some(Code::F8) <==> upper == "F8"@,
        named_key(upper) == Some(Code::F9) <==> upper == "F9"@,
        named_key(upper) == Some(Code::F10) <==> upper == "F10"@,
        named_key(upper) == Some(Code::F11) <==> upper == "F11"@,
        named_key(upper) == Some(Code::F12) <==> upper == "F12"@,
        named_key(upper) is Some ==> {
            ||| upper == "SPACE"@ || upper == "ENTER"@ || upper == "RETURN"@
            ||| upper == "ESC"@ || upper == "ESCAPE"@
            ||| upper == "F1"@ || upper == "F2"@ || upper == "F3"@ || upper == "F4"@
            ||| upper == "F5"@ || upper == "F6"@ || upper == "F7"@ || upper == "F8"@
            ||| upper == "F9"@ || upper == "F10"@ || upper == "F11"@ || upper == "F12"@
        },
{
    lemma_key_names_differ();
}

/// The longer names of keys all differ.
proof fn lemma_key_names_differ()
    ensures
        "SPACE"@.len() == 5 && "SPACE"@[0] == 'S',
        "ENTER"@.len() == 5 && "ENTER"@[0] == 'E',
        "RETURN"@.len() == 6 && "RETURN"@[0] == 'R',
        "ESC"@.len() == 3 && "ESC"@[0] == 'E',
        "ESCAPE"@.len() == 6 && "ESCAPE"@[0] == 'E',
        "F1"@.len() == 2 && "F1"@[0] == 'F' && "F1"@[1] == '1',
        "F2"@.len() == 2 && "F2"@[1] == '2',
        "F3"@.len() == 2 && "F3"@[1] == '3',
        "F4"@.len() == 2 && "F4"@[1] == '4',
        "F5"@.len() == 2 && "F5"@[1] == '5',
        "F6"@.len() == 2 && "F6"@[1] == '6',
        "F7"@.len() == 2 && "F7"@[1] == '7',
        "F8"@.len() == 2 && "F8"@[1] == '8',
        "F9"@.len() == 2 && "F9"@[1] == '9',
        "F10"@.len() == 3 && "F10"@[0] == 'F' && "F10"@[2] == '0',
        "F11"@.len() == 3 && "F11"@[0] == 'F' && "F11"@[2] == '1',
        "F12"@.len() == 3 && "F12"@[0] == 'F' && "F12"@[2] == '2',
{
    reveal_strlit("SPACE");
    reveal_strlit("ENTER");
    reveal_strlit("RETURN");
    reveal_strlit("ESC");
    reveal_strlit("ESCAPE");
    reveal_strlit("F1");
    reveal_strlit("F2");
    reveal_strlit("F3");
    reveal_strlit("F4");
    reveal_strlit("F5");
    reveal_strlit("F6");
    reveal_strlit("F7");
    reveal_strlit("F8");
    reveal_strlit("F9");
    reveal_strlit("F10");
    reveal_strlit("F11");
    reveal_strlit("F12");
}

/// A name is that of a modifier exactly if it is one of these, and each modifier has its own
/// flag.
pub proof fn names_and_flags_of_modifiers(lower: Seq<char>)
    ensures
        part_flag(lower) == Some(0x8u32) <==> lower == "ctrl"@ || lower == "control"@,
        part_flag(lower) == Some(0x200u32) <==> lower == "shift"@,
        part_flag(lower) == Some(0x1u32) <==> lower == "alt"@,
        part_flag(lower) == Some(0x2000u32) <==> lower == "super"@ || lower == "win"@ || lower
            == "meta"@,
        part_flag(lower) is Some ==> {
            ||| lower == "ctrl"@ || lower == "control"@ || lower == "shift"@ || lower == "alt"@
            ||| lower == "super"@ || lower == "win"@ || lower == "meta"@
        },
        part_flag(lower) is Some <==> named_modifier(lower) is Some,
{
    reveal_strlit("ctrl");
    reveal_strlit("control");
    reveal_strlit("shift");
    reveal_strlit("alt");
    reveal_strlit("super");
    reveal_strlit("win");
    reveal_strlit("meta");
    assert("shift"@[1] == 'h' && "super"@[1] == 'u');
    assert("alt"@[0] == 'a' && "win"@[0] == 'w');
    assert("ctrl"@[0] == 'c' && "meta"@[0] == 'm');
    assert("control"@.len() == 7 && "ctrl"@.len() == 4 && "meta"@.len() == 4);
    assert("shift"@.len() == 5 && "super"@.len() == 5 && "alt"@.len() == 3 && "win"@.len() == 3);
}

/// The flag of the modifier with the given name, in lower case.
pub open spec fn part_flag(lower: Seq<char>) -> Option<u32> {
    match named_modifier(lower) {
        Some(modifier) => Some(modifier_bit(modifier)),
        None => None,
    }
}

/// The parts of a combination are its pieces between the `+` signs, each without the white
/// space around it, and in both letter cases.
pub proof fn parts_are_the_trimmed_pieces(combo: Seq<char>, i: int)
    requires
        0 <= i < crate::text::pieces(combo, '+').len(),
    ensures
        combo_parts(combo).len() == crate::text::pieces(combo, '+').len(),
        ({
            let text = crate::text::trimmed(crate::text::pieces(combo, '+')[i]);
            &&& combo_parts(combo)[i].text == text
            &&& combo_parts(combo)[i].lower == crate::text::lower_form(text)
            &&& combo_parts(combo)[i].upper == crate::text::upper_form(text)
        }),
{
}

/// A combination that is not understood names its first unknown part, as it was written; one of
/// modifiers alone names itself.
pub proof fn combination_reports_the_first_unknown_part(
    parts: Seq<ComboPartView>,
    combo: Seq<char>,
    n: int,
)
    ensures
        0 <= n < parts.len() && !known_part(parts[n]) && (forall|i: int|
            0 <= i < n ==> known_part(#[trigger] parts[i])) ==> combo_hotkey(parts, combo)
            == Err::<(Set<u32>, Code), KeyErrorView>(KeyErrorView::UnknownKey(parts[n].text)),
        (forall|i: int|
            0 <= i < parts.len() ==> named_modifier((#[trigger] parts[i]).lower) is Some)
            ==> combo_hotkey(parts, combo) == Err::<(Set<u32>, Code), KeyErrorView>(
            KeyErrorView::NoKeyInCombo(combo),
        ),
        combo_hotkey(parts, combo) is Ok <==> (forall|i: int|
            0 <= i < parts.len() ==> known_part(#[trigger] parts[i])) && (exists|i: int|
            0 <= i < parts.len() && named_modifier((#[trigger] parts[i]).lower) is None),
        combo_hotkey(parts, combo) matches Ok((flags, key)) ==> Some(key) == last_key(parts)
            && forall|bit: u32| #[trigger] flags.contains(bit) <==> names_flag(parts, bit),
{
    combination_holds_its_parts(parts);
    lemma_key_names_exist(parts);
    if 0 <= n < parts.len() && !known_part(parts[n]) && (forall|i: int|
        0 <= i < n ==> known_part(#[trigger] parts[i])) {
        let first = parts.take(n);
        assert forall|i: int| 0 <= i < first.len() implies known_part(#[trigger] first[i]) by {
            assert(first[i] == parts[i]);
        }
        combination_holds_its_parts(first);
        let more = parts.take(n + 1);
        assert(more.drop_last() =~= first);
        assert(more.last() == parts[n]);
        lemma_error_stays(parts, n + 1);
    }
    if forall|i: int| 0 <= i < parts.len() ==> named_modifier((#[trigger] parts[i]).lower) is Some {
        assert forall|i: int| 0 <= i < parts.len() implies known_part(#[trigger] parts[i]) by {
            assert(named_modifier(parts[i].lower) is Some);
        }
    }
}

/// There are names of keys exactly if a part is no modifier.
proof fn lemma_key_names_exist(parts: Seq<ComboPartView>)
    ensures
        key_names(parts).len() > 0 <==> exists|i: int|
            0 <= i < parts.len() && named_modifier((#[trigger] parts[i]).lower) is None,
    decreases parts.len(),
{
    if parts.len() > 0 {
        let before = parts.drop_last();
        lemma_key_names_exist(before);
        if exists|i: int|
            0 <= i < before.len() && named_modifier((#[trigger] before[i]).lower) is None {
            let i = choose|i: int|
                0 <= i < before.len() && named_modifier((#[trigger] before[i]).lower) is None;
            assert(named_modifier(parts[i].lower) is None);
        }
        if named_modifier(parts.last().lower) is None {
            assert(named_modifier(parts[parts.len() - 1].lower) is None);
        }
        if exists|i: int|
            0 <= i < parts.len() && named_modifier((#[trigger] parts[i]).lower) is None {
            let i = choose|i: int|
                0 <= i < parts.len() && named_modifier((#[trigger] parts[i]).lower) is None;
            if i < before.len() {
                assert(named_modifier(before[i].lower) is None);
            }
        }
    }
}

/// The last name of a key in a combination is that of the last part that is no modifier.
pub proof fn last_key_is_that_of_the_last_part_with_one(parts: Seq<ComboPartView>, n: int)
    requires
        0 <= n < parts.len(),
        named_modifier(parts[n].lower) is None,
        forall|i: int| n < i < parts.len() ==> named_modifier((#[trigger] parts[i]).lower) is Some,
    ensures
        last_key(parts) == named_key(parts[n].upper),
    decreases parts.len(),
{
    if n < parts.len() - 1 {
        assert(named_modifier(parts[parts.len() - 1].lower) is Some);
        assert forall|i: int| n < i < parts.drop_last().len() implies named_modifier(
            (#[trigger] parts.drop_last()[i]).lower,
        ) is Some by {
            assert(named_modifier(parts[i].lower) is Some);
        }
        last_key_is_that_of_the_last_part_with_one(parts.drop_last(), n);
    }
}

/// A letter or a digit is its own tap/hold key: the virtual key has its number.
pub proof fn letters_and_digits_are_their_own_targets(c: char, key: Seq<char>)
    requires
        48 <= c as int <= 57 || 65 <= c as int <= 90 || 97 <= c as int <= 122,
    ensures
        named_target(seq![c], key) matches Ok(target) && target.virtual_keys.len() == 1
            && target.virtual_keys[0] == c as int && target.scan_codes.len() == 0,
{
    lemma_target_names();
}

/// The names of tap/hold keys by their lengths.
proof fn lemma_target_names()
    ensures
        "FN"@.len() == 2 && "FN"@[0] == 'F' && "FN"@[1] == 'N',
        "CTRL"@.len() == 4 && "CTRL"@[0] == 'C',
        "CONTROL"@.len() == 7 && "CONTROL"@[0] == 'C',
        "SHIFT"@.len() == 5 && "SHIFT"@[0] == 'S' && "SHIFT"@[1] == 'H',
        "ALT"@.len() == 3 && "ALT"@[0] == 'A',
        "RIGHTALT"@.len() == 8 && "RIGHTALT"@[0] == 'R',
        "SPACE"@.len() == 5 && "SPACE"@[0] == 'S' && "SPACE"@[1] == 'P',
        "ESC"@.len() == 3 && "ESC"@[0] == 'E',
        "ESCAPE"@.len() == 6 && "ESCAPE"@[0] == 'E',
        "ENTER"@.len() == 5 && "ENTER"@[0] == 'E',
        "RETURN"@.len() == 6 && "RETURN"@[0] == 'R',
{
    reveal_strlit("FN");
    reveal_strlit("CTRL");
    reveal_strlit("CONTROL");
    reveal_strlit("SHIFT");
    reveal_strlit("ALT");
    reveal_strlit("RIGHTALT");
    reveal_strlit("SPACE");
    reveal_strlit("ESC");
    reveal_strlit("ESCAPE");
    reveal_strlit("ENTER");
    reveal_strlit("RETURN");
}

/// The tap/hold keys with a name of their own have these virtual keys, and Fn a scan code too.
pub proof fn targets_with_a_name(key: Seq<char>)
    ensures
        ({
            let keys = |upper: Seq<char>| named_target(upper, key)->Ok_0.virtual_keys;
            let known = |upper: Seq<char>| named_target(upper, key) is Ok;
            &&& known("FN"@) && keys("FN"@) == seq![0xFFu16, 0x86, 0x87] && named_target(
                "FN"@,
                key,
            )->Ok_0.scan_codes == seq![0x63u32]
            &&& known("CTRL"@) && keys("CTRL"@) == seq![0x11u16, 0xA2, 0xA3]
            &&& known("CONTROL"@) && keys("CONTROL"@) == seq![0x11u16, 0xA2, 0xA3]
            &&& known("SHIFT"@) && keys("SHIFT"@) == seq![0x10u16, 0xA0, 0xA1]
            &&& known("ALT"@) && keys("ALT"@) == seq![0x12u16, 0xA4, 0xA5]
            &&& known("RIGHTALT"@) && keys("RIGHTALT"@) == seq![0xA5u16]
            &&& known("SPACE"@) && keys("SPACE"@) == seq![0x20u16]
            &&& known("ESC"@) && keys("ESC"@) == seq![0x1Bu16]
            &&& known("ESCAPE"@) && keys("ESCAPE"@) == seq![0x1Bu16]
            &&& known("ENTER"@) && keys("ENTER"@) == seq![0x0Du16]
            &&& known("RETURN"@) && keys("RETURN"@) == seq![0x0Du16]
        }),
{
    lemma_target_names();
}

/// `F` and a number is a function key: F1 to F24 are the virtual keys 0x70 to 0x87, any other
/// number is out of range, and what is no number is unknown.
pub proof fn function_keys_by_number(number: Seq<char>, key: Seq<char>)
    requires
        number.len() > 0,
        number != seq!['N'],
    ensures
        ({
            let upper = seq!['F'] + number;
            match crate::text::u16_value(number) {
                Some(n) => if 1 <= n <= 24 {
                    named_target(upper, key) matches Ok(target) && target.virtual_keys.len() == 1
                        && target.virtual_keys[0] == 0x6F + n && target.scan_codes.len() == 0
                } else {
                    named_target(upper, key) matches Err(error) && error
                        == KeyErrorView::FunctionKeyOutOfRange(upper)
                },
                None => named_target(upper, key) matches Err(error) && error
                    == KeyErrorView::UnknownTapHoldKey(upper),
            }
        }),
{
    lemma_target_names();
    let upper = seq!['F'] + number;
    assert(upper.skip(1) =~= number);
    assert(upper[0] == 'F');
    if upper == "FN"@ {
        assert(number =~= seq!['N']);
    }
}

/// A name that is no letter or digit, does not begin with `F` and is none of the names of their
/// own is unknown, and reported as it was configured.
pub proof fn other_tap_hold_names_are_unknown(upper: Seq<char>, key: Seq<char>)
    requires
        upper.len() == 1 ==> !(48 <= upper[0] as int <= 57) && !(65 <= upper[0] as int <= 90) && !(
        97 <= upper[0] as int <= 122),
        upper.len() > 0 ==> upper[0] != 'F',
        upper != "CTRL"@ && upper != "CONTROL"@ && upper != "SHIFT"@ && upper != "ALT"@,
        upper != "RIGHTALT"@ && upper != "SPACE"@ && upper != "ESC"@ && upper != "ESCAPE"@,
        upper != "ENTER"@ && upper != "RETURN"@,
    ensures
        named_target(upper, key) matches Err(error) && error == KeyErrorView::UnknownTapHoldKey(
            key,
        ),
{
    lemma_target_names();
}

/// What the name of a tap/hold key stands for is decided by its trimmed upper-case form, and an
/// unknown name is reported as it was configured.
pub proof fn tap_hold_names_are_trimmed_and_upper_cased(key: Seq<char>)
    ensures
        tap_hold_target(key) == named_target(
            crate::text::upper_form(crate::text::trimmed(key)),
            key,
        ),
{
}

/// The double tap of a modifier is seen by these virtual keys, and of nothing else.
pub proof fn virtual_keys_of_double_taps(lower: Seq<char>)
    ensures
        lower == "ctrl"@ ==> modifier_virtual_keys(lower) == seq![0x11u16, 0xA2, 0xA3],
        lower == "shift"@ ==> modifier_virtual_keys(lower) == seq![0xA0u16, 0xA1],
        lower == "alt"@ ==> modifier_virtual_keys(lower) == seq![0xA4u16, 0xA5],
        lower != "ctrl"@ && lower != "shift"@ && lower != "alt"@ ==> modifier_virtual_keys(
            lower,
        ).len() == 0,
{
    reveal_strlit("ctrl");
    reveal_strlit("shift");
    reveal_strlit("alt");
    assert("ctrl"@.len() == 4 && "shift"@.len() == 5 && "alt"@.len() == 3);
}

/// The message of a key error is its kind in words and then the name, whole.
pub proof fn key_error_messages_hold_the_name(name: Seq<char>)
    ensures
        key_error_message(KeyErrorView::UnknownKey(name)).take(13) == "Unknown key: "@,
        key_error_message(KeyErrorView::UnknownKey(name)).skip(13) == name,
        key_error_message(KeyErrorView::UnknownTapHoldKey(name)).take(22)
            == "Unknown tap/hold key: "@,
        key_error_message(KeyErrorView::UnknownTapHoldKey(name)).skip(22) == name,
        key_error_message(KeyErrorView::FunctionKeyOutOfRange(name)).take(27)
            == "Function key out of range: "@,
        key_error_message(KeyErrorView::FunctionKeyOutOfRange(name)).skip(27) == name,
        key_error_message(KeyErrorView::NoKeyInCombo(name)).take(27)
            == "No key specified in combo: "@,
        key_error_message(KeyErrorView::NoKeyInCombo(name)).skip(27) == name,
{
    reveal_strlit("Unknown key: ");
    reveal_strlit("Unknown tap/hold key: ");
    reveal_strlit("Function key out of range: ");
    reveal_strlit("No key specified in combo: ");
}

} // verus!
