//! Text primitives: searching, splitting, trimming, letter case, numbers and UTF-16.

use vstd::prelude::*;

verus! {

broadcast use vstd::string::group_string_axioms;

/// `String::push` of std: appends one character.
pub assume_specification[ String::push ](text: &mut String, c: char)
    ensures
        final(text)@ == old(text)@.push(c),
;

/// `char::from_u32` of std: the character with the given code point, or nothing where the
/// number is a surrogate or above U+10FFFF.
pub assume_specification[ char::from_u32 ](code_point: u32) -> (r: Option<char>)
    ensures
        r is Some <==> (code_point < 0xD800 || 0xE000 <= code_point <= 0x10FFFF),
        r matches Some(c) ==> c as u32 == code_point,
;

/// The characters of `text`, in order.
pub fn chars_of(text: &str) -> (r: Vec<char>)
    ensures
        r@ == text@,
{
    let mut r: Vec<char> = Vec::new();
    for c in it: text.chars()
        invariant
            it.seq() == text@,
            r@ == text@.take(it.index() as int),
    {
        r.push(c);
        assert(text@.take(it.index() as int + 1) == text@.take(it.index() as int).push(c));
    }
    assert(text@.take(text@.len() as int) == text@);
    r
}

/// The text made of `chars`.
pub fn string_of(chars: &[char]) -> (r: String)
    ensures
        r@ == chars@,
{
    let mut r: String = String::new();
    let mut i: usize = 0;
    while i < chars.len()
        invariant
            i <= chars@.len(),
            r@ == chars@.take(i as int),
        decreases chars@.len() - i,
    {
        r.push(chars[i]);
        i += 1;
        assert(chars@.take(i as int) == chars@.take(i as int - 1).push(chars@[i as int - 1]));
    }
    assert(chars@.take(i as int) == chars@);
    r
}

/// Whether two texts hold the same characters.
pub fn same_text(a: &str, b: &str) -> (r: bool)
    ensures
        r == (a@ == b@),
{
    let x: Vec<char> = chars_of(a);
    let y: Vec<char> = chars_of(b);
    same_chars(x.as_slice(), y.as_slice())
}

/// Whether two character slices are equal.
pub fn same_chars(x: &[char], y: &[char]) -> (r: bool)
    ensures
        r == (x@ == y@),
{
    if x.len() != y.len() {
        return false;
    }
    let mut i: usize = 0;
    while i < x.len()
        invariant
            i <= x@.len(),
            x@.len() == y@.len(),
            forall|k: int| 0 <= k < i ==> x@[k] == y@[k],
        decreases x@.len() - i,
    {
        if x[i] != y[i] {
            return false;
        }
        i += 1;
    }
    assert(x@ =~= y@);
    true
}

// ---------------------------------------------------------------------------------------
// Searching, splitting, trimming
// ---------------------------------------------------------------------------------------

/// `needle` occurs in `text` from position `at` on.
pub open spec fn occurs_at(text: Seq<char>, needle: Seq<char>, at: int) -> bool {
    &&& 0 <= at
    &&& at + needle.len() <= text.len()
    &&& text.subrange(at, at + needle.len()) == needle
}

/// `needle` occurs somewhere in `text`.
pub open spec fn has_text(text: Seq<char>, needle: Seq<char>) -> bool {
    exists|at: int| occurs_at(text, needle, at)
}

/// Whether `needle` occurs in `text`.
pub fn contains(text: &str, needle: &str) -> (r: bool)
    ensures
        r == has_text(text@, needle@),
{
    let hay: Vec<char> = chars_of(text);
    let pin: Vec<char> = chars_of(needle);
    if pin.len() > hay.len() {
        return false;
    }
    let last: usize = hay.len() - pin.len();
    let mut at: usize = 0;
    while at < last
        invariant
            hay@ == text@,
            pin@ == needle@,
            last == hay@.len() - pin@.len(),
            at <= last,
            forall|k: int| 0 <= k < at ==> !occurs_at(text@, needle@, k),
        decreases last - at,
    {
        if matches_at(&hay, &pin, at) {
            return true;
        }
        at += 1;
    }
    matches_at(&hay, &pin, last)
}

/// Whether `pin` occurs in `hay` at position `at`.
fn matches_at(hay: &Vec<char>, pin: &Vec<char>, at: usize) -> (r: bool)
    requires
        at + pin@.len() <= hay@.len(),
    ensures
        r == occurs_at(hay@, pin@, at as int),
{
    let ghost window = hay@.subrange(at as int, at + pin@.len());
    let total: usize = hay.len();
    let mut i: usize = 0;
    while i < pin.len()
        invariant
            i <= pin@.len(),
            at + pin@.len() <= hay@.len(),
            total == hay@.len(),
            window == hay@.subrange(at as int, at + pin@.len()),
            forall|k: int| 0 <= k < i ==> window[k] == pin@[k],
        decreases pin@.len() - i,
    {
        if hay[at + i] != pin[i] {
            assert(window[i as int] != pin@[i as int]);
            return false;
        }
        i += 1;
    }
    assert(window =~= pin@);
    true
}

/// `text` cut at every `separator`: the pieces between them, empty ones kept.
pub open spec fn pieces(text: Seq<char>, separator: char) -> Seq<Seq<char>>
    decreases text.len(),
{
    if text.len() == 0 {
        seq![Seq::<char>::empty()]
    } else {
        let before = pieces(text.drop_last(), separator);
        if text.last() == separator {
            before.push(Seq::<char>::empty())
        } else {
            before.drop_last().push(before.last().push(text.last()))
        }
    }
}

/// Cuts `text` at every `separator`.
pub fn split(text: &str, separator: char) -> (r: Vec<String>)
    ensures
        r@.map_values(|piece: String| piece@) == pieces(text@, separator),
{
    let chars: Vec<char> = chars_of(text);
    let mut r: Vec<String> = Vec::new();
    let mut current: String = String::new();
    let mut i: usize = 0;
    proof {
        assert(r@.map_values(|piece: String| piece@).push(current@) =~= pieces(
            chars@.take(0),
            separator,
        ));
    }
    while i < chars.len()
        invariant
            i <= chars@.len(),
            r@.map_values(|piece: String| piece@).push(current@) == pieces(
                chars@.take(i as int),
                separator,
            ),
        decreases chars@.len() - i,
    {
        let c: char = chars[i];
        let ghost done = r@.map_values(|piece: String| piece@);
        let ghost head = current@;
        proof {
            assert(chars@.take(i as int + 1).drop_last() =~= chars@.take(i as int));
            assert(done.push(head).drop_last() =~= done);
        }
        if c == separator {
            r.push(current);
            current = String::new();
            assert(r@.map_values(|piece: String| piece@) =~= done.push(head));
        } else {
            current.push(c);
        }
        i += 1;
    }
    r.push(current);
    assert(chars@.take(i as int) =~= text@);
    assert(r@.map_values(|piece: String| piece@) =~= pieces(text@, separator));
    r
}

/// The characters with the Unicode property White_Space.
pub open spec fn white_space(c: char) -> bool {
    let n = c as u32;
    ||| 0x09 <= n <= 0x0D
    ||| n == 0x20
    ||| n == 0x85
    ||| n == 0xA0
    ||| n == 0x1680
    ||| 0x2000 <= n <= 0x200A
    ||| n == 0x2028
    ||| n == 0x2029
    ||| n == 0x202F
    ||| n == 0x205F
    ||| n == 0x3000
}

/// Whether `c` has the Unicode property White_Space.
pub fn is_white_space(c: char) -> (r: bool)
    ensures
        r == white_space(c),
{
    let n: u32 = c as u32;
    (0x09 <= n && n <= 0x0D) || n == 0x20 || n == 0x85 || n == 0xA0 || n == 0x1680 || (0x2000 <= n
        && n <= 0x200A) || n == 0x2028 || n == 0x2029 || n == 0x202F || n == 0x205F || n == 0x3000
}

/// `text` without the white space at its two ends.
pub open spec fn trimmed(text: Seq<char>) -> Seq<char>
    decreases text.len(),
{
    if text.len() == 0 {
        text
    } else if white_space(text.first()) {
        trimmed(text.drop_first())
    } else if white_space(text.last()) {
        trimmed(text.drop_last())
    } else {
        text
    }
}

/// Removes the white space at the two ends of `text`.
pub fn trim(text: &str) -> (r: String)
    ensures
        r@ == trimmed(text@),
{
    let chars: Vec<char> = chars_of(text);
    let mut from: usize = 0;
    let mut to: usize = chars.len();
    assert(chars@.subrange(0, to as int) =~= chars@);
    while from < to && is_white_space(chars[from])
        invariant
            from <= to,
            to == chars@.len(),
            trimmed(chars@.subrange(from as int, to as int)) == trimmed(chars@),
        decreases to - from,
    {
        let ghost rest = chars@.subrange(from as int, to as int);
        assert(rest.drop_first() =~= chars@.subrange(from as int + 1, to as int));
        from += 1;
    }
    while from < to && is_white_space(chars[to - 1])
        invariant
            from <= to <= chars@.len(),
            from < to ==> !white_space(chars@[from as int]),
            trimmed(chars@.subrange(from as int, to as int)) == trimmed(chars@),
        decreases to - from,
    {
        let ghost rest = chars@.subrange(from as int, to as int);
        assert(rest.first() == chars@[from as int]);
        assert(rest.drop_last() =~= chars@.subrange(from as int, to as int - 1));
        to -= 1;
    }
    let mut kept: Vec<char> = Vec::new();
    let mut i: usize = from;
    while i < to
        invariant
            from <= i <= to <= chars@.len(),
            kept@ == chars@.subrange(from as int, i as int),
        decreases to - i,
    {
        kept.push(chars[i]);
        i += 1;
        assert(chars@.subrange(from as int, i as int) =~= chars@.subrange(
            from as int,
            i as int - 1,
        ).push(chars@[i as int - 1]));
    }
    string_of(kept.as_slice())
}

// ---------------------------------------------------------------------------------------
// Letter case
// ---------------------------------------------------------------------------------------

/// The lower-case form of an ASCII letter; any other character as it is.
pub open spec fn ascii_lower(c: char) -> char {
    if 'A' <= c <= 'Z' {
        (c as u32 + 32) as char
    } else {
        c
    }
}

/// The upper-case form of an ASCII letter; any other character as it is.
pub open spec fn ascii_upper(c: char) -> char {
    if 'a' <= c <= 'z' {
        (c as u32 - 32) as char
    } else {
        c
    }
}

/// `text` with its ASCII letters in lower case.
pub open spec fn ascii_lowercase(text: Seq<char>) -> Seq<char> {
    text.map_values(|c: char| ascii_lower(c))
}

/// `text` with its ASCII letters in upper case.
pub open spec fn ascii_uppercase(text: Seq<char>) -> Seq<char> {
    text.map_values(|c: char| ascii_upper(c))
}

/// Turns the ASCII letters of `text` into lower case and keeps everything else.
pub fn to_ascii_lowercase(text: &str) -> (r: String)
    ensures
        r@ == ascii_lowercase(text@),
{
    let chars: Vec<char> = chars_of(text);
    let mut lower: Vec<char> = Vec::new();
    let mut i: usize = 0;
    while i < chars.len()
        invariant
            i <= chars@.len(),
            lower@ == ascii_lowercase(chars@.take(i as int)),
        decreases chars@.len() - i,
    {
        let c: char = chars[i];
        if 'A' <= c && c <= 'Z' {
            let code: u8 = c as u8;
            lower.push((code + 32) as char);
        } else {
            lower.push(c);
        }
        i += 1;
        assert(ascii_lowercase(chars@.take(i as int)) =~= ascii_lowercase(
            chars@.take(i as int - 1),
        ).push(ascii_lower(c)));
    }
    assert(chars@.take(i as int) =~= chars@);
    string_of(lower.as_slice())
}

/// What `str::to_lowercase` of std makes of a text: its Unicode lower-case form.
pub uninterp spec fn lowercase(text: Seq<char>) -> Seq<char>;

/// `str::to_lowercase` of std. The result is named by [`lowercase`]; on a text of ASCII
/// characters alone it turns the letters `A` to `Z` into `a` to `z` and keeps the rest.
#[verifier::external_body]
pub(crate) fn to_lowercase(text: &str) -> (r: String)
    ensures
        r@ == lowercase(text@),
        vstd::utf8::is_ascii_chars(text@) ==> r@ == ascii_lowercase(text@),
{
    text.to_lowercase()
}

/// What `str::to_uppercase` of std makes of a text: its Unicode upper-case form.
pub uninterp spec fn uppercase(text: Seq<char>) -> Seq<char>;

/// `str::to_uppercase` of std. The result is named by [`uppercase`]; on a text of ASCII
/// characters alone it turns the letters `a` to `z` into `A` to `Z` and keeps the rest.
#[verifier::external_body]
pub(crate) fn to_uppercase(text: &str) -> (r: String)
    ensures
        r@ == uppercase(text@),
        vstd::utf8::is_ascii_chars(text@) ==> r@ == ascii_uppercase(text@),
{
    text.to_uppercase()
}

/// `text` in lower case: letter by letter where it is ASCII, else its Unicode lower-case form.
pub open spec fn lower_form(text: Seq<char>) -> Seq<char> {
    if vstd::utf8::is_ascii_chars(text) {
        ascii_lowercase(text)
    } else {
        lowercase(text)
    }
}

/// `text` in upper case: letter by letter where it is ASCII, else its Unicode upper-case form.
pub open spec fn upper_form(text: Seq<char>) -> Seq<char> {
    if vstd::utf8::is_ascii_chars(text) {
        ascii_uppercase(text)
    } else {
        uppercase(text)
    }
}

/// Two names that differ in nothing but the case of ASCII letters and the white space around
/// them.
pub open spec fn same_name(a: Seq<char>, b: Seq<char>) -> bool {
    ascii_uppercase(trimmed(a)) == ascii_uppercase(trimmed(b))
}

/// The trimmed text is a part of the text, without white space at its two ends.
proof fn lemma_trimmed_part(text: Seq<char>)
    ensures
        forall|i: int| 0 <= i < trimmed(text).len() ==> text.contains(#[trigger] trimmed(text)[i]),
        trimmed(text).len() > 0 ==> !white_space(trimmed(text).first()) && !white_space(
            trimmed(text).last(),
        ),
    decreases text.len(),
{
    if text.len() > 0 {
        let rest = if white_space(text.first()) {
            text.drop_first()
        } else if white_space(text.last()) {
            text.drop_last()
        } else {
            text
        };
        if rest.len() < text.len() {
            lemma_trimmed_part(rest);
        }
        assert forall|i: int| 0 <= i < trimmed(text).len() implies text.contains(
            #[trigger] trimmed(text)[i],
        ) by {
            if rest.len() < text.len() {
                let c = trimmed(rest)[i];
                let k = choose|k: int| 0 <= k < rest.len() && rest[k] == c;
                if white_space(text.first()) {
                    assert(text[k + 1] == c);
                } else {
                    assert(text[k] == c);
                }
            } else {
                assert(text[i] == trimmed(text)[i]);
            }
        }
    }
}

/// A trimmed ASCII text is ASCII.
proof fn lemma_trimmed_ascii(text: Seq<char>)
    requires
        vstd::utf8::is_ascii_chars(text),
    ensures
        vstd::utf8::is_ascii_chars(trimmed(text)),
{
    lemma_trimmed_part(text);
    assert forall|i: int| 0 <= i < trimmed(text).len() implies '\0' <= #[trigger] trimmed(text)[i]
        <= '\u{7f}' by {
        let k = choose|k: int| 0 <= k < text.len() && text[k] == trimmed(text)[i];
        assert('\0' <= text[k] <= '\u{7f}');
    }
}

/// The pieces of an ASCII text are ASCII.
pub proof fn lemma_pieces_ascii(text: Seq<char>, separator: char)
    requires
        vstd::utf8::is_ascii_chars(text),
    ensures
        forall|i: int|
            0 <= i < pieces(text, separator).len() ==> vstd::utf8::is_ascii_chars(
                #[trigger] pieces(text, separator)[i],
            ),
        pieces(text, separator).len() > 0,
    decreases text.len(),
{
    if text.len() > 0 {
        lemma_pieces_ascii(text.drop_last(), separator);
        let before = pieces(text.drop_last(), separator);
        let after = pieces(text, separator);
        assert('\0' <= text[text.len() - 1] <= '\u{7f}');
        assert(vstd::utf8::is_ascii_chars(before[before.len() - 1]));
        assert forall|i: int| 0 <= i < after.len() implies vstd::utf8::is_ascii_chars(
            #[trigger] after[i],
        ) by {
            if text.last() != separator && i == after.len() - 1 {
                assert(after[i] =~= before.last().push(text.last()));
            } else if i < before.len() {
                assert(after[i] == before[i]);
            }
        }
    }
}

/// White space around a text is trimmed, however much there is.
pub proof fn padding_is_trimmed(before: Seq<char>, text: Seq<char>, after: Seq<char>)
    requires
        forall|i: int| 0 <= i < before.len() ==> white_space(#[trigger] before[i]),
        forall|i: int| 0 <= i < after.len() ==> white_space(#[trigger] after[i]),
    ensures
        trimmed(before + text + after) == trimmed(text),
    decreases before.len() + text.len() + after.len(),
{
    let all = before + text + after;
    if before.len() > 0 {
        assert(all.first() == before[0]);
        assert(all.drop_first() =~= before.drop_first() + text + after);
        padding_is_trimmed(before.drop_first(), text, after);
    } else if after.len() > 0 {
        if text.len() > 0 && white_space(text.first()) {
            assert(all.first() == text.first());
            assert(all.drop_first() =~= before + text.drop_first() + after);
            padding_is_trimmed(before, text.drop_first(), after);
        } else if text.len() > 0 {
            assert(all.first() == text.first());
            assert(all.last() == after[after.len() - 1]);
            assert(all.drop_last() =~= before + text + after.drop_last());
            padding_is_trimmed(before, text, after.drop_last());
        } else {
            assert(all.first() == after[0]);
            assert(all.drop_first() =~= before + text + after.drop_first());
            padding_is_trimmed(before, text, after.drop_first());
        }
    } else {
        assert(all =~= text);
    }
}

/// ASCII names that differ in case and padding alone have the same forms in both letter cases.
pub proof fn same_names_have_the_same_forms(a: Seq<char>, b: Seq<char>)
    requires
        vstd::utf8::is_ascii_chars(a),
        vstd::utf8::is_ascii_chars(b),
        same_name(a, b),
    ensures
        upper_form(trimmed(a)) == upper_form(trimmed(b)),
        lower_form(trimmed(a)) == lower_form(trimmed(b)),
{
    lemma_trimmed_ascii(a);
    lemma_trimmed_ascii(b);
    let x = trimmed(a);
    let y = trimmed(b);
    assert(ascii_uppercase(x).len() == ascii_uppercase(y).len());
    assert forall|i: int| 0 <= i < x.len() implies ascii_lower(x[i]) == ascii_lower(y[i]) by {
        assert(ascii_uppercase(x)[i] == ascii_upper(x[i]));
        assert(ascii_uppercase(y)[i] == ascii_upper(y[i]));
        lemma_one_letter(x[i], y[i]);
    }
    assert(ascii_lowercase(x) =~= ascii_lowercase(y));
}

/// ASCII characters with the same upper-case form have the same lower-case form.
proof fn lemma_one_letter(a: char, b: char)
    requires
        a <= '\u{7f}',
        b <= '\u{7f}',
        ascii_upper(a) == ascii_upper(b),
    ensures
        ascii_lower(a) == ascii_lower(b),
{
    let n = a as u32;
    let m = b as u32;
    assert('a' <= a <= 'z' ==> ascii_upper(a) as u32 == n - 32);
    assert('a' <= b <= 'z' ==> ascii_upper(b) as u32 == m - 32);
    assert('A' <= a <= 'Z' ==> ascii_lower(a) as u32 == n + 32);
    assert('A' <= b <= 'Z' ==> ascii_lower(b) as u32 == m + 32);
}

/// The trimmed upper-case form of an ASCII name is the same name, in ASCII.
pub proof fn upper_name_is_the_same_name(name: Seq<char>)
    requires
        vstd::utf8::is_ascii_chars(name),
    ensures
        vstd::utf8::is_ascii_chars(upper_form(trimmed(name))),
        same_name(name, upper_form(trimmed(name))),
{
    lemma_trimmed_ascii(name);
    lemma_trimmed_part(name);
    let x = trimmed(name);
    let upper = upper_form(x);
    assert(upper == ascii_uppercase(x));
    assert forall|i: int| 0 <= i < upper.len() implies '\0' <= #[trigger] upper[i] <= '\u{7f}' by {
        assert('\0' <= x[i] <= '\u{7f}');
    }
    if x.len() > 0 {
        assert(upper.first() == ascii_upper(x.first()));
        assert(upper.last() == ascii_upper(x.last()));
    }
    assert(trimmed(upper) == upper);
    assert forall|i: int| 0 <= i < upper.len() implies ascii_upper(#[trigger] upper[i])
        == upper[i] by {
        assert(upper[i] == ascii_upper(x[i]));
    }
    assert(ascii_uppercase(upper) =~= upper);
}

// ---------------------------------------------------------------------------------------
// Numbers
// ---------------------------------------------------------------------------------------

/// The character that writes the digit `d`.
pub open spec fn digit_char(d: int) -> char {
    (48 + d) as char
}

/// `n` in decimal, without leading zeros.
pub open spec fn decimal(n: nat) -> Seq<char>
    decreases n,
{
    if n < 10 {
        seq![digit_char(n as int)]
    } else {
        decimal(n / 10).push(digit_char((n % 10) as int))
    }
}

/// Writes `n` in decimal.
pub fn to_decimal(n: u64) -> (r: String)
    ensures
        r@ == decimal(n as nat),
    decreases n,
{
    let digit: u8 = (n % 10) as u8;
    let mut r: String = if n < 10 {
        String::new()
    } else {
        to_decimal(n / 10)
    };
    r.push((48 + digit) as char);
    assert(r@ =~= decimal(n as nat));
    r
}

/// `c` is one of `0` to `9`.
pub open spec fn is_digit(c: char) -> bool {
    '0' <= c <= '9'
}

/// The number that a row of decimal digits writes.
pub open spec fn digits_value(digits: Seq<char>) -> nat
    decreases digits.len(),
{
    if digits.len() == 0 {
        0
    } else {
        10 * digits_value(digits.drop_last()) + (digits.last() as u32 - 48) as nat
    }
}

/// A row of decimal digits, at least one.
pub open spec fn all_digits(text: Seq<char>) -> bool {
    text.len() > 0 && forall|i: int| 0 <= i < text.len() ==> is_digit(#[trigger] text[i])
}

/// `text` without a leading `+`.
pub open spec fn without_plus(text: Seq<char>) -> Seq<char> {
    if text.len() > 0 && text[0] == '+' {
        text.drop_first()
    } else {
        text
    }
}

/// The `u16` that a text writes: an optional `+`, then digits alone, at least one, for a
/// number that fits.
pub open spec fn u16_value(text: Seq<char>) -> Option<u16> {
    let digits = without_plus(text);
    if all_digits(digits) && digits_value(digits) <= u16::MAX {
        Some(digits_value(digits) as u16)
    } else {
        None
    }
}

/// Reads a `u16` from the characters of `text` from position `from` on.
pub fn parse_u16(text: &[char], from: usize) -> (r: Option<u16>)
    requires
        from <= text@.len(),
    ensures
        r == u16_value(text@.skip(from as int)),
{
    let ghost rest = text@.skip(from as int);
    let mut start: usize = from;
    if start < text.len() && text[start] == '+' {
        start += 1;
    }
    let ghost digits = without_plus(rest);
    assert(digits =~= text@.skip(start as int));
    if start == text.len() {
        return None;
    }
    let mut value: u32 = 0;
    let mut i: usize = start;
    while i < text.len()
        invariant
            start <= i <= text@.len(),
            digits == text@.skip(start as int),
            value <= 0x10000,
            value < 0x10000 ==> value == digits_value(digits.take(i - start)),
            value == 0x10000 ==> digits_value(digits.take(i - start)) >= 0x10000,
            forall|k: int| 0 <= k < i - start ==> is_digit(#[trigger] digits[k]),
            digits.len() > 0,
            digits == without_plus(rest),
            rest == text@.skip(from as int),
        decreases text@.len() - i,
    {
        let c: char = text[i];
        assert(c == digits[i - start]);
        if !('0' <= c && c <= '9') {
            return None;
        }
        proof {
            assert(digits.take(i - start + 1).drop_last() =~= digits.take(i - start));
            assert(digits.take(i - start + 1).last() == c);
        }
        let next: u32 = value * 10 + (c as u32 - 48);
        value = if value == 0x10000 || next > 0xFFFF {
            0x10000
        } else {
            next
        };
        i += 1;
    }
    assert(digits.take(i - start) =~= digits);
    if value == 0x10000 {
        None
    } else {
        Some(value as u16)
    }
}

// ---------------------------------------------------------------------------------------
// UTF-16
// ---------------------------------------------------------------------------------------

/// The UTF-16 code units of one character: itself, or a surrogate pair above U+FFFF.
pub open spec fn char_units(c: char) -> Seq<u16> {
    let n = c as int;
    if n < 0x10000 {
        seq![n as u16]
    } else {
        seq![(0xD800 + (n - 0x10000) / 0x400) as u16, (0xDC00 + (n - 0x10000) % 0x400) as u16]
    }
}

/// `text` in UTF-16.
pub open spec fn utf16(text: Seq<char>) -> Seq<u16>
    decreases text.len(),
{
    if text.len() == 0 {
        Seq::empty()
    } else {
        utf16(text.drop_last()) + char_units(text.last())
    }
}

/// Encodes `text` in UTF-16.
pub fn encode_utf16(text: &str) -> (r: Vec<u16>)
    ensures
        r@ == utf16(text@),
{
    let chars: Vec<char> = chars_of(text);
    let mut r: Vec<u16> = Vec::new();
    let mut i: usize = 0;
    while i < chars.len()
        invariant
            i <= chars@.len(),
            r@ == utf16(chars@.take(i as int)),
        decreases chars@.len() - i,
    {
        let ghost before = r@;
        let c: char = chars[i];
        proof {
            lemma_char_range(c);
        }
        let n: u32 = c as u32;
        if n < 0x10000 {
            r.push(n as u16);
        } else {
            let high: u32 = (n - 0x10000) / 0x400;
            let low: u32 = (n - 0x10000) % 0x400;
            r.push((0xD800 + high) as u16);
            r.push((0xDC00 + low) as u16);
        }
        assert(r@ =~= before + char_units(c));
        i += 1;
        assert(chars@.take(i as int).drop_last() =~= chars@.take(i as int - 1));
    }
    assert(chars@.take(i as int) =~= chars@);
    r
}

/// The first half of a surrogate pair.
pub open spec fn is_high_surrogate(unit: u16) -> bool {
    0xD800 <= unit <= 0xDBFF
}

/// The second half of a surrogate pair.
pub open spec fn is_low_surrogate(unit: u16) -> bool {
    0xDC00 <= unit <= 0xDFFF
}

/// The character that a surrogate pair writes.
pub open spec fn pair_char(high: u16, low: u16) -> char {
    (0x10000 + (high - 0xD800) * 0x400 + (low - 0xDC00)) as char
}

/// The text that UTF-16 code units write, each surrogate without its partner replaced by U+FFFD.
pub open spec fn utf16_text(units: Seq<u16>) -> Seq<char>
    decreases units.len(),
{
    if units.len() == 0 {
        Seq::empty()
    } else if is_high_surrogate(units[0]) && units.len() >= 2 && is_low_surrogate(units[1]) {
        seq![pair_char(units[0], units[1])] + utf16_text(units.skip(2))
    } else if is_high_surrogate(units[0]) || is_low_surrogate(units[0]) {
        seq!['\u{FFFD}'] + utf16_text(units.skip(1))
    } else {
        seq![units[0] as char] + utf16_text(units.skip(1))
    }
}

/// Decodes UTF-16, putting U+FFFD for each surrogate without its partner.
pub fn decode_utf16_lossy(units: &[u16]) -> (r: String)
    ensures
        r@ == utf16_text(units@),
{
    let mut r: String = String::new();
    let mut i: usize = 0;
    assert(units@.skip(0) =~= units@);
    assert(r@ + utf16_text(units@) =~= utf16_text(units@));
    while i < units.len()
        invariant
            i <= units@.len(),
            r@ + utf16_text(units@.skip(i as int)) == utf16_text(units@),
        decreases units@.len() - i,
    {
        let ghost rest = units@.skip(i as int);
        let ghost before = r@;
        let unit: u16 = units[i];
        let mut code_point: u32 = unit as u32;
        let mut used: usize = 1;
        if 0xD800 <= unit && unit <= 0xDBFF && i + 1 < units.len() && 0xDC00 <= units[i + 1]
            && units[i + 1] <= 0xDFFF {
            code_point = 0x10000 + (unit as u32 - 0xD800) * 0x400 + (units[i + 1] as u32 - 0xDC00);
            used = 2;
        } else if 0xD800 <= unit && unit <= 0xDFFF {
            code_point = 0xFFFD;
        }
        match char::from_u32(code_point) {
            Some(c) => {
                r.push(c);
                proof {
                    lemma_char_range(c);
                    assert(c as int == code_point as int);
                    assert(c == code_point as char);
                    assert(utf16_text(rest) == seq![c] + utf16_text(rest.skip(used as int)));
                    assert(rest.skip(used as int) =~= units@.skip(i + used));
                    assert(r@ + utf16_text(rest.skip(used as int)) =~= before + (seq![c]
                        + utf16_text(rest.skip(used as int))));
                }
            },
            None => {
                assert(false);
            },
        }
        i += used;
    }
    assert(r@ + utf16_text(units@.skip(i as int)) =~= r@);
    r
}

/// A character is a Unicode scalar value.
proof fn lemma_char_range(c: char)
    ensures
        0 <= c as int <= 0x10FFFF,
        !(0xD800 <= c as int <= 0xDFFF),
{
}

/// The first character of a text gives the first code units.
proof fn lemma_utf16_first(text: Seq<char>)
    requires
        text.len() > 0,
    ensures
        utf16(text) == char_units(text[0]) + utf16(text.drop_first()),
    decreases text.len(),
{
    if text.len() == 1 {
        assert(text.drop_last() =~= Seq::<char>::empty());
        assert(text.drop_first() =~= Seq::<char>::empty());
        reveal_with_fuel(utf16, 2);
        assert(utf16(text) =~= char_units(text[0]) + utf16(text.drop_first()));
    } else {
        lemma_utf16_first(text.drop_last());
        assert(text.drop_last().drop_first() =~= text.drop_first().drop_last());
        assert(utf16(text) =~= char_units(text[0]) + (utf16(text.drop_first().drop_last())
            + char_units(text.last())));
    }
}

/// Decoding what encoding wrote gives the text back.
pub proof fn utf16_round_trip(text: Seq<char>)
    ensures
        utf16_text(utf16(text)) == text,
    decreases text.len(),
{
    if text.len() > 0 {
        let first = char_units(text[0]);
        let rest = utf16(text.drop_first());
        let n = text[0] as int;
        lemma_char_range(text[0]);
        lemma_utf16_first(text);
        utf16_round_trip(text.drop_first());
        assert((first + rest).skip(first.len() as int) =~= rest);
        if n >= 0x10000 {
            assert((first + rest)[0] == first[0]);
            assert((first + rest)[1] == first[1]);
            assert(pair_char(first[0], first[1]) == text[0]);
        } else {
            assert((first + rest)[0] == first[0]);
            assert(first[0] as char == text[0]);
        }
        assert(text =~= seq![text[0]] + text.drop_first());
    }
}

/// The code units of a text without NUL hold no zero.
pub proof fn utf16_has_no_nul(text: Seq<char>)
    requires
        !text.contains('\0'),
    ensures
        forall|i: int| 0 <= i < utf16(text).len() ==> utf16(text)[i] != 0,
    decreases text.len(),
{
    if text.len() > 0 {
        assert forall|i: int| 0 <= i < text.drop_last().len() implies text.drop_last()[i]
            != '\0' by {
            assert(text[i] == text.drop_last()[i]);
            assert(text.contains(text[i]));
        }
        utf16_has_no_nul(text.drop_last());
        assert(text.contains(text.last()));
        lemma_char_range(text.last());
        assert(text.last() as int != 0);
        let before = utf16(text.drop_last());
        let units = char_units(text.last());
        assert forall|i: int| 0 <= i < utf16(text).len() implies utf16(text)[i] != 0 by {
            if i < before.len() {
                assert(utf16(text)[i] == before[i]);
            } else {
                assert(utf16(text)[i] == units[i - before.len()]);
            }
        }
    }
}

// ---------------------------------------------------------------------------------------
// Laws
// ---------------------------------------------------------------------------------------

/// A text occurs in another exactly if the other is something, the text, and something more.
pub proof fn occurring_texts_cut_the_text(text: Seq<char>, needle: Seq<char>)
    ensures
        has_text(text, needle) <==> exists|before: Seq<char>, after: Seq<char>|
            #![trigger before + needle + after]
            text == before + needle + after,
{
    if has_text(text, needle) {
        let at = choose|at: int| occurs_at(text, needle, at);
        let before = text.take(at);
        let after = text.skip(at + needle.len());
        assert forall|i: int| 0 <= i < text.len() implies text[i] == (before + needle
            + after)[i] by {
            if at <= i < at + needle.len() {
                assert(text.subrange(at, at + needle.len())[i - at] == needle[i - at]);
            }
        }
        assert(text =~= before + needle + after);
    }
    if exists|before: Seq<char>, after: Seq<char>|
        #![trigger before + needle + after]
        text == before + needle + after {
        let (before, after) = choose|before: Seq<char>, after: Seq<char>|
            #![trigger before + needle + after]
            text == before + needle + after;
        let at = before.len() as int;
        assert(text.subrange(at, at + needle.len()) =~= needle);
        assert(occurs_at(text, needle, at));
    }
}

/// The pieces put together again, with the separator between them.
pub open spec fn joined(parts: Seq<Seq<char>>, separator: char) -> Seq<char>
    decreases parts.len(),
{
    if parts.len() == 0 {
        Seq::empty()
    } else if parts.len() == 1 {
        parts[0]
    } else {
        joined(parts.drop_last(), separator).push(separator) + parts.last()
    }
}

/// The pieces of a text, put together again, are the text; there is at least one, and none of
/// them holds the separator.
pub proof fn pieces_make_up_the_text(text: Seq<char>, separator: char)
    ensures
        joined(pieces(text, separator), separator) == text,
        pieces(text, separator).len() > 0,
        forall|i: int, k: int|
            0 <= i < pieces(text, separator).len() && 0 <= k < pieces(text, separator)[i].len()
                ==> #[trigger] pieces(text, separator)[i][k] != separator,
    decreases text.len(),
{
    let parts = pieces(text, separator);
    if text.len() == 0 {
        assert(joined(parts, separator) =~= text);
    } else {
        let earlier = text.drop_last();
        let before = pieces(earlier, separator);
        pieces_make_up_the_text(earlier, separator);
        if text.last() == separator {
            assert(parts.drop_last() =~= before);
            assert(joined(parts, separator) =~= text);
        } else {
            assert(parts.drop_last() =~= before.drop_last());
            assert(joined(parts, separator) =~= joined(before, separator).push(text.last()));
            assert(joined(parts, separator) =~= text);
        }
        assert forall|i: int, k: int|
            0 <= i < parts.len() && 0 <= k < parts[i].len() implies #[trigger] parts[i][k]
            != separator by {
            if i < before.len() && k < before[i].len() {
                assert(before[i][k] != separator);
                assert(parts[i][k] == before[i][k]);
            }
        }
    }
}

/// Trimming leaves what stands between the white space at the two ends.
pub proof fn trimming_leaves_the_core(before: Seq<char>, core: Seq<char>, after: Seq<char>)
    requires
        forall|i: int| 0 <= i < before.len() ==> white_space(#[trigger] before[i]),
        forall|i: int| 0 <= i < after.len() ==> white_space(#[trigger] after[i]),
        core.len() > 0 ==> !white_space(core.first()) && !white_space(core.last()),
    ensures
        trimmed(before + core + after) == core,
{
    padding_is_trimmed(before, core, after);
}

/// Only the 26 capital letters change when a text is put in lower case, each to the letter 32
/// places after it; and the other way round for upper case.
pub proof fn letter_case_moves_letters_by_32(text: Seq<char>)
    ensures
        ascii_lowercase(text).len() == text.len(),
        ascii_uppercase(text).len() == text.len(),
        forall|i: int|
            0 <= i < text.len() ==> (#[trigger] ascii_lowercase(text)[i]) as int == (if 65
                <= text[i] as int <= 90 {
                text[i] as int + 32
            } else {
                text[i] as int
            }),
        forall|i: int|
            0 <= i < text.len() ==> (#[trigger] ascii_uppercase(text)[i]) as int == (if 97
                <= text[i] as int <= 122 {
                text[i] as int - 32
            } else {
                text[i] as int
            }),
{
}

/// The case forms of a text are those of its letters where it is ASCII, and those of Unicode
/// where it is not.
pub proof fn case_forms_follow_the_text(text: Seq<char>)
    ensures
        (forall|i: int| 0 <= i < text.len() ==> (#[trigger] text[i]) as int <= 127)
            ==> upper_form(text) == ascii_uppercase(text) && lower_form(text) == ascii_lowercase(
            text,
        ),
        !(forall|i: int| 0 <= i < text.len() ==> (#[trigger] text[i]) as int <= 127)
            ==> upper_form(text) == uppercase(text) && lower_form(text) == lowercase(text),
{
    if forall|i: int| 0 <= i < text.len() ==> (#[trigger] text[i]) as int <= 127 {
        assert forall|i: int| 0 <= i < text.len() implies '\0' <= #[trigger] text[i]
            <= '\u{7f}' by {
            lemma_char_range(text[i]);
            assert(text[i] as int <= 127);
        }
    } else {
        let i = choose|i: int| 0 <= i < text.len() && (#[trigger] text[i]) as int > 127;
        assert(!('\0' <= text[i] <= '\u{7f}'));
    }
}

/// A number is written by the digits of the number without its last one, then its last one.
pub proof fn decimal_ends_with_the_last_digit(n: nat)
    ensures
        decimal(n).len() > 0,
        decimal(n).last() as int == 48 + n % 10,
        n < 10 ==> decimal(n).len() == 1,
        n >= 10 ==> decimal(n).drop_last() == decimal(n / 10),
{
    assert(n >= 10 ==> decimal(n).drop_last() =~= decimal(n / 10));
}

/// Every `u16` is read back from what writes it, with a `+` before it or without.
pub proof fn written_numbers_are_read_back(n: u16)
    ensures
        u16_value(decimal(n as nat)) == Some(n),
        u16_value(seq!['+'] + decimal(n as nat)) == Some(n),
{
    lemma_decimal_digits(n as nat);
    let text = decimal(n as nat);
    assert(is_digit(text[0]));
    assert((seq!['+'] + text).drop_first() =~= text);
}

/// The digits of a number are digits, and their value is the number.
proof fn lemma_decimal_digits(n: nat)
    ensures
        all_digits(decimal(n)),
        digits_value(decimal(n)) == n,
    decreases n,
{
    let text = decimal(n);
    if n >= 10 {
        lemma_decimal_digits(n / 10);
        assert(text.drop_last() =~= decimal(n / 10));
        assert forall|i: int| 0 <= i < text.len() implies is_digit(#[trigger] text[i]) by {
            if i < text.len() - 1 {
                assert(text[i] == decimal(n / 10)[i]);
            }
        }
    } else {
        assert(text.drop_last() =~= Seq::<char>::empty());
        reveal_with_fuel(digits_value, 2);
    }
}

/// A row of digits, one digit longer, is worth ten times as much and the digit; no digits are
/// worth nothing.
pub proof fn one_more_digit_counts_tenfold(digits: Seq<char>, digit: char)
    requires
        48 <= digit as int <= 57,
    ensures
        digits_value(Seq::empty()) == 0,
        digits_value(digits.push(digit)) == 10 * digits_value(digits) + (digit as int - 48),
{
    assert(digits.push(digit).drop_last() =~= digits);
}

/// A text is read as a `u16` exactly if it is one digit or more, after a `+` at most, and their
/// value is below 65536; it is read as that value.
pub proof fn numbers_are_digits_after_at_most_one_sign(digits: Seq<char>)
    requires
        digits.len() > 0 ==> digits[0] != '+',
    ensures
        ({
            let readable = digits.len() > 0 && (forall|i: int|
                0 <= i < digits.len() ==> 48 <= (#[trigger] digits[i]) as int <= 57)
                && digits_value(digits) < 65536;
            &&& u16_value(digits) is Some <==> readable
            &&& u16_value(seq!['+'] + digits) is Some <==> readable
            &&& readable ==> u16_value(digits)->0 == digits_value(digits) && u16_value(
                seq!['+'] + digits,
            )->0 == digits_value(digits)
        }),
{
    assert((seq!['+'] + digits).drop_first() =~= digits);
    assert(all_digits(digits) <==> digits.len() > 0 && forall|i: int|
        0 <= i < digits.len() ==> 48 <= (#[trigger] digits[i]) as int <= 57) by {
        if all_digits(digits) {
            assert forall|i: int| 0 <= i < digits.len() implies 48 <= (#[trigger] digits[i]) as int
                <= 57 by {
                assert(is_digit(digits[i]));
            }
        }
    }
}

/// A character below U+10000 is one code unit of the same number. Any other is two: the first
/// from 0xD800 on counts steps of 0x400, the second from 0xDC00 on what is left.
pub proof fn code_units_write_the_code_point(c: char)
    ensures
        (c as int) < 0x10000 ==> utf16(seq![c]).len() == 1 && utf16(seq![c])[0] == c as int,
        c as int >= 0x10000 ==> {
            let units = utf16(seq![c]);
            &&& units.len() == 2
            &&& 0xD800 <= units[0] < 0xDC00
            &&& 0xDC00 <= units[1] < 0xE000
            &&& 0x10000 + (units[0] - 0xD800) * 0x400 + (units[1] - 0xDC00) == c as int
        },
{
    lemma_char_range(c);
    assert(seq![c].drop_last() =~= Seq::<char>::empty());
    reveal_with_fuel(utf16, 2);
    assert(utf16(seq![c]) =~= char_units(c));
}

/// The code units of two texts, one after the other, are those of the whole.
pub proof fn utf16_goes_character_by_character(first: Seq<char>, second: Seq<char>)
    ensures
        utf16(first + second) == utf16(first) + utf16(second),
    decreases second.len(),
{
    if second.len() > 0 {
        utf16_goes_character_by_character(first, second.drop_last());
        assert((first + second).drop_last() =~= first + second.drop_last());
        assert(utf16(first + second) =~= utf16(first) + utf16(second));
    } else {
        assert(first + second =~= first);
        assert(utf16(first) + utf16(second) =~= utf16(first));
    }
}

/// Decoding takes well-formed text as it is, before whatever follows it, and puts U+FFFD for a
/// surrogate without its partner and goes on after it.
pub proof fn decoding_replaces_lone_surrogates(text: Seq<char>, unit: u16, rest: Seq<u16>)
    requires
        0xD800 <= unit < 0xE000,
        unit < 0xDC00 ==> rest.len() == 0 || !(0xDC00 <= rest[0] < 0xE000),
    ensures
        utf16_text(utf16(text) + (seq![unit] + rest)) == text + (seq!['\u{FFFD}'] + utf16_text(
            rest,
        )),
{
    lemma_decoding_goes_on(text, seq![unit] + rest);
    let units = seq![unit] + rest;
    assert(units.skip(1) =~= rest);
    if units.len() >= 2 {
        assert(units[1] == rest[0]);
    }
}

/// Decoding takes well-formed text as it is and goes on after it.
proof fn lemma_decoding_goes_on(text: Seq<char>, rest: Seq<u16>)
    ensures
        utf16_text(utf16(text) + rest) == text + utf16_text(rest),
    decreases text.len(),
{
    if text.len() == 0 {
        assert(utf16(text) + rest =~= rest);
        assert(text + utf16_text(rest) =~= utf16_text(rest));
    } else {
        let first = char_units(text[0]);
        let others = text.drop_first();
        lemma_char_range(text[0]);
        lemma_utf16_first(text);
        lemma_decoding_goes_on(others, rest);
        let units = utf16(text) + rest;
        assert(units =~= first + (utf16(others) + rest));
        assert(units.skip(first.len() as int) =~= utf16(others) + rest);
        if text[0] as int >= 0x10000 {
            assert(units[0] == first[0]);
            assert(units[1] == first[1]);
            assert(pair_char(first[0], first[1]) == text[0]);
        } else {
            assert(units[0] == first[0]);
            assert(first[0] as char == text[0]);
        }
        assert(text + utf16_text(rest) =~= seq![text[0]] + (others + utf16_text(rest)));
    }
}

} // verus!
