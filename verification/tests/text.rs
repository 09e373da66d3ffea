use doubao_voice_input::text::{
    contains, decode_utf16_lossy, encode_utf16, is_white_space, parse_u16, same_text, split,
    to_ascii_lowercase, to_decimal, trim,
};

fn chars(text: &str) -> Vec<char> {
    text.chars().collect()
}

#[test]
fn contains_finds_a_text_anywhere() {
    assert!(contains("low_latency_mode = true\n", "low_latency_mode = true"));
    assert!(contains("abc", "abc"));
    assert!(contains("xxabc", "abc"));
    assert!(contains("aab", "ab"));
    assert!(contains("abc", ""));
    assert!(contains("", ""));
    assert!(!contains("", "a"));
    assert!(!contains("low_latency_mode=true", "low_latency_mode = true"));
    assert!(contains("语音输入", "音输"));
    assert!(!contains("语音输入", "输音"));
}

#[test]
fn same_text_compares_characters() {
    assert!(same_text("语音", "语音"));
    assert!(!same_text("语音", "语"));
    assert!(!same_text("a", "b"));
    assert!(same_text("", ""));
}

#[test]
fn split_keeps_empty_pieces() {
    assert_eq!(split("Ctrl+Shift+V", '+'), vec!["Ctrl", "Shift", "V"]);
    assert_eq!(split("", '+'), vec![""]);
    assert_eq!(split("+", '+'), vec!["", ""]);
    assert_eq!(split("a++b", '+'), vec!["a", "", "b"]);
}

#[test]
fn white_space_is_that_of_unicode() {
    for n in 0..=0x10FFFFu32 {
        if let Some(c) = char::from_u32(n) {
            assert_eq!(is_white_space(c), c.is_whitespace(), "U+{n:04X}");
        }
    }
}

#[test]
fn trim_removes_both_ends() {
    for text in ["  Fn ", "Fn", "", " \t\u{3000} ", "a b", "\u{a0}x\u{2003}"] {
        assert_eq!(trim(text), text.trim());
    }
}

#[test]
fn ascii_lowercase_leaves_the_rest() {
    assert_eq!(to_ascii_lowercase("ClipBoard"), "clipboard");
    assert_eq!(to_ascii_lowercase("ÀÉ@[Z"), "ÀÉ@[z");
}

#[test]
fn decimal_writes_numbers() {
    for n in [0, 7, 10, 99, 100, 4096, u64::MAX] {
        assert_eq!(to_decimal(n), n.to_string());
    }
}

#[test]
fn u16_is_read_as_std_reads_it() {
    for text in [
        "", "+", "-1", "0", "1", "+1", "++1", "24", "007", "65535", "65536", "99999999999999", "1a",
        " 1", "１",
    ] {
        assert_eq!(parse_u16(&chars(text), 0), text.parse::<u16>().ok(), "{text:?}");
    }
    assert_eq!(parse_u16(&chars("F12"), 1), Some(12));
    assert_eq!(parse_u16(&chars("F"), 1), None);
}

#[test]
fn utf16_agrees_with_std() {
    for text in ["", "abc", "语音输入", "📝 ok 🎤", "\u{10FFFF}\u{E000}\u{D7FF}\u{FFFF}\u{10000}"] {
        let units: Vec<u16> = text.encode_utf16().collect();
        assert_eq!(encode_utf16(text), units);
        assert_eq!(decode_utf16_lossy(&units), text);
    }
}

#[test]
fn lone_surrogates_are_replaced() {
    for units in [
        vec![0xD83D],
        vec![0xDCDD],
        vec![0xD83D, 0x41],
        vec![0xDCDD, 0xD83D],
        vec![0xD83D, 0xD83D, 0xDCDD],
        vec![0x41, 0xDFFF, 0x42],
    ] {
        assert_eq!(decode_utf16_lossy(&units), String::from_utf16_lossy(&units));
    }
    assert_eq!(decode_utf16_lossy(&[0xD83D, 0x41]), "\u{FFFD}A");
}

#[test]
fn padding_is_trimmed() {
    for text in ["", "Fn", "a b", " x ", "\u{3000}语\t"] {
        for (before, after) in [("", " "), ("\t\n", ""), ("\u{a0} ", "\u{2028}\r")] {
            assert_eq!(trim(&format!("{before}{text}{after}")), trim(text));
        }
    }
}
