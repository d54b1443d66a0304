use multipaste::prefs::Preferences;
use multipaste::script::cursor_position_output;
use multipaste::text::{build_slot_title, decimal, normalize_whitespace, signed_decimal, trim_text};

#[test]
fn normalize_strips_trailing_whitespace_and_blank_edges() {
    let raw = "\n  \n  first line  \t\nsecond\tline \n\n  third  \n \n";
    assert_eq!(normalize_whitespace(raw), "  first line\nsecond\tline\n\n  third");
}

#[test]
fn normalize_keeps_inner_blank_lines_and_indentation() {
    assert_eq!(normalize_whitespace("a\n\n\n    b"), "a\n\n\n    b");
}

#[test]
fn normalize_handles_crlf_line_endings() {
    assert_eq!(normalize_whitespace("one \r\ntwo\r\n"), "one\ntwo");
}

#[test]
fn normalize_of_blank_text_is_empty() {
    assert_eq!(normalize_whitespace(""), "");
    assert_eq!(normalize_whitespace(" \n\t\n \u{3000}"), "");
}

#[test]
fn normalize_removes_unicode_whitespace_at_line_end() {
    assert_eq!(normalize_whitespace("テキスト\u{3000}\u{a0}"), "テキスト");
}

#[test]
fn normalize_twice_is_normalize_once() {
    for raw in ["\n x \n\n y\t\n\n", "", "a", "  \n", "p\r\n\r\nq \r\n"] {
        let once = normalize_whitespace(raw);
        assert_eq!(normalize_whitespace(&once), once);
    }
}

#[test]
fn title_takes_first_line_trimmed() {
    assert_eq!(build_slot_title("  hello world  \nsecond"), "hello world");
}

#[test]
fn title_is_cut_to_eighteen_characters() {
    assert_eq!(build_slot_title("abcdefghijklmnopqrstuvwxyz"), "abcdefghijklmnopqr");
    assert_eq!(build_slot_title("あいうえおかきくけこさしすせそたちつてと"), "あいうえおかきくけこさしすせそたちつ");
}

#[test]
fn title_of_text_starting_with_newline_is_empty() {
    assert_eq!(build_slot_title("\nbody"), "");
    assert_eq!(build_slot_title(""), "");
}

#[test]
fn decimal_writes_numbers() {
    assert_eq!(decimal(0), "0");
    assert_eq!(decimal(7), "7");
    assert_eq!(decimal(1234567890), "1234567890");
    assert_eq!(decimal(u64::MAX as u128 + 1), "18446744073709551616");
    assert_eq!(signed_decimal(-42), "-42");
    assert_eq!(signed_decimal(i64::MIN), "-9223372036854775808");
    assert_eq!(signed_decimal(15), "15");
}

#[test]
fn numbers_and_flags_are_read_as_std_reads_them() {
    let mut p = Preferences::default();
    assert!(p.apply_update("slotCapacity", "12").is_ok());
    assert_eq!(p.slot_capacity, 12);
    assert!(p.apply_update("slotCapacity", "+7").is_ok());
    assert_eq!(p.slot_capacity, 7);
    for bad in [" 7", "-1", "", "7a", "99999999999999999999999"] {
        assert_eq!(p.apply_update("slotCapacity", bad).unwrap_err(), "スロット上限は数値で指定してください。");
    }
    assert_eq!(p.slot_capacity, 7);
    assert_eq!(cursor_position_output("-15"), Ok(-15));
    assert!(cursor_position_output("+3").is_ok());
    assert!(cursor_position_output("x").is_err());
    assert!(p.apply_update("soundEnabled", "false").is_ok());
    assert!(!p.sound_enabled);
    assert!(p.apply_update("soundEnabled", "true").is_ok());
    assert!(p.sound_enabled);
    assert!(p.apply_update("soundEnabled", "True").is_err());
}

#[test]
fn trim_text_trims_both_ends() {
    assert_eq!(trim_text("  \t text here \n"), "text here");
    assert_eq!(trim_text("   "), "");
}

#[test]
fn normalized_text_is_empty_exactly_when_the_text_is_blank() {
    for raw in ["", " ", "\n\n", "\t \r\n\u{3000}", " a ", "\n.\n", "x"] {
        assert_eq!(normalize_whitespace(raw).is_empty(), trim_text(raw).is_empty());
    }
}
