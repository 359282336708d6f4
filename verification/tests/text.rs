use ai_usage_monitor::startup::{is_startup_enabled, set_startup_enabled, StartupChange};
use ai_usage_monitor::text::{
    chars_of, code_point, ends_with_ignore_ascii_case, eq_ignore_ascii_case, parse_u32, replace,
    same_text, split, trim_end, trim_start, u32_to_text,
};
use ai_usage_monitor::version::{display_version, is_version_newer, parse_version};
use ai_usage_monitor::wide::{from_le_bytes, to_le_bytes, wide_str};

fn units(text: &str) -> Vec<u16> {
    text.encode_utf16().collect()
}

fn bytes(units: &[u16]) -> Vec<u8> {
    let mut out = Vec::new();
    for unit in units {
        out.extend_from_slice(&unit.to_le_bytes());
    }
    out
}

#[test]
fn splitting_keeps_empty_fields() {
    assert_eq!(split("a/b//c/", '/'), vec!["a", "b", "", "c", ""]);
    assert_eq!(split("", '/'), vec![""]);
    assert_eq!(split("žluť", '/'), vec!["žluť"]);
}

#[test]
fn trimming_removes_every_occurrence_at_one_end() {
    assert_eq!(trim_start("vv1.2v", 'v'), "1.2v");
    assert_eq!(trim_start("1.2", 'v'), "1.2");
    assert_eq!(trim_end("a/b///", '/'), "a/b");
    assert_eq!(trim_end("///", '/'), "");
    assert_eq!(trim_end("", '/'), "");
}

#[test]
fn ascii_case_is_ignored_and_no_other() {
    assert!(eq_ignore_ascii_case("Setup.EXE", "sETUP.exe"));
    assert!(!eq_ignore_ascii_case("Ä", "ä"));
    assert!(!eq_ignore_ascii_case("a", "ab"));
    assert!(eq_ignore_ascii_case("", ""));
    assert!(!eq_ignore_ascii_case("@", "`"));
    assert!(!eq_ignore_ascii_case("[", "{"));
}

#[test]
fn case_is_ignored_both_ways() {
    for (a, b) in [("Ab", "aB"), ("x", "y"), ("", "a")] {
        assert_eq!(eq_ignore_ascii_case(a, b), eq_ignore_ascii_case(b, a));
    }
}

#[test]
fn endings_are_found_in_any_case() {
    assert!(ends_with_ignore_ascii_case("tool.ExE", ".exe"));
    assert!(!ends_with_ignore_ascii_case("exe", ".exe"));
    assert!(!ends_with_ignore_ascii_case("tool.exe.zip", ".exe"));
    assert!(ends_with_ignore_ascii_case(".exe", ".exe"));
}

#[test]
fn replacing_goes_from_left_to_right() {
    assert_eq!(replace("{version} and {version}", "{version}", "1.2"), "1.2 and 1.2");
    assert_eq!(replace("aaa", "aa", "b"), "ba");
    assert_eq!(replace("no mark", "{version}", "1.2"), "no mark");
    assert_eq!(replace("", "x", "y"), "");
    assert_eq!(replace("x", "x", "xx"), "xx");
}

#[test]
fn numbers_are_read_as_decimal_digits() {
    assert_eq!(parse_u32("0"), Some(0));
    assert_eq!(parse_u32("0042"), Some(42));
    assert_eq!(parse_u32("+7"), Some(7));
    assert_eq!(parse_u32("4294967295"), Some(u32::MAX));
    assert_eq!(parse_u32("4294967296"), None);
    assert_eq!(parse_u32("99999999999999999999"), None);
    assert_eq!(parse_u32(""), None);
    assert_eq!(parse_u32("+"), None);
    assert_eq!(parse_u32("-1"), None);
    assert_eq!(parse_u32("1 "), None);
    assert_eq!(parse_u32("++1"), None);
}

#[test]
fn numbers_read_as_the_standard_library_does() {
    for text in ["7", "+7", "", "+", "00", "4294967295", "4294967296", "1a", "٣", " 1"] {
        assert_eq!(parse_u32(text), text.parse::<u32>().ok());
    }
}

#[test]
fn written_numbers_read_back() {
    for n in [0, 1, 9, 10, 12345, u32::MAX] {
        assert_eq!(u32_to_text(n), n.to_string());
        assert_eq!(parse_u32(&u32_to_text(n)), Some(n));
    }
}

#[test]
fn texts_are_compared_by_their_characters() {
    assert!(same_text("abc", "abc"));
    assert!(!same_text("abc", "abd"));
    assert!(!same_text("abc", "ab"));
    assert_eq!(chars_of("až€"), vec!['a', 'ž', '€']);
    assert_eq!(code_point('€'), 0x20AC);
}

#[test]
fn wide_strings_end_with_zero() {
    assert_eq!(wide_str(""), vec![0]);
    assert_eq!(wide_str("Až"), vec![0x41, 0x17E, 0]);
    assert_eq!(wide_str("😀"), vec![0xD83D, 0xDE00, 0]);
    assert_eq!(wide_str("\u{FFFF}\u{10000}"), vec![0xFFFF, 0xD800, 0xDC00, 0]);
}

#[test]
fn wide_strings_are_those_of_the_standard_library() {
    for text in ["", "plain", "žluťoučký", "日本語", "a😀b\u{10FFFF}"] {
        let mut wanted = units(text);
        wanted.push(0);
        assert_eq!(wide_str(text), wanted);
    }
}

#[test]
fn only_the_end_of_a_wide_string_is_zero() {
    for text in ["", "plain", "\u{100}\u{10000}\u{10400}😀"] {
        let wide = wide_str(text);
        assert_eq!(wide.iter().position(|unit| *unit == 0), Some(wide.len() - 1));
    }
}

#[test]
fn units_and_bytes_convert_both_ways() {
    let list = [0u16, 1, 0x1234, 0xFFFF];
    assert_eq!(to_le_bytes(&list), vec![0, 0, 1, 0, 0x34, 0x12, 0xFF, 0xFF]);
    assert_eq!(from_le_bytes(&to_le_bytes(&list)), list.to_vec());
    assert_eq!(from_le_bytes(&[0x34, 0x12, 0x56]), vec![0x1234]);
    assert_eq!(from_le_bytes(&[]), Vec::<u16>::new());
}

#[test]
fn startup_needs_the_path_of_this_program() {
    let exe = units("C:\\Apps\\monitor.exe");
    let mut stored = units("c:\\apps\\MONITOR.EXE");
    stored.push(0);
    assert!(is_startup_enabled(Some(&bytes(&stored)), &exe));
    stored.push(0);
    assert!(is_startup_enabled(Some(&bytes(&stored)), &exe));
    let other = units("C:\\Apps\\other.exe");
    assert!(!is_startup_enabled(Some(&bytes(&other)), &exe));
    assert!(!is_startup_enabled(None, &exe));
    assert!(!is_startup_enabled(Some(&[]), &exe));
    assert!(!is_startup_enabled(Some(&bytes(&exe)), &[]));
    assert!(!is_startup_enabled(Some(&[0, 0]), &[]));
}

#[test]
fn startup_compares_text_and_not_units() {
    // Two different lone surrogates both read as the replacement character.
    let exe = [0x41, 0xD800, 0x42];
    assert!(is_startup_enabled(Some(&bytes(&[0x61, 0xDC00, 0x62])), &exe));
    assert!(is_startup_enabled(Some(&bytes(&[0x61, 0xFFFD, 0x62])), &exe));
    assert!(!is_startup_enabled(Some(&bytes(&[0x61, 0x62])), &exe));
    // A pair is one character.
    let paired = [0xD83D, 0xDE00];
    assert!(is_startup_enabled(Some(&bytes(&paired)), &paired));
    assert!(!is_startup_enabled(Some(&bytes(&[0xFFFD, 0xFFFD])), &paired));
    assert!(!is_startup_enabled(Some(&bytes(&[0xDE00, 0xD83D])), &paired));
    assert!(is_startup_enabled(Some(&bytes(&[0xFFFD, 0xFFFD])), &[0xDE00, 0xD83D]));
}

#[test]
fn startup_can_be_switched_on_and_off() {
    let mut buffer = units("C:\\Ž\\monitor.exe");
    let len = buffer.len();
    buffer.push(0);
    buffer.push(7);
    match set_startup_enabled(true, &buffer, len) {
        StartupChange::Write(value) => {
            assert_eq!(value, bytes(&buffer[..len + 1]));
            assert!(is_startup_enabled(Some(&value), &buffer[..len]));
        }
        other => panic!("{other:?}"),
    }
    assert!(matches!(set_startup_enabled(false, &buffer, len), StartupChange::Delete));
    assert!(matches!(set_startup_enabled(true, &buffer, 0), StartupChange::Keep));
}

#[test]
fn versions_are_read_up_to_three_numbers() {
    assert_eq!(parse_version("1.2.3"), (1, 2, 3));
    assert_eq!(parse_version("1.2"), (1, 2, 0));
    assert_eq!(parse_version("1"), (1, 0, 0));
    assert_eq!(parse_version(""), (0, 0, 0));
    assert_eq!(parse_version("1.2.3.4"), (1, 2, 3));
    assert_eq!(parse_version("1.2.3."), (1, 2, 3));
    assert_eq!(parse_version("10.0.4294967295.x-y.z"), (10, 0, u32::MAX));
    assert_eq!(parse_version("1.x.3"), (1, 0, 3));
    assert_eq!(parse_version("4294967296.1"), (0, 1, 0));
}

#[test]
fn what_follows_a_hyphen_does_not_count() {
    assert_eq!(parse_version("1.2.3-beta.4"), (1, 2, 3));
    assert_eq!(parse_version("1-2.3"), (1, 0, 0));
    assert_eq!(parse_version("-1.2.3"), (0, 0, 0));
    assert!(!is_version_newer("1.2.3-rc1", "1.2.3"));
    assert!(!is_version_newer("1.2.3", "1.2.3-rc1"));
}

#[test]
fn versions_are_ordered_by_their_numbers() {
    assert!(is_version_newer("1.10.0", "1.9.9"));
    assert!(is_version_newer("2.0", "1.99.99"));
    assert!(is_version_newer("1.2.4", "1.2.3"));
    assert!(!is_version_newer("1.2.3", "1.2.3"));
    assert!(!is_version_newer("1.2", "1.2.0"));
    let list = ["0.9", "1.0", "1.0.1", "1.1-beta", "2"];
    for (i, a) in list.iter().enumerate() {
        for (j, b) in list.iter().enumerate() {
            assert_eq!(is_version_newer(a, b), i > j);
        }
    }
}

#[test]
fn a_final_zero_is_not_shown() {
    assert_eq!(display_version("1.2.0"), "1.2");
    assert_eq!(display_version("1.2.3"), "1.2.3");
    assert_eq!(display_version("1.0.0"), "1.0");
    assert_eq!(display_version("1.10"), "1.10");
    assert_eq!(display_version(".0"), "");
    assert_eq!(display_version("0"), "0");
    assert_eq!(parse_version(&display_version("1.2.0")), parse_version("1.2.0"));
}
