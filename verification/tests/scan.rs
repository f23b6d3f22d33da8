use smartclip::scan::{find_char, find_line, find_piece, range_contains, read_quoted_value};
use smartclip::text::{chars_of, join, same_text, string_of, trim};

fn chars(s: &str) -> Vec<char> {
    s.chars().collect()
}

#[test]
fn characters_round_trip() {
    let text = "a\u{e9}\u{1f600}z";
    let all = chars_of(text);
    assert_eq!(all, vec!['a', '\u{e9}', '\u{1f600}', 'z']);
    assert_eq!(string_of(&all, 0, 4), text);
    assert_eq!(string_of(&all, 1, 3), "\u{e9}\u{1f600}");
    assert_eq!(string_of(&all, 2, 2), "");
    assert_eq!(join("ab", "cd"), "abcd");
}

#[test]
fn trim_removes_white_space_at_both_ends_only() {
    assert_eq!(trim("  a b  "), "a b");
    assert_eq!(trim("\t\r\n x\u{a0}\u{2003}\u{3000}"), "x");
    assert_eq!(trim("x"), "x");
    assert_eq!(trim(""), "");
    assert_eq!(trim(" \n "), "");
    assert_eq!(trim("\u{200b}x"), "\u{200b}x");
    for sample in ["  a b  ", "\u{85}q\u{1680}", "no-space", " \u{feff} "] {
        assert_eq!(trim(sample), sample.trim());
    }
}

#[test]
fn find_char_stops_at_the_first_match_or_the_end() {
    let text = chars("ab\"cd\"e");
    assert_eq!(find_char(&text, 0, 7, '"'), 2);
    assert_eq!(find_char(&text, 3, 7, '"'), 5);
    assert_eq!(find_char(&text, 6, 7, '"'), 7);
    assert_eq!(find_char(&text, 0, 2, '"'), 2);
    assert_eq!(find_char(&text, 4, 4, '"'), 4);
}

#[test]
fn substring_search_is_bounded_by_the_range() {
    let text = chars("xxneedlexx");
    let key = chars("needle");
    assert!(range_contains(&text, 0, 10, &key));
    assert!(range_contains(&text, 2, 8, &key));
    assert!(!range_contains(&text, 3, 10, &key));
    assert!(!range_contains(&text, 0, 7, &key));
    assert!(range_contains(&text, 4, 4, &chars("")));
    assert!(!range_contains(&text, 0, 3, &chars("xxxx")));
}

#[test]
fn pieces_are_counted_from_zero() {
    let line = chars("  \"key\" = \"value\" tail");
    assert_eq!(find_piece(&line, 0, line.len(), '"', 0), Some((0, 2)));
    assert_eq!(find_piece(&line, 0, line.len(), '"', 1), Some((3, 6)));
    assert_eq!(find_piece(&line, 0, line.len(), '"', 3), Some((11, 16)));
    assert_eq!(find_piece(&line, 0, line.len(), '"', 4), Some((17, 22)));
    assert_eq!(find_piece(&line, 0, line.len(), '"', 5), None);
    let empty = chars("");
    assert_eq!(find_piece(&empty, 0, 0, '"', 0), Some((0, 0)));
    assert_eq!(find_piece(&empty, 0, 0, '"', 1), None);
}

#[test]
fn lines_end_at_line_feeds_and_drop_a_carriage_return() {
    let text = chars("one\r\ntwo\nthree\r");
    assert_eq!(find_line(&text, &chars("one")), Some((0, 3)));
    assert_eq!(find_line(&text, &chars("two")), Some((5, 8)));
    assert_eq!(find_line(&text, &chars("three")), Some((9, 15)));
    assert_eq!(find_line(&text, &chars("e\r")), Some((9, 15)));
    assert_eq!(find_line(&text, &chars("one\r")), None);
    assert_eq!(find_line(&text, &chars("two\nthree")), None);
    assert_eq!(find_line(&text, &chars("")), Some((0, 3)));
    assert_eq!(find_line(&chars(""), &chars("")), None);
    assert_eq!(find_line(&chars("\n"), &chars("")), Some((0, 0)));
    assert_eq!(find_line(&chars("a\n"), &chars("b")), None);
}

#[test]
fn quoted_value_is_the_fourth_piece_of_the_first_matching_line() {
    let report = "junk\n  \"IOPlatformUUID\" = \"ABC-1\"\n  \"IOPlatformUUID\" = \"SECOND\"\n";
    assert_eq!(read_quoted_value(report, "IOPlatformUUID"), Some("ABC-1".to_string()));
    assert_eq!(read_quoted_value(report, "SECOND"), Some("SECOND".to_string()));
    assert_eq!(read_quoted_value(report, "Serial"), None);
    assert_eq!(read_quoted_value("\"k\" = \"open", "k"), Some("open".to_string()));
    assert_eq!(read_quoted_value("\"k\" = \"", "k"), Some(String::new()));
    assert_eq!(read_quoted_value("\"k\" = ", "k"), None);
    assert_eq!(read_quoted_value("k\"\"\"v\"rest", "k"), Some("v".to_string()));
}

#[test]
fn quoted_value_agrees_with_the_standard_iterators() {
    let reports = [
        "a\"b\"c\"d\"e\nKEY \"1\" \"2\" \"3\"\r\nKEY \"x\"",
        "KEY\r\n\"\"\"\"KEY",
        "no key at all",
        "\"KEY\" = \"\u{e9}t\u{e9}\"",
        "",
    ];
    for report in reports {
        let expected = report
            .lines()
            .find(|line| line.contains("KEY"))
            .and_then(|line| line.split('"').nth(3))
            .map(String::from);
        assert_eq!(read_quoted_value(report, "KEY"), expected, "{:?}", report);
    }
}

#[test]
fn white_space_is_the_listed_code_points_and_no_other() {
    let listed = |c: char| {
        let code = c as u32;
        (0x09..=0x0D).contains(&code)
            || code == 0x20
            || code == 0x85
            || code == 0xA0
            || code == 0x1680
            || (0x2000..=0x200A).contains(&code)
            || code == 0x2028
            || code == 0x2029
            || code == 0x202F
            || code == 0x205F
            || code == 0x3000
    };
    let mut buffer = [0u8; 4];
    for code in 0..=0x10FFFF_u32 {
        if let Some(c) = char::from_u32(code) {
            let text: &str = c.encode_utf8(&mut buffer);
            assert_eq!(trim(text).is_empty(), listed(c), "U+{:04X}", code);
        }
    }
}

#[test]
fn texts_are_the_same_if_their_characters_are() {
    assert!(same_text("", ""));
    assert!(same_text("720p", "720p"));
    assert!(!same_text("720p", "720P"));
    assert!(!same_text("720p", "720"));
    assert!(!same_text("e\u{301}", "\u{e9}"));
}
