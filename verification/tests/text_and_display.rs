use phone_backup::display::{
    call_item_id, conflict_label, format_tags, format_talk_time, format_waveform_line,
    hidden_count, note_heading, numbered_entry, os_label, shorten_title, storage_bar, yes_no,
};
use phone_backup::text::{
    chars_of, contains, decimal_chars, ends_with, eq_ignore_ascii_case, first_line_of,
    lowercase_chars, pad_left_chars, starts_with, string_of, strip_prefixes_of, trim,
};

fn s(v: &[char]) -> String {
    v.iter().collect()
}

#[test]
fn chars_round_trip() {
    let c = chars_of("héllo📱");
    assert_eq!(c.len(), 6);
    assert_eq!(string_of(&c), "héllo📱");
}

#[test]
fn substring_checks() {
    let a = chars_of("usb://serial/ABC");
    assert!(starts_with(&a, &chars_of("usb://")));
    assert!(!starts_with(&a, &chars_of("usb:/x")));
    assert!(ends_with(&a, &chars_of("ABC")));
    assert!(!ends_with(&a, &chars_of("ABD")));
    assert!(contains(&a, &chars_of("serial")));
    assert!(!contains(&a, &chars_of("Serial")));
    assert!(contains(&a, &chars_of("")));
    assert!(!contains(&chars_of("ab"), &chars_of("abc")));
}

#[test]
fn ascii_case_folding() {
    assert!(eq_ignore_ascii_case(&chars_of("ICS"), &chars_of("ics")));
    assert!(eq_ignore_ascii_case(&chars_of("VcS"), &chars_of("vcs")));
    assert!(!eq_ignore_ascii_case(&chars_of("ics"), &chars_of("icss")));
    assert!(!eq_ignore_ascii_case(&chars_of("É"), &chars_of("é")));
}

#[test]
fn unicode_lowercase() {
    assert_eq!(s(&lowercase_chars("JSON")), "json");
    assert_eq!(s(&lowercase_chars("ÉCOLE")), "école");
    // The Kelvin sign lowercases to a plain `k`.
    assert_eq!(s(&lowercase_chars("WEE\u{212A}LY")), "weekly");
}

#[test]
fn trimming_white_space() {
    assert_eq!(s(&trim(&chars_of("  y \n"))), "y");
    assert_eq!(s(&trim(&chars_of("\u{3000}host\u{a0}"))), "host");
    assert_eq!(s(&trim(&chars_of(" \t "))), "");
    assert_eq!(s(&trim(&chars_of("a b"))), "a b");
}

#[test]
fn decimal_notation() {
    assert_eq!(s(&decimal_chars(0)), "0");
    assert_eq!(s(&decimal_chars(5555)), "5555");
    assert_eq!(s(&decimal_chars(u64::MAX)), "18446744073709551615");
    assert_eq!(s(&pad_left_chars(&chars_of("7"), 3)), "  7");
    assert_eq!(s(&pad_left_chars(&chars_of("1234"), 3)), "1234");
}

#[test]
fn first_lines() {
    assert_eq!(first_line_of(&chars_of("")), None);
    assert_eq!(s(&first_line_of(&chars_of("Android Debug Bridge 1.0.41\nVersion 35")).unwrap()), "Android Debug Bridge 1.0.41");
    assert_eq!(s(&first_line_of(&chars_of("one\r\ntwo")).unwrap()), "one");
    assert_eq!(s(&first_line_of(&chars_of("lone\r")).unwrap()), "lone\r");
    assert_eq!(s(&first_line_of(&chars_of("\nsecond")).unwrap()), "");
}

#[test]
fn repeated_prefixes_are_stripped() {
    let p = chars_of("ab");
    assert_eq!(s(&strip_prefixes_of(&chars_of("ababx"), &p)), "x");
    assert_eq!(s(&strip_prefixes_of(&chars_of("xab"), &p)), "xab");
    assert_eq!(s(&strip_prefixes_of(&chars_of("abc"), &chars_of(""))), "abc");
}

#[test]
fn titles_are_shortened() {
    assert_eq!(shorten_title("Rust Documentation"), "Rust Documentation");
    let long = "A very long bookmark title that keeps going";
    let short = shorten_title(long);
    assert_eq!(short, "A very long bookmark title ...");
    assert_eq!(short.chars().count(), 30);
    assert_eq!(shorten_title(&short), short);
    let exactly = "123456789012345678901234567890";
    assert_eq!(shorten_title(exactly), exactly);
}

#[test]
fn hidden_items() {
    assert_eq!(hidden_count(25, 20), Some(5));
    assert_eq!(hidden_count(20, 20), None);
    assert_eq!(hidden_count(3, 20), None);
}

#[test]
fn talk_time() {
    assert_eq!(format_talk_time(0), "0m 0s");
    assert_eq!(format_talk_time(125), "2m 5s");
    assert_eq!(format_talk_time(3600), "60m 0s");
}

#[test]
fn tags_and_headings() {
    assert_eq!(format_tags(&vec![]), "-");
    assert_eq!(format_tags(&vec!["work".to_string()]), "#work");
    assert_eq!(format_tags(&vec!["work".to_string(), "todo".to_string()]), "#work #todo");
    assert_eq!(note_heading(true, "Roadmap"), "📌 Roadmap");
    assert_eq!(note_heading(false, "Roadmap"), "Roadmap");
}

#[test]
fn waveform_lines() {
    assert_eq!(format_waveform_line(0), "  0% | ");
    assert_eq!(format_waveform_line(12), " 12% | ██");
    assert_eq!(format_waveform_line(100), "100% | ████████████████████");
}

#[test]
fn storage_bar_layout() {
    let bar = storage_bar(&vec![('█', 10), ('▓', 5)]);
    assert_eq!(bar.chars().count(), 40);
    assert_eq!(bar, format!("{}{}{}", "█".repeat(10), "▓".repeat(5), "·".repeat(25)));
    let over = storage_bar(&vec![('█', 30), ('▓', 30)]);
    assert_eq!(over, format!("{}{}", "█".repeat(30), "▓".repeat(10)));
    assert_eq!(storage_bar(&vec![]), "·".repeat(40));
}

#[test]
fn numbered_entries_and_ids() {
    assert_eq!(numbered_entry(0, "/sdcard/WhatsApp"), "1. /sdcard/WhatsApp");
    assert_eq!(numbered_entry(9, "x"), "10. x");
    assert_eq!(call_item_id(0), "call_1");
    assert_eq!(call_item_id(41), "call_42");
}

#[test]
fn device_labels() {
    assert_eq!(os_label("14"), "14");
    assert_eq!(os_label("MTP Device v1"), "MTP");
    assert_eq!(os_label("0123456789"), "0123456789");
    // Ten characters but more than ten bytes.
    assert_eq!(os_label("ééééé12345"), "MTP");
    assert_eq!(yes_no(true), "Yes");
    assert_eq!(yes_no(false), "No");
    assert_eq!(conflict_label("Review", "Demo"), "Conflict between 'Review' and 'Demo'");
}
