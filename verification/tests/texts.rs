use droid_driver::stderr::StderrTail;
use droid_driver::table::Table;
use droid_driver::text::{decimal_text, joined, same_text, starts_with, trim};

#[test]
fn numbers_are_written_in_decimal() {
    for n in [0, 7, 9, 10, 19, 100, 1009, 18446744073709551615] {
        assert_eq!(decimal_text(n), n.to_string());
    }
}

#[test]
fn texts_are_compared_character_by_character() {
    assert!(same_text("", ""));
    assert!(same_text("caf\u{e9}", "caf\u{e9}"));
    assert!(!same_text("cafe", "caf\u{e9}"));
    assert!(!same_text("a", "ab"));
    assert_eq!(joined("a\u{e9}", "b"), "a\u{e9}b");
}

#[test]
fn prefixes_are_recognised() {
    assert!(starts_with("proceed_once", "proceed_"));
    assert!(starts_with("proceed_", "proceed_"));
    assert!(starts_with("\u{e9}t\u{e9}", "\u{e9}"));
    assert!(starts_with("x", ""));
    assert!(!starts_with("proceed", "proceed_"));
    assert!(!starts_with("cancel", "proceed_"));
}

#[test]
fn trimming_removes_the_white_space_that_unicode_knows() {
    assert_eq!(trim("  a b\t\r\n"), "a b");
    assert_eq!(trim(""), "");
    assert_eq!(trim(" \u{a0}\u{2003}\u{3000}"), "");
    assert_eq!(trim("\u{200b}x"), "\u{200b}x");
    for code in 0..0x11000u32 {
        if let Some(c) = char::from_u32(code) {
            let sample = format!("{c}a{c}");
            assert_eq!(trim(&sample), sample.trim());
        }
    }
}

#[test]
fn tables_keep_the_order_of_keys() {
    let mut table: Table<String> = Table::new();
    table.insert("b".to_string(), "1".to_string());
    table.insert("a".to_string(), "2".to_string());
    table.insert("b".to_string(), "3".to_string());
    assert_eq!(table.get("b"), Some(&"3".to_string()));
    assert_eq!(table.get("c"), None);
    assert_eq!(table.len(), 2);
    assert_eq!(table.value_at(0), "3");
    assert_eq!(table.value_at(1), "2");
    assert_eq!(table.remove("b"), Some("3".to_string()));
    assert_eq!(table.remove("b"), None);
    assert_eq!(table.get("a"), Some(&"2".to_string()));
    table.clear();
    assert_eq!(table.get("a"), None);
}

#[test]
fn a_quiet_process_exits_without_a_tail() {
    let mut tail = StderrTail::new();
    assert_eq!(tail.exit_text(), "Droid process exited unexpectedly");
    tail.push_line("   \t ");
    tail.push_line("");
    assert_eq!(tail.lines.len(), 0);
    assert_eq!(tail.exit_text(), "Droid process exited unexpectedly");
}

#[test]
fn the_exit_text_shows_the_last_six_lines() {
    let mut tail = StderrTail::new();
    tail.push_line("  one ");
    assert_eq!(tail.exit_text(), "Droid process exited unexpectedly:\none");
    for line in ["two", "", "three", "four", "five", "six", "seven"] {
        tail.push_line(line);
    }
    assert_eq!(
        tail.exit_text(),
        "Droid process exited unexpectedly:\ntwo\nthree\nfour\nfive\nsix\nseven"
    );
}

#[test]
fn the_tail_keeps_the_last_lines() {
    let mut tail = StderrTail::new();
    for n in 0..300 {
        tail.push_line(&format!(" line {n} "));
        tail.push_line("  ");
    }
    assert_eq!(tail.lines.len(), 128);
    assert_eq!(tail.lines[0], "line 172");
    assert_eq!(tail.lines[127], "line 299");
}
