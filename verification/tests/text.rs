use cyberpunk_mod_manager::inputs::key::Key;
use cyberpunk_mod_manager::text::{
    chars_of, ends_with, insert_char, is_blank, is_blank_text, prefix_before, press,
    remove_char, same_text, strip_suffix, trim, trim_quotes,
};

#[test]
fn a_text_and_its_characters() {
    assert_eq!(chars_of("héllo"), vec!['h', 'é', 'l', 'l', 'o']);
    assert_eq!(chars_of(""), Vec::<char>::new());
}

#[test]
fn blanks_are_the_white_space_of_unicode() {
    for n in 0..=0x10FFFFu32 {
        if let Some(c) = char::from_u32(n) {
            assert_eq!(is_blank(c), c.is_whitespace());
        }
    }
}

#[test]
fn the_same_text() {
    assert!(same_text("", ""));
    assert!(same_text("abc", "abc"));
    assert!(!same_text("abc", "abd"));
    assert!(!same_text("abc", "ab"));
    assert!(!same_text("ab", "abc"));
    assert!(!same_text("é", "e"));
}

#[test]
fn the_end_of_a_text() {
    assert!(ends_with("a is not a directory", "is not a directory"));
    assert!(ends_with("abc", ""));
    assert!(ends_with("abc", "abc"));
    assert!(!ends_with("bc", "abc"));
    assert!(!ends_with("abc", "ab"));
    assert!(ends_with("mod.archive", ".archive"));
    assert!(!ends_with("mod.ARCHIVE", ".archive"));
    assert_eq!(strip_suffix("a is not a directory", "is not a directory"), "a ");
    assert_eq!(strip_suffix("abc", "ab"), "abc");
    assert_eq!(strip_suffix("abc", "abc"), "");
    assert_eq!(strip_suffix("é-x", "x"), "é-");
}

#[test]
fn trimming() {
    assert_eq!(trim("  a b \t\n"), "a b");
    assert_eq!(trim(" \u{3000}x\u{a0}"), "x");
    assert_eq!(trim("   "), "");
    assert_eq!(trim(""), "");
    assert_eq!(trim("x"), "x");
    assert_eq!(trim_quotes("\"\"C:\\mods\"\""), "C:\\mods");
    assert_eq!(trim_quotes("\"a\"b\""), "a\"b");
    assert_eq!(trim_quotes("\"\"\""), "");
    assert_eq!(trim_quotes(" \"a\""), " \"a");
    assert_eq!(trim_quotes("plain"), "plain");
    assert!(is_blank_text(""));
    assert!(is_blank_text(" \t "));
    assert!(!is_blank_text(" a "));
}

#[test]
fn the_part_before_the_first_stop() {
    assert_eq!(prefix_before("mod_a.zip", '.'), "mod_a");
    assert_eq!(prefix_before("mod.v1.2.zip", '.'), "mod");
    assert_eq!(prefix_before("noext", '.'), "noext");
    assert_eq!(prefix_before(".hidden", '.'), "");
    assert_eq!(prefix_before("", '.'), "");
}

#[test]
fn single_characters_go_in_and_out() {
    assert_eq!(insert_char("abc", 0, 'x'), "xabc");
    assert_eq!(insert_char("abc", 2, 'x'), "abxc");
    assert_eq!(insert_char("abc", 3, 'x'), "abcx");
    assert_eq!(insert_char("", 0, 'x'), "x");
    assert_eq!(insert_char("éé", 1, 'x'), "éxé");
    assert_eq!(remove_char("abc", 0), "bc");
    assert_eq!(remove_char("abc", 1), "ac");
    assert_eq!(remove_char("abc", 2), "ab");
    assert_eq!(remove_char("éxé", 1), "éé");
}

#[test]
fn typing_puts_the_character_at_the_cursor() {
    assert_eq!(press("abc", Some(1), Key::Char('x')), ("axbc".to_string(), Some(2)));
    assert_eq!(press("abc", Some(3), Key::Char('x')), ("abcx".to_string(), Some(4)));
    assert_eq!(press("abc", Some(0), Key::Char(' ')), (" abc".to_string(), Some(1)));
    assert_eq!(press("abc", Some(1), Key::Tab), ("a bc".to_string(), Some(2)));
    assert_eq!(press("", Some(0), Key::Char('é')), ("é".to_string(), Some(1)));
}

#[test]
fn typing_without_a_cursor_starts_at_the_front() {
    assert_eq!(press("abc", None, Key::Char('x')), ("xabc".to_string(), Some(1)));
}

#[test]
fn a_cursor_beyond_the_text_counts_as_at_its_end() {
    assert_eq!(press("abc", Some(9), Key::Char('x')), ("abcx".to_string(), Some(4)));
    assert_eq!(press("abc", Some(9), Key::Backspace), ("ab".to_string(), Some(2)));
    assert_eq!(press("abc", Some(9), Key::Left), ("abc".to_string(), Some(2)));
    assert_eq!(press("abc", Some(9), Key::Right), ("abc".to_string(), Some(3)));
    assert_eq!(press("abc", Some(9), Key::Up), ("abc".to_string(), Some(3)));
    assert_eq!(press("", Some(9), Key::Left), ("".to_string(), Some(0)));
}

#[test]
fn backspace_erases_before_the_cursor() {
    assert_eq!(press("abc", Some(2), Key::Backspace), ("ac".to_string(), Some(1)));
    assert_eq!(press("abc", Some(3), Key::Backspace), ("ab".to_string(), Some(2)));
    assert_eq!(press("abc", Some(1), Key::Backspace), ("bc".to_string(), Some(0)));
    assert_eq!(press("abc", Some(0), Key::Backspace), ("abc".to_string(), Some(0)));
    assert_eq!(press("", Some(0), Key::Backspace), ("".to_string(), Some(0)));
}

#[test]
fn backspace_without_a_cursor_erases_the_last_character() {
    assert_eq!(press("abc", None, Key::Backspace), ("ab".to_string(), None));
    assert_eq!(press("", None, Key::Backspace), ("".to_string(), None));
}

#[test]
fn the_cursor_moves_within_the_text() {
    assert_eq!(press("abc", Some(1), Key::Left), ("abc".to_string(), Some(0)));
    assert_eq!(press("abc", Some(0), Key::Left), ("abc".to_string(), Some(0)));
    assert_eq!(press("abc", None, Key::Left), ("abc".to_string(), None));
    assert_eq!(press("abc", Some(1), Key::Right), ("abc".to_string(), Some(2)));
    assert_eq!(press("abc", Some(3), Key::Right), ("abc".to_string(), Some(3)));
    assert_eq!(press("abc", None, Key::Right), ("abc".to_string(), Some(1)));
    assert_eq!(press("", None, Key::Right), ("".to_string(), None));
    assert_eq!(press("abc", Some(2), Key::Home), ("abc".to_string(), Some(0)));
    assert_eq!(press("abc", None, Key::Home), ("abc".to_string(), Some(0)));
    assert_eq!(press("abc", Some(1), Key::End), ("abc".to_string(), Some(3)));
    assert_eq!(press("abc", None, Key::End), ("abc".to_string(), Some(3)));
}

#[test]
fn chords_that_do_not_type_leave_the_text() {
    for key in [
        Key::Up,
        Key::Down,
        Key::ShiftEnter,
        Key::ShiftTab,
        Key::Ins,
        Key::Delete,
        Key::PageUp,
        Key::PageDown,
        Key::Ctrl('a'),
        Key::Alt('a'),
        Key::Unknown,
    ] {
        assert_eq!(press("abc", Some(1), key), ("abc".to_string(), Some(1)));
        assert_eq!(press("abc", None, key), ("abc".to_string(), None));
    }
}

#[test]
fn the_cursor_stays_in_the_text_through_any_chords() {
    let keys = [
        Key::Char('a'),
        Key::Backspace,
        Key::Left,
        Key::Right,
        Key::Home,
        Key::End,
        Key::Tab,
        Key::Up,
        Key::Char('é'),
    ];
    let mut seed: u32 = 12345;
    for start in [None, Some(0usize), Some(2), Some(7)] {
        let mut text = "ab".to_string();
        let mut cursor = start;
        for _ in 0..500 {
            seed = seed.wrapping_mul(1103515245).wrapping_add(12345);
            let key = keys[(seed >> 16) as usize % keys.len()];
            let (next, moved) = press(&text, cursor, key);
            if let Some(c) = moved {
                assert!(c <= next.chars().count());
            }
            text = next;
            cursor = moved;
        }
    }
}
