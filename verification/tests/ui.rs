use cyberpunk_mod_manager::constants::{MIN_TERM_HEIGHT, MIN_TERM_WIDTH};
use cyberpunk_mod_manager::ui::{check_size, push_decimal};

#[test]
fn a_terminal_of_the_least_size_is_large_enough() {
    assert_eq!(check_size(110, 30), "Size OK");
    assert_eq!(check_size(MIN_TERM_WIDTH, MIN_TERM_HEIGHT), "Size OK");
    assert_eq!(check_size(u16::MAX, u16::MAX), "Size OK");
}

#[test]
fn a_narrow_terminal_is_told_its_width() {
    assert_eq!(
        check_size(109, 30),
        "For optimal viewing experience, Terminal width should be >= 110, (current 109)"
    );
    assert_eq!(
        check_size(0, 0),
        "For optimal viewing experience, Terminal width should be >= 110, (current 0)"
    );
}

#[test]
fn a_low_terminal_is_told_its_height() {
    assert_eq!(
        check_size(110, 29),
        "For optimal viewing experience, Terminal height should be >= 30, (current 29)"
    );
    assert_eq!(
        check_size(65535, 7),
        "For optimal viewing experience, Terminal height should be >= 30, (current 7)"
    );
}

#[test]
fn numbers_are_written_in_decimal() {
    for n in [0u16, 1, 9, 10, 11, 99, 100, 101, 1000, 9999, 10000, 65535] {
        let mut text = String::from("n=");
        push_decimal(&mut text, n);
        assert_eq!(text, format!("n={}", n));
    }
}
