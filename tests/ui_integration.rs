use snapper_tui::ui;

#[test]
fn test_normalize_text_for_ui() {
    let input = "Hello\tWorld\u{1b}[31mRed\u{1b}[0m";
    let output = ui::normalize_text_for_ui(input);
    assert!(output.contains("    World"));
    assert!(output.contains("Red"));
    assert!(!output.contains("\u{1b}"));
}

#[test]
fn test_prewrap_text() {
    let input = "This is a long line that should be wrapped.";
    let output = ui::prewrap_text(input, 10);
    for line in output.lines() {
        assert!(line.chars().count() <= 10);
    }
}

#[test]
fn normalize_drops_carriage_returns_and_plain_escapes() {
    assert_eq!(ui::normalize_text_for_ui("a\r\nb"), "a\nb");
    assert_eq!(ui::normalize_text_for_ui("x\u{1b}Ky"), "xy");
    assert_eq!(ui::normalize_text_for_ui("\u{1b}[1;32mok"), "ok");
}

#[test]
fn prewrap_breaks_at_the_width_and_ends_lines() {
    assert_eq!(ui::prewrap_text("abcdef", 4), "abcd\nef\n");
    assert_eq!(ui::prewrap_text("ab\ncd", 0), "a\nb\nc\nd\n");
    assert_eq!(ui::prewrap_text("", 5), "");
}

#[test]
fn prewrap_counts_wide_characters_as_two_columns() {
    assert_eq!(ui::prewrap_text("日本語", 4), "日本\n語\n");
}
