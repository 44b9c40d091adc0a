use snapper_tui::ui;

#[test]
fn test_ui_module_exists() {
    let _ = ui::normalize_text_for_ui("");
    assert!(true);
}
