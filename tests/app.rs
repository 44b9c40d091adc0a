use snapper_tui::app::{App, ConfigField, ListState, Mode};

#[test]
fn test_app_struct_default() {
    let app = App::default();
    assert!(app.configs.is_empty());
    assert!(app.snapshots.is_empty());
    assert!(app.filtered_snaps.is_empty());
    assert_eq!(app.input, "");
}

#[test]
fn test_list_state_default() {
    let ls = ListState::default();
    assert!(ls.selected.is_none());
}

#[test]
fn test_mode_default() {
    let m = Mode::default();
    match m {
        Mode::Normal => {}
        _ => panic!("Default mode should be Normal"),
    }
}

#[test]
fn test_config_field_struct() {
    let cf = ConfigField {
        key: "foo".to_string(),
        value: "bar".to_string(),
        original: "bar".to_string(),
        modified: false,
    };
    assert_eq!(cf.key, "foo");
    assert_eq!(cf.value, "bar");
}
