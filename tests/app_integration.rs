use snapper_tui::app::{App, Key, KeyCode, Mode};
use snapper_tui::state::State;

fn press(code: KeyCode) -> Key {
    Key { code, shift: false, ctrl: false, other: false }
}

#[test]
fn test_app_new_and_on_key() {
    let mut app = App::new(State::default(), Ok(Vec::new()), Vec::new(), 0);
    match app.mode {
        Mode::Normal => {}
        _ => panic!("App mode should be Normal after new()"),
    }
    app.on_key(press(KeyCode::Tab));
    app.on_key(press(KeyCode::Up));
    app.on_key(press(KeyCode::Down));
    app.on_key(press(KeyCode::Char('?')));
    match app.mode {
        Mode::Help => {}
        _ => panic!("App mode should be Help after '?' key"),
    }
}
