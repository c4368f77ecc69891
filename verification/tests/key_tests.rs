use tiny_editor::key::{interpret, Action, Direction, KeyCode, KeyEvent, KeyModifiers};

fn plain(code: KeyCode) -> KeyEvent {
    KeyEvent::new(code, KeyModifiers::none())
}

fn with_control(code: KeyCode) -> KeyEvent {
    KeyEvent::new(code, KeyModifiers::control())
}

#[test]
fn control_s_requests_save() {
    assert_eq!(interpret(with_control(KeyCode::Char('s'))), Action::RequestSave);
}

#[test]
fn control_c_requests_discard_and_quit() {
    assert_eq!(interpret(with_control(KeyCode::Char('c'))), Action::RequestDiscardAndQuit);
}

#[test]
fn control_s_with_other_modifiers_still_saves() {
    let modifiers = KeyModifiers { shift: true, control: true, alt: true };
    assert_eq!(interpret(KeyEvent::new(KeyCode::Char('s'), modifiers)), Action::RequestSave);
}

#[test]
fn plain_s_and_c_are_typed() {
    assert_eq!(interpret(plain(KeyCode::Char('s'))), Action::InsertChar('s'));
    assert_eq!(interpret(plain(KeyCode::Char('c'))), Action::InsertChar('c'));
}

#[test]
fn upper_case_s_with_control_is_not_save() {
    assert_eq!(interpret(with_control(KeyCode::Char('S'))), Action::Noop);
    assert_eq!(interpret(with_control(KeyCode::Char('C'))), Action::Noop);
}

#[test]
fn arrows_move_the_cursor() {
    assert_eq!(interpret(plain(KeyCode::Up)), Action::MoveCursor(Direction::Up));
    assert_eq!(interpret(plain(KeyCode::Down)), Action::MoveCursor(Direction::Down));
    assert_eq!(interpret(plain(KeyCode::Left)), Action::MoveCursor(Direction::Left));
    assert_eq!(interpret(plain(KeyCode::Right)), Action::MoveCursor(Direction::Right));
}

#[test]
fn arrows_move_the_cursor_with_control_held() {
    assert_eq!(interpret(with_control(KeyCode::Up)), Action::MoveCursor(Direction::Up));
    assert_eq!(interpret(with_control(KeyCode::Down)), Action::MoveCursor(Direction::Down));
    assert_eq!(interpret(with_control(KeyCode::Left)), Action::MoveCursor(Direction::Left));
    assert_eq!(interpret(with_control(KeyCode::Right)), Action::MoveCursor(Direction::Right));
}

#[test]
fn characters_are_typed() {
    assert_eq!(interpret(plain(KeyCode::Char('a'))), Action::InsertChar('a'));
    assert_eq!(interpret(plain(KeyCode::Char(' '))), Action::InsertChar(' '));
    assert_eq!(interpret(plain(KeyCode::Char('\u{e9}'))), Action::InsertChar('\u{e9}'));
}

#[test]
fn shift_and_alt_do_not_stop_typing() {
    let shift = KeyModifiers { shift: true, control: false, alt: false };
    let alt = KeyModifiers { shift: false, control: false, alt: true };
    assert_eq!(interpret(KeyEvent::new(KeyCode::Char('A'), shift)), Action::InsertChar('A'));
    assert_eq!(interpret(KeyEvent::new(KeyCode::Char('x'), alt)), Action::InsertChar('x'));
}

#[test]
fn control_z_means_nothing() {
    assert_eq!(interpret(with_control(KeyCode::Char('z'))), Action::Noop);
}

#[test]
fn named_keys_mean_nothing() {
    let codes = vec![
        KeyCode::Enter,
        KeyCode::Backspace,
        KeyCode::Delete,
        KeyCode::Tab,
        KeyCode::BackTab,
        KeyCode::Esc,
        KeyCode::Home,
        KeyCode::End,
        KeyCode::PageUp,
        KeyCode::PageDown,
        KeyCode::Insert,
        KeyCode::F(5),
        KeyCode::Null,
        KeyCode::Other,
    ];
    for code in codes {
        assert_eq!(interpret(plain(code)), Action::Noop);
        assert_eq!(interpret(with_control(code)), Action::Noop);
    }
}

#[test]
fn interpreting_is_deterministic() {
    let event = with_control(KeyCode::Char('s'));
    assert_eq!(interpret(event), interpret(event));
}
