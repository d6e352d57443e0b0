use time_tracker::tui::{command, menu, Command, Key, KeyPress, Menu, Progress};

fn press(key: Key) -> KeyPress {
    KeyPress { key, control: false }
}

fn items() -> Vec<String> {
    vec!["A".to_string(), "B".to_string(), "C".to_string()]
}

#[test]
fn test_menu() {
    let list = items();
    let keys = vec![press(Key::Down), press(Key::Enter)];
    assert_eq!(menu(&list, &keys), Some(&list[1]));
}

#[test]
fn down_down_enter_selects_third() {
    let list = items();
    let keys = vec![press(Key::Down), press(Key::Down), press(Key::Enter)];
    assert_eq!(menu(&list, &keys).map(|s| s.as_str()), Some("C"));
}

#[test]
fn down_is_held_at_the_last_item() {
    let list = items();
    let keys = vec![
        press(Key::Down),
        press(Key::Down),
        press(Key::Down),
        press(Key::Up),
        press(Key::Enter),
    ];
    assert_eq!(menu(&list, &keys).map(|s| s.as_str()), Some("B"));
}

#[test]
fn escape_cancels_without_a_choice() {
    let list = items();
    assert_eq!(menu(&list, &vec![press(Key::Esc)]), None);
    assert_eq!(menu(&list, &vec![press(Key::Down), press(Key::Esc), press(Key::Enter)]), None);
}

#[test]
fn up_is_held_at_the_first_item() {
    let list = items();
    let keys = vec![press(Key::Up), press(Key::Up), press(Key::Enter)];
    assert_eq!(menu(&list, &keys).map(|s| s.as_str()), Some("A"));
}

#[test]
fn keys_that_run_out_choose_nothing() {
    let list = items();
    assert_eq!(menu(&list, &vec![]), None);
    assert_eq!(menu(&list, &vec![press(Key::Down)]), None);
}

#[test]
fn letters_move_and_cancel() {
    let list = items();
    let keys = vec![press(Key::Char('j')), press(Key::Char('j')), press(Key::Char('k')), press(Key::Enter)];
    assert_eq!(menu(&list, &keys).map(|s| s.as_str()), Some("B"));
    assert_eq!(menu(&list, &vec![press(Key::Char('q')), press(Key::Enter)]), None);
}

#[test]
fn control_c_cancels_and_plain_c_does_not() {
    assert_eq!(command(&KeyPress { key: Key::Char('c'), control: true }), Command::Cancel);
    assert_eq!(command(&KeyPress { key: Key::Char('c'), control: false }), Command::Ignore);
    assert_eq!(command(&KeyPress { key: Key::Char('q'), control: true }), Command::Cancel);
    assert_eq!(command(&press(Key::Other)), Command::Ignore);
    assert_eq!(command(&press(Key::Char('x'))), Command::Ignore);
    let list = items();
    let keys = vec![press(Key::Char('c')), press(Key::Down), press(Key::Enter)];
    assert_eq!(menu(&list, &keys).map(|s| s.as_str()), Some("B"));
}

#[test]
fn press_reports_progress() {
    let mut state = Menu::new(2);
    assert_eq!(state, Menu { position: 0, len: 2 });
    assert_eq!(state.press(&press(Key::Down)), Progress::Open);
    assert_eq!(state.position, 1);
    assert_eq!(state.press(&press(Key::Down)), Progress::Open);
    assert_eq!(state.position, 1);
    assert_eq!(state.press(&press(Key::Enter)), Progress::Chosen(1));
    assert_eq!(state.press(&press(Key::Esc)), Progress::Cancelled);
    assert_eq!(state.position, 1);
}

#[test]
fn frame_marks_the_highlighted_item() {
    let list = items();
    let mut state = Menu::new(3);
    assert_eq!(state.render("Select task:", &list), vec!["Select task:", "* A", "- B", "- C"]);
    state.press(&press(Key::Down));
    assert_eq!(state.render("Select task:", &list), vec!["Select task:", "- A", "* B", "- C"]);
}

#[test]
fn menu_of_one_item() {
    let list = vec!["only".to_string()];
    let keys = vec![press(Key::Down), press(Key::Up), press(Key::Enter)];
    assert_eq!(menu(&list, &keys).map(|s| s.as_str()), Some("only"));
}
