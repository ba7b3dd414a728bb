use login_form::{App, Focus, Input, Key, TermEvent, MASK_CHAR};

fn type_text(app: &mut App, text: &str) {
    for c in text.chars() {
        app.enter_char(c);
    }
}

#[test]
fn new_form_starts_at_username() {
    let app = App::default();
    assert_eq!(*app.focus(), Focus::Username);
    assert_eq!(app.username(), "");
    assert_eq!(app.password(), "");
    assert_eq!(app.cursor_position(), 0);
    assert_eq!(app.password_mask(), "");
}

#[test]
fn typing_and_editing_the_username() {
    let mut app = App::default();
    app.enter_char('a');
    app.enter_char('b');
    assert_eq!(app.username(), "ab");
    assert_eq!(app.cursor_position(), 2);
    app.move_cursor_left();
    assert_eq!(app.cursor_position(), 1);
    app.enter_char('X');
    assert_eq!(app.username(), "aXb");
    assert_eq!(app.cursor_position(), 2);
    assert_eq!(app.password(), "");
}

#[test]
fn delete_on_empty_form_changes_nothing() {
    let mut app = App::default();
    app.delete_char();
    assert_eq!(app.username(), "");
    assert_eq!(app.password(), "");
    assert_eq!(app.cursor_position(), 0);
    assert_eq!(*app.focus(), Focus::Username);
}

#[test]
fn focus_stops_at_the_program_list() {
    let mut app = App::default();
    app.next_input();
    assert_eq!(*app.focus(), Focus::Password);
    app.next_input();
    assert_eq!(*app.focus(), Focus::ProgramList);
    app.next_input();
    assert_eq!(*app.focus(), Focus::ProgramList);
    app.next_input();
    assert_eq!(*app.focus(), Focus::ProgramList);
}

#[test]
fn focus_stops_at_the_username() {
    let mut app = App::default();
    app.prev_input();
    assert_eq!(*app.focus(), Focus::Username);
    app.next_input();
    app.next_input();
    app.prev_input();
    assert_eq!(*app.focus(), Focus::Password);
    app.prev_input();
    assert_eq!(*app.focus(), Focus::Username);
    app.prev_input();
    assert_eq!(*app.focus(), Focus::Username);
}

#[test]
fn focus_walk_moves_one_place_at_a_time() {
    let order = [Focus::Username, Focus::Password, Focus::ProgramList];
    let walk = [true, false, false, true, true, true, true, false, true, false, false, false, false];
    let mut app = App::default();
    let mut place: usize = 0;
    for next in walk {
        if next {
            app.next_input();
            place = if place < 2 { place + 1 } else { 2 };
        } else {
            app.prev_input();
            place = if place > 0 { place - 1 } else { 0 };
        }
        assert_eq!(*app.focus(), order[place]);
    }
    assert_eq!(*app.focus(), Focus::Username);
}

#[test]
fn program_list_ignores_editing() {
    let mut app = App::default();
    type_text(&mut app, "user");
    app.next_input();
    type_text(&mut app, "pass");
    app.move_cursor_left();
    app.next_input();
    assert_eq!(*app.focus(), Focus::ProgramList);
    assert_eq!(app.cursor_position(), 0);

    app.enter_char('z');
    app.delete_char();
    app.move_cursor_left();
    app.move_cursor_right();
    app.reset();
    assert_eq!(*app.focus(), Focus::ProgramList);
    assert_eq!(app.cursor_position(), 0);
    assert_eq!(app.username(), "user");
    assert_eq!(app.password(), "pass");

    app.prev_input();
    assert_eq!(app.cursor_position(), 3);
    app.prev_input();
    assert_eq!(app.cursor_position(), 4);
}

#[test]
fn editing_goes_to_the_focused_field_only() {
    let mut app = App::default();
    type_text(&mut app, "root");
    app.next_input();
    type_text(&mut app, "hunter2");
    assert_eq!(app.username(), "root");
    assert_eq!(app.password(), "hunter2");
    assert_eq!(app.cursor_position(), 7);
    app.delete_char();
    app.move_cursor_left();
    assert_eq!(app.username(), "root");
    assert_eq!(app.password(), "hunter");
    assert_eq!(app.cursor_position(), 5);
    app.reset();
    assert_eq!(app.username(), "root");
    assert_eq!(app.password(), "");
    assert_eq!(app.cursor_position(), 0);
    app.prev_input();
    assert_eq!(app.cursor_position(), 4);
    app.reset();
    assert_eq!(app.username(), "");
    assert_eq!(app.cursor_position(), 0);
}

#[test]
fn delete_undoes_typing_in_the_form() {
    let mut app = App::default();
    type_text(&mut app, "abc");
    app.move_cursor_left();
    app.enter_char('q');
    assert_eq!(app.username(), "abqc");
    assert_eq!(app.cursor_position(), 3);
    app.delete_char();
    assert_eq!(app.username(), "abc");
    assert_eq!(app.cursor_position(), 2);
}

#[test]
fn password_is_shown_masked() {
    let mut app = App::default();
    app.next_input();
    type_text(&mut app, "secret");
    assert_eq!(app.password(), "secret");
    assert_eq!(MASK_CHAR, '*');
    assert_eq!(app.password_mask(), "******");
}

#[test]
fn mask_has_one_character_per_character() {
    let mut app = App::default();
    app.next_input();
    type_text(&mut app, "pässwörd日");
    assert_eq!(app.password_mask(), "*********");
    let mut other = App::default();
    other.next_input();
    type_text(&mut other, "123456789");
    assert_eq!(other.password_mask(), app.password_mask());
}

#[test]
fn keys_are_bound_to_inputs() {
    assert_eq!(Key::Enter.input(), Some(Input::NextField));
    assert_eq!(Key::Tab.input(), Some(Input::NextField));
    assert_eq!(Key::Down.input(), Some(Input::NextField));
    assert_eq!(Key::BackTab.input(), Some(Input::PrevField));
    assert_eq!(Key::Up.input(), Some(Input::PrevField));
    assert_eq!(Key::Char('x').input(), Some(Input::InsertChar('x')));
    assert_eq!(Key::Backspace.input(), Some(Input::DeleteBackward));
    assert_eq!(Key::Left.input(), Some(Input::MoveCursorLeft));
    assert_eq!(Key::Right.input(), Some(Input::MoveCursorRight));
    assert_eq!(Key::Esc.input(), Some(Input::ResetField));
    assert_eq!(Key::Other.input(), None);
}

#[test]
fn apply_carries_out_each_input() {
    let mut app = App::default();
    app.apply(Input::InsertChar('a'));
    app.apply(Input::InsertChar('b'));
    app.apply(Input::InsertChar('c'));
    assert_eq!(app.username(), "abc");
    app.apply(Input::MoveCursorLeft);
    app.apply(Input::MoveCursorLeft);
    assert_eq!(app.cursor_position(), 1);
    app.apply(Input::MoveCursorRight);
    assert_eq!(app.cursor_position(), 2);
    app.apply(Input::DeleteBackward);
    assert_eq!(app.username(), "ac");
    assert_eq!(app.cursor_position(), 1);
    app.apply(Input::NextField);
    assert_eq!(*app.focus(), Focus::Password);
    app.apply(Input::InsertChar('p'));
    app.apply(Input::PrevField);
    assert_eq!(*app.focus(), Focus::Username);
    app.apply(Input::ResetField);
    assert_eq!(app.username(), "");
    assert_eq!(app.password(), "p");
}

#[test]
fn key_down_edits_and_redraws() {
    let mut app = App::default();
    assert!(app.handle_event(TermEvent::KeyDown(Key::Char('h'))));
    assert!(app.handle_event(TermEvent::KeyDown(Key::Char('i'))));
    assert_eq!(app.username(), "hi");
    assert!(app.handle_event(TermEvent::KeyDown(Key::Left)));
    assert_eq!(app.cursor_position(), 1);
    assert!(app.handle_event(TermEvent::KeyDown(Key::Backspace)));
    assert_eq!(app.username(), "i");
    assert!(app.handle_event(TermEvent::KeyDown(Key::Right)));
    assert_eq!(app.cursor_position(), 1);
    assert!(app.handle_event(TermEvent::KeyDown(Key::Enter)));
    assert_eq!(*app.focus(), Focus::Password);
    assert!(app.handle_event(TermEvent::KeyDown(Key::Down)));
    assert_eq!(*app.focus(), Focus::ProgramList);
    assert!(app.handle_event(TermEvent::KeyDown(Key::Up)));
    assert!(app.handle_event(TermEvent::KeyDown(Key::BackTab)));
    assert_eq!(*app.focus(), Focus::Username);
    assert!(app.handle_event(TermEvent::KeyDown(Key::Esc)));
    assert_eq!(app.username(), "");
}

#[test]
fn other_events_leave_the_form_alone() {
    let mut app = App::default();
    type_text(&mut app, "ab");
    assert!(app.handle_event(TermEvent::Resize));
    assert!(app.handle_event(TermEvent::Other));
    assert!(!app.handle_event(TermEvent::KeyDown(Key::Other)));
    assert!(!app.handle_event(TermEvent::KeyUp(Key::Char('c'))));
    assert!(!app.handle_event(TermEvent::KeyUp(Key::Backspace)));
    assert!(!app.handle_event(TermEvent::KeyUp(Key::Tab)));
    assert!(!app.handle_event(TermEvent::KeyUp(Key::Other)));
    assert_eq!(app.username(), "ab");
    assert_eq!(app.password(), "");
    assert_eq!(app.cursor_position(), 2);
    assert_eq!(*app.focus(), Focus::Username);
}
