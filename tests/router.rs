use tcp_chat::term::{Action, InputEvent, KeyInput, Terminal, POLL_INTERVAL_MS};

fn key(c: char) -> InputEvent {
    InputEvent::Key { code: KeyInput::Char(c), ctrl: false }
}

fn press(code: KeyInput) -> InputEvent {
    InputEvent::Key { code, ctrl: false }
}

fn ctrl_c() -> InputEvent {
    InputEvent::Key { code: KeyInput::Char('c'), ctrl: true }
}

fn buffer(t: &Terminal) -> String {
    t.input_buf.iter().collect()
}

#[test]
fn new_terminal_is_in_normal_mode() {
    let t = Terminal::new();
    assert_eq!(t.size, (1, 1));
    assert_eq!(t.poll_interval_ms, POLL_INTERVAL_MS);
    assert_eq!(t.poll_interval_ms, 100);
    assert!(!t.entering_addr);
    assert!(t.input_buf.is_empty());
}

#[test]
fn viewport_follows_last_resize() {
    let mut t = Terminal::new();
    assert_eq!(t.handle_event(InputEvent::Resize(80, 24)), Action::Redraw);
    assert_eq!(t.handle_event(key('x')), Action::Nothing);
    assert_eq!(t.handle_event(InputEvent::Resize(120, 40)), Action::Redraw);
    assert_eq!(t.handle_event(InputEvent::Other), Action::Nothing);
    assert_eq!(t.size, (120, 40));
    t.handle_event(key('c'));
    t.handle_event(InputEvent::Resize(7, 3));
    assert_eq!(t.size, (7, 3));
    assert!(t.entering_addr);
}

#[test]
fn update_size_records_dimensions() {
    let mut t = Terminal::new();
    t.update_size(200, 50);
    assert_eq!(t.size, (200, 50));
}

#[test]
fn c_starts_address_entry() {
    let mut t = Terminal::new();
    assert_eq!(t.handle_event(key('c')), Action::ShowCursor);
    assert!(t.entering_addr);
    assert!(t.input_buf.is_empty());
}

#[test]
fn typing_applies_backspaces_left_to_right() {
    let mut t = Terminal::new();
    t.handle_event(key('c'));
    for c in "12x".chars() {
        assert_eq!(t.handle_event(key(c)), Action::Nothing);
    }
    assert_eq!(t.handle_event(press(KeyInput::Backspace)), Action::Nothing);
    for c in "7.0.0.1:80".chars() {
        t.handle_event(key(c));
    }
    assert_eq!(buffer(&t), "127.0.0.1:80");
    assert!(t.entering_addr);
}

#[test]
fn backspace_on_empty_buffer_stays_empty() {
    let mut t = Terminal::new();
    t.handle_event(key('c'));
    t.handle_event(press(KeyInput::Backspace));
    t.handle_event(press(KeyInput::Backspace));
    assert!(t.input_buf.is_empty());
    t.handle_event(key('a'));
    t.handle_event(press(KeyInput::Backspace));
    t.handle_event(press(KeyInput::Backspace));
    t.handle_event(key('b'));
    assert_eq!(buffer(&t), "b");
}

#[test]
fn command_letters_are_text_while_entering() {
    let mut t = Terminal::new();
    t.handle_event(key('c'));
    t.handle_event(key('c'));
    t.handle_event(key('l'));
    t.handle_event(key('Q'));
    assert_eq!(buffer(&t), "clQ");
}

#[test]
fn enter_submits_and_clears() {
    let mut t = Terminal::new();
    t.handle_event(key('c'));
    for c in "host:1".chars() {
        t.handle_event(key(c));
    }
    let a = t.handle_event(press(KeyInput::Enter));
    assert_eq!(a, Action::Submit("host:1".chars().collect()));
    assert!(!t.entering_addr);
    assert!(t.input_buf.is_empty());
}

#[test]
fn esc_cancels_and_clears() {
    let mut t = Terminal::new();
    t.handle_event(key('c'));
    t.handle_event(key('9'));
    assert_eq!(t.handle_event(press(KeyInput::Esc)), Action::HideCursor);
    assert!(!t.entering_addr);
    assert!(t.input_buf.is_empty());
}

#[test]
fn normal_mode_commands() {
    let mut t = Terminal::new();
    assert_eq!(t.handle_event(key('l')), Action::Listen);
    assert_eq!(t.handle_event(key('Q')), Action::Disconnect);
    assert_eq!(t.handle_event(key('x')), Action::Nothing);
    assert_eq!(t.handle_event(press(KeyInput::Enter)), Action::Nothing);
    assert_eq!(t.handle_event(press(KeyInput::Backspace)), Action::Nothing);
    assert_eq!(
        t.handle_event(InputEvent::Key { code: KeyInput::Char('l'), ctrl: true }),
        Action::Listen
    );
    assert!(!t.entering_addr);
    assert!(t.input_buf.is_empty());
}

#[test]
fn ctrl_c_interrupts_in_every_mode() {
    let mut t = Terminal::new();
    assert_eq!(t.handle_event(ctrl_c()), Action::Interrupt);
    t.handle_event(key('c'));
    t.handle_event(key('1'));
    assert_eq!(t.handle_event(ctrl_c()), Action::Interrupt);
    assert_eq!(buffer(&t), "1");
}

#[test]
fn unknown_keys_change_nothing() {
    let mut t = Terminal::new();
    t.handle_event(key('c'));
    t.handle_event(key('5'));
    assert_eq!(t.handle_event(press(KeyInput::Other)), Action::Nothing);
    assert_eq!(buffer(&t), "5");
    assert!(t.entering_addr);
}
