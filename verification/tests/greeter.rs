use ddlm::greeter::{
    Greeter, KeyAction, Mode, Redraw, KEY_BACKSPACE, KEY_CLEAR_LINE, KEY_END_OF_FILE, KEY_ENTER,
    KEY_INTERRUPT, KEY_KILL_LINE, KEY_TAB,
};

fn type_text(g: &mut Greeter, text: &[u8]) {
    for b in text {
        assert!(g.accepts(*b));
        let out = g.handle_key(*b);
        assert!(matches!(out.action, KeyAction::Continue));
    }
}

#[test]
fn typing_goes_to_username_first() {
    let mut g = Greeter::new();
    assert_eq!(g.mode(), Mode::EditingUsername);
    type_text(&mut g, b"alice");
    assert_eq!(g.username(), &b"alice".to_vec());
    assert_eq!(g.password_mask(), "");
}

#[test]
fn enter_moves_to_password_only_with_a_username() {
    let mut g = Greeter::new();
    g.handle_key(KEY_ENTER);
    assert_eq!(g.mode(), Mode::EditingUsername);
    type_text(&mut g, b"bob");
    g.handle_key(KEY_ENTER);
    assert_eq!(g.mode(), Mode::EditingPassword);
    type_text(&mut g, b"pw");
    assert_eq!(g.password_mask(), "**");
}

#[test]
fn enter_with_password_submits_and_empties_fields() {
    let mut g = Greeter::new();
    type_text(&mut g, b"bob");
    g.handle_key(KEY_TAB);
    type_text(&mut g, b"secret");
    let out = g.handle_key(KEY_ENTER);
    assert!(!out.restore_background);
    match out.action {
        KeyAction::Login { username, password } => {
            assert_eq!(username, b"bob".to_vec());
            assert_eq!(password, b"secret".to_vec());
        }
        _ => panic!("expected a login"),
    }
    assert_eq!(g.username(), &Vec::<u8>::new());
    assert_eq!(g.password_mask(), "");
    assert_eq!(g.mode(), Mode::EditingPassword);
}

#[test]
fn enter_with_empty_password_restarts() {
    let mut g = Greeter::new();
    type_text(&mut g, b"bob");
    g.handle_key(KEY_TAB);
    let out = g.handle_key(KEY_ENTER);
    assert!(matches!(out.action, KeyAction::Continue));
    assert_eq!(g.mode(), Mode::EditingUsername);
    assert!(g.username().is_empty());
}

#[test]
fn backspace_and_clear() {
    let mut g = Greeter::new();
    type_text(&mut g, b"abc");
    g.handle_key(KEY_BACKSPACE);
    assert_eq!(g.username(), &b"ab".to_vec());
    g.handle_key(KEY_CLEAR_LINE);
    assert!(g.username().is_empty());
    g.handle_key(KEY_BACKSPACE);
    assert!(g.username().is_empty());
    type_text(&mut g, b"x");
    g.handle_key(KEY_TAB);
    type_text(&mut g, b"pq");
    g.handle_key(KEY_KILL_LINE);
    assert_eq!(g.password_mask(), "");
    assert_eq!(g.username(), &b"x".to_vec());
}

#[test]
fn tab_toggles() {
    let mut g = Greeter::new();
    g.handle_key(KEY_TAB);
    assert_eq!(g.mode(), Mode::EditingPassword);
    g.handle_key(KEY_TAB);
    assert_eq!(g.mode(), Mode::EditingUsername);
}

#[test]
fn interrupt_and_eof_quit() {
    for key in [KEY_INTERRUPT, KEY_END_OF_FILE] {
        let mut g = Greeter::new();
        type_text(&mut g, b"who");
        let out = g.handle_key(key);
        assert!(matches!(out.action, KeyAction::Quit));
        assert!(g.username().is_empty());
    }
}

#[test]
fn failure_is_shown_until_next_key() {
    let mut g = Greeter::new();
    type_text(&mut g, b"u");
    g.handle_key(KEY_TAB);
    type_text(&mut g, b"p");
    g.handle_key(KEY_ENTER);
    g.login_failed();
    assert_eq!(g.mode(), Mode::EditingUsername);
    let out = g.handle_key(b'z');
    assert!(out.restore_background);
    let out = g.handle_key(b'y');
    assert!(!out.restore_background);
}

#[test]
fn redraws_follow_length_changes() {
    let mut g = Greeter::new();
    assert_eq!(g.take_redraws(), Redraw { username: None, password: None });
    type_text(&mut g, b"ab");
    assert_eq!(g.take_redraws(), Redraw { username: Some(false), password: None });
    assert_eq!(g.take_redraws(), Redraw { username: None, password: None });
    g.handle_key(KEY_BACKSPACE);
    assert_eq!(g.take_redraws(), Redraw { username: Some(true), password: None });
}

#[test]
fn non_ascii_bytes_count_as_two_in_text() {
    let mut g = Greeter::new();
    g.handle_key(KEY_TAB);
    type_text(&mut g, &[0xE9, b'a']);
    assert_eq!(g.password_mask(), "***");
    let text: String = [0xE9u8, b'a'].iter().map(|b| *b as char).collect();
    assert_eq!(text.len(), 3);
}

#[test]
fn no_login_without_password_after_failure() {
    let mut g = Greeter::new();
    type_text(&mut g, b"u");
    g.handle_key(KEY_TAB);
    type_text(&mut g, b"p");
    assert!(matches!(g.handle_key(KEY_ENTER).action, KeyAction::Login { .. }));
    g.login_failed();
    type_text(&mut g, b"u");
    g.handle_key(KEY_ENTER);
    assert_eq!(g.mode(), Mode::EditingPassword);
    assert!(matches!(g.handle_key(KEY_ENTER).action, KeyAction::Continue));
    assert_eq!(g.mode(), Mode::EditingUsername);
}
