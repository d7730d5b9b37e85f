use antex::keys::{
    ctrl, ctrl_alt, ctrl_shift, is_altgr, is_plain_text_key_event, is_pressed, plain, shift,
    KeyCode, KeyEvent, KeyEventKind, KeyModifiers,
};

fn event(code: KeyCode, modifiers: KeyModifiers, kind: KeyEventKind) -> KeyEvent {
    KeyEvent { code, modifiers, kind }
}

#[test]
fn legacy_control_bytes_fold_to_their_digits() {
    assert_eq!(ctrl(KeyCode::Char('\\')).normalized(), ctrl(KeyCode::Char('4')));
    assert_eq!(ctrl(KeyCode::Char(']')).normalized(), ctrl(KeyCode::Char('5')));
    assert_eq!(ctrl(KeyCode::Char('^')).normalized(), ctrl(KeyCode::Char('6')));
    assert_eq!(plain(KeyCode::Char(']')).normalized(), plain(KeyCode::Char(']')));
    assert_eq!(ctrl(KeyCode::Enter).normalized(), ctrl(KeyCode::Enter));
}

#[test]
fn presses_and_repeats_trigger_bindings_releases_do_not() {
    let bindings = [ctrl(KeyCode::Char('a')), plain(KeyCode::Up)];
    let press = event(KeyCode::Up, KeyModifiers::none(), KeyEventKind::Press);
    let repeat = event(KeyCode::Char('a'), KeyModifiers::control_only(), KeyEventKind::Repeat);
    let release = event(KeyCode::Up, KeyModifiers::none(), KeyEventKind::Release);
    let other = event(KeyCode::Up, KeyModifiers::shift_only(), KeyEventKind::Press);
    assert!(is_pressed(&bindings, press));
    assert!(is_pressed(&bindings, repeat));
    assert!(!is_pressed(&bindings, release));
    assert!(!is_pressed(&bindings, other));
    assert!(!is_pressed(&[], press));
}

#[test]
fn typed_characters_are_plain_or_shifted() {
    let typed = |code, modifiers| is_plain_text_key_event(event(code, modifiers, KeyEventKind::Press));
    assert!(typed(KeyCode::Char('x'), KeyModifiers::none()));
    assert!(typed(KeyCode::Char('X'), KeyModifiers::shift_only()));
    assert!(!typed(KeyCode::Char('x'), KeyModifiers::control_only()));
    assert!(!typed(KeyCode::Enter, KeyModifiers::none()));
    assert!(!is_plain_text_key_event(event(KeyCode::Char('x'), KeyModifiers::none(), KeyEventKind::Release)));
    assert!(!is_altgr(ctrl_alt(KeyCode::Char('q')).parts().1));
    let both = ctrl_shift(KeyCode::Tab).parts().1;
    assert!(both.control && both.shift && !both.alt);
    assert_eq!(shift(KeyCode::Tab).parts(), (KeyCode::Tab, KeyModifiers::shift_only()));
}
