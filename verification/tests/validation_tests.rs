use antex::keys::{ctrl, plain, KeyCode};
use antex::validation::validate_unique;

#[test]
fn unique_keys_pass_and_a_shared_key_names_both_actions() {
    let a = [plain(KeyCode::Enter)];
    let b = [ctrl(KeyCode::Char('s')), plain(KeyCode::Tab)];
    assert_eq!(validate_unique("composer", &[("submit", &a), ("queue", &b)]), Ok(()));
    let c = [plain(KeyCode::Tab)];
    let err = validate_unique("composer", &[("submit", &a), ("queue", &b), ("cycle", &c)]).unwrap_err();
    assert!(err.starts_with("Ambiguous `tui.keymap.composer` bindings: `queue` and `cycle` use the same key."));
}

#[test]
fn a_key_repeated_inside_one_action_counts_as_shared() {
    let twice = [plain(KeyCode::Enter), plain(KeyCode::Enter)];
    let err = validate_unique("pager", &[("close", &twice)]).unwrap_err();
    assert!(err.starts_with("Ambiguous `tui.keymap.pager` bindings: `close` and `close` use the same key."));
}
