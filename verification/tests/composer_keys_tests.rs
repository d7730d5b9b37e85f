use antex::composer_keys::{composer_shortcut, interrupts_turn, ComposerShortcut};
use antex::keymap::RuntimeKeymap;
use antex::keys::{ctrl, KeyCode, KeyEvent, KeyEventKind, KeyModifiers};

fn press(code: KeyCode, modifiers: KeyModifiers) -> KeyEvent {
    KeyEvent { code, modifiers, kind: KeyEventKind::Press }
}

#[test]
fn default_shortcuts_answer_before_the_draft_is_edited() {
    let keymap = RuntimeKeymap::defaults();
    let ctrl_key = |c| press(KeyCode::Char(c), KeyModifiers::control_only());
    assert_eq!(composer_shortcut(&keymap, ctrl_key('o')), Some(ComposerShortcut::Copy));
    assert_eq!(composer_shortcut(&keymap, ctrl_key('t')), Some(ComposerShortcut::OpenTranscript));
    assert_eq!(composer_shortcut(&keymap, ctrl_key('l')), Some(ComposerShortcut::ClearTerminal));
    assert_eq!(composer_shortcut(&keymap, press(KeyCode::Enter, KeyModifiers::none())), Some(ComposerShortcut::Submit));
    assert_eq!(composer_shortcut(&keymap, press(KeyCode::Tab, KeyModifiers::none())), Some(ComposerShortcut::Queue));
    assert_eq!(composer_shortcut(&keymap, press(KeyCode::Char('a'), KeyModifiers::none())), None);
    let release = KeyEvent { code: KeyCode::Enter, modifiers: KeyModifiers::none(), kind: KeyEventKind::Release };
    assert_eq!(composer_shortcut(&keymap, release), None);
}

#[test]
fn earlier_shortcuts_win_when_keys_are_shared() {
    let mut keymap = RuntimeKeymap::defaults();
    keymap.app.toggle_vim_mode = vec![ctrl(KeyCode::Char('o'))];
    let event = press(KeyCode::Char('o'), KeyModifiers::control_only());
    assert_eq!(composer_shortcut(&keymap, event), Some(ComposerShortcut::ToggleVimMode));
}

#[test]
fn escape_interrupts_unless_it_leaves_vim_insert_mode() {
    let keymap = RuntimeKeymap::defaults();
    let esc = press(KeyCode::Esc, KeyModifiers::none());
    assert!(interrupts_turn(&keymap, esc, false));
    assert!(!interrupts_turn(&keymap, esc, true));
    assert!(!interrupts_turn(&keymap, press(KeyCode::Enter, KeyModifiers::none()), false));
}

use antex::composer_keys::{composer_step, step_reply, ChordOutcome, ComposerAction, KeyStep, PasteFilter, SubmitMode};

fn step(event: KeyEvent, chord: ChordOutcome, search: Option<usize>, paste: PasteFilter, draft: usize) -> KeyStep {
    composer_step(&RuntimeKeymap::defaults(), event, chord, false, search, paste, false, draft)
}

#[test]
fn released_and_held_keys_do_nothing() {
    let release = KeyEvent { code: KeyCode::Enter, modifiers: KeyModifiers::none(), kind: KeyEventKind::Release };
    assert!(matches!(step(release, ChordOutcome::PassThrough, None, PasteFilter::Passed, 0), KeyStep::Ignored));
    let enter = press(KeyCode::Enter, KeyModifiers::none());
    assert!(matches!(step(enter, ChordOutcome::Held, None, PasteFilter::Passed, 0), KeyStep::Ignored));
    let keymap = RuntimeKeymap::defaults();
    let taken = composer_step(&keymap, enter, ChordOutcome::PassThrough, true, None, PasteFilter::Passed, false, 0);
    assert!(matches!(taken, KeyStep::Ignored));
    assert_eq!(step_reply(&taken), Ok(None));
}

#[test]
fn vim_search_input_is_limited_to_256_bytes() {
    let a = press(KeyCode::Char('a'), KeyModifiers::none());
    let long = step(a, ChordOutcome::PassThrough, Some(257), PasteFilter::Passed, 0);
    assert!(matches!(long, KeyStep::SearchTooLong));
    assert_eq!(step_reply(&long), Err("Vim search input is too long.".to_string()));
    assert!(matches!(step(a, ChordOutcome::PassThrough, Some(256), PasteFilter::Passed, 0), KeyStep::SearchEdited));
}

#[test]
fn the_paste_filter_comes_before_shortcuts() {
    let enter = press(KeyCode::Enter, KeyModifiers::none());
    assert!(matches!(step(enter, ChordOutcome::PassThrough, None, PasteFilter::Consumed, 0), KeyStep::Pasted));
    let refused = step(enter, ChordOutcome::PassThrough, None, PasteFilter::Refused("paste refused".to_string()), 0);
    assert_eq!(step_reply(&refused), Err("paste refused".to_string()));
}

#[test]
fn shortcuts_become_actions_and_a_completed_chord_counts_as_its_key() {
    let enter = press(KeyCode::Enter, KeyModifiers::none());
    let submit = step(enter, ChordOutcome::PassThrough, None, PasteFilter::Passed, 0);
    assert_eq!(step_reply(&submit), Ok(Some(ComposerAction::Submit(SubmitMode::Send))));
    let a = press(KeyCode::Char('a'), KeyModifiers::none());
    let tab = press(KeyCode::Tab, KeyModifiers::none());
    let queued = step(a, ChordOutcome::Completed(tab), None, PasteFilter::Passed, 0);
    assert_eq!(step_reply(&queued), Ok(Some(ComposerAction::Submit(SubmitMode::Queue))));
    let copy = step(press(KeyCode::Char('o'), KeyModifiers::control_only()), ChordOutcome::PassThrough, None, PasteFilter::Passed, 0);
    assert_eq!(step_reply(&copy), Ok(Some(ComposerAction::Copy)));
}

#[test]
fn drafts_over_256_kib_are_refused_and_escape_interrupts() {
    let a = press(KeyCode::Char('a'), KeyModifiers::none());
    let big = step(a, ChordOutcome::PassThrough, None, PasteFilter::Passed, 262145);
    assert_eq!(step_reply(&big), Err("Draft is too large; attach a file instead.".to_string()));
    let fits = step(a, ChordOutcome::PassThrough, None, PasteFilter::Passed, 262144);
    assert!(matches!(fits, KeyStep::Edited { interrupt: false }));
    let esc = press(KeyCode::Esc, KeyModifiers::none());
    assert_eq!(step_reply(&step(esc, ChordOutcome::PassThrough, None, PasteFilter::Passed, 1)), Ok(Some(ComposerAction::Interrupt)));
    let keymap = RuntimeKeymap::defaults();
    let leaving = composer_step(&keymap, esc, ChordOutcome::PassThrough, false, None, PasteFilter::Passed, true, 1);
    assert!(matches!(leaving, KeyStep::Edited { interrupt: false }));
}
