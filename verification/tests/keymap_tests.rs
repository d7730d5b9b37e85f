use antex::bindings::{configured_bindings_to_preserve, parse_bindings, KeybindingSpec, KeybindingsSpec};
use antex::keymap::ListAction;
use antex::keymap_defaults::built_in_defaults;
use antex::keys::{KeyEvent, KeyEventKind};
use antex::keymap::{primary_binding, RuntimeKeymap};
use antex::keymap_config::TuiKeymap;
use antex::keys::{alt, ctrl, plain, shift, KeyBinding, KeyCode, KeyModifiers};
use antex::parse::parse_keybinding;

fn one(spec: &str) -> KeybindingsSpec {
    KeybindingsSpec::One(KeybindingSpec(spec.to_string()))
}

fn expect_conflict(keymap: &TuiKeymap, first: &str, second: &str) {
    let err = RuntimeKeymap::from_config(keymap).expect_err("expected conflict");
    assert!(err.contains(first));
    assert!(err.contains(second));
}

#[test]
fn parses_canonical_binding() {
    let binding = parse_keybinding("ctrl-alt-shift-a").expect("binding should parse");
    assert_eq!(binding.parts().0, KeyCode::Char('a'));
    assert_eq!(
        binding.parts().1,
        KeyModifiers { control: true, alt: true, shift: true, ..KeyModifiers::none() }
    );
}

#[test]
fn rejects_shadowing_composer_binding_in_app_scope() {
    let mut keymap = TuiKeymap::default();
    keymap.global.open_transcript = Some(one("ctrl-t"));
    keymap.composer.submit = Some(one("ctrl-t"));

    let err = RuntimeKeymap::from_config(&keymap).expect_err("expected shadowing conflict");
    assert!(err.contains("composer.submit"));
    assert!(err.contains("open_transcript"));
}

#[test]
fn rejects_shadowing_composer_queue_in_app_scope() {
    let mut keymap = TuiKeymap::default();
    keymap.global.open_external_editor = Some(one("ctrl-g"));
    keymap.composer.queue = Some(one("ctrl-g"));

    let err = RuntimeKeymap::from_config(&keymap).expect_err("expected shadowing conflict");
    assert!(err.contains("composer.queue"));
    assert!(err.contains("open_external_editor"));
}

#[test]
fn rejects_shadowing_composer_toggle_shortcuts_in_app_scope() {
    let mut keymap = TuiKeymap::default();
    keymap.global.open_transcript = Some(one("ctrl-k"));
    keymap.composer.toggle_shortcuts = Some(one("ctrl-k"));

    let err = RuntimeKeymap::from_config(&keymap).expect_err("expected shadowing conflict");
    assert!(err.contains("composer.toggle_shortcuts"));
    assert!(err.contains("open_transcript"));
}

#[test]
fn rejects_shadowing_editor_binding_in_main_scope() {
    let mut keymap = TuiKeymap::default();
    keymap.composer.submit = Some(one("ctrl-j"));
    keymap.editor.insert_newline = Some(one("ctrl-j"));

    let err = RuntimeKeymap::from_config(&keymap).expect_err("expected shadowing conflict");
    assert!(err.contains("composer.submit"));
    assert!(err.contains("editor.insert_newline"));
}

#[test]
fn rejects_shadowing_editor_binding_from_outer_main_handler() {
    let mut keymap = TuiKeymap::default();
    keymap.global.copy = Some(one("ctrl-y"));
    keymap.editor.yank = Some(one("ctrl-y"));

    let err = RuntimeKeymap::from_config(&keymap).expect_err("expected shadowing conflict");
    assert!(err.contains("copy"));
    assert!(err.contains("editor.yank"));
}

#[test]
fn rejects_shadowing_approval_binding_in_app_scope() {
    let mut keymap = TuiKeymap::default();
    keymap.global.open_transcript = Some(one("y"));

    let err = RuntimeKeymap::from_config(&keymap).expect_err("expected shadowing conflict");
    assert!(err.contains("approval.approve"));
    assert!(err.contains("open_transcript"));
}

#[test]
fn rejects_shadowing_list_binding_in_app_scope() {
    let mut keymap = TuiKeymap::default();
    keymap.global.copy = Some(one("down"));

    let err = RuntimeKeymap::from_config(&keymap).expect_err("expected shadowing conflict");
    assert!(err.contains("list.move_down"));
    assert!(err.contains("copy"));
}

#[test]
fn supports_string_or_array_bindings() {
    let mut keymap = TuiKeymap::default();
    keymap.composer.submit = Some(KeybindingsSpec::Many(vec![
        KeybindingSpec("ctrl-enter".to_string()),
        KeybindingSpec("meta-enter".to_string()),
    ]));

    let err = RuntimeKeymap::from_config(&keymap).expect_err("meta is not a valid modifier");
    assert!(err.contains("tui.keymap.composer.submit"));

    keymap.composer.submit = Some(KeybindingsSpec::Many(vec![
        KeybindingSpec("ctrl-enter".to_string()),
        KeybindingSpec("ctrl-shift-enter".to_string()),
    ]));

    let runtime = RuntimeKeymap::from_config(&keymap).expect("valid multi-binding");
    assert_eq!(runtime.composer.submit.len(), 2);
}

#[test]
fn deduplicates_repeated_bindings_while_preserving_first_seen_order() {
    let mut keymap = TuiKeymap::default();
    keymap.composer.submit = Some(KeybindingsSpec::Many(vec![
        KeybindingSpec("ctrl-enter".to_string()),
        KeybindingSpec("ctrl-enter".to_string()),
        KeybindingSpec("ctrl-shift-enter".to_string()),
    ]));

    let runtime = RuntimeKeymap::from_config(&keymap).expect("valid multi-binding");
    assert_eq!(
        runtime.composer.submit,
        vec![
            ctrl(KeyCode::Enter),
            KeyBinding::new(KeyCode::Enter, KeyModifiers { control: true, shift: true, ..KeyModifiers::none() })
        ]
    );
}

#[test]
fn falls_back_to_global_binding_when_context_override_is_not_set() {
    let mut keymap = TuiKeymap::default();
    keymap.global.queue = Some(one("ctrl-q"));

    let runtime = RuntimeKeymap::from_config(&keymap).expect("config should parse");
    assert_eq!(
        runtime.composer.queue,
        vec![ctrl(KeyCode::Char('q'))]
    );
}

#[test]
fn invalid_global_open_transcript_binding_reports_global_path() {
    let mut keymap = TuiKeymap::default();
    keymap.global.open_transcript = Some(one("meta-t"));

    let err = RuntimeKeymap::from_config(&keymap).expect_err("expected parse error");
    assert!(err.contains("tui.keymap.global.open_transcript"));
}

#[test]
fn invalid_global_open_external_editor_binding_reports_global_path() {
    let mut keymap = TuiKeymap::default();
    keymap.global.open_external_editor = Some(one("meta-g"));

    let err = RuntimeKeymap::from_config(&keymap).expect_err("expected parse error");
    assert!(err.contains("tui.keymap.global.open_external_editor"));
}

#[test]
fn default_copy_binding_is_ctrl_o() {
    let runtime = RuntimeKeymap::defaults();
    assert_eq!(runtime.app.copy, vec![ctrl(KeyCode::Char('o'))]);
}

#[test]
fn permission_shortcuts_reserve_plain_text() {
    for binding in ["a", "shift-a", "2", "space"] {
        let mut keymap = TuiKeymap::default();
        keymap.chat.previous_permission_mode = Some(one(binding));
        assert!(
            RuntimeKeymap::from_config(&keymap)
                .expect_err("permission shortcuts must not intercept typing")
                .contains("printable keys")
        );
        keymap.chat.previous_permission_mode = None;
        keymap.chat.next_permission_mode = Some(one(binding));
        assert!(RuntimeKeymap::from_config(&keymap).is_err());
        keymap.chat.next_permission_mode = None;
        keymap.chat.skip_question = Some(one(binding));
        assert!(RuntimeKeymap::from_config(&keymap).is_err());
        keymap.chat.skip_question = None;
        keymap.chat.prompt_stack_back = Some(one(binding));
        assert!(RuntimeKeymap::from_config(&keymap).is_err());
    }
    let mut keymap = TuiKeymap::default();
    keymap.chat.previous_permission_mode = Some(one("f7"));
    keymap.chat.next_permission_mode = Some(one("ctrl-x enter"));
    assert!(RuntimeKeymap::from_config(&keymap).is_ok());
}

#[test]
fn defaults_include_reassignable_main_surface_actions() {
    let runtime = RuntimeKeymap::defaults();

    assert_eq!(
        runtime.app.clear_terminal,
        vec![ctrl(KeyCode::Char('l'))]
    );
    assert_eq!(runtime.app.toggle_fast_mode, Vec::new());
    assert_eq!(
        runtime.chat.interrupt_turn,
        vec![plain(KeyCode::Esc)]
    );
    assert_eq!(
        runtime.chat.decrease_reasoning_effort,
        vec![
            alt(KeyCode::Char(',')),
            shift(KeyCode::Down),
        ]
    );
    assert_eq!(
        runtime.chat.increase_reasoning_effort,
        vec![
            alt(KeyCode::Char('.')),
            shift(KeyCode::Up),
        ]
    );
    assert_eq!(
        runtime.chat.edit_queued_message,
        vec![alt(KeyCode::Up), shift(KeyCode::Left)]
    );
    assert_eq!(
        runtime.composer.history_search_previous,
        vec![ctrl(KeyCode::Char('r'))]
    );
    assert_eq!(
        runtime.composer.history_search_next,
        vec![ctrl(KeyCode::Char('s'))]
    );
    assert_eq!(runtime.editor.kill_whole_line, Vec::new());
}

#[test]
fn defaults_include_list_page_and_jump_actions() {
    let runtime = RuntimeKeymap::defaults();

    assert_eq!(
        runtime.list.move_up,
        vec![
            plain(KeyCode::Up),
            ctrl(KeyCode::Char('p')),
            ctrl(KeyCode::Char('k')),
            plain(KeyCode::Char('k')),
        ]
    );
    assert_eq!(
        runtime.list.move_down,
        vec![
            plain(KeyCode::Down),
            ctrl(KeyCode::Char('n')),
            ctrl(KeyCode::Char('j')),
            plain(KeyCode::Char('j')),
        ]
    );
    assert_eq!(
        runtime.list.move_left,
        vec![
            plain(KeyCode::Left),
            ctrl(KeyCode::Char('h')),
        ]
    );
    assert_eq!(
        runtime.list.move_right,
        vec![
            plain(KeyCode::Right),
            ctrl(KeyCode::Char('l')),
        ]
    );
    assert_eq!(
        runtime.list.page_up,
        vec![
            plain(KeyCode::PageUp),
            ctrl(KeyCode::Char('b')),
        ]
    );
    assert_eq!(
        runtime.list.page_down,
        vec![
            plain(KeyCode::PageDown),
            ctrl(KeyCode::Char('f')),
        ]
    );
    assert_eq!(runtime.list.jump_top, vec![plain(KeyCode::Home)]);
    assert_eq!(
        runtime.list.jump_bottom,
        vec![plain(KeyCode::End)]
    );
}

#[test]
fn configured_main_surface_bindings_prune_reasoning_fallback_aliases() {
    let mut keymap = TuiKeymap::default();
    keymap.editor.move_up = Some(one("shift-up"));
    keymap.vim_text_object.word = Some(one("shift-down"));

    let runtime = RuntimeKeymap::from_config(&keymap).expect("config should parse");

    assert_eq!(runtime.editor.move_up, vec![shift(KeyCode::Up)]);
    assert_eq!(
        runtime.vim_text_object.word,
        vec![shift(KeyCode::Down)]
    );
    assert_eq!(
        runtime.chat.decrease_reasoning_effort,
        vec![alt(KeyCode::Char(','))]
    );
    assert_eq!(
        runtime.chat.increase_reasoning_effort,
        vec![alt(KeyCode::Char('.'))]
    );
}

#[test]
fn explicit_reasoning_binding_still_conflicts_with_editor_binding() {
    let mut keymap = TuiKeymap::default();
    keymap.editor.move_up = Some(one("shift-up"));
    keymap.chat.increase_reasoning_effort = Some(one("shift-up"));

    expect_conflict(&keymap, "chat.increase_reasoning_effort", "editor.move_up");
}

#[test]
fn configured_legacy_list_bindings_prune_new_default_overlaps() {
    let mut keymap = TuiKeymap::default();
    keymap.list.move_up = Some(one("page-up"));
    keymap.list.move_down = Some(one("page-down"));

    let runtime = RuntimeKeymap::from_config(&keymap).expect("config should parse");

    assert_eq!(runtime.list.move_up, vec![plain(KeyCode::PageUp)]);
    assert_eq!(
        runtime.list.move_down,
        vec![plain(KeyCode::PageDown)]
    );
    assert_eq!(
        runtime.list.page_up,
        vec![ctrl(KeyCode::Char('b'))]
    );
    assert_eq!(
        runtime.list.page_down,
        vec![ctrl(KeyCode::Char('f'))]
    );
}

#[test]
fn configured_legacy_list_bindings_can_prune_all_new_default_keys() {
    let mut keymap = TuiKeymap::default();
    keymap.list.move_up = Some(KeybindingsSpec::Many(vec![
        KeybindingSpec("page-up".to_string()),
        KeybindingSpec("ctrl-b".to_string()),
    ]));

    let runtime = RuntimeKeymap::from_config(&keymap).expect("config should parse");

    assert_eq!(
        runtime.list.move_up,
        vec![
            plain(KeyCode::PageUp),
            ctrl(KeyCode::Char('b')),
        ]
    );
    assert_eq!(runtime.list.page_up, Vec::new());
}

#[test]
fn explicit_new_list_bindings_still_conflict_with_legacy_bindings() {
    let mut keymap = TuiKeymap::default();
    keymap.list.move_up = Some(one("page-up"));
    keymap.list.page_up = Some(one("page-up"));

    expect_conflict(&keymap, "move_up", "page_up");
}

#[test]
fn configured_app_bindings_prune_new_list_default_overlaps() {
    let mut keymap = TuiKeymap::default();
    keymap.global.copy = Some(one("page-down"));

    let runtime = RuntimeKeymap::from_config(&keymap).expect("config should parse");

    assert_eq!(runtime.app.copy, vec![plain(KeyCode::PageDown)]);
    assert_eq!(
        runtime.list.page_down,
        vec![ctrl(KeyCode::Char('f'))]
    );
}

#[test]
fn configured_approval_bindings_prune_new_list_default_overlaps() {
    let mut keymap = TuiKeymap::default();
    keymap.approval.approve = Some(one("home"));

    let runtime = RuntimeKeymap::from_config(&keymap).expect("config should parse");

    assert_eq!(
        runtime.approval.approve,
        vec![plain(KeyCode::Home)]
    );
    assert_eq!(runtime.list.jump_top, Vec::new());
}

#[test]
fn explicit_new_list_bindings_still_conflict_with_configured_approval_bindings() {
    let mut keymap = TuiKeymap::default();
    keymap.approval.approve = Some(one("home"));
    keymap.list.jump_top = Some(one("home"));

    expect_conflict(&keymap, "list.jump_top", "approval.approve");
}

#[test]
fn configured_legacy_vim_normal_bindings_prune_new_change_operator_default() {
    let mut keymap = TuiKeymap::default();
    keymap.vim_normal.move_left = Some(one("c"));

    let runtime = RuntimeKeymap::from_config(&keymap).expect("config should parse");

    assert_eq!(
        runtime.vim_normal.move_left,
        vec![plain(KeyCode::Char('c'))]
    );
    assert_eq!(runtime.vim_normal.start_change_operator, Vec::new());
}

#[test]
fn explicit_new_vim_normal_binding_still_conflicts_with_legacy_binding() {
    let mut keymap = TuiKeymap::default();
    keymap.vim_normal.move_left = Some(one("c"));
    keymap.vim_normal.start_change_operator = Some(one("c"));

    expect_conflict(&keymap, "move_left", "start_change_operator");
}

#[test]
fn explicit_replace_mode_binding_conflicts_with_legacy_binding() {
    let mut keymap = TuiKeymap::default();
    keymap.vim_normal.move_left = Some(one("shift-r"));
    keymap.vim_normal.enter_replace_mode = Some(one("shift-r"));

    expect_conflict(&keymap, "move_left", "enter_replace_mode");
}

#[test]
fn configured_legacy_vim_normal_bindings_prune_new_substitute_default() {
    let mut keymap = TuiKeymap::default();
    keymap.vim_normal.move_left = Some(one("s"));

    let runtime = RuntimeKeymap::from_config(&keymap).expect("config should parse");

    assert_eq!(
        runtime.vim_normal.move_left,
        vec![plain(KeyCode::Char('s'))]
    );
    assert_eq!(runtime.vim_normal.substitute_char, Vec::new());
}

#[test]
fn explicit_new_vim_normal_substitute_binding_still_conflicts_with_legacy_binding() {
    let mut keymap = TuiKeymap::default();
    keymap.vim_normal.move_left = Some(one("s"));
    keymap.vim_normal.substitute_char = Some(one("s"));

    expect_conflict(&keymap, "move_left", "substitute_char");
}

#[test]
fn configured_legacy_vim_normal_bindings_prune_new_replace_default() {
    let mut keymap = TuiKeymap::default();
    keymap.vim_normal.move_left = Some(one("r"));

    let runtime = RuntimeKeymap::from_config(&keymap).expect("config should parse");

    assert_eq!(
        runtime.vim_normal.move_left,
        vec![plain(KeyCode::Char('r'))]
    );
    assert_eq!(runtime.vim_normal.replace_char, Vec::new());
}

#[test]
fn configured_substitute_binding_prunes_new_replace_default() {
    let mut keymap = TuiKeymap::default();
    keymap.vim_normal.substitute_char = Some(one("r"));

    let runtime = RuntimeKeymap::from_config(&keymap).expect("config should parse");

    assert_eq!(
        runtime.vim_normal.substitute_char,
        vec![plain(KeyCode::Char('r'))]
    );
    assert!(runtime.vim_normal.replace_char.is_empty());
}

#[test]
fn explicit_new_vim_normal_replace_binding_still_conflicts_with_legacy_binding() {
    let mut keymap = TuiKeymap::default();
    keymap.vim_normal.move_left = Some(one("r"));
    keymap.vim_normal.replace_char = Some(one("r"));

    expect_conflict(&keymap, "move_left", "replace_char");
}

#[test]
fn configured_legacy_vim_normal_bindings_prune_new_repeat_default() {
    let mut keymap = TuiKeymap::default();
    keymap.vim_normal.move_left = Some(one("."));

    let runtime = RuntimeKeymap::from_config(&keymap).expect("config should parse");

    assert_eq!(runtime.vim_normal.repeat_last_change, Vec::new());
}

#[test]
fn configured_legacy_vim_bindings_prune_new_navigation_defaults() {
    let mut keymap = TuiKeymap::default();
    keymap.vim_normal.move_left = Some(one("f"));
    keymap.vim_operator.motion_left = Some(one("g"));
    keymap.vim_normal.move_right = Some(one("t"));
    keymap.vim_normal.move_up = Some(one("shift-f"));
    keymap.vim_operator.motion_right = Some(one("shift-t"));

    let runtime = RuntimeKeymap::from_config(&keymap).expect("config should parse");

    assert_eq!(runtime.vim_normal.find_forward, Vec::new());
    assert_eq!(runtime.vim_normal.find_backward, Vec::new());
    assert_eq!(runtime.vim_operator.motion_jump_top, Vec::new());
    assert_eq!(runtime.vim_normal.till_forward, Vec::new());
    assert_eq!(runtime.vim_operator.motion_till_backward, Vec::new());
}

#[test]
fn explicit_vim_navigation_binding_still_conflicts_with_legacy_binding() {
    for key in ["f", "t"] {
        let mut keymap = TuiKeymap::default();
        keymap.vim_normal.move_left = Some(one(key));
        let action = if key == "f" {
            keymap.vim_normal.find_forward = Some(one(key));
            "find_forward"
        } else {
            keymap.vim_normal.till_forward = Some(one(key));
            "till_forward"
        };
        expect_conflict(&keymap, "move_left", action);
    }
}

#[test]
fn vim_search_preserves_custom_motion_bindings() {
    for operator in [false, true] {
        let mut config = TuiKeymap::default();
        if operator {
            config.vim_operator.motion_left = Some(one("n"));
        } else {
            config.vim_normal.move_left = Some(one("n"));
        }
        assert!(
            RuntimeKeymap::from_config(&config)
                .unwrap()
                .vim_search
                .next
                .is_empty()
        );
        config.vim_search.next = Some(one("n"));
        assert!(RuntimeKeymap::from_config(&config).is_err());
    }
}

#[test]
fn explicit_vim_history_bindings_still_conflict_with_legacy_bindings() {
    let mut keymap = TuiKeymap::default();
    keymap.vim_normal.move_left = Some(one("u"));
    keymap.vim_normal.undo = Some(one("u"));
    expect_conflict(&keymap, "move_left", "undo");

    keymap.vim_normal.move_left = Some(one("ctrl-r"));
    keymap.vim_normal.undo = None;
    keymap.vim_normal.redo = Some(one("ctrl-r"));
    expect_conflict(&keymap, "move_left", "redo");
}

#[test]
fn explicit_empty_arrays_unbind_vim_history_actions() {
    let mut keymap = TuiKeymap::default();
    keymap.vim_normal.undo = Some(KeybindingsSpec::Many(vec![]));
    keymap.vim_normal.redo = Some(KeybindingsSpec::Many(vec![]));

    let runtime = RuntimeKeymap::from_config(&keymap).expect("config should parse");

    assert!(runtime.vim_normal.undo.is_empty());
    assert!(runtime.vim_normal.redo.is_empty());
}

#[test]
fn configured_legacy_vim_operator_bindings_prune_new_text_object_defaults() {
    let mut keymap = TuiKeymap::default();
    keymap.vim_operator.motion_left = Some(one("i"));
    keymap.vim_operator.motion_right = Some(one("a"));

    let runtime = RuntimeKeymap::from_config(&keymap).expect("config should parse");

    assert_eq!(
        runtime.vim_operator.motion_left,
        vec![plain(KeyCode::Char('i'))]
    );
    assert_eq!(
        runtime.vim_operator.motion_right,
        vec![plain(KeyCode::Char('a'))]
    );
    assert_eq!(runtime.vim_operator.select_inner_text_object, Vec::new());
    assert_eq!(runtime.vim_operator.select_around_text_object, Vec::new());
}

#[test]
fn explicit_new_vim_operator_binding_still_conflicts_with_legacy_binding() {
    let mut keymap = TuiKeymap::default();
    keymap.vim_operator.motion_left = Some(one("i"));
    keymap.vim_operator.select_inner_text_object = Some(one("i"));

    expect_conflict(&keymap, "motion_left", "select_inner_text_object");
}

#[test]
fn vim_normal_defaults_include_insert_and_arrow_aliases() {
    let runtime = RuntimeKeymap::defaults();

    assert_eq!(
        runtime.vim_normal.enter_insert,
        vec![
            plain(KeyCode::Char('i')),
            plain(KeyCode::Insert)
        ]
    );
    assert_eq!(
        runtime.vim_normal.move_left,
        vec![
            plain(KeyCode::Char('h')),
            plain(KeyCode::Left)
        ]
    );
    assert_eq!(
        runtime.vim_normal.move_right,
        vec![
            plain(KeyCode::Char('l')),
            plain(KeyCode::Right)
        ]
    );
    assert_eq!(
        runtime.vim_normal.move_up,
        vec![
            plain(KeyCode::Char('k')),
            plain(KeyCode::Up)
        ]
    );
    assert_eq!(
        runtime.vim_normal.move_down,
        vec![
            plain(KeyCode::Char('j')),
            plain(KeyCode::Down)
        ]
    );
}

#[test]
fn invalid_global_copy_binding_reports_global_path() {
    let mut keymap = TuiKeymap::default();
    keymap.global.copy = Some(one("meta-o"));

    let err = RuntimeKeymap::from_config(&keymap).expect_err("expected parse error");
    assert!(err.contains("tui.keymap.global.copy"));
}

#[test]
fn rejects_conflicting_editor_bindings() {
    let mut keymap = TuiKeymap::default();
    keymap.editor.move_left = Some(one("ctrl-h"));
    keymap.editor.move_right = Some(one("ctrl-h"));

    expect_conflict(&keymap, "move_left", "move_right");
}

#[test]
fn rejects_conflicting_pager_bindings() {
    let mut keymap = TuiKeymap::default();
    keymap.pager.scroll_up = Some(one("ctrl-u"));
    keymap.pager.scroll_down = Some(one("ctrl-u"));

    expect_conflict(&keymap, "scroll_up", "scroll_down");
}

#[test]
fn rejects_conflicting_list_bindings() {
    let mut keymap = TuiKeymap::default();
    keymap.list.move_up = Some(one("up"));
    keymap.list.move_down = Some(one("up"));

    expect_conflict(&keymap, "move_up", "move_down");

    let mut keymap = TuiKeymap::default();
    keymap.list.move_left = Some(one("left"));
    keymap.list.move_right = Some(one("left"));

    expect_conflict(&keymap, "move_left", "move_right");
}

#[test]
fn rejects_conflicting_list_page_and_jump_bindings() {
    let mut keymap = TuiKeymap::default();
    keymap.list.page_up = Some(one("home"));
    keymap.list.jump_top = Some(one("home"));

    expect_conflict(&keymap, "page_up", "jump_top");
}

#[test]
fn rejects_conflicting_approval_bindings() {
    let mut keymap = TuiKeymap::default();
    keymap.approval.approve = Some(one("y"));
    keymap.approval.decline = Some(one("y"));

    expect_conflict(&keymap, "approve", "decline");
}

#[test]
fn rejects_conflicting_approval_deny_binding() {
    let mut keymap = TuiKeymap::default();
    keymap.approval.approve = Some(one("y"));
    keymap.approval.deny = Some(one("y"));

    expect_conflict(&keymap, "approve", "deny");
}

#[test]
fn rejects_conflicting_approval_overlay_accept_binding() {
    let mut keymap = TuiKeymap::default();
    keymap.list.accept = Some(one("y"));

    expect_conflict(&keymap, "list.accept", "approval.approve");
}

#[test]
fn rejects_conflicting_approval_overlay_cancel_binding() {
    let mut keymap = TuiKeymap::default();
    keymap.list.cancel = Some(one("c"));

    expect_conflict(&keymap, "list.cancel", "approval.cancel");
}

#[test]
fn reassignable_fixed_shortcuts_conflict_until_original_action_is_unbound() {
    let mut keymap = TuiKeymap::default();
    keymap.global.copy = Some(one("alt-."));

    expect_conflict(&keymap, "copy", "chat.increase_reasoning_effort");

    keymap.chat.increase_reasoning_effort = Some(KeybindingsSpec::Many(vec![]));
    let runtime = RuntimeKeymap::from_config(&keymap).expect("remapped key should be free");
    assert_eq!(runtime.app.copy, vec![alt(KeyCode::Char('.'))]);
}

#[test]
fn kill_whole_line_can_be_assigned_without_default_binding() {
    let mut keymap = TuiKeymap::default();
    keymap.editor.kill_whole_line = Some(one("ctrl-shift-u"));

    let runtime = RuntimeKeymap::from_config(&keymap).expect("runtime keymap");

    assert_eq!(
        runtime.editor.kill_whole_line,
        vec![KeyBinding::new(
            KeyCode::Char('u'),
            KeyModifiers { control: true, shift: true, ..KeyModifiers::none() },
        )]
    );
}

#[test]
fn kill_whole_line_conflicts_until_kill_line_start_is_unbound() {
    let mut keymap = TuiKeymap::default();
    keymap.editor.kill_whole_line = Some(one("ctrl-u"));

    expect_conflict(&keymap, "kill_line_start", "kill_whole_line");

    keymap.editor.kill_line_start = Some(KeybindingsSpec::Many(vec![]));
    let runtime = RuntimeKeymap::from_config(&keymap).expect("remapped key should be free");
    assert_eq!(
        runtime.editor.kill_whole_line,
        vec![ctrl(KeyCode::Char('u'))]
    );
}

#[test]
fn toggle_fast_mode_can_be_assigned_without_default_binding() {
    let mut keymap = TuiKeymap::default();
    keymap.global.toggle_fast_mode = Some(one("ctrl-shift-f"));

    let runtime = RuntimeKeymap::from_config(&keymap).expect("runtime keymap");

    assert_eq!(
        runtime.app.toggle_fast_mode,
        vec![KeyBinding::new(
            KeyCode::Char('f'),
            KeyModifiers { control: true, shift: true, ..KeyModifiers::none() },
        )]
    );
}

#[test]
fn toggle_fast_mode_conflicts_with_existing_main_surface_bindings() {
    let mut keymap = TuiKeymap::default();
    keymap.global.toggle_fast_mode = Some(one("ctrl-l"));

    expect_conflict(&keymap, "clear_terminal", "toggle_fast_mode");
}

#[test]
fn toggle_side_conversation_can_be_remapped_and_rejects_conflicts() {
    let mut keymap = TuiKeymap::default();
    keymap.global.toggle_side_conversation = Some(one("f12"));

    let runtime = RuntimeKeymap::from_config(&keymap).expect("runtime keymap");
    assert_eq!(
        runtime.app.toggle_side_conversation,
        vec![plain(KeyCode::F(12))]
    );

    keymap.global.toggle_side_conversation = Some(one("ctrl-l"));
    expect_conflict(&keymap, "clear_terminal", "toggle_side_conversation");
}

#[test]
fn toggle_side_conversation_default_yields_to_existing_configured_bindings() {
    for binding in ["ctrl-/", "ctrl-7"] {
        let mut keymap = TuiKeymap::default();
        keymap.global.open_transcript = Some(one(binding));

        let runtime = RuntimeKeymap::from_config(&keymap).expect("existing keymap remains valid");

        assert_eq!(
            runtime.app.open_transcript,
            vec![parse_keybinding(binding).expect("configured binding")]
        );
        assert!(runtime.app.toggle_side_conversation.is_empty());
    }

    let mut keymap = TuiKeymap::default();
    keymap.global.open_transcript = Some(one("ctrl-/"));
    keymap.global.copy = Some(one("ctrl-7"));

    let runtime =
        RuntimeKeymap::from_config(&keymap).expect("distinct legacy bindings remain valid");
    assert!(runtime.app.toggle_side_conversation.is_empty());
}

#[test]
fn explicit_side_toggle_rejects_legacy_ctrl_slash_alias_conflicts() {
    let mut keymap = TuiKeymap::default();
    keymap.global.open_transcript = Some(one("ctrl-7"));
    keymap.global.toggle_side_conversation = Some(one("ctrl-/"));

    expect_conflict(&keymap, "open_transcript", "toggle_side_conversation");
}

#[test]
fn rejects_main_bindings_that_collide_with_remaining_fixed_shortcuts() {
    let mut keymap = TuiKeymap::default();
    keymap.composer.submit = Some(one("ctrl-v"));

    expect_conflict(&keymap, "composer.submit", "fixed.paste_image");
}

#[test]
fn interrupt_turn_allows_backtrack_escape_and_can_be_remapped_or_unbound() {
    let mut keymap = TuiKeymap::default();
    let runtime = RuntimeKeymap::from_config(&keymap).expect("default keymap should parse");
    assert_eq!(
        runtime.chat.interrupt_turn,
        vec![plain(KeyCode::Esc)]
    );

    keymap.chat.interrupt_turn = Some(one("f12"));
    let runtime = RuntimeKeymap::from_config(&keymap).expect("remapped keymap should parse");
    assert_eq!(
        runtime.chat.interrupt_turn,
        vec![plain(KeyCode::F(12))]
    );

    keymap.chat.interrupt_turn = Some(KeybindingsSpec::Many(vec![]));
    let runtime = RuntimeKeymap::from_config(&keymap).expect("unbound keymap should parse");
    assert!(runtime.chat.interrupt_turn.is_empty());
}

#[test]
fn interrupt_turn_rejects_other_fixed_shortcuts() {
    let mut keymap = TuiKeymap::default();
    keymap.chat.interrupt_turn = Some(one("ctrl-v"));

    expect_conflict(&keymap, "chat.interrupt_turn", "fixed.paste_image");
}

#[test]
fn interrupt_turn_rejects_request_user_input_question_navigation_bindings() {
    let mut keymap = TuiKeymap::default();
    keymap.chat.interrupt_turn = Some(one("f12"));
    keymap.list.move_right = Some(one("f12"));

    expect_conflict(&keymap, "chat.interrupt_turn", "list.move_right");
}

#[test]
fn rejects_pager_bindings_that_collide_with_transcript_backtrack_keys() {
    let mut keymap = TuiKeymap::default();
    keymap.pager.close = Some(one("left"));

    expect_conflict(&keymap, "close", "fixed.transcript_edit_previous");
}

#[test]
fn parses_function_keys_and_rejects_out_of_range_function_keys() {
    assert_eq!(
        parse_keybinding("f1").map(|binding| binding.parts()),
        Some((KeyCode::F(1), KeyModifiers::none()))
    );
    assert_eq!(
        parse_keybinding("f24").map(|binding| binding.parts()),
        Some((KeyCode::F(24), KeyModifiers::none()))
    );
    assert_eq!(parse_keybinding("f25"), None);
}

#[test]
fn parses_all_named_non_character_keys() {
    let cases = [
        ("tab", KeyCode::Tab),
        ("backspace", KeyCode::Backspace),
        ("esc", KeyCode::Esc),
        ("delete", KeyCode::Delete),
        ("up", KeyCode::Up),
        ("down", KeyCode::Down),
        ("left", KeyCode::Left),
        ("right", KeyCode::Right),
        ("home", KeyCode::Home),
        ("end", KeyCode::End),
        ("page-up", KeyCode::PageUp),
        ("page-down", KeyCode::PageDown),
        ("space", KeyCode::Char(' ')),
        ("minus", KeyCode::Char('-')),
    ];

    for (spec, expected_key) in cases {
        assert_eq!(
            parse_keybinding(spec).map(|binding| binding.parts()),
            Some((expected_key, KeyModifiers::none())),
            "failed to parse {spec}"
        );
    }
}

#[test]
fn rejects_modifier_only_and_nonnumeric_function_key_specs() {
    assert_eq!(parse_keybinding("ctrl"), None);
    assert_eq!(parse_keybinding("ff"), None);
}

#[test]
fn parses_minus_alias_and_legacy_literal_minus() {
    assert_eq!(
        parse_keybinding("alt-minus").map(|binding| binding.parts()),
        Some((KeyCode::Char('-'), KeyModifiers::alt_only()))
    );
    assert_eq!(
        parse_keybinding("alt--").map(|binding| binding.parts()),
        Some((KeyCode::Char('-'), KeyModifiers::alt_only()))
    );
    assert_eq!(
        parse_keybinding("-").map(|binding| binding.parts()),
        Some((KeyCode::Char('-'), KeyModifiers::none()))
    );
}

#[test]
fn explicit_empty_array_unbinds_action() {
    let mut keymap = TuiKeymap::default();
    keymap.composer.toggle_shortcuts = Some(KeybindingsSpec::Many(vec![]));
    let runtime = RuntimeKeymap::from_config(&keymap).expect("config should parse");
    assert!(runtime.composer.toggle_shortcuts.is_empty());
}

#[test]
fn raw_output_toggle_defaults_to_alt_r() {
    let runtime = RuntimeKeymap::defaults();
    assert_eq!(
        runtime.app.toggle_raw_output,
        vec![alt(KeyCode::Char('r'))]
    );
}

#[test]
fn raw_output_toggle_can_be_remapped() {
    let mut keymap = TuiKeymap::default();
    keymap.global.toggle_raw_output = Some(one("f12"));

    let runtime = RuntimeKeymap::from_config(&keymap).expect("config should parse");

    assert_eq!(
        runtime.app.toggle_raw_output,
        vec![plain(KeyCode::F(12))]
    );
}

#[test]
fn default_editor_insert_newline_includes_current_aliases() {
    let runtime = RuntimeKeymap::defaults();
    assert_eq!(
        runtime.editor.insert_newline,
        vec![
            ctrl(KeyCode::Char('j')),
            ctrl(KeyCode::Char('m')),
            plain(KeyCode::Enter),
            shift(KeyCode::Enter),
            alt(KeyCode::Enter),
        ]
    );
}

#[test]
fn default_editor_delete_forward_word_includes_alt_d() {
    let runtime = RuntimeKeymap::defaults();
    assert!(
        runtime
            .editor
            .delete_forward_word
            .contains(&alt(KeyCode::Char('d')))
    );
}

#[test]
fn default_editor_deletion_includes_modified_backspace_delete_aliases() {
    let runtime = RuntimeKeymap::defaults();

    assert!(
        runtime
            .editor
            .delete_backward
            .contains(&shift(KeyCode::Backspace))
    );
    assert!(
        runtime
            .editor
            .delete_forward
            .contains(&shift(KeyCode::Delete))
    );
    assert!(
        runtime
            .editor
            .delete_backward_word
            .contains(&ctrl(KeyCode::Backspace))
    );
    assert!(
        runtime
            .editor
            .delete_backward_word
            .contains(&KeyBinding::new(
                KeyCode::Backspace,
                KeyModifiers { control: true, shift: true, ..KeyModifiers::none() }
            ))
    );
    assert!(
        runtime
            .editor
            .delete_forward_word
            .contains(&ctrl(KeyCode::Delete))
    );
    assert!(
        runtime
            .editor
            .delete_forward_word
            .contains(&KeyBinding::new(
                KeyCode::Delete,
                KeyModifiers { control: true, shift: true, ..KeyModifiers::none() }
            ))
    );
}

#[test]
fn default_composer_toggle_shortcuts_includes_shift_question_mark() {
    let runtime = RuntimeKeymap::defaults();
    assert!(
        runtime
            .composer
            .toggle_shortcuts
            .contains(&shift(KeyCode::Char('?')))
    );
}

#[test]
fn default_approval_open_fullscreen_includes_ctrl_shift_a() {
    let runtime = RuntimeKeymap::defaults();
    assert!(runtime.approval.open_fullscreen.contains(&KeyBinding::new(
        KeyCode::Char('a'),
        KeyModifiers { control: true, shift: true, ..KeyModifiers::none() }
    )));
}

#[test]
fn primary_binding_returns_first_or_none() {
    let bindings = vec![
        ctrl(KeyCode::Char('a')),
        shift(KeyCode::Char('b')),
    ];
    assert_eq!(
        primary_binding(&bindings),
        Some(ctrl(KeyCode::Char('a')))
    );
    assert_eq!(primary_binding(&[]), None);
}

#[test]
fn defaults_pass_conflict_validation() {
    RuntimeKeymap::defaults()
        .validate_conflicts()
        .expect("default keymap should be conflict free");
}

#[test]
fn list_actions_resolve_by_key_in_declared_order() {
    let runtime = RuntimeKeymap::defaults();
    let press = |code: KeyCode, modifiers: KeyModifiers| KeyEvent {
        code,
        modifiers,
        kind: KeyEventKind::Press,
    };
    assert_eq!(runtime.list.action_for(press(KeyCode::Up, KeyModifiers::none())), Some(ListAction::MoveUp));
    assert_eq!(
        runtime.list.action_for(press(KeyCode::Char('l'), KeyModifiers::control_only())),
        Some(ListAction::MoveRight)
    );
    assert_eq!(runtime.list.action_for(press(KeyCode::Esc, KeyModifiers::none())), Some(ListAction::Cancel));
    assert_eq!(runtime.list.action_for(press(KeyCode::Char('x'), KeyModifiers::none())), None);
    let release = KeyEvent { code: KeyCode::Up, modifiers: KeyModifiers::none(), kind: KeyEventKind::Release };
    assert_eq!(runtime.list.action_for(release), None);
    assert_eq!(ListAction::PageDown.config_name(), "page_down");
    assert_eq!(runtime.list.bindings_for(ListAction::JumpTop), &[plain(KeyCode::Home)]);
}

#[test]
fn configured_keys_are_collected_once_in_first_seen_order() {
    let a = [ctrl(KeyCode::Char('a')), plain(KeyCode::Up)];
    let b = [plain(KeyCode::Up), alt(KeyCode::Left)];
    let c = [shift(KeyCode::Tab)];
    assert_eq!(
        configured_bindings_to_preserve(&[(true, &a), (false, &c), (true, &b)]),
        vec![ctrl(KeyCode::Char('a')), plain(KeyCode::Up), alt(KeyCode::Left)]
    );
}

#[test]
fn parsing_keeps_the_first_of_repeated_keys() {
    let spec = KeybindingsSpec::Many(vec![
        KeybindingSpec("ctrl-]".to_string()),
        KeybindingSpec("ctrl-5".to_string()),
        KeybindingSpec("f2".to_string()),
        KeybindingSpec("ctrl-x enter".to_string()),
    ]);
    assert_eq!(
        parse_bindings(&spec, "tui.keymap.chat.skip_question"),
        Ok(vec![ctrl(KeyCode::Char(']')), plain(KeyCode::F(2))])
    );
    let bad = KeybindingsSpec::Many(vec![KeybindingSpec("f2".to_string()), KeybindingSpec("hyper-x".to_string())]);
    assert_eq!(
        parse_bindings(&bad, "tui.keymap.chat.skip_question"),
        Err("Invalid `tui.keymap.chat.skip_question` = `hyper-x`. Use values like `ctrl-a`, `shift-enter`, or `page-down`. See the Codex keymap documentation for supported actions and examples.".to_string())
    );
}

#[test]
fn defaults_are_the_built_in_keymap() {
    let defaults = RuntimeKeymap::defaults();
    let built_in = built_in_defaults();
    assert_eq!(defaults.app.open_agents, built_in.app.open_agents);
    assert_eq!(defaults.vim_normal.undo, built_in.vim_normal.undo);
    assert_eq!(defaults.list.page_down, built_in.list.page_down);
    assert_eq!(defaults.vim_search.next, vec![plain(KeyCode::Char('n'))]);
}

#[test]
fn agents_overview_can_be_remapped_and_rejects_conflicts() {
    let mut keymap = TuiKeymap::default();
    keymap.global.open_agents = Some(one("f12"));
    keymap.agents.search = Some(one("f6"));
    keymap.agents.new_task = Some(one("f7"));
    keymap.agents.resume = Some(one("f5"));
    keymap.agents.rename = Some(one("f9"));
    keymap.agents.stop = Some(one("f10"));
    keymap.agents.toggle_grouping = Some(one("f8"));

    let runtime = RuntimeKeymap::from_config(&keymap).expect("runtime keymap");
    assert_eq!(
        (
            runtime.app.open_agents,
            runtime.agents.search,
            runtime.agents.new_task,
            runtime.agents.resume,
            runtime.agents.rename,
            runtime.agents.stop,
            runtime.agents.toggle_grouping,
        ),
        (
            vec![plain(KeyCode::F(12))],
            vec![plain(KeyCode::F(6))],
            vec![plain(KeyCode::F(7))],
            vec![plain(KeyCode::F(5))],
            vec![plain(KeyCode::F(9))],
            vec![plain(KeyCode::F(10))],
            vec![plain(KeyCode::F(8))],
        )
    );

    keymap.agents.resume = Some(one("f6"));
    expect_conflict(&keymap, "resume", "search");
    keymap.agents.resume = Some(one("f5"));

    keymap.agents.toggle_grouping = Some(one("right"));
    let runtime = RuntimeKeymap::from_config(&keymap).expect("runtime keymap");
    assert!(runtime.list.move_right.contains(&plain(KeyCode::Right)));
    keymap.agents.toggle_grouping = Some(one("f8"));

    keymap.agents.stop = Some(one("f9"));
    expect_conflict(&keymap, "rename", "stop");

    keymap.agents.stop = Some(one("f10"));
    keymap.global.open_agents = Some(one("ctrl-t"));
    expect_conflict(&keymap, "open_agents", "open_transcript");

    keymap.global.open_agents = Some(one("f12"));
    keymap.agents.stop = Some(one("ctrl-c"));
    expect_conflict(&keymap, "stop", "fixed.interrupt_or_quit");

    keymap.agents.stop = Some(one("ctrl-z"));
    assert!(RuntimeKeymap::from_config(&keymap).unwrap_err().contains("suspend"));
    keymap.agents.stop = Some(one("f10"));
    keymap.global.open_agents = Some(one("ctrl-z"));
    assert!(RuntimeKeymap::from_config(&keymap).unwrap_err().contains("suspend"));
    keymap.global.open_agents = Some(one("f12"));

    keymap.agents.stop = Some(one("f10"));
    keymap.agents.search = Some(one("right"));
    let runtime = RuntimeKeymap::from_config(&keymap).expect("dashboard shortcuts take priority");
    assert_eq!(runtime.agents.search, vec![plain(KeyCode::Right)]);
    assert_eq!(runtime.list.move_right, RuntimeKeymap::defaults().list.move_right);

    keymap.agents.search = None;
    keymap.agents.rename = None;
    keymap.list.move_right = Some(one("ctrl-r"));
    let runtime = RuntimeKeymap::from_config(&keymap).expect("list shortcut remains usable");
    assert_eq!(runtime.agents.rename, vec![ctrl(KeyCode::Char('r'))]);

    keymap.agents.search = Some(one("s"));
    assert!(RuntimeKeymap::from_config(&keymap)
        .expect_err("printable shortcut is reserved for input")
        .contains("printable keys"));

    keymap.agents.search = None;
    keymap.agents.stop = Some(one("backspace"));
    assert!(RuntimeKeymap::from_config(&keymap)
        .expect_err("backspace is reserved for task input")
        .contains("backspace"));
}
