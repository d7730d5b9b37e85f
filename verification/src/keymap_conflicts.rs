//! The conflict rules of the runtime keymap: within one input path a key may
//! trigger one action only, fixed shortcuts keep their keys, and keys that
//! type text stay with text input.

use vstd::prelude::*;
use crate::keys::{
    KeyBinding, KeyCode, KeyEvent, KeyEventKind, KeyModifiers, altgr, alt, binding_of, ctrl, ctrl_alt,
    is_altgr, is_plain_text_key_event, no_modifiers, plain, plain_text_event, shift,
};
use crate::bindings::contains_binding;
use crate::keymap::{KeymapView, RuntimeKeymap};
use crate::text::{join3, owned};
use crate::validation::{
    allowed_view, check_matches, overlay_spec, pairs_view, reserved_spec, reserved_view, shadow_spec,
    unique_spec, validate_approval_overlay, validate_no_reserved, validate_no_shadow_with_allowed_overlaps,
    validate_unique,
};

verus! {

/// Whether a key types text (a character with no modifier or Shift only) or
/// is an AltGr character.
pub open spec fn types_text(b: KeyBinding) -> bool {
    plain_text_event(KeyEvent { code: b.key, modifiers: b.modifiers, kind: KeyEventKind::Press }) || (
    b.key is Char && altgr(b.modifiers))
}

/// Whether a key is reserved for the task input of the agents dashboard:
/// a character with no modifier, Shift only or AltGr, or a plain Backspace.
pub open spec fn types_task_input(b: KeyBinding) -> bool {
    (b.key is Char && (b.modifiers == no_modifiers() || b.modifiers == KeyModifiers {
        shift: true,
        ..no_modifiers()
    } || altgr(b.modifiers))) || (b.key == KeyCode::Backspace && b.modifiers == no_modifiers())
}

/// Whether a key is an AltGr character.
pub open spec fn is_altgr_char(b: KeyBinding) -> bool {
    b.key is Char && altgr(b.modifiers)
}

pub open spec fn has_text_key(s: Seq<KeyBinding>) -> bool {
    exists|i: int| 0 <= i < s.len() && types_text(#[trigger] s[i])
}

pub open spec fn has_task_input_key(s: Seq<KeyBinding>) -> bool {
    exists|i: int| 0 <= i < s.len() && types_task_input(#[trigger] s[i])
}

pub open spec fn has_altgr_char(s: Seq<KeyBinding>) -> bool {
    exists|i: int| 0 <= i < s.len() && is_altgr_char(#[trigger] s[i])
}

fn any_text_key(bindings: &[KeyBinding]) -> (r: bool)
    ensures
        r == has_text_key(bindings@),
{
    let mut i: usize = 0;
    while i < bindings.len()
        invariant
            0 <= i <= bindings@.len(),
            forall|j: int| 0 <= j < i ==> !types_text(#[trigger] bindings@[j]),
        decreases bindings@.len() - i,
    {
        let b = bindings[i];
        let event = KeyEvent { code: b.key, modifiers: b.modifiers, kind: KeyEventKind::Press };
        let is_char = matches!(b.key, KeyCode::Char(_));
        if is_plain_text_key_event(event) || (is_char && is_altgr(b.modifiers)) {
            return true;
        }
        i = i + 1;
    }
    false
}

fn any_task_input_key(bindings: &[KeyBinding]) -> (r: bool)
    ensures
        r == has_task_input_key(bindings@),
{
    let mut i: usize = 0;
    while i < bindings.len()
        invariant
            0 <= i <= bindings@.len(),
            forall|j: int| 0 <= j < i ==> !types_task_input(#[trigger] bindings@[j]),
        decreases bindings@.len() - i,
    {
        let b = bindings[i];
        let reserved = match b.key {
            KeyCode::Char(_) => b.modifiers.is_empty() || b.modifiers == KeyModifiers::shift_only()
                || is_altgr(b.modifiers),
            KeyCode::Backspace => b.modifiers.is_empty(),
            _ => false,
        };
        if reserved {
            return true;
        }
        i = i + 1;
    }
    false
}

fn any_altgr_char(bindings: &[KeyBinding]) -> (r: bool)
    ensures
        r == has_altgr_char(bindings@),
{
    let mut i: usize = 0;
    while i < bindings.len()
        invariant
            0 <= i <= bindings@.len(),
            forall|j: int| 0 <= j < i ==> !is_altgr_char(#[trigger] bindings@[j]),
        decreases bindings@.len() - i,
    {
        let b = bindings[i];
        if matches!(b.key, KeyCode::Char(_)) && is_altgr(b.modifiers) {
            return true;
        }
        i = i + 1;
    }
    false
}

/// Chat shortcuts that would swallow typed text are refused.
pub open spec fn chat_text_check(action: Seq<char>, s: Seq<KeyBinding>) -> Result<(), Seq<char>> {
    if has_text_key(s) {
        Err("tui.keymap.chat."@ + action + ": printable keys are reserved for text input"@)
    } else {
        Ok(())
    }
}

fn check_chat_text(action: &str, bindings: &[KeyBinding]) -> (r: Result<(), String>)
    ensures
        check_matches(r, chat_text_check(action@, bindings@)),
{
    if any_text_key(bindings) {
        Err(join3("tui.keymap.chat.", action, ": printable keys are reserved for text input"))
    } else {
        Ok(())
    }
}

/// The agents overview keeps clear of the suspend key and of AltGr characters.
pub open spec fn open_agents_check(s: Seq<KeyBinding>) -> Result<(), Seq<char>> {
    if s.contains(binding_of(KeyCode::Char('z'), KeyModifiers { control: true, ..no_modifiers() })) {
        Err("tui.keymap.global.open_agents: ctrl-z is reserved for suspend"@)
    } else if has_altgr_char(s) {
        Err("tui.keymap.global.open_agents: AltGr characters are reserved for text input"@)
    } else {
        Ok(())
    }
}

fn check_open_agents(bindings: &[KeyBinding]) -> (r: Result<(), String>)
    ensures
        check_matches(r, open_agents_check(bindings@)),
{
    if contains_binding(bindings, ctrl(KeyCode::Char('z'))) {
        Err(owned("tui.keymap.global.open_agents: ctrl-z is reserved for suspend"))
    } else if any_altgr_char(bindings) {
        Err(owned("tui.keymap.global.open_agents: AltGr characters are reserved for text input"))
    } else {
        Ok(())
    }
}

/// Agents dashboard actions keep clear of the suspend key and of the keys
/// that type into the task input.
pub open spec fn agents_action_check(action: Seq<char>, s: Seq<KeyBinding>) -> Result<(), Seq<char>> {
    if s.contains(binding_of(KeyCode::Char('z'), KeyModifiers { control: true, ..no_modifiers() })) {
        Err("tui.keymap.agents."@ + action + ": ctrl-z is reserved for suspend"@)
    } else if has_task_input_key(s) {
        Err("tui.keymap.agents."@ + action + ": printable keys and backspace are reserved for task input"@)
    } else {
        Ok(())
    }
}

fn check_agents_action(action: &str, bindings: &[KeyBinding]) -> (r: Result<(), String>)
    ensures
        check_matches(r, agents_action_check(action@, bindings@)),
{
    if contains_binding(bindings, ctrl(KeyCode::Char('z'))) {
        Err(join3("tui.keymap.agents.", action, ": ctrl-z is reserved for suspend"))
    } else if any_task_input_key(bindings) {
        Err(join3("tui.keymap.agents.", action, ": printable keys and backspace are reserved for task input"))
    } else {
        Ok(())
    }
}

/// The keys of the side-conversation toggle as the conflict rules see them:
/// terminals that report `ctrl-/` as `ctrl-7` make the two one key.
pub open spec fn side_toggle_keys(s: Seq<KeyBinding>) -> Seq<KeyBinding> {
    if s.contains(binding_of(KeyCode::Char('/'), KeyModifiers { control: true, ..no_modifiers() })) && !s.contains(binding_of(KeyCode::Char('7'), KeyModifiers { control: true, ..no_modifiers() })) {
        s.push(binding_of(KeyCode::Char('7'), KeyModifiers { control: true, ..no_modifiers() }))
    } else {
        s
    }
}

fn side_toggle_bindings(bindings: &Vec<KeyBinding>) -> (r: Vec<KeyBinding>)
    ensures
        r@ == side_toggle_keys(bindings@),
{
    let mut r: Vec<KeyBinding> = Vec::new();
    let mut i: usize = 0;
    while i < bindings.len()
        invariant
            0 <= i <= bindings@.len(),
            r@ == bindings@.take(i as int),
        decreases bindings@.len() - i,
    {
        r.push(bindings[i]);
        proof {
            assert(bindings@.take(i as int).push(bindings@[i as int]) =~= bindings@.take(i + 1));
        }
        i = i + 1;
    }
    proof {
        assert(bindings@.take(bindings@.len() as int) =~= bindings@);
    }
    if contains_binding(bindings.as_slice(), ctrl(KeyCode::Char('/'))) && !contains_binding(bindings.as_slice(), ctrl(KeyCode::Char('7'))) {
        r.push(ctrl(KeyCode::Char('7')));
    }
    r
}

/// Fixed main-surface shortcuts and the keys they own.
pub open spec fn main_reserved() -> Seq<(Seq<char>, KeyBinding)> {
    seq![
        ("fixed.interrupt_or_quit"@, binding_of(KeyCode::Char('c'), KeyModifiers { control: true, ..no_modifiers() })),
        ("fixed.quit"@, binding_of(KeyCode::Char('d'), KeyModifiers { control: true, ..no_modifiers() })),
        ("fixed.paste_image"@, binding_of(KeyCode::Char('v'), KeyModifiers { control: true, ..no_modifiers() })),
        ("fixed.paste_image"@, binding_of(KeyCode::Char('v'), KeyModifiers { control: true, alt: true, ..no_modifiers() })),
        ("fixed.cycle_collaboration_mode"@, binding_of(KeyCode::Tab, KeyModifiers { shift: true, ..no_modifiers() })),
        ("fixed.backtrack"@, binding_of(KeyCode::Esc, no_modifiers())),
        ("fixed.previous_agent"@, binding_of(KeyCode::Left, KeyModifiers { alt: true, ..no_modifiers() })),
        ("fixed.next_agent"@, binding_of(KeyCode::Right, KeyModifiers { alt: true, ..no_modifiers() })),
        ("fixed.slash_command"@, binding_of(KeyCode::Char('/'), no_modifiers())),
        ("fixed.shell_command"@, binding_of(KeyCode::Char('!'), no_modifiers())),
        ("fixed.file_paths"@, binding_of(KeyCode::Char('@'), no_modifiers())),
        ("fixed.connector_mentions"@, binding_of(KeyCode::Char('$'), no_modifiers())),
    ]
}

/// Fixed transcript shortcuts for editing a previous message.
pub open spec fn transcript_backtrack_reserved() -> Seq<(Seq<char>, KeyBinding)> {
    seq![
        ("fixed.transcript_edit_previous"@, binding_of(KeyCode::Esc, no_modifiers())),
        ("fixed.transcript_edit_previous"@, binding_of(KeyCode::Left, no_modifiers())),
        ("fixed.transcript_edit_next"@, binding_of(KeyCode::Right, no_modifiers())),
        ("fixed.transcript_confirm_edit"@, binding_of(KeyCode::Enter, no_modifiers())),
    ]
}

/// Keys that main-surface handlers own outright, with the fixed action
/// reported when a configured key collides with one of them.
pub fn main_reserved_bindings() -> (r: [(&'static str, KeyBinding); 12])
    ensures
        reserved_view(r@) == main_reserved(),
{
    let r = [
        ("fixed.interrupt_or_quit", ctrl(KeyCode::Char('c'))),
        ("fixed.quit", ctrl(KeyCode::Char('d'))),
        ("fixed.paste_image", ctrl(KeyCode::Char('v'))),
        ("fixed.paste_image", ctrl_alt(KeyCode::Char('v'))),
        ("fixed.cycle_collaboration_mode", shift(KeyCode::Tab)),
        ("fixed.backtrack", plain(KeyCode::Esc)),
        ("fixed.previous_agent", alt(KeyCode::Left)),
        ("fixed.next_agent", alt(KeyCode::Right)),
        ("fixed.slash_command", plain(KeyCode::Char('/'))),
        ("fixed.shell_command", plain(KeyCode::Char('!'))),
        ("fixed.file_paths", plain(KeyCode::Char('@'))),
        ("fixed.connector_mentions", plain(KeyCode::Char('$'))),
    ];
    proof {
        assert(reserved_view(r@) =~= main_reserved());
    }
    r
}

/// Keys the transcript pager keeps for editing a previous message.
pub fn transcript_backtrack_reserved_bindings() -> (r: [(&'static str, KeyBinding); 4])
    ensures
        reserved_view(r@) == transcript_backtrack_reserved(),
{
    let r = [
        ("fixed.transcript_edit_previous", plain(KeyCode::Esc)),
        ("fixed.transcript_edit_previous", plain(KeyCode::Left)),
        ("fixed.transcript_edit_next", plain(KeyCode::Right)),
        ("fixed.transcript_confirm_edit", plain(KeyCode::Enter)),
    ];
    proof {
        assert(reserved_view(r@) =~= transcript_backtrack_reserved());
    }
    r
}

/// Main-surface actions, evaluated together before input reaches the composer.
pub open spec fn main_pairs(m: KeymapView, side: Seq<KeyBinding>) -> Seq<(Seq<char>, Seq<KeyBinding>)> {
    seq![
        ("open_agents"@, m.app.open_agents),
        ("open_transcript"@, m.app.open_transcript),
        ("open_external_editor"@, m.app.open_external_editor),
        ("copy"@, m.app.copy),
        ("clear_terminal"@, m.app.clear_terminal),
        ("toggle_vim_mode"@, m.app.toggle_vim_mode),
        ("toggle_fast_mode"@, m.app.toggle_fast_mode),
        ("toggle_raw_output"@, m.app.toggle_raw_output),
        ("toggle_side_conversation"@, side),
        ("chat.interrupt_turn"@, m.chat.interrupt_turn),
        ("chat.decrease_reasoning_effort"@, m.chat.decrease_reasoning_effort),
        ("chat.increase_reasoning_effort"@, m.chat.increase_reasoning_effort),
        ("chat.previous_permission_mode"@, m.chat.previous_permission_mode),
        ("chat.next_permission_mode"@, m.chat.next_permission_mode),
        ("chat.edit_queued_message"@, m.chat.edit_queued_message),
        ("chat.prompt_stack_back"@, m.chat.prompt_stack_back),
        ("chat.skip_question"@, m.chat.skip_question),
        ("composer.submit"@, m.composer.submit),
        ("composer.queue"@, m.composer.queue),
        ("composer.toggle_shortcuts"@, m.composer.toggle_shortcuts),
        ("composer.history_search_previous"@, m.composer.history_search_previous),
        ("composer.history_search_next"@, m.composer.history_search_next),
    ]
}

/// Main-surface actions handled before overlays see input.
pub open spec fn app_pairs(m: KeymapView, side: Seq<KeyBinding>) -> Seq<(Seq<char>, Seq<KeyBinding>)> {
    seq![
        ("open_agents"@, m.app.open_agents),
        ("open_transcript"@, m.app.open_transcript),
        ("open_external_editor"@, m.app.open_external_editor),
        ("copy"@, m.app.copy),
        ("clear_terminal"@, m.app.clear_terminal),
        ("toggle_vim_mode"@, m.app.toggle_vim_mode),
        ("toggle_fast_mode"@, m.app.toggle_fast_mode),
        ("toggle_raw_output"@, m.app.toggle_raw_output),
        ("toggle_side_conversation"@, side),
    ]
}

/// List and approval actions of the approval overlay.
pub open spec fn approval_overlay_pairs(m: KeymapView) -> Seq<(Seq<char>, Seq<KeyBinding>)> {
    seq![
        ("list.move_up"@, m.list.move_up),
        ("list.move_down"@, m.list.move_down),
        ("list.move_left"@, m.list.move_left),
        ("list.move_right"@, m.list.move_right),
        ("list.page_up"@, m.list.page_up),
        ("list.page_down"@, m.list.page_down),
        ("list.jump_top"@, m.list.jump_top),
        ("list.jump_bottom"@, m.list.jump_bottom),
        ("list.accept"@, m.list.accept),
        ("list.cancel"@, m.list.cancel),
        ("approval.open_fullscreen"@, m.approval.open_fullscreen),
        ("approval.open_thread"@, m.approval.open_thread),
        ("approval.approve"@, m.approval.approve),
        ("approval.approve_for_session"@, m.approval.approve_for_session),
        ("approval.approve_for_prefix"@, m.approval.approve_for_prefix),
        ("approval.deny"@, m.approval.deny),
        ("approval.decline"@, m.approval.decline),
        ("approval.cancel"@, m.approval.cancel),
    ]
}

/// Main-surface handlers that consume keys before the textarea editor.
pub open spec fn main_editor_shadowing_pairs(m: KeymapView, side: Seq<KeyBinding>) -> Seq<(Seq<char>, Seq<KeyBinding>)> {
    seq![
        ("open_agents"@, m.app.open_agents),
        ("open_transcript"@, m.app.open_transcript),
        ("open_external_editor"@, m.app.open_external_editor),
        ("copy"@, m.app.copy),
        ("clear_terminal"@, m.app.clear_terminal),
        ("chat.interrupt_turn"@, m.chat.interrupt_turn),
        ("chat.decrease_reasoning_effort"@, m.chat.decrease_reasoning_effort),
        ("chat.increase_reasoning_effort"@, m.chat.increase_reasoning_effort),
        ("chat.previous_permission_mode"@, m.chat.previous_permission_mode),
        ("chat.next_permission_mode"@, m.chat.next_permission_mode),
        ("chat.prompt_stack_back"@, m.chat.prompt_stack_back),
        ("chat.skip_question"@, m.chat.skip_question),
        ("composer.submit"@, m.composer.submit),
        ("toggle_vim_mode"@, m.app.toggle_vim_mode),
        ("toggle_fast_mode"@, m.app.toggle_fast_mode),
        ("toggle_raw_output"@, m.app.toggle_raw_output),
        ("toggle_side_conversation"@, side),
        ("composer.history_search_previous"@, m.composer.history_search_previous),
    ]
}

/// Textarea editor actions.
pub open spec fn editor_qualified_pairs(m: KeymapView) -> Seq<(Seq<char>, Seq<KeyBinding>)> {
    seq![
        ("editor.insert_newline"@, m.editor.insert_newline),
        ("editor.move_left"@, m.editor.move_left),
        ("editor.move_right"@, m.editor.move_right),
        ("editor.move_up"@, m.editor.move_up),
        ("editor.move_down"@, m.editor.move_down),
        ("editor.move_word_left"@, m.editor.move_word_left),
        ("editor.move_word_right"@, m.editor.move_word_right),
        ("editor.move_line_start"@, m.editor.move_line_start),
        ("editor.move_line_end"@, m.editor.move_line_end),
        ("editor.delete_backward"@, m.editor.delete_backward),
        ("editor.delete_forward"@, m.editor.delete_forward),
        ("editor.delete_backward_word"@, m.editor.delete_backward_word),
        ("editor.delete_forward_word"@, m.editor.delete_forward_word),
        ("editor.kill_line_start"@, m.editor.kill_line_start),
        ("editor.kill_whole_line"@, m.editor.kill_whole_line),
        ("editor.kill_line_end"@, m.editor.kill_line_end),
        ("editor.yank"@, m.editor.yank),
    ]
}

/// Vim normal-mode and search actions, active together.
pub open spec fn vim_search_normal_pairs(m: KeymapView) -> Seq<(Seq<char>, Seq<KeyBinding>)> {
    seq![
        ("vim_normal.enter_insert"@, m.vim_normal.enter_insert),
        ("vim_normal.append_after_cursor"@, m.vim_normal.append_after_cursor),
        ("vim_normal.append_line_end"@, m.vim_normal.append_line_end),
        ("vim_normal.insert_line_start"@, m.vim_normal.insert_line_start),
        ("vim_normal.open_line_below"@, m.vim_normal.open_line_below),
        ("vim_normal.open_line_above"@, m.vim_normal.open_line_above),
        ("vim_normal.enter_replace_mode"@, m.vim_normal.enter_replace_mode),
        ("vim_normal.move_left"@, m.vim_normal.move_left),
        ("vim_normal.move_right"@, m.vim_normal.move_right),
        ("vim_normal.move_up"@, m.vim_normal.move_up),
        ("vim_normal.move_down"@, m.vim_normal.move_down),
        ("vim_normal.move_word_forward"@, m.vim_normal.move_word_forward),
        ("vim_normal.move_word_backward"@, m.vim_normal.move_word_backward),
        ("vim_normal.move_word_end"@, m.vim_normal.move_word_end),
        ("vim_normal.move_line_start"@, m.vim_normal.move_line_start),
        ("vim_normal.move_line_end"@, m.vim_normal.move_line_end),
        ("vim_normal.find_forward"@, m.vim_normal.find_forward),
        ("vim_normal.find_backward"@, m.vim_normal.find_backward),
        ("vim_normal.till_forward"@, m.vim_normal.till_forward),
        ("vim_normal.till_backward"@, m.vim_normal.till_backward),
        ("vim_normal.jump_top"@, m.vim_normal.jump_top),
        ("vim_normal.jump_bottom"@, m.vim_normal.jump_bottom),
        ("vim_normal.delete_char"@, m.vim_normal.delete_char),
        ("vim_normal.replace_char"@, m.vim_normal.replace_char),
        ("vim_normal.repeat_last_change"@, m.vim_normal.repeat_last_change),
        ("vim_normal.substitute_char"@, m.vim_normal.substitute_char),
        ("vim_normal.delete_to_line_end"@, m.vim_normal.delete_to_line_end),
        ("vim_normal.change_to_line_end"@, m.vim_normal.change_to_line_end),
        ("vim_normal.yank_line"@, m.vim_normal.yank_line),
        ("vim_normal.paste_after"@, m.vim_normal.paste_after),
        ("vim_normal.start_delete_operator"@, m.vim_normal.start_delete_operator),
        ("vim_normal.start_yank_operator"@, m.vim_normal.start_yank_operator),
        ("vim_normal.start_change_operator"@, m.vim_normal.start_change_operator),
        ("vim_normal.undo"@, m.vim_normal.undo),
        ("vim_normal.redo"@, m.vim_normal.redo),
        ("vim_normal.cancel_operator"@, m.vim_normal.cancel_operator),
        ("vim_search.forward"@, m.vim_search.forward),
        ("vim_search.backward"@, m.vim_search.backward),
        ("vim_search.next"@, m.vim_search.next),
        ("vim_search.previous"@, m.vim_search.previous),
    ]
}

/// Vim operator-pending and search actions, active together.
pub open spec fn vim_search_operator_pairs(m: KeymapView) -> Seq<(Seq<char>, Seq<KeyBinding>)> {
    seq![
        ("vim_operator.delete_line"@, m.vim_operator.delete_line),
        ("vim_operator.yank_line"@, m.vim_operator.yank_line),
        ("vim_operator.motion_left"@, m.vim_operator.motion_left),
        ("vim_operator.motion_right"@, m.vim_operator.motion_right),
        ("vim_operator.motion_up"@, m.vim_operator.motion_up),
        ("vim_operator.motion_down"@, m.vim_operator.motion_down),
        ("vim_operator.motion_word_forward"@, m.vim_operator.motion_word_forward),
        ("vim_operator.motion_word_backward"@, m.vim_operator.motion_word_backward),
        ("vim_operator.motion_word_end"@, m.vim_operator.motion_word_end),
        ("vim_operator.motion_line_start"@, m.vim_operator.motion_line_start),
        ("vim_operator.motion_line_end"@, m.vim_operator.motion_line_end),
        ("vim_operator.motion_find_forward"@, m.vim_operator.motion_find_forward),
        ("vim_operator.motion_find_backward"@, m.vim_operator.motion_find_backward),
        ("vim_operator.motion_till_forward"@, m.vim_operator.motion_till_forward),
        ("vim_operator.motion_till_backward"@, m.vim_operator.motion_till_backward),
        ("vim_operator.motion_jump_top"@, m.vim_operator.motion_jump_top),
        ("vim_operator.motion_jump_bottom"@, m.vim_operator.motion_jump_bottom),
        ("vim_operator.select_inner_text_object"@, m.vim_operator.select_inner_text_object),
        ("vim_operator.select_around_text_object"@, m.vim_operator.select_around_text_object),
        ("vim_operator.cancel"@, m.vim_operator.cancel),
        ("vim_search.forward"@, m.vim_search.forward),
        ("vim_search.backward"@, m.vim_search.backward),
        ("vim_search.next"@, m.vim_search.next),
        ("vim_search.previous"@, m.vim_search.previous),
    ]
}

/// The editor actions, named within their context.
pub open spec fn editor_pairs(m: KeymapView) -> Seq<(Seq<char>, Seq<KeyBinding>)> {
    seq![
        ("insert_newline"@, m.editor.insert_newline),
        ("move_left"@, m.editor.move_left),
        ("move_right"@, m.editor.move_right),
        ("move_up"@, m.editor.move_up),
        ("move_down"@, m.editor.move_down),
        ("move_word_left"@, m.editor.move_word_left),
        ("move_word_right"@, m.editor.move_word_right),
        ("move_line_start"@, m.editor.move_line_start),
        ("move_line_end"@, m.editor.move_line_end),
        ("delete_backward"@, m.editor.delete_backward),
        ("delete_forward"@, m.editor.delete_forward),
        ("delete_backward_word"@, m.editor.delete_backward_word),
        ("delete_forward_word"@, m.editor.delete_forward_word),
        ("kill_line_start"@, m.editor.kill_line_start),
        ("kill_whole_line"@, m.editor.kill_whole_line),
        ("kill_line_end"@, m.editor.kill_line_end),
        ("yank"@, m.editor.yank),
    ]
}

/// The vim normal actions, named within their context.
pub open spec fn vim_normal_pairs(m: KeymapView) -> Seq<(Seq<char>, Seq<KeyBinding>)> {
    seq![
        ("enter_insert"@, m.vim_normal.enter_insert),
        ("append_after_cursor"@, m.vim_normal.append_after_cursor),
        ("append_line_end"@, m.vim_normal.append_line_end),
        ("insert_line_start"@, m.vim_normal.insert_line_start),
        ("open_line_below"@, m.vim_normal.open_line_below),
        ("open_line_above"@, m.vim_normal.open_line_above),
        ("enter_replace_mode"@, m.vim_normal.enter_replace_mode),
        ("move_left"@, m.vim_normal.move_left),
        ("move_right"@, m.vim_normal.move_right),
        ("move_up"@, m.vim_normal.move_up),
        ("move_down"@, m.vim_normal.move_down),
        ("move_word_forward"@, m.vim_normal.move_word_forward),
        ("move_word_backward"@, m.vim_normal.move_word_backward),
        ("move_word_end"@, m.vim_normal.move_word_end),
        ("move_line_start"@, m.vim_normal.move_line_start),
        ("move_line_end"@, m.vim_normal.move_line_end),
        ("find_forward"@, m.vim_normal.find_forward),
        ("find_backward"@, m.vim_normal.find_backward),
        ("till_forward"@, m.vim_normal.till_forward),
        ("till_backward"@, m.vim_normal.till_backward),
        ("jump_top"@, m.vim_normal.jump_top),
        ("jump_bottom"@, m.vim_normal.jump_bottom),
        ("delete_char"@, m.vim_normal.delete_char),
        ("replace_char"@, m.vim_normal.replace_char),
        ("repeat_last_change"@, m.vim_normal.repeat_last_change),
        ("substitute_char"@, m.vim_normal.substitute_char),
        ("delete_to_line_end"@, m.vim_normal.delete_to_line_end),
        ("change_to_line_end"@, m.vim_normal.change_to_line_end),
        ("yank_line"@, m.vim_normal.yank_line),
        ("paste_after"@, m.vim_normal.paste_after),
        ("start_delete_operator"@, m.vim_normal.start_delete_operator),
        ("start_yank_operator"@, m.vim_normal.start_yank_operator),
        ("start_change_operator"@, m.vim_normal.start_change_operator),
        ("undo"@, m.vim_normal.undo),
        ("redo"@, m.vim_normal.redo),
        ("cancel_operator"@, m.vim_normal.cancel_operator),
    ]
}

/// The vim operator actions, named within their context.
pub open spec fn vim_operator_pairs(m: KeymapView) -> Seq<(Seq<char>, Seq<KeyBinding>)> {
    seq![
        ("delete_line"@, m.vim_operator.delete_line),
        ("yank_line"@, m.vim_operator.yank_line),
        ("motion_left"@, m.vim_operator.motion_left),
        ("motion_right"@, m.vim_operator.motion_right),
        ("motion_up"@, m.vim_operator.motion_up),
        ("motion_down"@, m.vim_operator.motion_down),
        ("motion_word_forward"@, m.vim_operator.motion_word_forward),
        ("motion_word_backward"@, m.vim_operator.motion_word_backward),
        ("motion_word_end"@, m.vim_operator.motion_word_end),
        ("motion_line_start"@, m.vim_operator.motion_line_start),
        ("motion_line_end"@, m.vim_operator.motion_line_end),
        ("motion_find_forward"@, m.vim_operator.motion_find_forward),
        ("motion_find_backward"@, m.vim_operator.motion_find_backward),
        ("motion_till_forward"@, m.vim_operator.motion_till_forward),
        ("motion_till_backward"@, m.vim_operator.motion_till_backward),
        ("motion_jump_top"@, m.vim_operator.motion_jump_top),
        ("motion_jump_bottom"@, m.vim_operator.motion_jump_bottom),
        ("select_inner_text_object"@, m.vim_operator.select_inner_text_object),
        ("select_around_text_object"@, m.vim_operator.select_around_text_object),
        ("cancel"@, m.vim_operator.cancel),
    ]
}

/// The vim text object actions, named within their context.
pub open spec fn vim_text_object_pairs(m: KeymapView) -> Seq<(Seq<char>, Seq<KeyBinding>)> {
    seq![
        ("word"@, m.vim_text_object.word),
        ("big_word"@, m.vim_text_object.big_word),
        ("parentheses"@, m.vim_text_object.parentheses),
        ("brackets"@, m.vim_text_object.brackets),
        ("braces"@, m.vim_text_object.braces),
        ("double_quote"@, m.vim_text_object.double_quote),
        ("single_quote"@, m.vim_text_object.single_quote),
        ("backtick"@, m.vim_text_object.backtick),
        ("cancel"@, m.vim_text_object.cancel),
    ]
}

/// The pager actions, named within their context.
pub open spec fn pager_pairs(m: KeymapView) -> Seq<(Seq<char>, Seq<KeyBinding>)> {
    seq![
        ("scroll_up"@, m.pager.scroll_up),
        ("scroll_down"@, m.pager.scroll_down),
        ("page_up"@, m.pager.page_up),
        ("page_down"@, m.pager.page_down),
        ("half_page_up"@, m.pager.half_page_up),
        ("half_page_down"@, m.pager.half_page_down),
        ("jump_top"@, m.pager.jump_top),
        ("jump_bottom"@, m.pager.jump_bottom),
        ("close"@, m.pager.close),
        ("close_transcript"@, m.pager.close_transcript),
    ]
}

/// The list actions, named within their context.
pub open spec fn list_pairs(m: KeymapView) -> Seq<(Seq<char>, Seq<KeyBinding>)> {
    seq![
        ("move_up"@, m.list.move_up),
        ("move_down"@, m.list.move_down),
        ("move_left"@, m.list.move_left),
        ("move_right"@, m.list.move_right),
        ("page_up"@, m.list.page_up),
        ("page_down"@, m.list.page_down),
        ("jump_top"@, m.list.jump_top),
        ("jump_bottom"@, m.list.jump_bottom),
        ("accept"@, m.list.accept),
        ("cancel"@, m.list.cancel),
    ]
}

/// The agents actions, named within their context.
pub open spec fn agents_pairs(m: KeymapView) -> Seq<(Seq<char>, Seq<KeyBinding>)> {
    seq![
        ("resume"@, m.agents.resume),
        ("search"@, m.agents.search),
        ("new_task"@, m.agents.new_task),
        ("rename"@, m.agents.rename),
        ("stop"@, m.agents.stop),
        ("toggle_grouping"@, m.agents.toggle_grouping),
    ]
}

/// The approval actions, named within their context.
pub open spec fn approval_pairs(m: KeymapView) -> Seq<(Seq<char>, Seq<KeyBinding>)> {
    seq![
        ("open_fullscreen"@, m.approval.open_fullscreen),
        ("open_thread"@, m.approval.open_thread),
        ("approve"@, m.approval.approve),
        ("approve_for_session"@, m.approval.approve_for_session),
        ("approve_for_prefix"@, m.approval.approve_for_prefix),
        ("deny"@, m.approval.deny),
        ("decline"@, m.approval.decline),
        ("cancel"@, m.approval.cancel),
    ]
}

/// Turn interruption, which the request-user-input overlay consumes first.
pub open spec fn interrupt_pairs(m: KeymapView) -> Seq<(Seq<char>, Seq<KeyBinding>)> {
    seq![
        ("chat.interrupt_turn"@, m.chat.interrupt_turn),
    ]
}

/// Question navigation of the request-user-input overlay.
pub open spec fn question_horizontal_pairs(m: KeymapView) -> Seq<(Seq<char>, Seq<KeyBinding>)> {
    seq![
        ("list.move_left"@, m.list.move_left),
        ("list.move_right"@, m.list.move_right),
    ]
}

/// Async question shortcuts, which run before option selection.
pub open spec fn async_question_pairs(m: KeymapView) -> Seq<(Seq<char>, Seq<KeyBinding>)> {
    seq![
        ("chat.prompt_stack_back"@, m.chat.prompt_stack_back),
        ("chat.skip_question"@, m.chat.skip_question),
    ]
}

/// Option selection of async questions.
pub open spec fn question_option_pairs(m: KeymapView) -> Seq<(Seq<char>, Seq<KeyBinding>)> {
    seq![
        ("list.move_up"@, m.list.move_up),
        ("list.move_down"@, m.list.move_down),
        ("list.accept"@, m.list.accept),
    ]
}

/// Vim search keys stay distinct from normal-mode and operator-pending keys.
pub open spec fn vim_search_checks(m: KeymapView) -> Result<(), Seq<char>> {
    let c0 = unique_spec("vim_search"@, vim_search_normal_pairs(m));
    let c1 = unique_spec("vim_search"@, vim_search_operator_pairs(m));
    if c0 is Err {
        c0
    } else if c1 is Err {
        c1
    } else {
        Ok(())
    }
}

/// Shortcuts that would swallow typed text or the suspend key are refused.
pub open spec fn text_input_checks(m: KeymapView) -> Result<(), Seq<char>> {
    let c2 = chat_text_check("previous_permission_mode"@, m.chat.previous_permission_mode);
    let c3 = chat_text_check("next_permission_mode"@, m.chat.next_permission_mode);
    let c4 = chat_text_check("prompt_stack_back"@, m.chat.prompt_stack_back);
    let c5 = chat_text_check("skip_question"@, m.chat.skip_question);
    let c6 = open_agents_check(m.app.open_agents);
    if c2 is Err {
        c2
    } else if c3 is Err {
        c3
    } else if c4 is Err {
        c4
    } else if c5 is Err {
        c5
    } else if c6 is Err {
        c6
    } else {
        Ok(())
    }
}

/// Main-surface keys are distinct and keep clear of fixed shortcuts.
pub open spec fn main_surface_checks(m: KeymapView, side: Seq<KeyBinding>) -> Result<(), Seq<char>> {
    let c7 = unique_spec("app"@, main_pairs(m, side));
    let c8 = reserved_spec("main"@, main_pairs(m, side), main_reserved(), seq![("chat.interrupt_turn"@, "fixed.backtrack"@, binding_of(KeyCode::Esc, no_modifiers()))]);
    let c9 = reserved_spec("main"@, main_pairs(m, side), seq![("fixed.prompt_stash"@, binding_of(KeyCode::Char('s'), KeyModifiers { control: true, ..no_modifiers() }))], seq![("composer.history_search_next"@, "fixed.prompt_stash"@, binding_of(KeyCode::Char('s'), KeyModifiers { control: true, ..no_modifiers() }))]);
    if c7 is Err {
        c7
    } else if c8 is Err {
        c8
    } else if c9 is Err {
        c9
    } else {
        Ok(())
    }
}

/// Handlers that run first do not swallow keys of the handlers behind them.
pub open spec fn shadowing_checks(m: KeymapView, side: Seq<KeyBinding>) -> Result<(), Seq<char>> {
    let c10 = shadow_spec("app"@, app_pairs(m, side), approval_overlay_pairs(m), seq![("clear_terminal"@, "list.move_right"@, binding_of(KeyCode::Char('l'), KeyModifiers { control: true, ..no_modifiers() }))]);
    let c11 = shadow_spec("request_user_input"@, interrupt_pairs(m), question_horizontal_pairs(m), Seq::empty());
    let c12 = shadow_spec("async_questions"@, async_question_pairs(m), question_option_pairs(m), Seq::empty());
    let c13 = shadow_spec("main"@, main_editor_shadowing_pairs(m, side), editor_qualified_pairs(m), seq![("composer.submit"@, "editor.insert_newline"@, binding_of(KeyCode::Enter, no_modifiers()))]);
    if c10 is Err {
        c10
    } else if c11 is Err {
        c11
    } else if c12 is Err {
        c12
    } else if c13 is Err {
        c13
    } else {
        Ok(())
    }
}

/// Keys are distinct within the editor, Vim, pager and list contexts, and the pager keeps clear of transcript editing keys.
pub open spec fn context_checks(m: KeymapView) -> Result<(), Seq<char>> {
    let c14 = unique_spec("editor"@, editor_pairs(m));
    let c15 = unique_spec("vim_normal"@, vim_normal_pairs(m));
    let c16 = unique_spec("vim_operator"@, vim_operator_pairs(m));
    let c17 = unique_spec("vim_text_object"@, vim_text_object_pairs(m));
    let c18 = unique_spec("pager"@, pager_pairs(m));
    let c19 = reserved_spec("pager"@, pager_pairs(m), transcript_backtrack_reserved(), Seq::empty());
    let c20 = unique_spec("list"@, list_pairs(m));
    if c14 is Err {
        c14
    } else if c15 is Err {
        c15
    } else if c16 is Err {
        c16
    } else if c17 is Err {
        c17
    } else if c18 is Err {
        c18
    } else if c19 is Err {
        c19
    } else if c20 is Err {
        c20
    } else {
        Ok(())
    }
}

/// Agents dashboard keys are distinct and keep clear of fixed shortcuts, suspend and task input.
pub open spec fn agents_checks(m: KeymapView) -> Result<(), Seq<char>> {
    let c21 = unique_spec("agents"@, agents_pairs(m));
    let c22 = reserved_spec("agents"@, agents_pairs(m), main_reserved(), Seq::empty());
    let c23 = agents_action_check("resume"@, m.agents.resume);
    let c24 = agents_action_check("search"@, m.agents.search);
    let c25 = agents_action_check("new_task"@, m.agents.new_task);
    let c26 = agents_action_check("rename"@, m.agents.rename);
    let c27 = agents_action_check("stop"@, m.agents.stop);
    let c28 = agents_action_check("toggle_grouping"@, m.agents.toggle_grouping);
    if c21 is Err {
        c21
    } else if c22 is Err {
        c22
    } else if c23 is Err {
        c23
    } else if c24 is Err {
        c24
    } else if c25 is Err {
        c25
    } else if c26 is Err {
        c26
    } else if c27 is Err {
        c27
    } else if c28 is Err {
        c28
    } else {
        Ok(())
    }
}

/// Approval keys are distinct, also together with list keys in the approval overlay.
pub open spec fn approval_checks(m: KeymapView) -> Result<(), Seq<char>> {
    let c29 = unique_spec("approval"@, approval_pairs(m));
    let c30 = overlay_spec(approval_overlay_pairs(m));
    if c29 is Err {
        c29
    } else if c30 is Err {
        c30
    } else {
        Ok(())
    }
}

/// The outcome of every conflict rule, in the order they are checked: the
/// first rule broken gives the error.
pub open spec fn keymap_checks(m: KeymapView) -> Result<(), Seq<char>> {
    let side = side_toggle_keys(m.app.toggle_side_conversation);
    let g0 = vim_search_checks(m);
    let g1 = text_input_checks(m);
    let g2 = main_surface_checks(m, side);
    let g3 = shadowing_checks(m, side);
    let g4 = context_checks(m);
    let g5 = agents_checks(m);
    let g6 = approval_checks(m);
    if g0 is Err {
        g0
    } else if g1 is Err {
        g1
    } else if g2 is Err {
        g2
    } else if g3 is Err {
        g3
    } else if g4 is Err {
        g4
    } else if g5 is Err {
        g5
    } else if g6 is Err {
        g6
    } else {
        Ok(())
    }
}

impl RuntimeKeymap {
    /// Vim search keys stay distinct from normal-mode and operator-pending keys.
    fn check_vim_search(&self) -> (r: Result<(), String>)
        ensures
            check_matches(r, vim_search_checks(self@)),
    {
        let pairs = [
            ("vim_normal.enter_insert", self.vim_normal.enter_insert.as_slice()),
            ("vim_normal.append_after_cursor", self.vim_normal.append_after_cursor.as_slice()),
            ("vim_normal.append_line_end", self.vim_normal.append_line_end.as_slice()),
            ("vim_normal.insert_line_start", self.vim_normal.insert_line_start.as_slice()),
            ("vim_normal.open_line_below", self.vim_normal.open_line_below.as_slice()),
            ("vim_normal.open_line_above", self.vim_normal.open_line_above.as_slice()),
            ("vim_normal.enter_replace_mode", self.vim_normal.enter_replace_mode.as_slice()),
            ("vim_normal.move_left", self.vim_normal.move_left.as_slice()),
            ("vim_normal.move_right", self.vim_normal.move_right.as_slice()),
            ("vim_normal.move_up", self.vim_normal.move_up.as_slice()),
            ("vim_normal.move_down", self.vim_normal.move_down.as_slice()),
            ("vim_normal.move_word_forward", self.vim_normal.move_word_forward.as_slice()),
            ("vim_normal.move_word_backward", self.vim_normal.move_word_backward.as_slice()),
            ("vim_normal.move_word_end", self.vim_normal.move_word_end.as_slice()),
            ("vim_normal.move_line_start", self.vim_normal.move_line_start.as_slice()),
            ("vim_normal.move_line_end", self.vim_normal.move_line_end.as_slice()),
            ("vim_normal.find_forward", self.vim_normal.find_forward.as_slice()),
            ("vim_normal.find_backward", self.vim_normal.find_backward.as_slice()),
            ("vim_normal.till_forward", self.vim_normal.till_forward.as_slice()),
            ("vim_normal.till_backward", self.vim_normal.till_backward.as_slice()),
            ("vim_normal.jump_top", self.vim_normal.jump_top.as_slice()),
            ("vim_normal.jump_bottom", self.vim_normal.jump_bottom.as_slice()),
            ("vim_normal.delete_char", self.vim_normal.delete_char.as_slice()),
            ("vim_normal.replace_char", self.vim_normal.replace_char.as_slice()),
            ("vim_normal.repeat_last_change", self.vim_normal.repeat_last_change.as_slice()),
            ("vim_normal.substitute_char", self.vim_normal.substitute_char.as_slice()),
            ("vim_normal.delete_to_line_end", self.vim_normal.delete_to_line_end.as_slice()),
            ("vim_normal.change_to_line_end", self.vim_normal.change_to_line_end.as_slice()),
            ("vim_normal.yank_line", self.vim_normal.yank_line.as_slice()),
            ("vim_normal.paste_after", self.vim_normal.paste_after.as_slice()),
            ("vim_normal.start_delete_operator", self.vim_normal.start_delete_operator.as_slice()),
            ("vim_normal.start_yank_operator", self.vim_normal.start_yank_operator.as_slice()),
            ("vim_normal.start_change_operator", self.vim_normal.start_change_operator.as_slice()),
            ("vim_normal.undo", self.vim_normal.undo.as_slice()),
            ("vim_normal.redo", self.vim_normal.redo.as_slice()),
            ("vim_normal.cancel_operator", self.vim_normal.cancel_operator.as_slice()),
            ("vim_search.forward", self.vim_search.forward.as_slice()),
            ("vim_search.backward", self.vim_search.backward.as_slice()),
            ("vim_search.next", self.vim_search.next.as_slice()),
            ("vim_search.previous", self.vim_search.previous.as_slice()),
        ];
        proof {
            assert(pairs_view(pairs@) =~= vim_search_normal_pairs(self@));
        }
        validate_unique("vim_search", &pairs)?;
        let pairs = [
            ("vim_operator.delete_line", self.vim_operator.delete_line.as_slice()),
            ("vim_operator.yank_line", self.vim_operator.yank_line.as_slice()),
            ("vim_operator.motion_left", self.vim_operator.motion_left.as_slice()),
            ("vim_operator.motion_right", self.vim_operator.motion_right.as_slice()),
            ("vim_operator.motion_up", self.vim_operator.motion_up.as_slice()),
            ("vim_operator.motion_down", self.vim_operator.motion_down.as_slice()),
            ("vim_operator.motion_word_forward", self.vim_operator.motion_word_forward.as_slice()),
            ("vim_operator.motion_word_backward", self.vim_operator.motion_word_backward.as_slice()),
            ("vim_operator.motion_word_end", self.vim_operator.motion_word_end.as_slice()),
            ("vim_operator.motion_line_start", self.vim_operator.motion_line_start.as_slice()),
            ("vim_operator.motion_line_end", self.vim_operator.motion_line_end.as_slice()),
            ("vim_operator.motion_find_forward", self.vim_operator.motion_find_forward.as_slice()),
            ("vim_operator.motion_find_backward", self.vim_operator.motion_find_backward.as_slice()),
            ("vim_operator.motion_till_forward", self.vim_operator.motion_till_forward.as_slice()),
            ("vim_operator.motion_till_backward", self.vim_operator.motion_till_backward.as_slice()),
            ("vim_operator.motion_jump_top", self.vim_operator.motion_jump_top.as_slice()),
            ("vim_operator.motion_jump_bottom", self.vim_operator.motion_jump_bottom.as_slice()),
            ("vim_operator.select_inner_text_object", self.vim_operator.select_inner_text_object.as_slice()),
            ("vim_operator.select_around_text_object", self.vim_operator.select_around_text_object.as_slice()),
            ("vim_operator.cancel", self.vim_operator.cancel.as_slice()),
            ("vim_search.forward", self.vim_search.forward.as_slice()),
            ("vim_search.backward", self.vim_search.backward.as_slice()),
            ("vim_search.next", self.vim_search.next.as_slice()),
            ("vim_search.previous", self.vim_search.previous.as_slice()),
        ];
        proof {
            assert(pairs_view(pairs@) =~= vim_search_operator_pairs(self@));
        }
        validate_unique("vim_search", &pairs)?;
        Ok(())
    }

    /// Shortcuts that would swallow typed text or the suspend key are refused.
    fn check_text_input(&self) -> (r: Result<(), String>)
        ensures
            check_matches(r, text_input_checks(self@)),
    {
        check_chat_text("previous_permission_mode", self.chat.previous_permission_mode.as_slice())?;
        check_chat_text("next_permission_mode", self.chat.next_permission_mode.as_slice())?;
        check_chat_text("prompt_stack_back", self.chat.prompt_stack_back.as_slice())?;
        check_chat_text("skip_question", self.chat.skip_question.as_slice())?;
        check_open_agents(self.app.open_agents.as_slice())?;
        Ok(())
    }

    /// Main-surface keys are distinct and keep clear of fixed shortcuts.
    fn check_main_surface(&self, side: &Vec<KeyBinding>) -> (r: Result<(), String>)
        requires
            side@ == side_toggle_keys(self.app.toggle_side_conversation@),
        ensures
            check_matches(r, main_surface_checks(self@, side@)),
    {
        let main = [
            ("open_agents", self.app.open_agents.as_slice()),
            ("open_transcript", self.app.open_transcript.as_slice()),
            ("open_external_editor", self.app.open_external_editor.as_slice()),
            ("copy", self.app.copy.as_slice()),
            ("clear_terminal", self.app.clear_terminal.as_slice()),
            ("toggle_vim_mode", self.app.toggle_vim_mode.as_slice()),
            ("toggle_fast_mode", self.app.toggle_fast_mode.as_slice()),
            ("toggle_raw_output", self.app.toggle_raw_output.as_slice()),
            ("toggle_side_conversation", side.as_slice()),
            ("chat.interrupt_turn", self.chat.interrupt_turn.as_slice()),
            ("chat.decrease_reasoning_effort", self.chat.decrease_reasoning_effort.as_slice()),
            ("chat.increase_reasoning_effort", self.chat.increase_reasoning_effort.as_slice()),
            ("chat.previous_permission_mode", self.chat.previous_permission_mode.as_slice()),
            ("chat.next_permission_mode", self.chat.next_permission_mode.as_slice()),
            ("chat.edit_queued_message", self.chat.edit_queued_message.as_slice()),
            ("chat.prompt_stack_back", self.chat.prompt_stack_back.as_slice()),
            ("chat.skip_question", self.chat.skip_question.as_slice()),
            ("composer.submit", self.composer.submit.as_slice()),
            ("composer.queue", self.composer.queue.as_slice()),
            ("composer.toggle_shortcuts", self.composer.toggle_shortcuts.as_slice()),
            ("composer.history_search_previous", self.composer.history_search_previous.as_slice()),
            ("composer.history_search_next", self.composer.history_search_next.as_slice()),
        ];
        proof {
            assert(pairs_view(main@) =~= main_pairs(self@, side@));
        }
        validate_unique("app", &main)?;
        let reserved = main_reserved_bindings();
        let allowed = [("chat.interrupt_turn", "fixed.backtrack", plain(KeyCode::Esc))];
        proof {
            assert(allowed_view(allowed@) =~= seq![("chat.interrupt_turn"@, "fixed.backtrack"@, binding_of(KeyCode::Esc, no_modifiers()))]);
        }
        validate_no_reserved("main", &main, &reserved, &allowed)?;
        let reserved = [("fixed.prompt_stash", ctrl(KeyCode::Char('s')))];
        let allowed = [("composer.history_search_next", "fixed.prompt_stash", ctrl(KeyCode::Char('s')))];
        proof {
            assert(reserved_view(reserved@) =~= seq![("fixed.prompt_stash"@, binding_of(KeyCode::Char('s'), KeyModifiers { control: true, ..no_modifiers() }))]);
            assert(allowed_view(allowed@) =~= seq![("composer.history_search_next"@, "fixed.prompt_stash"@, binding_of(KeyCode::Char('s'), KeyModifiers { control: true, ..no_modifiers() }))]);
        }
        validate_no_reserved("main", &main, &reserved, &allowed)?;
        Ok(())
    }

    /// Handlers that run first do not swallow keys of the handlers behind them.
    fn check_shadowing(&self, side: &Vec<KeyBinding>) -> (r: Result<(), String>)
        requires
            side@ == side_toggle_keys(self.app.toggle_side_conversation@),
        ensures
            check_matches(r, shadowing_checks(self@, side@)),
    {
        let app = [
            ("open_agents", self.app.open_agents.as_slice()),
            ("open_transcript", self.app.open_transcript.as_slice()),
            ("open_external_editor", self.app.open_external_editor.as_slice()),
            ("copy", self.app.copy.as_slice()),
            ("clear_terminal", self.app.clear_terminal.as_slice()),
            ("toggle_vim_mode", self.app.toggle_vim_mode.as_slice()),
            ("toggle_fast_mode", self.app.toggle_fast_mode.as_slice()),
            ("toggle_raw_output", self.app.toggle_raw_output.as_slice()),
            ("toggle_side_conversation", side.as_slice()),
        ];
        proof {
            assert(pairs_view(app@) =~= app_pairs(self@, side@));
        }
        let overlay = [
            ("list.move_up", self.list.move_up.as_slice()),
            ("list.move_down", self.list.move_down.as_slice()),
            ("list.move_left", self.list.move_left.as_slice()),
            ("list.move_right", self.list.move_right.as_slice()),
            ("list.page_up", self.list.page_up.as_slice()),
            ("list.page_down", self.list.page_down.as_slice()),
            ("list.jump_top", self.list.jump_top.as_slice()),
            ("list.jump_bottom", self.list.jump_bottom.as_slice()),
            ("list.accept", self.list.accept.as_slice()),
            ("list.cancel", self.list.cancel.as_slice()),
            ("approval.open_fullscreen", self.approval.open_fullscreen.as_slice()),
            ("approval.open_thread", self.approval.open_thread.as_slice()),
            ("approval.approve", self.approval.approve.as_slice()),
            ("approval.approve_for_session", self.approval.approve_for_session.as_slice()),
            ("approval.approve_for_prefix", self.approval.approve_for_prefix.as_slice()),
            ("approval.deny", self.approval.deny.as_slice()),
            ("approval.decline", self.approval.decline.as_slice()),
            ("approval.cancel", self.approval.cancel.as_slice()),
        ];
        proof {
            assert(pairs_view(overlay@) =~= approval_overlay_pairs(self@));
        }
        let allowed = [("clear_terminal", "list.move_right", ctrl(KeyCode::Char('l')))];
        proof {
            assert(allowed_view(allowed@) =~= seq![("clear_terminal"@, "list.move_right"@, binding_of(KeyCode::Char('l'), KeyModifiers { control: true, ..no_modifiers() }))]);
        }
        validate_no_shadow_with_allowed_overlaps("app", &app, &overlay, &allowed)?;
        let primary = [
            ("chat.interrupt_turn", self.chat.interrupt_turn.as_slice()),
        ];
        proof {
            assert(pairs_view(primary@) =~= interrupt_pairs(self@));
        }
        let shadowed = [
            ("list.move_left", self.list.move_left.as_slice()),
            ("list.move_right", self.list.move_right.as_slice()),
        ];
        proof {
            assert(pairs_view(shadowed@) =~= question_horizontal_pairs(self@));
        }
        let allowed: [(&str, &str, KeyBinding); 0] = [];
        proof {
            assert(allowed_view(allowed@) =~= Seq::empty());
        }
        validate_no_shadow_with_allowed_overlaps("request_user_input", &primary, &shadowed, &allowed)?;
        let primary = [
            ("chat.prompt_stack_back", self.chat.prompt_stack_back.as_slice()),
            ("chat.skip_question", self.chat.skip_question.as_slice()),
        ];
        proof {
            assert(pairs_view(primary@) =~= async_question_pairs(self@));
        }
        let shadowed = [
            ("list.move_up", self.list.move_up.as_slice()),
            ("list.move_down", self.list.move_down.as_slice()),
            ("list.accept", self.list.accept.as_slice()),
        ];
        proof {
            assert(pairs_view(shadowed@) =~= question_option_pairs(self@));
        }
        let allowed: [(&str, &str, KeyBinding); 0] = [];
        proof {
            assert(allowed_view(allowed@) =~= Seq::empty());
        }
        validate_no_shadow_with_allowed_overlaps("async_questions", &primary, &shadowed, &allowed)?;
        let primary = [
            ("open_agents", self.app.open_agents.as_slice()),
            ("open_transcript", self.app.open_transcript.as_slice()),
            ("open_external_editor", self.app.open_external_editor.as_slice()),
            ("copy", self.app.copy.as_slice()),
            ("clear_terminal", self.app.clear_terminal.as_slice()),
            ("chat.interrupt_turn", self.chat.interrupt_turn.as_slice()),
            ("chat.decrease_reasoning_effort", self.chat.decrease_reasoning_effort.as_slice()),
            ("chat.increase_reasoning_effort", self.chat.increase_reasoning_effort.as_slice()),
            ("chat.previous_permission_mode", self.chat.previous_permission_mode.as_slice()),
            ("chat.next_permission_mode", self.chat.next_permission_mode.as_slice()),
            ("chat.prompt_stack_back", self.chat.prompt_stack_back.as_slice()),
            ("chat.skip_question", self.chat.skip_question.as_slice()),
            ("composer.submit", self.composer.submit.as_slice()),
            ("toggle_vim_mode", self.app.toggle_vim_mode.as_slice()),
            ("toggle_fast_mode", self.app.toggle_fast_mode.as_slice()),
            ("toggle_raw_output", self.app.toggle_raw_output.as_slice()),
            ("toggle_side_conversation", side.as_slice()),
            ("composer.history_search_previous", self.composer.history_search_previous.as_slice()),
        ];
        proof {
            assert(pairs_view(primary@) =~= main_editor_shadowing_pairs(self@, side@));
        }
        let shadowed = [
            ("editor.insert_newline", self.editor.insert_newline.as_slice()),
            ("editor.move_left", self.editor.move_left.as_slice()),
            ("editor.move_right", self.editor.move_right.as_slice()),
            ("editor.move_up", self.editor.move_up.as_slice()),
            ("editor.move_down", self.editor.move_down.as_slice()),
            ("editor.move_word_left", self.editor.move_word_left.as_slice()),
            ("editor.move_word_right", self.editor.move_word_right.as_slice()),
            ("editor.move_line_start", self.editor.move_line_start.as_slice()),
            ("editor.move_line_end", self.editor.move_line_end.as_slice()),
            ("editor.delete_backward", self.editor.delete_backward.as_slice()),
            ("editor.delete_forward", self.editor.delete_forward.as_slice()),
            ("editor.delete_backward_word", self.editor.delete_backward_word.as_slice()),
            ("editor.delete_forward_word", self.editor.delete_forward_word.as_slice()),
            ("editor.kill_line_start", self.editor.kill_line_start.as_slice()),
            ("editor.kill_whole_line", self.editor.kill_whole_line.as_slice()),
            ("editor.kill_line_end", self.editor.kill_line_end.as_slice()),
            ("editor.yank", self.editor.yank.as_slice()),
        ];
        proof {
            assert(pairs_view(shadowed@) =~= editor_qualified_pairs(self@));
        }
        let allowed = [("composer.submit", "editor.insert_newline", plain(KeyCode::Enter))];
        proof {
            assert(allowed_view(allowed@) =~= seq![("composer.submit"@, "editor.insert_newline"@, binding_of(KeyCode::Enter, no_modifiers()))]);
        }
        validate_no_shadow_with_allowed_overlaps("main", &primary, &shadowed, &allowed)?;
        Ok(())
    }

    /// Keys are distinct within the editor, Vim, pager and list contexts, and the pager keeps clear of transcript editing keys.
    fn check_context(&self) -> (r: Result<(), String>)
        ensures
            check_matches(r, context_checks(self@)),
    {
        let pairs = [
            ("insert_newline", self.editor.insert_newline.as_slice()),
            ("move_left", self.editor.move_left.as_slice()),
            ("move_right", self.editor.move_right.as_slice()),
            ("move_up", self.editor.move_up.as_slice()),
            ("move_down", self.editor.move_down.as_slice()),
            ("move_word_left", self.editor.move_word_left.as_slice()),
            ("move_word_right", self.editor.move_word_right.as_slice()),
            ("move_line_start", self.editor.move_line_start.as_slice()),
            ("move_line_end", self.editor.move_line_end.as_slice()),
            ("delete_backward", self.editor.delete_backward.as_slice()),
            ("delete_forward", self.editor.delete_forward.as_slice()),
            ("delete_backward_word", self.editor.delete_backward_word.as_slice()),
            ("delete_forward_word", self.editor.delete_forward_word.as_slice()),
            ("kill_line_start", self.editor.kill_line_start.as_slice()),
            ("kill_whole_line", self.editor.kill_whole_line.as_slice()),
            ("kill_line_end", self.editor.kill_line_end.as_slice()),
            ("yank", self.editor.yank.as_slice()),
        ];
        proof {
            assert(pairs_view(pairs@) =~= editor_pairs(self@));
        }
        validate_unique("editor", &pairs)?;
        let pairs = [
            ("enter_insert", self.vim_normal.enter_insert.as_slice()),
            ("append_after_cursor", self.vim_normal.append_after_cursor.as_slice()),
            ("append_line_end", self.vim_normal.append_line_end.as_slice()),
            ("insert_line_start", self.vim_normal.insert_line_start.as_slice()),
            ("open_line_below", self.vim_normal.open_line_below.as_slice()),
            ("open_line_above", self.vim_normal.open_line_above.as_slice()),
            ("enter_replace_mode", self.vim_normal.enter_replace_mode.as_slice()),
            ("move_left", self.vim_normal.move_left.as_slice()),
            ("move_right", self.vim_normal.move_right.as_slice()),
            ("move_up", self.vim_normal.move_up.as_slice()),
            ("move_down", self.vim_normal.move_down.as_slice()),
            ("move_word_forward", self.vim_normal.move_word_forward.as_slice()),
            ("move_word_backward", self.vim_normal.move_word_backward.as_slice()),
            ("move_word_end", self.vim_normal.move_word_end.as_slice()),
            ("move_line_start", self.vim_normal.move_line_start.as_slice()),
            ("move_line_end", self.vim_normal.move_line_end.as_slice()),
            ("find_forward", self.vim_normal.find_forward.as_slice()),
            ("find_backward", self.vim_normal.find_backward.as_slice()),
            ("till_forward", self.vim_normal.till_forward.as_slice()),
            ("till_backward", self.vim_normal.till_backward.as_slice()),
            ("jump_top", self.vim_normal.jump_top.as_slice()),
            ("jump_bottom", self.vim_normal.jump_bottom.as_slice()),
            ("delete_char", self.vim_normal.delete_char.as_slice()),
            ("replace_char", self.vim_normal.replace_char.as_slice()),
            ("repeat_last_change", self.vim_normal.repeat_last_change.as_slice()),
            ("substitute_char", self.vim_normal.substitute_char.as_slice()),
            ("delete_to_line_end", self.vim_normal.delete_to_line_end.as_slice()),
            ("change_to_line_end", self.vim_normal.change_to_line_end.as_slice()),
            ("yank_line", self.vim_normal.yank_line.as_slice()),
            ("paste_after", self.vim_normal.paste_after.as_slice()),
            ("start_delete_operator", self.vim_normal.start_delete_operator.as_slice()),
            ("start_yank_operator", self.vim_normal.start_yank_operator.as_slice()),
            ("start_change_operator", self.vim_normal.start_change_operator.as_slice()),
            ("undo", self.vim_normal.undo.as_slice()),
            ("redo", self.vim_normal.redo.as_slice()),
            ("cancel_operator", self.vim_normal.cancel_operator.as_slice()),
        ];
        proof {
            assert(pairs_view(pairs@) =~= vim_normal_pairs(self@));
        }
        validate_unique("vim_normal", &pairs)?;
        let pairs = [
            ("delete_line", self.vim_operator.delete_line.as_slice()),
            ("yank_line", self.vim_operator.yank_line.as_slice()),
            ("motion_left", self.vim_operator.motion_left.as_slice()),
            ("motion_right", self.vim_operator.motion_right.as_slice()),
            ("motion_up", self.vim_operator.motion_up.as_slice()),
            ("motion_down", self.vim_operator.motion_down.as_slice()),
            ("motion_word_forward", self.vim_operator.motion_word_forward.as_slice()),
            ("motion_word_backward", self.vim_operator.motion_word_backward.as_slice()),
            ("motion_word_end", self.vim_operator.motion_word_end.as_slice()),
            ("motion_line_start", self.vim_operator.motion_line_start.as_slice()),
            ("motion_line_end", self.vim_operator.motion_line_end.as_slice()),
            ("motion_find_forward", self.vim_operator.motion_find_forward.as_slice()),
            ("motion_find_backward", self.vim_operator.motion_find_backward.as_slice()),
            ("motion_till_forward", self.vim_operator.motion_till_forward.as_slice()),
            ("motion_till_backward", self.vim_operator.motion_till_backward.as_slice()),
            ("motion_jump_top", self.vim_operator.motion_jump_top.as_slice()),
            ("motion_jump_bottom", self.vim_operator.motion_jump_bottom.as_slice()),
            ("select_inner_text_object", self.vim_operator.select_inner_text_object.as_slice()),
            ("select_around_text_object", self.vim_operator.select_around_text_object.as_slice()),
            ("cancel", self.vim_operator.cancel.as_slice()),
        ];
        proof {
            assert(pairs_view(pairs@) =~= vim_operator_pairs(self@));
        }
        validate_unique("vim_operator", &pairs)?;
        let pairs = [
            ("word", self.vim_text_object.word.as_slice()),
            ("big_word", self.vim_text_object.big_word.as_slice()),
            ("parentheses", self.vim_text_object.parentheses.as_slice()),
            ("brackets", self.vim_text_object.brackets.as_slice()),
            ("braces", self.vim_text_object.braces.as_slice()),
            ("double_quote", self.vim_text_object.double_quote.as_slice()),
            ("single_quote", self.vim_text_object.single_quote.as_slice()),
            ("backtick", self.vim_text_object.backtick.as_slice()),
            ("cancel", self.vim_text_object.cancel.as_slice()),
        ];
        proof {
            assert(pairs_view(pairs@) =~= vim_text_object_pairs(self@));
        }
        validate_unique("vim_text_object", &pairs)?;
        let pairs = [
            ("scroll_up", self.pager.scroll_up.as_slice()),
            ("scroll_down", self.pager.scroll_down.as_slice()),
            ("page_up", self.pager.page_up.as_slice()),
            ("page_down", self.pager.page_down.as_slice()),
            ("half_page_up", self.pager.half_page_up.as_slice()),
            ("half_page_down", self.pager.half_page_down.as_slice()),
            ("jump_top", self.pager.jump_top.as_slice()),
            ("jump_bottom", self.pager.jump_bottom.as_slice()),
            ("close", self.pager.close.as_slice()),
            ("close_transcript", self.pager.close_transcript.as_slice()),
        ];
        proof {
            assert(pairs_view(pairs@) =~= pager_pairs(self@));
        }
        validate_unique("pager", &pairs)?;
        let pairs = [
            ("scroll_up", self.pager.scroll_up.as_slice()),
            ("scroll_down", self.pager.scroll_down.as_slice()),
            ("page_up", self.pager.page_up.as_slice()),
            ("page_down", self.pager.page_down.as_slice()),
            ("half_page_up", self.pager.half_page_up.as_slice()),
            ("half_page_down", self.pager.half_page_down.as_slice()),
            ("jump_top", self.pager.jump_top.as_slice()),
            ("jump_bottom", self.pager.jump_bottom.as_slice()),
            ("close", self.pager.close.as_slice()),
            ("close_transcript", self.pager.close_transcript.as_slice()),
        ];
        proof {
            assert(pairs_view(pairs@) =~= pager_pairs(self@));
        }
        let reserved = transcript_backtrack_reserved_bindings();
        let allowed: [(&str, &str, KeyBinding); 0] = [];
        proof {
            assert(allowed_view(allowed@) =~= Seq::empty());
        }
        validate_no_reserved("pager", &pairs, &reserved, &allowed)?;
        let pairs = [
            ("move_up", self.list.move_up.as_slice()),
            ("move_down", self.list.move_down.as_slice()),
            ("move_left", self.list.move_left.as_slice()),
            ("move_right", self.list.move_right.as_slice()),
            ("page_up", self.list.page_up.as_slice()),
            ("page_down", self.list.page_down.as_slice()),
            ("jump_top", self.list.jump_top.as_slice()),
            ("jump_bottom", self.list.jump_bottom.as_slice()),
            ("accept", self.list.accept.as_slice()),
            ("cancel", self.list.cancel.as_slice()),
        ];
        proof {
            assert(pairs_view(pairs@) =~= list_pairs(self@));
        }
        validate_unique("list", &pairs)?;
        Ok(())
    }

    /// Agents dashboard keys are distinct and keep clear of fixed shortcuts, suspend and task input.
    fn check_agents(&self) -> (r: Result<(), String>)
        ensures
            check_matches(r, agents_checks(self@)),
    {
        let pairs = [
            ("resume", self.agents.resume.as_slice()),
            ("search", self.agents.search.as_slice()),
            ("new_task", self.agents.new_task.as_slice()),
            ("rename", self.agents.rename.as_slice()),
            ("stop", self.agents.stop.as_slice()),
            ("toggle_grouping", self.agents.toggle_grouping.as_slice()),
        ];
        proof {
            assert(pairs_view(pairs@) =~= agents_pairs(self@));
        }
        validate_unique("agents", &pairs)?;
        let pairs = [
            ("resume", self.agents.resume.as_slice()),
            ("search", self.agents.search.as_slice()),
            ("new_task", self.agents.new_task.as_slice()),
            ("rename", self.agents.rename.as_slice()),
            ("stop", self.agents.stop.as_slice()),
            ("toggle_grouping", self.agents.toggle_grouping.as_slice()),
        ];
        proof {
            assert(pairs_view(pairs@) =~= agents_pairs(self@));
        }
        let reserved = main_reserved_bindings();
        let allowed: [(&str, &str, KeyBinding); 0] = [];
        proof {
            assert(allowed_view(allowed@) =~= Seq::empty());
        }
        validate_no_reserved("agents", &pairs, &reserved, &allowed)?;
        check_agents_action("resume", self.agents.resume.as_slice())?;
        check_agents_action("search", self.agents.search.as_slice())?;
        check_agents_action("new_task", self.agents.new_task.as_slice())?;
        check_agents_action("rename", self.agents.rename.as_slice())?;
        check_agents_action("stop", self.agents.stop.as_slice())?;
        check_agents_action("toggle_grouping", self.agents.toggle_grouping.as_slice())?;
        Ok(())
    }

    /// Approval keys are distinct, also together with list keys in the approval overlay.
    fn check_approval(&self) -> (r: Result<(), String>)
        ensures
            check_matches(r, approval_checks(self@)),
    {
        let pairs = [
            ("open_fullscreen", self.approval.open_fullscreen.as_slice()),
            ("open_thread", self.approval.open_thread.as_slice()),
            ("approve", self.approval.approve.as_slice()),
            ("approve_for_session", self.approval.approve_for_session.as_slice()),
            ("approve_for_prefix", self.approval.approve_for_prefix.as_slice()),
            ("deny", self.approval.deny.as_slice()),
            ("decline", self.approval.decline.as_slice()),
            ("cancel", self.approval.cancel.as_slice()),
        ];
        proof {
            assert(pairs_view(pairs@) =~= approval_pairs(self@));
        }
        validate_unique("approval", &pairs)?;
        let overlay = [
            ("list.move_up", self.list.move_up.as_slice()),
            ("list.move_down", self.list.move_down.as_slice()),
            ("list.move_left", self.list.move_left.as_slice()),
            ("list.move_right", self.list.move_right.as_slice()),
            ("list.page_up", self.list.page_up.as_slice()),
            ("list.page_down", self.list.page_down.as_slice()),
            ("list.jump_top", self.list.jump_top.as_slice()),
            ("list.jump_bottom", self.list.jump_bottom.as_slice()),
            ("list.accept", self.list.accept.as_slice()),
            ("list.cancel", self.list.cancel.as_slice()),
            ("approval.open_fullscreen", self.approval.open_fullscreen.as_slice()),
            ("approval.open_thread", self.approval.open_thread.as_slice()),
            ("approval.approve", self.approval.approve.as_slice()),
            ("approval.approve_for_session", self.approval.approve_for_session.as_slice()),
            ("approval.approve_for_prefix", self.approval.approve_for_prefix.as_slice()),
            ("approval.deny", self.approval.deny.as_slice()),
            ("approval.decline", self.approval.decline.as_slice()),
            ("approval.cancel", self.approval.cancel.as_slice()),
        ];
        proof {
            assert(pairs_view(overlay@) =~= approval_overlay_pairs(self@));
        }
        validate_approval_overlay(&overlay)?;
        Ok(())
    }

    /// Reject ambiguous bindings in scopes that are evaluated together.
    pub fn validate_conflicts(&self) -> (r: Result<(), String>)
        ensures
            check_matches(r, keymap_checks(self@)),
    {
        let side = side_toggle_bindings(&self.app.toggle_side_conversation);
        self.check_vim_search()?;
        self.check_text_input()?;
        self.check_main_surface(&side)?;
        self.check_shadowing(&side)?;
        self.check_context()?;
        self.check_agents()?;
        self.check_approval()?;
        Ok(())
    }
}

} // verus!
