//! Resolution of the configured keymap into the runtime keymap: context
//! value, then global fallback where the action has one, then the built-in
//! keys; built-in keys of newer actions yield to keys the user configured
//! for older ones.

use vstd::prelude::*;
use crate::bindings::{
    KeybindingsSpec, claim, claimed_with, claimed_with_either, global_resolved_or, global_value_error, resolve_bindings, resolve_bindings_with_global_fallback, resolve_new_default_bindings,
    resolved_or, retain_without, value_error, without, lemma_without_nothing,
};
use crate::keys::{KeyBinding, KeyCode, KeyModifiers, alt, binding_of, ctrl, no_modifiers, shift};
use crate::keymap_config::{
    configured_value_uses_alias, value_uses_alias, ChatKeymapConfig, ComposerKeymapConfig, EditorKeymapConfig,
    GlobalKeymapConfig, PagerKeymapConfig, ApprovalKeymapConfig, AgentsKeymapConfig, ListKeymapConfig, TuiKeymap, VimNormalKeymapConfig,
    VimOperatorKeymapConfig, VimSearchKeymapConfig, VimTextObjectKeymapConfig,
};
use crate::keymap::{
    AgentsKeymap,
    AgentsModel,
    AppKeymap,
    AppModel,
    ApprovalKeymap,
    ApprovalModel,
    ChatKeymap,
    ChatModel,
    ComposerKeymap,
    ComposerModel,
    EditorKeymap,
    EditorModel,
    KeymapView,
    ListKeymap,
    ListModel,
    PagerKeymap,
    PagerModel,
    RuntimeKeymap,
    VimNormalKeymap,
    VimNormalModel,
    VimOperatorKeymap,
    VimOperatorModel,
    VimSearchKeymap,
    VimSearchModel,
    VimTextObjectKeymap,
    VimTextObjectModel,
};
use crate::keymap_defaults::{
    built_in_defaults,
    default_agents,
    default_app,
    default_approval,
    default_chat,
    default_composer,
    default_editor,
    default_list,
    default_pager,
    default_view,
    default_vim_normal,
    default_vim_operator,
    default_vim_search,
    default_vim_text_object,
};
use crate::keymap_conflicts::keymap_checks;

verus! {

/// Whether an explicit binding on the main-surface input path already names
/// the key of `alias`. The `global` fallbacks of composer actions count only
/// while the composer does not set its own value.
pub open spec fn main_surface_uses(k: TuiKeymap, alias: KeyBinding) -> bool {
    global_main_surface_uses(k, alias) || k.chat.table_uses_alias(alias)
        || k.composer.table_uses_alias(alias) || k.editor.table_uses_alias(alias)
        || k.vim_normal.table_uses_alias(alias) || k.vim_operator.table_uses_alias(alias)
        || k.vim_text_object.table_uses_alias(alias)
}

/// The `global` part of [`main_surface_uses`].
pub open spec fn global_main_surface_uses(k: TuiKeymap, alias: KeyBinding) -> bool {
    value_uses_alias(k.global.open_agents, alias)
        || value_uses_alias(k.global.open_transcript, alias)
        || value_uses_alias(k.global.open_external_editor, alias)
        || value_uses_alias(k.global.copy, alias)
        || value_uses_alias(k.global.clear_terminal, alias)
        || value_uses_alias(k.global.toggle_vim_mode, alias)
        || value_uses_alias(k.global.toggle_fast_mode, alias)
        || value_uses_alias(k.global.toggle_raw_output, alias)
        || value_uses_alias(k.global.toggle_side_conversation, alias)
        || (k.composer.submit is None && value_uses_alias(k.global.submit, alias))
        || (k.composer.queue is None && value_uses_alias(k.global.queue, alias))
        || (k.composer.toggle_shortcuts is None && value_uses_alias(k.global.toggle_shortcuts, alias))
}

fn global_main_surface_alias_is_used(k: &TuiKeymap, alias: KeyBinding) -> (r: bool)
    ensures
        r == global_main_surface_uses(*k, alias),
{
    configured_value_uses_alias(&k.global.open_agents, alias)
        || configured_value_uses_alias(&k.global.open_transcript, alias)
        || configured_value_uses_alias(&k.global.open_external_editor, alias)
        || configured_value_uses_alias(&k.global.copy, alias)
        || configured_value_uses_alias(&k.global.clear_terminal, alias)
        || configured_value_uses_alias(&k.global.toggle_vim_mode, alias)
        || configured_value_uses_alias(&k.global.toggle_fast_mode, alias)
        || configured_value_uses_alias(&k.global.toggle_raw_output, alias)
        || configured_value_uses_alias(&k.global.toggle_side_conversation, alias)
        || (k.composer.submit.is_none() && configured_value_uses_alias(&k.global.submit, alias))
        || (k.composer.queue.is_none() && configured_value_uses_alias(&k.global.queue, alias))
        || (k.composer.toggle_shortcuts.is_none() && configured_value_uses_alias(&k.global.toggle_shortcuts, alias))
}

/// Whether an explicit binding on the main-surface input path already names
/// the key of `alias`.
pub fn configured_main_surface_alias_is_used(k: &TuiKeymap, alias: KeyBinding) -> (r: bool)
    ensures
        r == main_surface_uses(*k, alias),
{
    global_main_surface_alias_is_used(k, alias) || k.chat.uses_alias(alias) || k.composer.uses_alias(
        alias,
    ) || k.editor.uses_alias(alias) || k.vim_normal.uses_alias(alias) || k.vim_operator.uses_alias(
        alias,
    ) || k.vim_text_object.uses_alias(alias)
}

/// Whether the key of `alias` is configured where the side-conversation
/// toggle would shadow it: the main surface, lists or approvals.
pub open spec fn side_alias_in_use(k: TuiKeymap, alias: KeyBinding) -> bool {
    main_surface_uses(k, alias) || k.list.table_uses_alias(alias) || k.approval.table_uses_alias(alias)
}

/// The built-in side-conversation toggle (`ctrl-/`, reported by some
/// terminals as `ctrl-7`) yields when the user configured either key elsewhere.
pub open spec fn side_toggle_default_is_shadowed(k: TuiKeymap) -> bool {
    k.global.toggle_side_conversation is None && (side_alias_in_use(k, binding_of(KeyCode::Char('/'), KeyModifiers { control: true, ..no_modifiers() }))
        || side_alias_in_use(k, binding_of(KeyCode::Char('7'), KeyModifiers { control: true, ..no_modifiers() })))
}

fn side_alias_is_used(k: &TuiKeymap, alias: KeyBinding) -> (r: bool)
    ensures
        r == side_alias_in_use(*k, alias),
{
    configured_main_surface_alias_is_used(k, alias) || k.list.uses_alias(alias)
        || k.approval.uses_alias(alias)
}

fn side_toggle_shadowed(k: &TuiKeymap) -> (r: bool)
    ensures
        r == side_toggle_default_is_shadowed(*k),
{
    k.global.toggle_side_conversation.is_none() && (side_alias_is_used(k, ctrl(KeyCode::Char('/')))
        || side_alias_is_used(k, ctrl(KeyCode::Char('7'))))
}

/// Whether the key of `alias` is configured where the question shortcuts
/// would shadow it: the main surface, lists or Vim search.
pub open spec fn question_alias_in_use(k: TuiKeymap, alias: KeyBinding) -> bool {
    main_surface_uses(k, alias) || k.list.table_uses_alias(alias) || k.vim_search.table_uses_alias(alias)
}

fn question_alias_is_used(k: &TuiKeymap, alias: KeyBinding) -> (r: bool)
    ensures
        r == question_alias_in_use(*k, alias),
{
    configured_main_surface_alias_is_used(k, alias) || k.list.uses_alias(alias)
        || k.vim_search.uses_alias(alias)
}

/// `b` alone when `used`, else nothing.
pub open spec fn claimed_if(used: bool, b: KeyBinding) -> Seq<KeyBinding> {
    if used {
        seq![b]
    } else {
        Seq::empty()
    }
}

/// The built-in resume key (`ctrl-o`) yields when the user configured it in
/// the agents dashboard or in lists.
pub open spec fn resume_default_is_shadowed(k: TuiKeymap) -> bool {
    k.agents.resume is None && (k.agents.table_uses_alias(binding_of(KeyCode::Char('o'), KeyModifiers { control: true, ..no_modifiers() })) || k.list.table_uses_alias(binding_of(KeyCode::Char('o'), KeyModifiers { control: true, ..no_modifiers() })))
}

fn resume_shadowed(k: &TuiKeymap) -> (r: bool)
    ensures
        r == resume_default_is_shadowed(*k),
{
    k.agents.resume.is_none() && (k.agents.uses_alias(ctrl(KeyCode::Char('o'))) || k.list.uses_alias(ctrl(KeyCode::Char('o'))))
}

/// A configured value, or the built-in keys without those claimed by
/// explicitly configured actions.
pub open spec fn new_default_or(
    configured: Option<KeybindingsSpec>,
    fallback: Seq<KeyBinding>,
    claimed: Seq<KeyBinding>,
) -> Seq<KeyBinding> {
    if configured is None {
        without(fallback, claimed)
    } else {
        resolved_or(configured, fallback)
    }
}

/// Built-in keys of `s` yield to `claimed` when the action is not configured.
pub open spec fn yield_unset(configured: Option<KeybindingsSpec>, s: Seq<KeyBinding>, claimed: Seq<KeyBinding>) -> Seq<KeyBinding> {
    if configured is None {
        without(s, claimed)
    } else {
        s
    }
}

/// The first parse error among the main-surface actions.
pub open spec fn app_error(g: GlobalKeymapConfig) -> Option<Seq<char>> {
    let e0 = value_error(g.open_agents, "tui.keymap.global.open_agents"@);
    let e1 = value_error(g.open_transcript, "tui.keymap.global.open_transcript"@);
    let e2 = value_error(g.open_external_editor, "tui.keymap.global.open_external_editor"@);
    let e3 = value_error(g.copy, "tui.keymap.global.copy"@);
    let e4 = value_error(g.clear_terminal, "tui.keymap.global.clear_terminal"@);
    let e5 = value_error(g.toggle_vim_mode, "tui.keymap.global.toggle_vim_mode"@);
    let e6 = value_error(g.toggle_fast_mode, "tui.keymap.global.toggle_fast_mode"@);
    let e7 = value_error(g.toggle_raw_output, "tui.keymap.global.toggle_raw_output"@);
    let e8 = value_error(g.toggle_side_conversation, "tui.keymap.global.toggle_side_conversation"@);
    if e0 is Some {
        e0
    } else if e1 is Some {
        e1
    } else if e2 is Some {
        e2
    } else if e3 is Some {
        e3
    } else if e4 is Some {
        e4
    } else if e5 is Some {
        e5
    } else if e6 is Some {
        e6
    } else if e7 is Some {
        e7
    } else if e8 is Some {
        e8
    } else {
        None
    }
}

/// The first parse error among the chat actions.
pub open spec fn chat_error(c: ChatKeymapConfig) -> Option<Seq<char>> {
    let e0 = value_error(c.interrupt_turn, "tui.keymap.chat.interrupt_turn"@);
    let e1 = value_error(c.decrease_reasoning_effort, "tui.keymap.chat.decrease_reasoning_effort"@);
    let e2 = value_error(c.increase_reasoning_effort, "tui.keymap.chat.increase_reasoning_effort"@);
    let e3 = value_error(c.previous_permission_mode, "tui.keymap.chat.previous_permission_mode"@);
    let e4 = value_error(c.next_permission_mode, "tui.keymap.chat.next_permission_mode"@);
    let e5 = value_error(c.edit_queued_message, "tui.keymap.chat.edit_queued_message"@);
    let e6 = value_error(c.prompt_stack_back, "tui.keymap.chat.prompt_stack_back"@);
    let e7 = value_error(c.skip_question, "tui.keymap.chat.skip_question"@);
    if e0 is Some {
        e0
    } else if e1 is Some {
        e1
    } else if e2 is Some {
        e2
    } else if e3 is Some {
        e3
    } else if e4 is Some {
        e4
    } else if e5 is Some {
        e5
    } else if e6 is Some {
        e6
    } else if e7 is Some {
        e7
    } else {
        None
    }
}

/// The first parse error among the composer actions.
pub open spec fn composer_error(c: ComposerKeymapConfig, g: GlobalKeymapConfig) -> Option<Seq<char>> {
    let e0 = global_value_error(c.submit, g.submit, "tui.keymap.composer.submit"@);
    let e1 = global_value_error(c.queue, g.queue, "tui.keymap.composer.queue"@);
    let e2 = global_value_error(c.toggle_shortcuts, g.toggle_shortcuts, "tui.keymap.composer.toggle_shortcuts"@);
    let e3 = value_error(c.history_search_previous, "tui.keymap.composer.history_search_previous"@);
    let e4 = value_error(c.history_search_next, "tui.keymap.composer.history_search_next"@);
    if e0 is Some {
        e0
    } else if e1 is Some {
        e1
    } else if e2 is Some {
        e2
    } else if e3 is Some {
        e3
    } else if e4 is Some {
        e4
    } else {
        None
    }
}

/// The first parse error among the editor actions.
pub open spec fn editor_error(c: EditorKeymapConfig) -> Option<Seq<char>> {
    let e0 = value_error(c.insert_newline, "tui.keymap.editor.insert_newline"@);
    let e1 = value_error(c.move_left, "tui.keymap.editor.move_left"@);
    let e2 = value_error(c.move_right, "tui.keymap.editor.move_right"@);
    let e3 = value_error(c.move_up, "tui.keymap.editor.move_up"@);
    let e4 = value_error(c.move_down, "tui.keymap.editor.move_down"@);
    let e5 = value_error(c.move_word_left, "tui.keymap.editor.move_word_left"@);
    let e6 = value_error(c.move_word_right, "tui.keymap.editor.move_word_right"@);
    let e7 = value_error(c.move_line_start, "tui.keymap.editor.move_line_start"@);
    let e8 = value_error(c.move_line_end, "tui.keymap.editor.move_line_end"@);
    let e9 = value_error(c.delete_backward, "tui.keymap.editor.delete_backward"@);
    let e10 = value_error(c.delete_forward, "tui.keymap.editor.delete_forward"@);
    let e11 = value_error(c.delete_backward_word, "tui.keymap.editor.delete_backward_word"@);
    let e12 = value_error(c.delete_forward_word, "tui.keymap.editor.delete_forward_word"@);
    let e13 = value_error(c.kill_line_start, "tui.keymap.editor.kill_line_start"@);
    let e14 = value_error(c.kill_whole_line, "tui.keymap.editor.kill_whole_line"@);
    let e15 = value_error(c.kill_line_end, "tui.keymap.editor.kill_line_end"@);
    let e16 = value_error(c.yank, "tui.keymap.editor.yank"@);
    if e0 is Some {
        e0
    } else if e1 is Some {
        e1
    } else if e2 is Some {
        e2
    } else if e3 is Some {
        e3
    } else if e4 is Some {
        e4
    } else if e5 is Some {
        e5
    } else if e6 is Some {
        e6
    } else if e7 is Some {
        e7
    } else if e8 is Some {
        e8
    } else if e9 is Some {
        e9
    } else if e10 is Some {
        e10
    } else if e11 is Some {
        e11
    } else if e12 is Some {
        e12
    } else if e13 is Some {
        e13
    } else if e14 is Some {
        e14
    } else if e15 is Some {
        e15
    } else if e16 is Some {
        e16
    } else {
        None
    }
}

/// The first parse error among the vim normal actions.
pub open spec fn vim_normal_error(c: VimNormalKeymapConfig) -> Option<Seq<char>> {
    let e0 = value_error(c.enter_insert, "tui.keymap.vim_normal.enter_insert"@);
    let e1 = value_error(c.append_after_cursor, "tui.keymap.vim_normal.append_after_cursor"@);
    let e2 = value_error(c.append_line_end, "tui.keymap.vim_normal.append_line_end"@);
    let e3 = value_error(c.insert_line_start, "tui.keymap.vim_normal.insert_line_start"@);
    let e4 = value_error(c.open_line_below, "tui.keymap.vim_normal.open_line_below"@);
    let e5 = value_error(c.open_line_above, "tui.keymap.vim_normal.open_line_above"@);
    let e6 = value_error(c.enter_replace_mode, "tui.keymap.vim_normal.enter_replace_mode"@);
    let e7 = value_error(c.move_left, "tui.keymap.vim_normal.move_left"@);
    let e8 = value_error(c.move_right, "tui.keymap.vim_normal.move_right"@);
    let e9 = value_error(c.move_up, "tui.keymap.vim_normal.move_up"@);
    let e10 = value_error(c.move_down, "tui.keymap.vim_normal.move_down"@);
    let e11 = value_error(c.move_word_forward, "tui.keymap.vim_normal.move_word_forward"@);
    let e12 = value_error(c.move_word_backward, "tui.keymap.vim_normal.move_word_backward"@);
    let e13 = value_error(c.move_word_end, "tui.keymap.vim_normal.move_word_end"@);
    let e14 = value_error(c.move_line_start, "tui.keymap.vim_normal.move_line_start"@);
    let e15 = value_error(c.move_line_end, "tui.keymap.vim_normal.move_line_end"@);
    let e16 = value_error(c.find_forward, "tui.keymap.vim_normal.find_forward"@);
    let e17 = value_error(c.find_backward, "tui.keymap.vim_normal.find_backward"@);
    let e18 = value_error(c.till_forward, "tui.keymap.vim_normal.till_forward"@);
    let e19 = value_error(c.till_backward, "tui.keymap.vim_normal.till_backward"@);
    let e20 = value_error(c.jump_top, "tui.keymap.vim_normal.jump_top"@);
    let e21 = value_error(c.jump_bottom, "tui.keymap.vim_normal.jump_bottom"@);
    let e22 = value_error(c.delete_char, "tui.keymap.vim_normal.delete_char"@);
    let e23 = value_error(c.replace_char, "tui.keymap.vim_normal.replace_char"@);
    let e24 = value_error(c.repeat_last_change, "tui.keymap.vim_normal.repeat_last_change"@);
    let e25 = value_error(c.substitute_char, "tui.keymap.vim_normal.substitute_char"@);
    let e26 = value_error(c.delete_to_line_end, "tui.keymap.vim_normal.delete_to_line_end"@);
    let e27 = value_error(c.change_to_line_end, "tui.keymap.vim_normal.change_to_line_end"@);
    let e28 = value_error(c.yank_line, "tui.keymap.vim_normal.yank_line"@);
    let e29 = value_error(c.paste_after, "tui.keymap.vim_normal.paste_after"@);
    let e30 = value_error(c.start_delete_operator, "tui.keymap.vim_normal.start_delete_operator"@);
    let e31 = value_error(c.start_yank_operator, "tui.keymap.vim_normal.start_yank_operator"@);
    let e32 = value_error(c.start_change_operator, "tui.keymap.vim_normal.start_change_operator"@);
    let e33 = value_error(c.undo, "tui.keymap.vim_normal.undo"@);
    let e34 = value_error(c.redo, "tui.keymap.vim_normal.redo"@);
    let e35 = value_error(c.cancel_operator, "tui.keymap.vim_normal.cancel_operator"@);
    if e0 is Some {
        e0
    } else if e1 is Some {
        e1
    } else if e2 is Some {
        e2
    } else if e3 is Some {
        e3
    } else if e4 is Some {
        e4
    } else if e5 is Some {
        e5
    } else if e6 is Some {
        e6
    } else if e7 is Some {
        e7
    } else if e8 is Some {
        e8
    } else if e9 is Some {
        e9
    } else if e10 is Some {
        e10
    } else if e11 is Some {
        e11
    } else if e12 is Some {
        e12
    } else if e13 is Some {
        e13
    } else if e14 is Some {
        e14
    } else if e15 is Some {
        e15
    } else if e16 is Some {
        e16
    } else if e17 is Some {
        e17
    } else if e18 is Some {
        e18
    } else if e19 is Some {
        e19
    } else if e20 is Some {
        e20
    } else if e21 is Some {
        e21
    } else if e22 is Some {
        e22
    } else if e23 is Some {
        e23
    } else if e24 is Some {
        e24
    } else if e25 is Some {
        e25
    } else if e26 is Some {
        e26
    } else if e27 is Some {
        e27
    } else if e28 is Some {
        e28
    } else if e29 is Some {
        e29
    } else if e30 is Some {
        e30
    } else if e31 is Some {
        e31
    } else if e32 is Some {
        e32
    } else if e33 is Some {
        e33
    } else if e34 is Some {
        e34
    } else if e35 is Some {
        e35
    } else {
        None
    }
}

/// The first parse error among the vim operator actions.
pub open spec fn vim_operator_error(c: VimOperatorKeymapConfig) -> Option<Seq<char>> {
    let e0 = value_error(c.delete_line, "tui.keymap.vim_operator.delete_line"@);
    let e1 = value_error(c.yank_line, "tui.keymap.vim_operator.yank_line"@);
    let e2 = value_error(c.motion_left, "tui.keymap.vim_operator.motion_left"@);
    let e3 = value_error(c.motion_right, "tui.keymap.vim_operator.motion_right"@);
    let e4 = value_error(c.motion_up, "tui.keymap.vim_operator.motion_up"@);
    let e5 = value_error(c.motion_down, "tui.keymap.vim_operator.motion_down"@);
    let e6 = value_error(c.motion_word_forward, "tui.keymap.vim_operator.motion_word_forward"@);
    let e7 = value_error(c.motion_word_backward, "tui.keymap.vim_operator.motion_word_backward"@);
    let e8 = value_error(c.motion_word_end, "tui.keymap.vim_operator.motion_word_end"@);
    let e9 = value_error(c.motion_line_start, "tui.keymap.vim_operator.motion_line_start"@);
    let e10 = value_error(c.motion_line_end, "tui.keymap.vim_operator.motion_line_end"@);
    let e11 = value_error(c.motion_find_forward, "tui.keymap.vim_operator.motion_find_forward"@);
    let e12 = value_error(c.motion_find_backward, "tui.keymap.vim_operator.motion_find_backward"@);
    let e13 = value_error(c.motion_till_forward, "tui.keymap.vim_operator.motion_till_forward"@);
    let e14 = value_error(c.motion_till_backward, "tui.keymap.vim_operator.motion_till_backward"@);
    let e15 = value_error(c.motion_jump_top, "tui.keymap.vim_operator.motion_jump_top"@);
    let e16 = value_error(c.motion_jump_bottom, "tui.keymap.vim_operator.motion_jump_bottom"@);
    let e17 = value_error(c.select_inner_text_object, "tui.keymap.vim_operator.select_inner_text_object"@);
    let e18 = value_error(c.select_around_text_object, "tui.keymap.vim_operator.select_around_text_object"@);
    let e19 = value_error(c.cancel, "tui.keymap.vim_operator.cancel"@);
    if e0 is Some {
        e0
    } else if e1 is Some {
        e1
    } else if e2 is Some {
        e2
    } else if e3 is Some {
        e3
    } else if e4 is Some {
        e4
    } else if e5 is Some {
        e5
    } else if e6 is Some {
        e6
    } else if e7 is Some {
        e7
    } else if e8 is Some {
        e8
    } else if e9 is Some {
        e9
    } else if e10 is Some {
        e10
    } else if e11 is Some {
        e11
    } else if e12 is Some {
        e12
    } else if e13 is Some {
        e13
    } else if e14 is Some {
        e14
    } else if e15 is Some {
        e15
    } else if e16 is Some {
        e16
    } else if e17 is Some {
        e17
    } else if e18 is Some {
        e18
    } else if e19 is Some {
        e19
    } else {
        None
    }
}

/// The first parse error among the vim text object actions.
pub open spec fn vim_text_object_error(c: VimTextObjectKeymapConfig) -> Option<Seq<char>> {
    let e0 = value_error(c.word, "tui.keymap.vim_text_object.word"@);
    let e1 = value_error(c.big_word, "tui.keymap.vim_text_object.big_word"@);
    let e2 = value_error(c.parentheses, "tui.keymap.vim_text_object.parentheses"@);
    let e3 = value_error(c.brackets, "tui.keymap.vim_text_object.brackets"@);
    let e4 = value_error(c.braces, "tui.keymap.vim_text_object.braces"@);
    let e5 = value_error(c.double_quote, "tui.keymap.vim_text_object.double_quote"@);
    let e6 = value_error(c.single_quote, "tui.keymap.vim_text_object.single_quote"@);
    let e7 = value_error(c.backtick, "tui.keymap.vim_text_object.backtick"@);
    let e8 = value_error(c.cancel, "tui.keymap.vim_text_object.cancel"@);
    if e0 is Some {
        e0
    } else if e1 is Some {
        e1
    } else if e2 is Some {
        e2
    } else if e3 is Some {
        e3
    } else if e4 is Some {
        e4
    } else if e5 is Some {
        e5
    } else if e6 is Some {
        e6
    } else if e7 is Some {
        e7
    } else if e8 is Some {
        e8
    } else {
        None
    }
}

/// The first parse error among the pager actions.
pub open spec fn pager_error(c: PagerKeymapConfig) -> Option<Seq<char>> {
    let e0 = value_error(c.scroll_up, "tui.keymap.pager.scroll_up"@);
    let e1 = value_error(c.scroll_down, "tui.keymap.pager.scroll_down"@);
    let e2 = value_error(c.page_up, "tui.keymap.pager.page_up"@);
    let e3 = value_error(c.page_down, "tui.keymap.pager.page_down"@);
    let e4 = value_error(c.half_page_up, "tui.keymap.pager.half_page_up"@);
    let e5 = value_error(c.half_page_down, "tui.keymap.pager.half_page_down"@);
    let e6 = value_error(c.jump_top, "tui.keymap.pager.jump_top"@);
    let e7 = value_error(c.jump_bottom, "tui.keymap.pager.jump_bottom"@);
    let e8 = value_error(c.close, "tui.keymap.pager.close"@);
    let e9 = value_error(c.close_transcript, "tui.keymap.pager.close_transcript"@);
    if e0 is Some {
        e0
    } else if e1 is Some {
        e1
    } else if e2 is Some {
        e2
    } else if e3 is Some {
        e3
    } else if e4 is Some {
        e4
    } else if e5 is Some {
        e5
    } else if e6 is Some {
        e6
    } else if e7 is Some {
        e7
    } else if e8 is Some {
        e8
    } else if e9 is Some {
        e9
    } else {
        None
    }
}

/// The first parse error among the agents actions.
pub open spec fn agents_error(c: AgentsKeymapConfig) -> Option<Seq<char>> {
    let e0 = value_error(c.resume, "tui.keymap.agents.resume"@);
    let e1 = value_error(c.search, "tui.keymap.agents.search"@);
    let e2 = value_error(c.new_task, "tui.keymap.agents.new_task"@);
    let e3 = value_error(c.rename, "tui.keymap.agents.rename"@);
    let e4 = value_error(c.stop, "tui.keymap.agents.stop"@);
    let e5 = value_error(c.toggle_grouping, "tui.keymap.agents.toggle_grouping"@);
    if e0 is Some {
        e0
    } else if e1 is Some {
        e1
    } else if e2 is Some {
        e2
    } else if e3 is Some {
        e3
    } else if e4 is Some {
        e4
    } else if e5 is Some {
        e5
    } else {
        None
    }
}

/// The first parse error among the approval actions.
pub open spec fn approval_error(c: ApprovalKeymapConfig) -> Option<Seq<char>> {
    let e0 = value_error(c.open_fullscreen, "tui.keymap.approval.open_fullscreen"@);
    let e1 = value_error(c.open_thread, "tui.keymap.approval.open_thread"@);
    let e2 = value_error(c.approve, "tui.keymap.approval.approve"@);
    let e3 = value_error(c.approve_for_session, "tui.keymap.approval.approve_for_session"@);
    let e4 = value_error(c.approve_for_prefix, "tui.keymap.approval.approve_for_prefix"@);
    let e5 = value_error(c.deny, "tui.keymap.approval.deny"@);
    let e6 = value_error(c.decline, "tui.keymap.approval.decline"@);
    let e7 = value_error(c.cancel, "tui.keymap.approval.cancel"@);
    if e0 is Some {
        e0
    } else if e1 is Some {
        e1
    } else if e2 is Some {
        e2
    } else if e3 is Some {
        e3
    } else if e4 is Some {
        e4
    } else if e5 is Some {
        e5
    } else if e6 is Some {
        e6
    } else if e7 is Some {
        e7
    } else {
        None
    }
}

/// The first parse error among the vim search actions.
pub open spec fn vim_search_error(c: VimSearchKeymapConfig) -> Option<Seq<char>> {
    let e0 = value_error(c.forward, "tui.keymap.vim_search.forward"@);
    let e1 = value_error(c.backward, "tui.keymap.vim_search.backward"@);
    let e2 = value_error(c.next, "tui.keymap.vim_search.next"@);
    let e3 = value_error(c.previous, "tui.keymap.vim_search.previous"@);
    if e0 is Some {
        e0
    } else if e1 is Some {
        e1
    } else if e2 is Some {
        e2
    } else if e3 is Some {
        e3
    } else {
        None
    }
}

/// The first parse error among the list actions, the older ones first.
pub open spec fn list_error(c: ListKeymapConfig) -> Option<Seq<char>> {
    let e0 = value_error(c.move_up, "tui.keymap.list.move_up"@);
    let e1 = value_error(c.move_down, "tui.keymap.list.move_down"@);
    let e2 = value_error(c.accept, "tui.keymap.list.accept"@);
    let e3 = value_error(c.cancel, "tui.keymap.list.cancel"@);
    let e4 = value_error(c.move_left, "tui.keymap.list.move_left"@);
    let e5 = value_error(c.move_right, "tui.keymap.list.move_right"@);
    let e6 = value_error(c.page_up, "tui.keymap.list.page_up"@);
    let e7 = value_error(c.page_down, "tui.keymap.list.page_down"@);
    let e8 = value_error(c.jump_top, "tui.keymap.list.jump_top"@);
    let e9 = value_error(c.jump_bottom, "tui.keymap.list.jump_bottom"@);
    if e0 is Some {
        e0
    } else if e1 is Some {
        e1
    } else if e2 is Some {
        e2
    } else if e3 is Some {
        e3
    } else if e4 is Some {
        e4
    } else if e5 is Some {
        e5
    } else if e6 is Some {
        e6
    } else if e7 is Some {
        e7
    } else if e8 is Some {
        e8
    } else if e9 is Some {
        e9
    } else {
        None
    }
}

/// The first parse error of the whole configuration, in resolution order.
pub open spec fn parse_error(k: TuiKeymap) -> Option<Seq<char>> {
    let e0 = app_error(k.global);
    let e1 = chat_error(k.chat);
    let e2 = composer_error(k.composer, k.global);
    let e3 = editor_error(k.editor);
    let e4 = vim_normal_error(k.vim_normal);
    let e5 = vim_operator_error(k.vim_operator);
    let e6 = vim_text_object_error(k.vim_text_object);
    let e7 = pager_error(k.pager);
    let e8 = agents_error(k.agents);
    let e9 = approval_error(k.approval);
    let e10 = list_error(k.list);
    let e11 = vim_search_error(k.vim_search);
    if e0 is Some {
        e0
    } else if e1 is Some {
        e1
    } else if e2 is Some {
        e2
    } else if e3 is Some {
        e3
    } else if e4 is Some {
        e4
    } else if e5 is Some {
        e5
    } else if e6 is Some {
        e6
    } else if e7 is Some {
        e7
    } else if e8 is Some {
        e8
    } else if e9 is Some {
        e9
    } else if e10 is Some {
        e10
    } else if e11 is Some {
        e11
    } else {
        None
    }
}

/// The resolved main-surface actions.
pub open spec fn app_model(k: TuiKeymap) -> AppModel {
    let g = k.global;
    let d = default_app();
    AppModel {
        open_agents: resolved_or(g.open_agents, d.open_agents),
        open_transcript: resolved_or(g.open_transcript, d.open_transcript),
        open_external_editor: resolved_or(g.open_external_editor, d.open_external_editor),
        copy: resolved_or(g.copy, d.copy),
        clear_terminal: resolved_or(g.clear_terminal, d.clear_terminal),
        toggle_vim_mode: resolved_or(g.toggle_vim_mode, d.toggle_vim_mode),
        toggle_fast_mode: resolved_or(g.toggle_fast_mode, d.toggle_fast_mode),
        toggle_raw_output: resolved_or(g.toggle_raw_output, d.toggle_raw_output),
        toggle_side_conversation: if side_toggle_default_is_shadowed(k) {
            Seq::empty()
        } else {
            resolved_or(g.toggle_side_conversation, d.toggle_side_conversation)
        },
    }
}

/// The chat actions as configured, before fallback keys yield.
pub open spec fn chat_base(c: ChatKeymapConfig) -> ChatModel {
    let d = default_chat();
    ChatModel {
        interrupt_turn: resolved_or(c.interrupt_turn, d.interrupt_turn),
        decrease_reasoning_effort: resolved_or(c.decrease_reasoning_effort, d.decrease_reasoning_effort),
        increase_reasoning_effort: resolved_or(c.increase_reasoning_effort, d.increase_reasoning_effort),
        previous_permission_mode: resolved_or(c.previous_permission_mode, d.previous_permission_mode),
        next_permission_mode: resolved_or(c.next_permission_mode, d.next_permission_mode),
        edit_queued_message: resolved_or(c.edit_queued_message, d.edit_queued_message),
        prompt_stack_back: resolved_or(c.prompt_stack_back, d.prompt_stack_back),
        skip_question: resolved_or(c.skip_question, d.skip_question),
    }
}

/// The resolved chat actions: question and reasoning fallback keys yield to
/// explicit bindings of the same key on their input path.
pub open spec fn chat_model(k: TuiKeymap) -> ChatModel {
    let c = k.chat;
    let base = chat_base(c);
    ChatModel {
        decrease_reasoning_effort: if c.decrease_reasoning_effort is None && main_surface_uses(k, binding_of(KeyCode::Down, KeyModifiers { shift: true, ..no_modifiers() })) {
            without(base.decrease_reasoning_effort, seq![binding_of(KeyCode::Down, KeyModifiers { shift: true, ..no_modifiers() })])
        } else {
            base.decrease_reasoning_effort
        },
        increase_reasoning_effort: if c.increase_reasoning_effort is None && main_surface_uses(k, binding_of(KeyCode::Up, KeyModifiers { shift: true, ..no_modifiers() })) {
            without(base.increase_reasoning_effort, seq![binding_of(KeyCode::Up, KeyModifiers { shift: true, ..no_modifiers() })])
        } else {
            base.increase_reasoning_effort
        },
        prompt_stack_back: yield_unset(c.prompt_stack_back, base.prompt_stack_back, claimed_if(question_alias_in_use(k, binding_of(KeyCode::Down, KeyModifiers { alt: true, ..no_modifiers() })), binding_of(KeyCode::Down, KeyModifiers { alt: true, ..no_modifiers() })) + claimed_if(question_alias_in_use(k, binding_of(KeyCode::Right, KeyModifiers { shift: true, ..no_modifiers() })), binding_of(KeyCode::Right, KeyModifiers { shift: true, ..no_modifiers() }))),
        skip_question: yield_unset(c.skip_question, base.skip_question, claimed_if(question_alias_in_use(k, binding_of(KeyCode::Char(']'), KeyModifiers { control: true, ..no_modifiers() })), binding_of(KeyCode::Char(']'), KeyModifiers { control: true, ..no_modifiers() }))),
        ..base
    }
}

/// The resolved composer actions; submit, queue and the shortcut overlay
/// fall back to their `global` values.
pub open spec fn composer_model(c: ComposerKeymapConfig, g: GlobalKeymapConfig) -> ComposerModel {
    let d = default_composer();
    ComposerModel {
        submit: global_resolved_or(c.submit, g.submit, d.submit),
        queue: global_resolved_or(c.queue, g.queue, d.queue),
        toggle_shortcuts: global_resolved_or(c.toggle_shortcuts, g.toggle_shortcuts, d.toggle_shortcuts),
        history_search_previous: resolved_or(c.history_search_previous, d.history_search_previous),
        history_search_next: resolved_or(c.history_search_next, d.history_search_next),
    }
}

/// The resolved editor actions.
pub open spec fn editor_model(c: EditorKeymapConfig) -> EditorModel {
    let d = default_editor();
    EditorModel {
        insert_newline: resolved_or(c.insert_newline, d.insert_newline),
        move_left: resolved_or(c.move_left, d.move_left),
        move_right: resolved_or(c.move_right, d.move_right),
        move_up: resolved_or(c.move_up, d.move_up),
        move_down: resolved_or(c.move_down, d.move_down),
        move_word_left: resolved_or(c.move_word_left, d.move_word_left),
        move_word_right: resolved_or(c.move_word_right, d.move_word_right),
        move_line_start: resolved_or(c.move_line_start, d.move_line_start),
        move_line_end: resolved_or(c.move_line_end, d.move_line_end),
        delete_backward: resolved_or(c.delete_backward, d.delete_backward),
        delete_forward: resolved_or(c.delete_forward, d.delete_forward),
        delete_backward_word: resolved_or(c.delete_backward_word, d.delete_backward_word),
        delete_forward_word: resolved_or(c.delete_forward_word, d.delete_forward_word),
        kill_line_start: resolved_or(c.kill_line_start, d.kill_line_start),
        kill_whole_line: resolved_or(c.kill_whole_line, d.kill_whole_line),
        kill_line_end: resolved_or(c.kill_line_end, d.kill_line_end),
        yank: resolved_or(c.yank, d.yank),
    }
}

/// The Vim normal-mode actions as configured, before newer built-in keys yield.
pub open spec fn vim_normal_base(c: VimNormalKeymapConfig) -> VimNormalModel {
    let d = default_vim_normal();
    VimNormalModel {
        enter_insert: resolved_or(c.enter_insert, d.enter_insert),
        append_after_cursor: resolved_or(c.append_after_cursor, d.append_after_cursor),
        append_line_end: resolved_or(c.append_line_end, d.append_line_end),
        insert_line_start: resolved_or(c.insert_line_start, d.insert_line_start),
        open_line_below: resolved_or(c.open_line_below, d.open_line_below),
        open_line_above: resolved_or(c.open_line_above, d.open_line_above),
        enter_replace_mode: resolved_or(c.enter_replace_mode, d.enter_replace_mode),
        move_left: resolved_or(c.move_left, d.move_left),
        move_right: resolved_or(c.move_right, d.move_right),
        move_up: resolved_or(c.move_up, d.move_up),
        move_down: resolved_or(c.move_down, d.move_down),
        move_word_forward: resolved_or(c.move_word_forward, d.move_word_forward),
        move_word_backward: resolved_or(c.move_word_backward, d.move_word_backward),
        move_word_end: resolved_or(c.move_word_end, d.move_word_end),
        move_line_start: resolved_or(c.move_line_start, d.move_line_start),
        move_line_end: resolved_or(c.move_line_end, d.move_line_end),
        find_forward: resolved_or(c.find_forward, d.find_forward),
        find_backward: resolved_or(c.find_backward, d.find_backward),
        till_forward: resolved_or(c.till_forward, d.till_forward),
        till_backward: resolved_or(c.till_backward, d.till_backward),
        jump_top: resolved_or(c.jump_top, d.jump_top),
        jump_bottom: resolved_or(c.jump_bottom, d.jump_bottom),
        delete_char: resolved_or(c.delete_char, d.delete_char),
        replace_char: resolved_or(c.replace_char, d.replace_char),
        repeat_last_change: resolved_or(c.repeat_last_change, d.repeat_last_change),
        substitute_char: resolved_or(c.substitute_char, d.substitute_char),
        delete_to_line_end: resolved_or(c.delete_to_line_end, d.delete_to_line_end),
        change_to_line_end: resolved_or(c.change_to_line_end, d.change_to_line_end),
        yank_line: resolved_or(c.yank_line, d.yank_line),
        paste_after: resolved_or(c.paste_after, d.paste_after),
        start_delete_operator: resolved_or(c.start_delete_operator, d.start_delete_operator),
        start_yank_operator: resolved_or(c.start_yank_operator, d.start_yank_operator),
        start_change_operator: resolved_or(c.start_change_operator, d.start_change_operator),
        undo: resolved_or(c.undo, d.undo),
        redo: resolved_or(c.redo, d.redo),
        cancel_operator: resolved_or(c.cancel_operator, d.cancel_operator),
    }
}

/// `acc` extended with the keys of the configured Vim normal-mode actions.
pub open spec fn vim_normal_claims(acc: Seq<KeyBinding>, c: VimNormalKeymapConfig, m: VimNormalModel) -> Seq<KeyBinding> {
    let acc = acc;
    let acc = claim(acc, c.enter_insert is Some, m.enter_insert);
    let acc = claim(acc, c.append_after_cursor is Some, m.append_after_cursor);
    let acc = claim(acc, c.append_line_end is Some, m.append_line_end);
    let acc = claim(acc, c.insert_line_start is Some, m.insert_line_start);
    let acc = claim(acc, c.open_line_below is Some, m.open_line_below);
    let acc = claim(acc, c.open_line_above is Some, m.open_line_above);
    let acc = claim(acc, c.enter_replace_mode is Some, m.enter_replace_mode);
    let acc = claim(acc, c.move_left is Some, m.move_left);
    let acc = claim(acc, c.move_right is Some, m.move_right);
    let acc = claim(acc, c.move_up is Some, m.move_up);
    let acc = claim(acc, c.move_down is Some, m.move_down);
    let acc = claim(acc, c.move_word_forward is Some, m.move_word_forward);
    let acc = claim(acc, c.move_word_backward is Some, m.move_word_backward);
    let acc = claim(acc, c.move_word_end is Some, m.move_word_end);
    let acc = claim(acc, c.move_line_start is Some, m.move_line_start);
    let acc = claim(acc, c.move_line_end is Some, m.move_line_end);
    let acc = claim(acc, c.find_forward is Some, m.find_forward);
    let acc = claim(acc, c.find_backward is Some, m.find_backward);
    let acc = claim(acc, c.till_forward is Some, m.till_forward);
    let acc = claim(acc, c.till_backward is Some, m.till_backward);
    let acc = claim(acc, c.jump_top is Some, m.jump_top);
    let acc = claim(acc, c.jump_bottom is Some, m.jump_bottom);
    let acc = claim(acc, c.delete_char is Some, m.delete_char);
    let acc = claim(acc, c.replace_char is Some, m.replace_char);
    let acc = claim(acc, c.substitute_char is Some, m.substitute_char);
    let acc = claim(acc, c.repeat_last_change is Some, m.repeat_last_change);
    let acc = claim(acc, c.change_to_line_end is Some, m.change_to_line_end);
    let acc = claim(acc, c.delete_to_line_end is Some, m.delete_to_line_end);
    let acc = claim(acc, c.yank_line is Some, m.yank_line);
    let acc = claim(acc, c.paste_after is Some, m.paste_after);
    let acc = claim(acc, c.start_delete_operator is Some, m.start_delete_operator);
    let acc = claim(acc, c.start_yank_operator is Some, m.start_yank_operator);
    let acc = claim(acc, c.start_change_operator is Some, m.start_change_operator);
    let acc = claim(acc, c.undo is Some, m.undo);
    let acc = claim(acc, c.redo is Some, m.redo);
    let acc = claim(acc, c.cancel_operator is Some, m.cancel_operator);
    acc
}

/// The Vim normal-mode actions after the built-in keys of newer actions
/// yield to keys configured for any normal-mode action.
pub open spec fn vim_normal_model(c: VimNormalKeymapConfig) -> VimNormalModel {
    let base = vim_normal_base(c);
    let claimed = vim_normal_claims(Seq::empty(), c, base);
    VimNormalModel {
        start_change_operator: yield_unset(c.start_change_operator, base.start_change_operator, claimed),
        substitute_char: yield_unset(c.substitute_char, base.substitute_char, claimed),
        replace_char: yield_unset(c.replace_char, base.replace_char, claimed),
        repeat_last_change: yield_unset(c.repeat_last_change, base.repeat_last_change, claimed),
        find_forward: yield_unset(c.find_forward, base.find_forward, claimed),
        find_backward: yield_unset(c.find_backward, base.find_backward, claimed),
        till_forward: yield_unset(c.till_forward, base.till_forward, claimed),
        till_backward: yield_unset(c.till_backward, base.till_backward, claimed),
        jump_top: yield_unset(c.jump_top, base.jump_top, claimed),
        jump_bottom: yield_unset(c.jump_bottom, base.jump_bottom, claimed),
        ..base
    }
}

/// The Vim operator-pending actions as configured, before newer built-in keys yield.
pub open spec fn vim_operator_base(c: VimOperatorKeymapConfig) -> VimOperatorModel {
    let d = default_vim_operator();
    VimOperatorModel {
        delete_line: resolved_or(c.delete_line, d.delete_line),
        yank_line: resolved_or(c.yank_line, d.yank_line),
        motion_left: resolved_or(c.motion_left, d.motion_left),
        motion_right: resolved_or(c.motion_right, d.motion_right),
        motion_up: resolved_or(c.motion_up, d.motion_up),
        motion_down: resolved_or(c.motion_down, d.motion_down),
        motion_word_forward: resolved_or(c.motion_word_forward, d.motion_word_forward),
        motion_word_backward: resolved_or(c.motion_word_backward, d.motion_word_backward),
        motion_word_end: resolved_or(c.motion_word_end, d.motion_word_end),
        motion_line_start: resolved_or(c.motion_line_start, d.motion_line_start),
        motion_line_end: resolved_or(c.motion_line_end, d.motion_line_end),
        motion_find_forward: resolved_or(c.motion_find_forward, d.motion_find_forward),
        motion_find_backward: resolved_or(c.motion_find_backward, d.motion_find_backward),
        motion_till_forward: resolved_or(c.motion_till_forward, d.motion_till_forward),
        motion_till_backward: resolved_or(c.motion_till_backward, d.motion_till_backward),
        motion_jump_top: resolved_or(c.motion_jump_top, d.motion_jump_top),
        motion_jump_bottom: resolved_or(c.motion_jump_bottom, d.motion_jump_bottom),
        select_inner_text_object: resolved_or(c.select_inner_text_object, d.select_inner_text_object),
        select_around_text_object: resolved_or(c.select_around_text_object, d.select_around_text_object),
        cancel: resolved_or(c.cancel, d.cancel),
    }
}

/// `acc` extended with the keys of the configured older Vim operator-pending actions.
pub open spec fn vim_operator_claims(acc: Seq<KeyBinding>, c: VimOperatorKeymapConfig, m: VimOperatorModel) -> Seq<KeyBinding> {
    let acc = acc;
    let acc = claim(acc, c.delete_line is Some, m.delete_line);
    let acc = claim(acc, c.yank_line is Some, m.yank_line);
    let acc = claim(acc, c.motion_left is Some, m.motion_left);
    let acc = claim(acc, c.motion_right is Some, m.motion_right);
    let acc = claim(acc, c.motion_up is Some, m.motion_up);
    let acc = claim(acc, c.motion_down is Some, m.motion_down);
    let acc = claim(acc, c.motion_word_forward is Some, m.motion_word_forward);
    let acc = claim(acc, c.motion_word_backward is Some, m.motion_word_backward);
    let acc = claim(acc, c.motion_word_end is Some, m.motion_word_end);
    let acc = claim(acc, c.motion_line_start is Some, m.motion_line_start);
    let acc = claim(acc, c.motion_line_end is Some, m.motion_line_end);
    let acc = claim(acc, c.motion_find_forward is Some, m.motion_find_forward);
    let acc = claim(acc, c.motion_find_backward is Some, m.motion_find_backward);
    let acc = claim(acc, c.motion_till_forward is Some, m.motion_till_forward);
    let acc = claim(acc, c.motion_till_backward is Some, m.motion_till_backward);
    let acc = claim(acc, c.motion_jump_top is Some, m.motion_jump_top);
    let acc = claim(acc, c.motion_jump_bottom is Some, m.motion_jump_bottom);
    let acc = claim(acc, c.cancel is Some, m.cancel);
    acc
}

/// The Vim operator-pending actions after the built-in keys of text objects
/// and newer motions yield to configured keys.
pub open spec fn vim_operator_model(c: VimOperatorKeymapConfig) -> VimOperatorModel {
    let base = vim_operator_base(c);
    let claimed = vim_operator_claims(Seq::empty(), c, base);
    VimOperatorModel {
        select_inner_text_object: yield_unset(c.select_inner_text_object, base.select_inner_text_object, claimed),
        select_around_text_object: yield_unset(c.select_around_text_object, base.select_around_text_object, claimed),
        motion_find_forward: yield_unset(c.motion_find_forward, base.motion_find_forward, claimed),
        motion_find_backward: yield_unset(c.motion_find_backward, base.motion_find_backward, claimed),
        motion_till_forward: yield_unset(c.motion_till_forward, base.motion_till_forward, claimed),
        motion_till_backward: yield_unset(c.motion_till_backward, base.motion_till_backward, claimed),
        motion_jump_top: yield_unset(c.motion_jump_top, base.motion_jump_top, claimed),
        motion_jump_bottom: yield_unset(c.motion_jump_bottom, base.motion_jump_bottom, claimed),
        ..base
    }
}

/// The resolved vim text object actions.
pub open spec fn vim_text_object_model(c: VimTextObjectKeymapConfig) -> VimTextObjectModel {
    let d = default_vim_text_object();
    VimTextObjectModel {
        word: resolved_or(c.word, d.word),
        big_word: resolved_or(c.big_word, d.big_word),
        parentheses: resolved_or(c.parentheses, d.parentheses),
        brackets: resolved_or(c.brackets, d.brackets),
        braces: resolved_or(c.braces, d.braces),
        double_quote: resolved_or(c.double_quote, d.double_quote),
        single_quote: resolved_or(c.single_quote, d.single_quote),
        backtick: resolved_or(c.backtick, d.backtick),
        cancel: resolved_or(c.cancel, d.cancel),
    }
}

/// The resolved pager actions.
pub open spec fn pager_model(c: PagerKeymapConfig) -> PagerModel {
    let d = default_pager();
    PagerModel {
        scroll_up: resolved_or(c.scroll_up, d.scroll_up),
        scroll_down: resolved_or(c.scroll_down, d.scroll_down),
        page_up: resolved_or(c.page_up, d.page_up),
        page_down: resolved_or(c.page_down, d.page_down),
        half_page_up: resolved_or(c.half_page_up, d.half_page_up),
        half_page_down: resolved_or(c.half_page_down, d.half_page_down),
        jump_top: resolved_or(c.jump_top, d.jump_top),
        jump_bottom: resolved_or(c.jump_bottom, d.jump_bottom),
        close: resolved_or(c.close, d.close),
        close_transcript: resolved_or(c.close_transcript, d.close_transcript),
    }
}

/// The resolved approval actions.
pub open spec fn approval_model(c: ApprovalKeymapConfig) -> ApprovalModel {
    let d = default_approval();
    ApprovalModel {
        open_fullscreen: resolved_or(c.open_fullscreen, d.open_fullscreen),
        open_thread: resolved_or(c.open_thread, d.open_thread),
        approve: resolved_or(c.approve, d.approve),
        approve_for_session: resolved_or(c.approve_for_session, d.approve_for_session),
        approve_for_prefix: resolved_or(c.approve_for_prefix, d.approve_for_prefix),
        deny: resolved_or(c.deny, d.deny),
        decline: resolved_or(c.decline, d.decline),
        cancel: resolved_or(c.cancel, d.cancel),
    }
}

/// The Vim search actions as configured, before built-in keys yield.
pub open spec fn vim_search_base(c: VimSearchKeymapConfig) -> VimSearchModel {
    let d = default_vim_search();
    VimSearchModel {
        forward: resolved_or(c.forward, d.forward),
        backward: resolved_or(c.backward, d.backward),
        next: resolved_or(c.next, d.next),
        previous: resolved_or(c.previous, d.previous),
    }
}

/// The resolved agents dashboard actions.
pub open spec fn agents_model(k: TuiKeymap) -> AgentsModel {
    let c = k.agents;
    let d = default_agents();
    AgentsModel {
        resume: if resume_default_is_shadowed(k) {
            Seq::empty()
        } else {
            resolved_or(c.resume, d.resume)
        },
        search: resolved_or(c.search, d.search),
        new_task: resolved_or(c.new_task, d.new_task),
        rename: resolved_or(c.rename, d.rename),
        stop: resolved_or(c.stop, d.stop),
        toggle_grouping: resolved_or(c.toggle_grouping, d.toggle_grouping),
    }
}

/// The keys of the configured main-surface, older list and approval actions.
pub open spec fn list_claims(k: TuiKeymap, app: AppModel, approval: ApprovalModel, move_up: Seq<KeyBinding>, move_down: Seq<KeyBinding>, accept: Seq<KeyBinding>, cancel: Seq<KeyBinding>) -> Seq<KeyBinding> {
    let acc = Seq::empty();
    let acc = claim(acc, k.global.open_agents is Some, app.open_agents);
    let acc = claim(acc, k.global.open_transcript is Some, app.open_transcript);
    let acc = claim(acc, k.global.open_external_editor is Some, app.open_external_editor);
    let acc = claim(acc, k.global.copy is Some, app.copy);
    let acc = claim(acc, k.global.clear_terminal is Some, app.clear_terminal);
    let acc = claim(acc, k.global.toggle_vim_mode is Some, app.toggle_vim_mode);
    let acc = claim(acc, k.global.toggle_fast_mode is Some, app.toggle_fast_mode);
    let acc = claim(acc, k.global.toggle_raw_output is Some, app.toggle_raw_output);
    let acc = claim(acc, k.global.toggle_side_conversation is Some, app.toggle_side_conversation);
    let acc = claim(acc, k.list.move_up is Some, move_up);
    let acc = claim(acc, k.list.move_down is Some, move_down);
    let acc = claim(acc, k.list.accept is Some, accept);
    let acc = claim(acc, k.list.cancel is Some, cancel);
    let acc = claim(acc, k.approval.open_fullscreen is Some, approval.open_fullscreen);
    let acc = claim(acc, k.approval.open_thread is Some, approval.open_thread);
    let acc = claim(acc, k.approval.approve is Some, approval.approve);
    let acc = claim(acc, k.approval.approve_for_session is Some, approval.approve_for_session);
    let acc = claim(acc, k.approval.approve_for_prefix is Some, approval.approve_for_prefix);
    let acc = claim(acc, k.approval.deny is Some, approval.deny);
    let acc = claim(acc, k.approval.decline is Some, approval.decline);
    let acc = claim(acc, k.approval.cancel is Some, approval.cancel);
    acc
}

/// The resolved list actions: the built-in keys of the newer actions yield
/// to keys configured for main-surface, older list and approval actions.
pub open spec fn list_model(k: TuiKeymap, app: AppModel, approval: ApprovalModel) -> ListModel {
    let c = k.list;
    let d = default_list();
    let move_up = resolved_or(c.move_up, d.move_up);
    let move_down = resolved_or(c.move_down, d.move_down);
    let accept = resolved_or(c.accept, d.accept);
    let cancel = resolved_or(c.cancel, d.cancel);
    let claimed = list_claims(k, app, approval, move_up, move_down, accept, cancel);
    ListModel {
        move_up: move_up,
        move_down: move_down,
        move_left: new_default_or(c.move_left, d.move_left, claimed),
        move_right: new_default_or(c.move_right, d.move_right, claimed),
        page_up: new_default_or(c.page_up, d.page_up, claimed),
        page_down: new_default_or(c.page_down, d.page_down, claimed),
        jump_top: new_default_or(c.jump_top, d.jump_top, claimed),
        jump_bottom: new_default_or(c.jump_bottom, d.jump_bottom, claimed),
        accept: accept,
        cancel: cancel,
    }
}

/// The keys of the configured actions on the Vim normal-mode input path:
/// normal mode, search and the composer.
pub open spec fn vim_history_claims(k: TuiKeymap, vn: VimNormalModel, vs: VimSearchModel, cm: ComposerModel) -> Seq<KeyBinding> {
    let acc = Seq::empty();
    let acc = claim(acc, k.vim_normal.enter_insert is Some, vn.enter_insert);
    let acc = claim(acc, k.vim_normal.append_after_cursor is Some, vn.append_after_cursor);
    let acc = claim(acc, k.vim_normal.append_line_end is Some, vn.append_line_end);
    let acc = claim(acc, k.vim_normal.insert_line_start is Some, vn.insert_line_start);
    let acc = claim(acc, k.vim_normal.open_line_below is Some, vn.open_line_below);
    let acc = claim(acc, k.vim_normal.open_line_above is Some, vn.open_line_above);
    let acc = claim(acc, k.vim_normal.enter_replace_mode is Some, vn.enter_replace_mode);
    let acc = claim(acc, k.vim_normal.move_left is Some, vn.move_left);
    let acc = claim(acc, k.vim_normal.move_right is Some, vn.move_right);
    let acc = claim(acc, k.vim_normal.move_up is Some, vn.move_up);
    let acc = claim(acc, k.vim_normal.move_down is Some, vn.move_down);
    let acc = claim(acc, k.vim_normal.move_word_forward is Some, vn.move_word_forward);
    let acc = claim(acc, k.vim_normal.move_word_backward is Some, vn.move_word_backward);
    let acc = claim(acc, k.vim_normal.move_word_end is Some, vn.move_word_end);
    let acc = claim(acc, k.vim_normal.move_line_start is Some, vn.move_line_start);
    let acc = claim(acc, k.vim_normal.move_line_end is Some, vn.move_line_end);
    let acc = claim(acc, k.vim_normal.find_forward is Some, vn.find_forward);
    let acc = claim(acc, k.vim_normal.find_backward is Some, vn.find_backward);
    let acc = claim(acc, k.vim_normal.till_forward is Some, vn.till_forward);
    let acc = claim(acc, k.vim_normal.till_backward is Some, vn.till_backward);
    let acc = claim(acc, k.vim_normal.jump_top is Some, vn.jump_top);
    let acc = claim(acc, k.vim_normal.jump_bottom is Some, vn.jump_bottom);
    let acc = claim(acc, k.vim_normal.delete_char is Some, vn.delete_char);
    let acc = claim(acc, k.vim_normal.replace_char is Some, vn.replace_char);
    let acc = claim(acc, k.vim_normal.repeat_last_change is Some, vn.repeat_last_change);
    let acc = claim(acc, k.vim_normal.substitute_char is Some, vn.substitute_char);
    let acc = claim(acc, k.vim_normal.delete_to_line_end is Some, vn.delete_to_line_end);
    let acc = claim(acc, k.vim_normal.change_to_line_end is Some, vn.change_to_line_end);
    let acc = claim(acc, k.vim_normal.yank_line is Some, vn.yank_line);
    let acc = claim(acc, k.vim_normal.paste_after is Some, vn.paste_after);
    let acc = claim(acc, k.vim_normal.start_delete_operator is Some, vn.start_delete_operator);
    let acc = claim(acc, k.vim_normal.start_yank_operator is Some, vn.start_yank_operator);
    let acc = claim(acc, k.vim_normal.start_change_operator is Some, vn.start_change_operator);
    let acc = claim(acc, k.vim_normal.undo is Some, vn.undo);
    let acc = claim(acc, k.vim_normal.redo is Some, vn.redo);
    let acc = claim(acc, k.vim_normal.cancel_operator is Some, vn.cancel_operator);
    let acc = claim(acc, k.vim_search.forward is Some, vs.forward);
    let acc = claim(acc, k.vim_search.backward is Some, vs.backward);
    let acc = claim(acc, k.vim_search.next is Some, vs.next);
    let acc = claim(acc, k.vim_search.previous is Some, vs.previous);
    let acc = claim(acc, k.composer.submit is Some || k.global.submit is Some, cm.submit);
    let acc = claim(acc, k.composer.queue is Some || k.global.queue is Some, cm.queue);
    let acc = claim(acc, k.composer.toggle_shortcuts is Some || k.global.toggle_shortcuts is Some, cm.toggle_shortcuts);
    let acc = claim(acc, k.composer.history_search_previous is Some, cm.history_search_previous);
    let acc = claim(acc, k.composer.history_search_next is Some, cm.history_search_next);
    acc
}

/// The Vim normal-mode actions after undo, redo and replace mode yield to
/// keys configured on their input path.
pub open spec fn vim_normal_final(k: TuiKeymap, vn: VimNormalModel, vs: VimSearchModel, cm: ComposerModel) -> VimNormalModel {
    let claimed = vim_history_claims(k, vn, vs, cm);
    VimNormalModel {
        undo: yield_unset(k.vim_normal.undo, vn.undo, claimed),
        redo: yield_unset(k.vim_normal.redo, vn.redo, claimed),
        enter_replace_mode: yield_unset(k.vim_normal.enter_replace_mode, vn.enter_replace_mode, claimed),
        ..vn
    }
}

/// The Vim search actions after their built-in keys yield to keys configured
/// for Vim normal-mode and operator-pending actions.
pub open spec fn vim_search_model(k: TuiKeymap, vn: VimNormalModel, vo: VimOperatorModel, vs: VimSearchModel) -> VimSearchModel {
    let claimed = vim_operator_claims(vim_normal_claims(Seq::empty(), k.vim_normal, vn), k.vim_operator, vo);
    VimSearchModel {
        forward: yield_unset(k.vim_search.forward, vs.forward, claimed),
        backward: yield_unset(k.vim_search.backward, vs.backward, claimed),
        next: yield_unset(k.vim_search.next, vs.next, claimed),
        previous: yield_unset(k.vim_search.previous, vs.previous, claimed),
    }
}

/// The runtime keymap that a configuration resolves to when it parses.
pub open spec fn resolved_view(k: TuiKeymap) -> KeymapView {
    let app = app_model(k);
    let composer = composer_model(k.composer, k.global);
    let approval = approval_model(k.approval);
    let vim_normal = vim_normal_final(
        k,
        vim_normal_model(k.vim_normal),
        vim_search_base(k.vim_search),
        composer,
    );
    let vim_operator = vim_operator_model(k.vim_operator);
    KeymapView {
        app,
        chat: chat_model(k),
        composer,
        editor: editor_model(k.editor),
        vim_normal,
        vim_operator,
        vim_search: vim_search_model(k, vim_normal, vim_operator, vim_search_base(k.vim_search)),
        vim_text_object: vim_text_object_model(k.vim_text_object),
        pager: pager_model(k.pager),
        list: list_model(k, app, approval),
        agents: agents_model(k),
        approval,
    }
}

/// Resolve the main-surface actions.
fn resolve_app(k: &TuiKeymap, d: &AppKeymap) -> (r: Result<AppKeymap, String>)
    requires
        d@ == default_app(),
    ensures
        match r {
            Ok(m) => app_error(k.global) is None && m@ == app_model(*k),
            Err(e) => app_error(k.global) == Some(e@),
        },
{
    let shadowed = side_toggle_shadowed(k);
    let open_agents = resolve_bindings(&k.global.open_agents, d.open_agents.as_slice(), "tui.keymap.global.open_agents")?;
    let open_transcript = resolve_bindings(&k.global.open_transcript, d.open_transcript.as_slice(), "tui.keymap.global.open_transcript")?;
    let open_external_editor = resolve_bindings(&k.global.open_external_editor, d.open_external_editor.as_slice(), "tui.keymap.global.open_external_editor")?;
    let copy = resolve_bindings(&k.global.copy, d.copy.as_slice(), "tui.keymap.global.copy")?;
    let clear_terminal = resolve_bindings(&k.global.clear_terminal, d.clear_terminal.as_slice(), "tui.keymap.global.clear_terminal")?;
    let toggle_vim_mode = resolve_bindings(&k.global.toggle_vim_mode, d.toggle_vim_mode.as_slice(), "tui.keymap.global.toggle_vim_mode")?;
    let toggle_fast_mode = resolve_bindings(&k.global.toggle_fast_mode, d.toggle_fast_mode.as_slice(), "tui.keymap.global.toggle_fast_mode")?;
    let toggle_raw_output = resolve_bindings(&k.global.toggle_raw_output, d.toggle_raw_output.as_slice(), "tui.keymap.global.toggle_raw_output")?;
    let toggle_side_conversation = if shadowed {
        Vec::new()
    } else {
        resolve_bindings(
            &k.global.toggle_side_conversation,
            d.toggle_side_conversation.as_slice(),
            "tui.keymap.global.toggle_side_conversation",
        )?
    };
    Ok(
        AppKeymap {
            open_agents,
            open_transcript,
            open_external_editor,
            copy,
            clear_terminal,
            toggle_vim_mode,
            toggle_fast_mode,
            toggle_raw_output,
            toggle_side_conversation,
        }
    )
}

/// Resolve the chat actions; fallback keys yield to explicit bindings on their input path.
fn resolve_chat(k: &TuiKeymap, d: &ChatKeymap) -> (r: Result<ChatKeymap, String>)
    requires
        d@ == default_chat(),
    ensures
        match r {
            Ok(m) => chat_error(k.chat) is None && m@ == chat_model(*k),
            Err(e) => chat_error(k.chat) == Some(e@),
        },
{
    let interrupt_turn = resolve_bindings(&k.chat.interrupt_turn, d.interrupt_turn.as_slice(), "tui.keymap.chat.interrupt_turn")?;
    let decrease_reasoning_effort = resolve_bindings(&k.chat.decrease_reasoning_effort, d.decrease_reasoning_effort.as_slice(), "tui.keymap.chat.decrease_reasoning_effort")?;
    let increase_reasoning_effort = resolve_bindings(&k.chat.increase_reasoning_effort, d.increase_reasoning_effort.as_slice(), "tui.keymap.chat.increase_reasoning_effort")?;
    let previous_permission_mode = resolve_bindings(&k.chat.previous_permission_mode, d.previous_permission_mode.as_slice(), "tui.keymap.chat.previous_permission_mode")?;
    let next_permission_mode = resolve_bindings(&k.chat.next_permission_mode, d.next_permission_mode.as_slice(), "tui.keymap.chat.next_permission_mode")?;
    let edit_queued_message = resolve_bindings(&k.chat.edit_queued_message, d.edit_queued_message.as_slice(), "tui.keymap.chat.edit_queued_message")?;
    let prompt_stack_back = resolve_bindings(&k.chat.prompt_stack_back, d.prompt_stack_back.as_slice(), "tui.keymap.chat.prompt_stack_back")?;
    let skip_question = resolve_bindings(&k.chat.skip_question, d.skip_question.as_slice(), "tui.keymap.chat.skip_question")?;
    let decrease_reasoning_effort = if k.chat.decrease_reasoning_effort.is_none()
        && configured_main_surface_alias_is_used(k, shift(KeyCode::Down)) {
        let mut claimed: Vec<KeyBinding> = Vec::new();
        claimed.push(shift(KeyCode::Down));
        proof {
            assert(claimed@ =~= seq![binding_of(KeyCode::Down, KeyModifiers { shift: true, ..no_modifiers() })]);
        }
        retain_without(decrease_reasoning_effort.as_slice(), claimed.as_slice())
    } else {
        decrease_reasoning_effort
    };
    let increase_reasoning_effort = if k.chat.increase_reasoning_effort.is_none()
        && configured_main_surface_alias_is_used(k, shift(KeyCode::Up)) {
        let mut claimed: Vec<KeyBinding> = Vec::new();
        claimed.push(shift(KeyCode::Up));
        proof {
            assert(claimed@ =~= seq![binding_of(KeyCode::Up, KeyModifiers { shift: true, ..no_modifiers() })]);
        }
        retain_without(increase_reasoning_effort.as_slice(), claimed.as_slice())
    } else {
        increase_reasoning_effort
    };
    let prompt_stack_back = if k.chat.prompt_stack_back.is_none() {
        let mut claimed: Vec<KeyBinding> = Vec::new();
        if question_alias_is_used(k, alt(KeyCode::Down)) {
            claimed.push(alt(KeyCode::Down));
        }
        if question_alias_is_used(k, shift(KeyCode::Right)) {
            claimed.push(shift(KeyCode::Right));
        }
        proof {
            assert(claimed@ =~= claimed_if(question_alias_in_use(*k, binding_of(KeyCode::Down, KeyModifiers { alt: true, ..no_modifiers() })), binding_of(KeyCode::Down, KeyModifiers { alt: true, ..no_modifiers() })) + claimed_if(
                question_alias_in_use(*k, binding_of(KeyCode::Right, KeyModifiers { shift: true, ..no_modifiers() })),
                binding_of(KeyCode::Right, KeyModifiers { shift: true, ..no_modifiers() }),
            ));
        }
        retain_without(prompt_stack_back.as_slice(), claimed.as_slice())
    } else {
        prompt_stack_back
    };
    let skip_question = if k.chat.skip_question.is_none() {
        let mut claimed: Vec<KeyBinding> = Vec::new();
        if question_alias_is_used(k, ctrl(KeyCode::Char(']'))) {
            claimed.push(ctrl(KeyCode::Char(']')));
        }
        proof {
            assert(claimed@ =~= claimed_if(question_alias_in_use(*k, binding_of(KeyCode::Char(']'), KeyModifiers { control: true, ..no_modifiers() })), binding_of(KeyCode::Char(']'), KeyModifiers { control: true, ..no_modifiers() })));
        }
        retain_without(skip_question.as_slice(), claimed.as_slice())
    } else {
        skip_question
    };
    Ok(
        ChatKeymap {
            interrupt_turn,
            decrease_reasoning_effort,
            increase_reasoning_effort,
            previous_permission_mode,
            next_permission_mode,
            edit_queued_message,
            prompt_stack_back,
            skip_question,
        }
    )
}

/// Resolve the composer actions with their global fallbacks.
fn resolve_composer(c: &ComposerKeymapConfig, g: &GlobalKeymapConfig, d: &ComposerKeymap) -> (r: Result<ComposerKeymap, String>)
    requires
        d@ == default_composer(),
    ensures
        match r {
            Ok(m) => composer_error(*c, *g) is None && m@ == composer_model(*c, *g),
            Err(e) => composer_error(*c, *g) == Some(e@),
        },
{
    let submit = resolve_bindings_with_global_fallback(&c.submit, &g.submit, d.submit.as_slice(), "tui.keymap.composer.submit")?;
    let queue = resolve_bindings_with_global_fallback(&c.queue, &g.queue, d.queue.as_slice(), "tui.keymap.composer.queue")?;
    let toggle_shortcuts = resolve_bindings_with_global_fallback(&c.toggle_shortcuts, &g.toggle_shortcuts, d.toggle_shortcuts.as_slice(), "tui.keymap.composer.toggle_shortcuts")?;
    let history_search_previous = resolve_bindings(&c.history_search_previous, d.history_search_previous.as_slice(), "tui.keymap.composer.history_search_previous")?;
    let history_search_next = resolve_bindings(&c.history_search_next, d.history_search_next.as_slice(), "tui.keymap.composer.history_search_next")?;
    Ok(
        ComposerKeymap {
            submit,
            queue,
            toggle_shortcuts,
            history_search_previous,
            history_search_next,
        }
    )
}

/// Resolve the editor actions.
fn resolve_editor(c: &EditorKeymapConfig, d: &EditorKeymap) -> (r: Result<EditorKeymap, String>)
    requires
        d@ == default_editor(),
    ensures
        match r {
            Ok(m) => editor_error(*c) is None && m@ == editor_model(*c),
            Err(e) => editor_error(*c) == Some(e@),
        },
{
    let insert_newline = resolve_bindings(&c.insert_newline, d.insert_newline.as_slice(), "tui.keymap.editor.insert_newline")?;
    let move_left = resolve_bindings(&c.move_left, d.move_left.as_slice(), "tui.keymap.editor.move_left")?;
    let move_right = resolve_bindings(&c.move_right, d.move_right.as_slice(), "tui.keymap.editor.move_right")?;
    let move_up = resolve_bindings(&c.move_up, d.move_up.as_slice(), "tui.keymap.editor.move_up")?;
    let move_down = resolve_bindings(&c.move_down, d.move_down.as_slice(), "tui.keymap.editor.move_down")?;
    let move_word_left = resolve_bindings(&c.move_word_left, d.move_word_left.as_slice(), "tui.keymap.editor.move_word_left")?;
    let move_word_right = resolve_bindings(&c.move_word_right, d.move_word_right.as_slice(), "tui.keymap.editor.move_word_right")?;
    let move_line_start = resolve_bindings(&c.move_line_start, d.move_line_start.as_slice(), "tui.keymap.editor.move_line_start")?;
    let move_line_end = resolve_bindings(&c.move_line_end, d.move_line_end.as_slice(), "tui.keymap.editor.move_line_end")?;
    let delete_backward = resolve_bindings(&c.delete_backward, d.delete_backward.as_slice(), "tui.keymap.editor.delete_backward")?;
    let delete_forward = resolve_bindings(&c.delete_forward, d.delete_forward.as_slice(), "tui.keymap.editor.delete_forward")?;
    let delete_backward_word = resolve_bindings(&c.delete_backward_word, d.delete_backward_word.as_slice(), "tui.keymap.editor.delete_backward_word")?;
    let delete_forward_word = resolve_bindings(&c.delete_forward_word, d.delete_forward_word.as_slice(), "tui.keymap.editor.delete_forward_word")?;
    let kill_line_start = resolve_bindings(&c.kill_line_start, d.kill_line_start.as_slice(), "tui.keymap.editor.kill_line_start")?;
    let kill_whole_line = resolve_bindings(&c.kill_whole_line, d.kill_whole_line.as_slice(), "tui.keymap.editor.kill_whole_line")?;
    let kill_line_end = resolve_bindings(&c.kill_line_end, d.kill_line_end.as_slice(), "tui.keymap.editor.kill_line_end")?;
    let yank = resolve_bindings(&c.yank, d.yank.as_slice(), "tui.keymap.editor.yank")?;
    Ok(
        EditorKeymap {
            insert_newline,
            move_left,
            move_right,
            move_up,
            move_down,
            move_word_left,
            move_word_right,
            move_line_start,
            move_line_end,
            delete_backward,
            delete_forward,
            delete_backward_word,
            delete_forward_word,
            kill_line_start,
            kill_whole_line,
            kill_line_end,
            yank,
        }
    )
}

/// Resolve the vim text object actions.
fn resolve_vim_text_object(c: &VimTextObjectKeymapConfig, d: &VimTextObjectKeymap) -> (r: Result<VimTextObjectKeymap, String>)
    requires
        d@ == default_vim_text_object(),
    ensures
        match r {
            Ok(m) => vim_text_object_error(*c) is None && m@ == vim_text_object_model(*c),
            Err(e) => vim_text_object_error(*c) == Some(e@),
        },
{
    let word = resolve_bindings(&c.word, d.word.as_slice(), "tui.keymap.vim_text_object.word")?;
    let big_word = resolve_bindings(&c.big_word, d.big_word.as_slice(), "tui.keymap.vim_text_object.big_word")?;
    let parentheses = resolve_bindings(&c.parentheses, d.parentheses.as_slice(), "tui.keymap.vim_text_object.parentheses")?;
    let brackets = resolve_bindings(&c.brackets, d.brackets.as_slice(), "tui.keymap.vim_text_object.brackets")?;
    let braces = resolve_bindings(&c.braces, d.braces.as_slice(), "tui.keymap.vim_text_object.braces")?;
    let double_quote = resolve_bindings(&c.double_quote, d.double_quote.as_slice(), "tui.keymap.vim_text_object.double_quote")?;
    let single_quote = resolve_bindings(&c.single_quote, d.single_quote.as_slice(), "tui.keymap.vim_text_object.single_quote")?;
    let backtick = resolve_bindings(&c.backtick, d.backtick.as_slice(), "tui.keymap.vim_text_object.backtick")?;
    let cancel = resolve_bindings(&c.cancel, d.cancel.as_slice(), "tui.keymap.vim_text_object.cancel")?;
    Ok(
        VimTextObjectKeymap {
            word,
            big_word,
            parentheses,
            brackets,
            braces,
            double_quote,
            single_quote,
            backtick,
            cancel,
        }
    )
}

/// Resolve the pager actions.
fn resolve_pager(c: &PagerKeymapConfig, d: &PagerKeymap) -> (r: Result<PagerKeymap, String>)
    requires
        d@ == default_pager(),
    ensures
        match r {
            Ok(m) => pager_error(*c) is None && m@ == pager_model(*c),
            Err(e) => pager_error(*c) == Some(e@),
        },
{
    let scroll_up = resolve_bindings(&c.scroll_up, d.scroll_up.as_slice(), "tui.keymap.pager.scroll_up")?;
    let scroll_down = resolve_bindings(&c.scroll_down, d.scroll_down.as_slice(), "tui.keymap.pager.scroll_down")?;
    let page_up = resolve_bindings(&c.page_up, d.page_up.as_slice(), "tui.keymap.pager.page_up")?;
    let page_down = resolve_bindings(&c.page_down, d.page_down.as_slice(), "tui.keymap.pager.page_down")?;
    let half_page_up = resolve_bindings(&c.half_page_up, d.half_page_up.as_slice(), "tui.keymap.pager.half_page_up")?;
    let half_page_down = resolve_bindings(&c.half_page_down, d.half_page_down.as_slice(), "tui.keymap.pager.half_page_down")?;
    let jump_top = resolve_bindings(&c.jump_top, d.jump_top.as_slice(), "tui.keymap.pager.jump_top")?;
    let jump_bottom = resolve_bindings(&c.jump_bottom, d.jump_bottom.as_slice(), "tui.keymap.pager.jump_bottom")?;
    let close = resolve_bindings(&c.close, d.close.as_slice(), "tui.keymap.pager.close")?;
    let close_transcript = resolve_bindings(&c.close_transcript, d.close_transcript.as_slice(), "tui.keymap.pager.close_transcript")?;
    Ok(
        PagerKeymap {
            scroll_up,
            scroll_down,
            page_up,
            page_down,
            half_page_up,
            half_page_down,
            jump_top,
            jump_bottom,
            close,
            close_transcript,
        }
    )
}

/// Resolve the approval actions.
fn resolve_approval(c: &ApprovalKeymapConfig, d: &ApprovalKeymap) -> (r: Result<ApprovalKeymap, String>)
    requires
        d@ == default_approval(),
    ensures
        match r {
            Ok(m) => approval_error(*c) is None && m@ == approval_model(*c),
            Err(e) => approval_error(*c) == Some(e@),
        },
{
    let open_fullscreen = resolve_bindings(&c.open_fullscreen, d.open_fullscreen.as_slice(), "tui.keymap.approval.open_fullscreen")?;
    let open_thread = resolve_bindings(&c.open_thread, d.open_thread.as_slice(), "tui.keymap.approval.open_thread")?;
    let approve = resolve_bindings(&c.approve, d.approve.as_slice(), "tui.keymap.approval.approve")?;
    let approve_for_session = resolve_bindings(&c.approve_for_session, d.approve_for_session.as_slice(), "tui.keymap.approval.approve_for_session")?;
    let approve_for_prefix = resolve_bindings(&c.approve_for_prefix, d.approve_for_prefix.as_slice(), "tui.keymap.approval.approve_for_prefix")?;
    let deny = resolve_bindings(&c.deny, d.deny.as_slice(), "tui.keymap.approval.deny")?;
    let decline = resolve_bindings(&c.decline, d.decline.as_slice(), "tui.keymap.approval.decline")?;
    let cancel = resolve_bindings(&c.cancel, d.cancel.as_slice(), "tui.keymap.approval.cancel")?;
    Ok(
        ApprovalKeymap {
            open_fullscreen,
            open_thread,
            approve,
            approve_for_session,
            approve_for_prefix,
            deny,
            decline,
            cancel,
        }
    )
}

/// Parse the Vim search actions.
fn resolve_vim_search(c: &VimSearchKeymapConfig, d: &VimSearchKeymap) -> (r: Result<VimSearchKeymap, String>)
    requires
        d@ == default_vim_search(),
    ensures
        match r {
            Ok(m) => vim_search_error(*c) is None && m@ == vim_search_base(*c),
            Err(e) => vim_search_error(*c) == Some(e@),
        },
{
    let forward = resolve_bindings(&c.forward, d.forward.as_slice(), "tui.keymap.vim_search.forward")?;
    let backward = resolve_bindings(&c.backward, d.backward.as_slice(), "tui.keymap.vim_search.backward")?;
    let next = resolve_bindings(&c.next, d.next.as_slice(), "tui.keymap.vim_search.next")?;
    let previous = resolve_bindings(&c.previous, d.previous.as_slice(), "tui.keymap.vim_search.previous")?;
    Ok(
        VimSearchKeymap {
            forward,
            backward,
            next,
            previous,
        }
    )
}

/// Resolve the vim normal actions; the built-in keys of newer actions yield to configured keys.
fn resolve_vim_normal(c: &VimNormalKeymapConfig, d: &VimNormalKeymap) -> (r: Result<VimNormalKeymap, String>)
    requires
        d@ == default_vim_normal(),
    ensures
        match r {
            Ok(m) => vim_normal_error(*c) is None && m@ == vim_normal_model(*c),
            Err(e) => vim_normal_error(*c) == Some(e@),
        },
{
    let enter_insert = resolve_bindings(&c.enter_insert, d.enter_insert.as_slice(), "tui.keymap.vim_normal.enter_insert")?;
    let append_after_cursor = resolve_bindings(&c.append_after_cursor, d.append_after_cursor.as_slice(), "tui.keymap.vim_normal.append_after_cursor")?;
    let append_line_end = resolve_bindings(&c.append_line_end, d.append_line_end.as_slice(), "tui.keymap.vim_normal.append_line_end")?;
    let insert_line_start = resolve_bindings(&c.insert_line_start, d.insert_line_start.as_slice(), "tui.keymap.vim_normal.insert_line_start")?;
    let open_line_below = resolve_bindings(&c.open_line_below, d.open_line_below.as_slice(), "tui.keymap.vim_normal.open_line_below")?;
    let open_line_above = resolve_bindings(&c.open_line_above, d.open_line_above.as_slice(), "tui.keymap.vim_normal.open_line_above")?;
    let enter_replace_mode = resolve_bindings(&c.enter_replace_mode, d.enter_replace_mode.as_slice(), "tui.keymap.vim_normal.enter_replace_mode")?;
    let move_left = resolve_bindings(&c.move_left, d.move_left.as_slice(), "tui.keymap.vim_normal.move_left")?;
    let move_right = resolve_bindings(&c.move_right, d.move_right.as_slice(), "tui.keymap.vim_normal.move_right")?;
    let move_up = resolve_bindings(&c.move_up, d.move_up.as_slice(), "tui.keymap.vim_normal.move_up")?;
    let move_down = resolve_bindings(&c.move_down, d.move_down.as_slice(), "tui.keymap.vim_normal.move_down")?;
    let move_word_forward = resolve_bindings(&c.move_word_forward, d.move_word_forward.as_slice(), "tui.keymap.vim_normal.move_word_forward")?;
    let move_word_backward = resolve_bindings(&c.move_word_backward, d.move_word_backward.as_slice(), "tui.keymap.vim_normal.move_word_backward")?;
    let move_word_end = resolve_bindings(&c.move_word_end, d.move_word_end.as_slice(), "tui.keymap.vim_normal.move_word_end")?;
    let move_line_start = resolve_bindings(&c.move_line_start, d.move_line_start.as_slice(), "tui.keymap.vim_normal.move_line_start")?;
    let move_line_end = resolve_bindings(&c.move_line_end, d.move_line_end.as_slice(), "tui.keymap.vim_normal.move_line_end")?;
    let find_forward = resolve_bindings(&c.find_forward, d.find_forward.as_slice(), "tui.keymap.vim_normal.find_forward")?;
    let find_backward = resolve_bindings(&c.find_backward, d.find_backward.as_slice(), "tui.keymap.vim_normal.find_backward")?;
    let till_forward = resolve_bindings(&c.till_forward, d.till_forward.as_slice(), "tui.keymap.vim_normal.till_forward")?;
    let till_backward = resolve_bindings(&c.till_backward, d.till_backward.as_slice(), "tui.keymap.vim_normal.till_backward")?;
    let jump_top = resolve_bindings(&c.jump_top, d.jump_top.as_slice(), "tui.keymap.vim_normal.jump_top")?;
    let jump_bottom = resolve_bindings(&c.jump_bottom, d.jump_bottom.as_slice(), "tui.keymap.vim_normal.jump_bottom")?;
    let delete_char = resolve_bindings(&c.delete_char, d.delete_char.as_slice(), "tui.keymap.vim_normal.delete_char")?;
    let replace_char = resolve_bindings(&c.replace_char, d.replace_char.as_slice(), "tui.keymap.vim_normal.replace_char")?;
    let repeat_last_change = resolve_bindings(&c.repeat_last_change, d.repeat_last_change.as_slice(), "tui.keymap.vim_normal.repeat_last_change")?;
    let substitute_char = resolve_bindings(&c.substitute_char, d.substitute_char.as_slice(), "tui.keymap.vim_normal.substitute_char")?;
    let delete_to_line_end = resolve_bindings(&c.delete_to_line_end, d.delete_to_line_end.as_slice(), "tui.keymap.vim_normal.delete_to_line_end")?;
    let change_to_line_end = resolve_bindings(&c.change_to_line_end, d.change_to_line_end.as_slice(), "tui.keymap.vim_normal.change_to_line_end")?;
    let yank_line = resolve_bindings(&c.yank_line, d.yank_line.as_slice(), "tui.keymap.vim_normal.yank_line")?;
    let paste_after = resolve_bindings(&c.paste_after, d.paste_after.as_slice(), "tui.keymap.vim_normal.paste_after")?;
    let start_delete_operator = resolve_bindings(&c.start_delete_operator, d.start_delete_operator.as_slice(), "tui.keymap.vim_normal.start_delete_operator")?;
    let start_yank_operator = resolve_bindings(&c.start_yank_operator, d.start_yank_operator.as_slice(), "tui.keymap.vim_normal.start_yank_operator")?;
    let start_change_operator = resolve_bindings(&c.start_change_operator, d.start_change_operator.as_slice(), "tui.keymap.vim_normal.start_change_operator")?;
    let undo = resolve_bindings(&c.undo, d.undo.as_slice(), "tui.keymap.vim_normal.undo")?;
    let redo = resolve_bindings(&c.redo, d.redo.as_slice(), "tui.keymap.vim_normal.redo")?;
    let cancel_operator = resolve_bindings(&c.cancel_operator, d.cancel_operator.as_slice(), "tui.keymap.vim_normal.cancel_operator")?;
    let claimed: Vec<KeyBinding> = Vec::new();
    let claimed = claimed_with(claimed, &c.enter_insert, enter_insert.as_slice());
    let claimed = claimed_with(claimed, &c.append_after_cursor, append_after_cursor.as_slice());
    let claimed = claimed_with(claimed, &c.append_line_end, append_line_end.as_slice());
    let claimed = claimed_with(claimed, &c.insert_line_start, insert_line_start.as_slice());
    let claimed = claimed_with(claimed, &c.open_line_below, open_line_below.as_slice());
    let claimed = claimed_with(claimed, &c.open_line_above, open_line_above.as_slice());
    let claimed = claimed_with(claimed, &c.enter_replace_mode, enter_replace_mode.as_slice());
    let claimed = claimed_with(claimed, &c.move_left, move_left.as_slice());
    let claimed = claimed_with(claimed, &c.move_right, move_right.as_slice());
    let claimed = claimed_with(claimed, &c.move_up, move_up.as_slice());
    let claimed = claimed_with(claimed, &c.move_down, move_down.as_slice());
    let claimed = claimed_with(claimed, &c.move_word_forward, move_word_forward.as_slice());
    let claimed = claimed_with(claimed, &c.move_word_backward, move_word_backward.as_slice());
    let claimed = claimed_with(claimed, &c.move_word_end, move_word_end.as_slice());
    let claimed = claimed_with(claimed, &c.move_line_start, move_line_start.as_slice());
    let claimed = claimed_with(claimed, &c.move_line_end, move_line_end.as_slice());
    let claimed = claimed_with(claimed, &c.find_forward, find_forward.as_slice());
    let claimed = claimed_with(claimed, &c.find_backward, find_backward.as_slice());
    let claimed = claimed_with(claimed, &c.till_forward, till_forward.as_slice());
    let claimed = claimed_with(claimed, &c.till_backward, till_backward.as_slice());
    let claimed = claimed_with(claimed, &c.jump_top, jump_top.as_slice());
    let claimed = claimed_with(claimed, &c.jump_bottom, jump_bottom.as_slice());
    let claimed = claimed_with(claimed, &c.delete_char, delete_char.as_slice());
    let claimed = claimed_with(claimed, &c.replace_char, replace_char.as_slice());
    let claimed = claimed_with(claimed, &c.substitute_char, substitute_char.as_slice());
    let claimed = claimed_with(claimed, &c.repeat_last_change, repeat_last_change.as_slice());
    let claimed = claimed_with(claimed, &c.change_to_line_end, change_to_line_end.as_slice());
    let claimed = claimed_with(claimed, &c.delete_to_line_end, delete_to_line_end.as_slice());
    let claimed = claimed_with(claimed, &c.yank_line, yank_line.as_slice());
    let claimed = claimed_with(claimed, &c.paste_after, paste_after.as_slice());
    let claimed = claimed_with(claimed, &c.start_delete_operator, start_delete_operator.as_slice());
    let claimed = claimed_with(claimed, &c.start_yank_operator, start_yank_operator.as_slice());
    let claimed = claimed_with(claimed, &c.start_change_operator, start_change_operator.as_slice());
    let claimed = claimed_with(claimed, &c.undo, undo.as_slice());
    let claimed = claimed_with(claimed, &c.redo, redo.as_slice());
    let claimed = claimed_with(claimed, &c.cancel_operator, cancel_operator.as_slice());
    let start_change_operator = if c.start_change_operator.is_none() {
        retain_without(start_change_operator.as_slice(), claimed.as_slice())
    } else {
        start_change_operator
    };
    let substitute_char = if c.substitute_char.is_none() {
        retain_without(substitute_char.as_slice(), claimed.as_slice())
    } else {
        substitute_char
    };
    let replace_char = if c.replace_char.is_none() {
        retain_without(replace_char.as_slice(), claimed.as_slice())
    } else {
        replace_char
    };
    let repeat_last_change = if c.repeat_last_change.is_none() {
        retain_without(repeat_last_change.as_slice(), claimed.as_slice())
    } else {
        repeat_last_change
    };
    let find_forward = if c.find_forward.is_none() {
        retain_without(find_forward.as_slice(), claimed.as_slice())
    } else {
        find_forward
    };
    let find_backward = if c.find_backward.is_none() {
        retain_without(find_backward.as_slice(), claimed.as_slice())
    } else {
        find_backward
    };
    let till_forward = if c.till_forward.is_none() {
        retain_without(till_forward.as_slice(), claimed.as_slice())
    } else {
        till_forward
    };
    let till_backward = if c.till_backward.is_none() {
        retain_without(till_backward.as_slice(), claimed.as_slice())
    } else {
        till_backward
    };
    let jump_top = if c.jump_top.is_none() {
        retain_without(jump_top.as_slice(), claimed.as_slice())
    } else {
        jump_top
    };
    let jump_bottom = if c.jump_bottom.is_none() {
        retain_without(jump_bottom.as_slice(), claimed.as_slice())
    } else {
        jump_bottom
    };
    Ok(
        VimNormalKeymap {
            enter_insert,
            append_after_cursor,
            append_line_end,
            insert_line_start,
            open_line_below,
            open_line_above,
            enter_replace_mode,
            move_left,
            move_right,
            move_up,
            move_down,
            move_word_forward,
            move_word_backward,
            move_word_end,
            move_line_start,
            move_line_end,
            find_forward,
            find_backward,
            till_forward,
            till_backward,
            jump_top,
            jump_bottom,
            delete_char,
            replace_char,
            repeat_last_change,
            substitute_char,
            delete_to_line_end,
            change_to_line_end,
            yank_line,
            paste_after,
            start_delete_operator,
            start_yank_operator,
            start_change_operator,
            undo,
            redo,
            cancel_operator,
        }
    )
}

/// Resolve the vim operator actions; the built-in keys of newer actions yield to configured keys.
fn resolve_vim_operator(c: &VimOperatorKeymapConfig, d: &VimOperatorKeymap) -> (r: Result<VimOperatorKeymap, String>)
    requires
        d@ == default_vim_operator(),
    ensures
        match r {
            Ok(m) => vim_operator_error(*c) is None && m@ == vim_operator_model(*c),
            Err(e) => vim_operator_error(*c) == Some(e@),
        },
{
    let delete_line = resolve_bindings(&c.delete_line, d.delete_line.as_slice(), "tui.keymap.vim_operator.delete_line")?;
    let yank_line = resolve_bindings(&c.yank_line, d.yank_line.as_slice(), "tui.keymap.vim_operator.yank_line")?;
    let motion_left = resolve_bindings(&c.motion_left, d.motion_left.as_slice(), "tui.keymap.vim_operator.motion_left")?;
    let motion_right = resolve_bindings(&c.motion_right, d.motion_right.as_slice(), "tui.keymap.vim_operator.motion_right")?;
    let motion_up = resolve_bindings(&c.motion_up, d.motion_up.as_slice(), "tui.keymap.vim_operator.motion_up")?;
    let motion_down = resolve_bindings(&c.motion_down, d.motion_down.as_slice(), "tui.keymap.vim_operator.motion_down")?;
    let motion_word_forward = resolve_bindings(&c.motion_word_forward, d.motion_word_forward.as_slice(), "tui.keymap.vim_operator.motion_word_forward")?;
    let motion_word_backward = resolve_bindings(&c.motion_word_backward, d.motion_word_backward.as_slice(), "tui.keymap.vim_operator.motion_word_backward")?;
    let motion_word_end = resolve_bindings(&c.motion_word_end, d.motion_word_end.as_slice(), "tui.keymap.vim_operator.motion_word_end")?;
    let motion_line_start = resolve_bindings(&c.motion_line_start, d.motion_line_start.as_slice(), "tui.keymap.vim_operator.motion_line_start")?;
    let motion_line_end = resolve_bindings(&c.motion_line_end, d.motion_line_end.as_slice(), "tui.keymap.vim_operator.motion_line_end")?;
    let motion_find_forward = resolve_bindings(&c.motion_find_forward, d.motion_find_forward.as_slice(), "tui.keymap.vim_operator.motion_find_forward")?;
    let motion_find_backward = resolve_bindings(&c.motion_find_backward, d.motion_find_backward.as_slice(), "tui.keymap.vim_operator.motion_find_backward")?;
    let motion_till_forward = resolve_bindings(&c.motion_till_forward, d.motion_till_forward.as_slice(), "tui.keymap.vim_operator.motion_till_forward")?;
    let motion_till_backward = resolve_bindings(&c.motion_till_backward, d.motion_till_backward.as_slice(), "tui.keymap.vim_operator.motion_till_backward")?;
    let motion_jump_top = resolve_bindings(&c.motion_jump_top, d.motion_jump_top.as_slice(), "tui.keymap.vim_operator.motion_jump_top")?;
    let motion_jump_bottom = resolve_bindings(&c.motion_jump_bottom, d.motion_jump_bottom.as_slice(), "tui.keymap.vim_operator.motion_jump_bottom")?;
    let select_inner_text_object = resolve_bindings(&c.select_inner_text_object, d.select_inner_text_object.as_slice(), "tui.keymap.vim_operator.select_inner_text_object")?;
    let select_around_text_object = resolve_bindings(&c.select_around_text_object, d.select_around_text_object.as_slice(), "tui.keymap.vim_operator.select_around_text_object")?;
    let cancel = resolve_bindings(&c.cancel, d.cancel.as_slice(), "tui.keymap.vim_operator.cancel")?;
    let claimed: Vec<KeyBinding> = Vec::new();
    let claimed = claimed_with(claimed, &c.delete_line, delete_line.as_slice());
    let claimed = claimed_with(claimed, &c.yank_line, yank_line.as_slice());
    let claimed = claimed_with(claimed, &c.motion_left, motion_left.as_slice());
    let claimed = claimed_with(claimed, &c.motion_right, motion_right.as_slice());
    let claimed = claimed_with(claimed, &c.motion_up, motion_up.as_slice());
    let claimed = claimed_with(claimed, &c.motion_down, motion_down.as_slice());
    let claimed = claimed_with(claimed, &c.motion_word_forward, motion_word_forward.as_slice());
    let claimed = claimed_with(claimed, &c.motion_word_backward, motion_word_backward.as_slice());
    let claimed = claimed_with(claimed, &c.motion_word_end, motion_word_end.as_slice());
    let claimed = claimed_with(claimed, &c.motion_line_start, motion_line_start.as_slice());
    let claimed = claimed_with(claimed, &c.motion_line_end, motion_line_end.as_slice());
    let claimed = claimed_with(claimed, &c.motion_find_forward, motion_find_forward.as_slice());
    let claimed = claimed_with(claimed, &c.motion_find_backward, motion_find_backward.as_slice());
    let claimed = claimed_with(claimed, &c.motion_till_forward, motion_till_forward.as_slice());
    let claimed = claimed_with(claimed, &c.motion_till_backward, motion_till_backward.as_slice());
    let claimed = claimed_with(claimed, &c.motion_jump_top, motion_jump_top.as_slice());
    let claimed = claimed_with(claimed, &c.motion_jump_bottom, motion_jump_bottom.as_slice());
    let claimed = claimed_with(claimed, &c.cancel, cancel.as_slice());
    let select_inner_text_object = if c.select_inner_text_object.is_none() {
        retain_without(select_inner_text_object.as_slice(), claimed.as_slice())
    } else {
        select_inner_text_object
    };
    let select_around_text_object = if c.select_around_text_object.is_none() {
        retain_without(select_around_text_object.as_slice(), claimed.as_slice())
    } else {
        select_around_text_object
    };
    let motion_find_forward = if c.motion_find_forward.is_none() {
        retain_without(motion_find_forward.as_slice(), claimed.as_slice())
    } else {
        motion_find_forward
    };
    let motion_find_backward = if c.motion_find_backward.is_none() {
        retain_without(motion_find_backward.as_slice(), claimed.as_slice())
    } else {
        motion_find_backward
    };
    let motion_till_forward = if c.motion_till_forward.is_none() {
        retain_without(motion_till_forward.as_slice(), claimed.as_slice())
    } else {
        motion_till_forward
    };
    let motion_till_backward = if c.motion_till_backward.is_none() {
        retain_without(motion_till_backward.as_slice(), claimed.as_slice())
    } else {
        motion_till_backward
    };
    let motion_jump_top = if c.motion_jump_top.is_none() {
        retain_without(motion_jump_top.as_slice(), claimed.as_slice())
    } else {
        motion_jump_top
    };
    let motion_jump_bottom = if c.motion_jump_bottom.is_none() {
        retain_without(motion_jump_bottom.as_slice(), claimed.as_slice())
    } else {
        motion_jump_bottom
    };
    Ok(
        VimOperatorKeymap {
            delete_line,
            yank_line,
            motion_left,
            motion_right,
            motion_up,
            motion_down,
            motion_word_forward,
            motion_word_backward,
            motion_word_end,
            motion_line_start,
            motion_line_end,
            motion_find_forward,
            motion_find_backward,
            motion_till_forward,
            motion_till_backward,
            motion_jump_top,
            motion_jump_bottom,
            select_inner_text_object,
            select_around_text_object,
            cancel,
        }
    )
}

/// Resolve the agents dashboard actions.
fn resolve_agents(k: &TuiKeymap, d: &AgentsKeymap) -> (r: Result<AgentsKeymap, String>)
    requires
        d@ == default_agents(),
    ensures
        match r {
            Ok(m) => agents_error(k.agents) is None && m@ == agents_model(*k),
            Err(e) => agents_error(k.agents) == Some(e@),
        },
{
    let resume = if resume_shadowed(k) {
        Vec::new()
    } else {
        resolve_bindings(&k.agents.resume, d.resume.as_slice(), "tui.keymap.agents.resume")?
    };
    let search = resolve_bindings(&k.agents.search, d.search.as_slice(), "tui.keymap.agents.search")?;
    let new_task = resolve_bindings(&k.agents.new_task, d.new_task.as_slice(), "tui.keymap.agents.new_task")?;
    let rename = resolve_bindings(&k.agents.rename, d.rename.as_slice(), "tui.keymap.agents.rename")?;
    let stop = resolve_bindings(&k.agents.stop, d.stop.as_slice(), "tui.keymap.agents.stop")?;
    let toggle_grouping = resolve_bindings(&k.agents.toggle_grouping, d.toggle_grouping.as_slice(), "tui.keymap.agents.toggle_grouping")?;
    Ok(
        AgentsKeymap {
            resume,
            search,
            new_task,
            rename,
            stop,
            toggle_grouping,
        }
    )
}

/// Resolve the list actions; the built-in keys of the newer actions yield to
/// keys configured for main-surface, older list and approval actions.
fn resolve_list(k: &TuiKeymap, app: &AppKeymap, approval: &ApprovalKeymap, d: &ListKeymap) -> (r: Result<ListKeymap, String>)
    requires
        d@ == default_list(),
    ensures
        match r {
            Ok(m) => list_error(k.list) is None && m@ == list_model(*k, app@, approval@),
            Err(e) => list_error(k.list) == Some(e@),
        },
{
    let move_up = resolve_bindings(&k.list.move_up, d.move_up.as_slice(), "tui.keymap.list.move_up")?;
    let move_down = resolve_bindings(&k.list.move_down, d.move_down.as_slice(), "tui.keymap.list.move_down")?;
    let accept = resolve_bindings(&k.list.accept, d.accept.as_slice(), "tui.keymap.list.accept")?;
    let cancel = resolve_bindings(&k.list.cancel, d.cancel.as_slice(), "tui.keymap.list.cancel")?;
    let claimed: Vec<KeyBinding> = Vec::new();
    let claimed = claimed_with(claimed, &k.global.open_agents, app.open_agents.as_slice());
    let claimed = claimed_with(claimed, &k.global.open_transcript, app.open_transcript.as_slice());
    let claimed = claimed_with(claimed, &k.global.open_external_editor, app.open_external_editor.as_slice());
    let claimed = claimed_with(claimed, &k.global.copy, app.copy.as_slice());
    let claimed = claimed_with(claimed, &k.global.clear_terminal, app.clear_terminal.as_slice());
    let claimed = claimed_with(claimed, &k.global.toggle_vim_mode, app.toggle_vim_mode.as_slice());
    let claimed = claimed_with(claimed, &k.global.toggle_fast_mode, app.toggle_fast_mode.as_slice());
    let claimed = claimed_with(claimed, &k.global.toggle_raw_output, app.toggle_raw_output.as_slice());
    let claimed = claimed_with(claimed, &k.global.toggle_side_conversation, app.toggle_side_conversation.as_slice());
    let claimed = claimed_with(claimed, &k.list.move_up, move_up.as_slice());
    let claimed = claimed_with(claimed, &k.list.move_down, move_down.as_slice());
    let claimed = claimed_with(claimed, &k.list.accept, accept.as_slice());
    let claimed = claimed_with(claimed, &k.list.cancel, cancel.as_slice());
    let claimed = claimed_with(claimed, &k.approval.open_fullscreen, approval.open_fullscreen.as_slice());
    let claimed = claimed_with(claimed, &k.approval.open_thread, approval.open_thread.as_slice());
    let claimed = claimed_with(claimed, &k.approval.approve, approval.approve.as_slice());
    let claimed = claimed_with(claimed, &k.approval.approve_for_session, approval.approve_for_session.as_slice());
    let claimed = claimed_with(claimed, &k.approval.approve_for_prefix, approval.approve_for_prefix.as_slice());
    let claimed = claimed_with(claimed, &k.approval.deny, approval.deny.as_slice());
    let claimed = claimed_with(claimed, &k.approval.decline, approval.decline.as_slice());
    let claimed = claimed_with(claimed, &k.approval.cancel, approval.cancel.as_slice());
    let move_left = resolve_new_default_bindings(&k.list.move_left, d.move_left.as_slice(), claimed.as_slice(), "tui.keymap.list.move_left")?;
    let move_right = resolve_new_default_bindings(&k.list.move_right, d.move_right.as_slice(), claimed.as_slice(), "tui.keymap.list.move_right")?;
    let page_up = resolve_new_default_bindings(&k.list.page_up, d.page_up.as_slice(), claimed.as_slice(), "tui.keymap.list.page_up")?;
    let page_down = resolve_new_default_bindings(&k.list.page_down, d.page_down.as_slice(), claimed.as_slice(), "tui.keymap.list.page_down")?;
    let jump_top = resolve_new_default_bindings(&k.list.jump_top, d.jump_top.as_slice(), claimed.as_slice(), "tui.keymap.list.jump_top")?;
    let jump_bottom = resolve_new_default_bindings(&k.list.jump_bottom, d.jump_bottom.as_slice(), claimed.as_slice(), "tui.keymap.list.jump_bottom")?;
    Ok(
        ListKeymap {
            move_up,
            move_down,
            move_left,
            move_right,
            page_up,
            page_down,
            jump_top,
            jump_bottom,
            accept,
            cancel,
        }
    )
}

/// Undo, redo and replace mode yield their built-in keys to keys configured
/// on the Vim normal-mode input path.
fn prune_vim_history(k: &TuiKeymap, vn: &mut VimNormalKeymap, vs: &VimSearchKeymap, cm: &ComposerKeymap)
    ensures
        final(vn)@ == vim_normal_final(*k, old(vn)@, vs@, cm@),
{
    let claimed: Vec<KeyBinding> = Vec::new();
    let claimed = claimed_with(claimed, &k.vim_normal.enter_insert, vn.enter_insert.as_slice());
    let claimed = claimed_with(claimed, &k.vim_normal.append_after_cursor, vn.append_after_cursor.as_slice());
    let claimed = claimed_with(claimed, &k.vim_normal.append_line_end, vn.append_line_end.as_slice());
    let claimed = claimed_with(claimed, &k.vim_normal.insert_line_start, vn.insert_line_start.as_slice());
    let claimed = claimed_with(claimed, &k.vim_normal.open_line_below, vn.open_line_below.as_slice());
    let claimed = claimed_with(claimed, &k.vim_normal.open_line_above, vn.open_line_above.as_slice());
    let claimed = claimed_with(claimed, &k.vim_normal.enter_replace_mode, vn.enter_replace_mode.as_slice());
    let claimed = claimed_with(claimed, &k.vim_normal.move_left, vn.move_left.as_slice());
    let claimed = claimed_with(claimed, &k.vim_normal.move_right, vn.move_right.as_slice());
    let claimed = claimed_with(claimed, &k.vim_normal.move_up, vn.move_up.as_slice());
    let claimed = claimed_with(claimed, &k.vim_normal.move_down, vn.move_down.as_slice());
    let claimed = claimed_with(claimed, &k.vim_normal.move_word_forward, vn.move_word_forward.as_slice());
    let claimed = claimed_with(claimed, &k.vim_normal.move_word_backward, vn.move_word_backward.as_slice());
    let claimed = claimed_with(claimed, &k.vim_normal.move_word_end, vn.move_word_end.as_slice());
    let claimed = claimed_with(claimed, &k.vim_normal.move_line_start, vn.move_line_start.as_slice());
    let claimed = claimed_with(claimed, &k.vim_normal.move_line_end, vn.move_line_end.as_slice());
    let claimed = claimed_with(claimed, &k.vim_normal.find_forward, vn.find_forward.as_slice());
    let claimed = claimed_with(claimed, &k.vim_normal.find_backward, vn.find_backward.as_slice());
    let claimed = claimed_with(claimed, &k.vim_normal.till_forward, vn.till_forward.as_slice());
    let claimed = claimed_with(claimed, &k.vim_normal.till_backward, vn.till_backward.as_slice());
    let claimed = claimed_with(claimed, &k.vim_normal.jump_top, vn.jump_top.as_slice());
    let claimed = claimed_with(claimed, &k.vim_normal.jump_bottom, vn.jump_bottom.as_slice());
    let claimed = claimed_with(claimed, &k.vim_normal.delete_char, vn.delete_char.as_slice());
    let claimed = claimed_with(claimed, &k.vim_normal.replace_char, vn.replace_char.as_slice());
    let claimed = claimed_with(claimed, &k.vim_normal.repeat_last_change, vn.repeat_last_change.as_slice());
    let claimed = claimed_with(claimed, &k.vim_normal.substitute_char, vn.substitute_char.as_slice());
    let claimed = claimed_with(claimed, &k.vim_normal.delete_to_line_end, vn.delete_to_line_end.as_slice());
    let claimed = claimed_with(claimed, &k.vim_normal.change_to_line_end, vn.change_to_line_end.as_slice());
    let claimed = claimed_with(claimed, &k.vim_normal.yank_line, vn.yank_line.as_slice());
    let claimed = claimed_with(claimed, &k.vim_normal.paste_after, vn.paste_after.as_slice());
    let claimed = claimed_with(claimed, &k.vim_normal.start_delete_operator, vn.start_delete_operator.as_slice());
    let claimed = claimed_with(claimed, &k.vim_normal.start_yank_operator, vn.start_yank_operator.as_slice());
    let claimed = claimed_with(claimed, &k.vim_normal.start_change_operator, vn.start_change_operator.as_slice());
    let claimed = claimed_with(claimed, &k.vim_normal.undo, vn.undo.as_slice());
    let claimed = claimed_with(claimed, &k.vim_normal.redo, vn.redo.as_slice());
    let claimed = claimed_with(claimed, &k.vim_normal.cancel_operator, vn.cancel_operator.as_slice());
    let claimed = claimed_with(claimed, &k.vim_search.forward, vs.forward.as_slice());
    let claimed = claimed_with(claimed, &k.vim_search.backward, vs.backward.as_slice());
    let claimed = claimed_with(claimed, &k.vim_search.next, vs.next.as_slice());
    let claimed = claimed_with(claimed, &k.vim_search.previous, vs.previous.as_slice());
    let claimed = claimed_with_either(claimed, &k.composer.submit, &k.global.submit, cm.submit.as_slice());
    let claimed = claimed_with_either(claimed, &k.composer.queue, &k.global.queue, cm.queue.as_slice());
    let claimed = claimed_with_either(claimed, &k.composer.toggle_shortcuts, &k.global.toggle_shortcuts, cm.toggle_shortcuts.as_slice());
    let claimed = claimed_with(claimed, &k.composer.history_search_previous, cm.history_search_previous.as_slice());
    let claimed = claimed_with(claimed, &k.composer.history_search_next, cm.history_search_next.as_slice());
    if k.vim_normal.undo.is_none() {
        vn.undo = retain_without(vn.undo.as_slice(), claimed.as_slice());
    }
    if k.vim_normal.redo.is_none() {
        vn.redo = retain_without(vn.redo.as_slice(), claimed.as_slice());
    }
    if k.vim_normal.enter_replace_mode.is_none() {
        vn.enter_replace_mode = retain_without(vn.enter_replace_mode.as_slice(), claimed.as_slice());
    }
}

/// Vim search actions yield their built-in keys to keys configured for Vim
/// normal-mode and operator-pending actions.
fn configure_vim_search(k: &TuiKeymap, vs: &mut VimSearchKeymap, vn: &VimNormalKeymap, vo: &VimOperatorKeymap)
    ensures
        final(vs)@ == vim_search_model(*k, vn@, vo@, old(vs)@),
{
    let claimed: Vec<KeyBinding> = Vec::new();
    let claimed = claimed_with(claimed, &k.vim_normal.enter_insert, vn.enter_insert.as_slice());
    let claimed = claimed_with(claimed, &k.vim_normal.append_after_cursor, vn.append_after_cursor.as_slice());
    let claimed = claimed_with(claimed, &k.vim_normal.append_line_end, vn.append_line_end.as_slice());
    let claimed = claimed_with(claimed, &k.vim_normal.insert_line_start, vn.insert_line_start.as_slice());
    let claimed = claimed_with(claimed, &k.vim_normal.open_line_below, vn.open_line_below.as_slice());
    let claimed = claimed_with(claimed, &k.vim_normal.open_line_above, vn.open_line_above.as_slice());
    let claimed = claimed_with(claimed, &k.vim_normal.enter_replace_mode, vn.enter_replace_mode.as_slice());
    let claimed = claimed_with(claimed, &k.vim_normal.move_left, vn.move_left.as_slice());
    let claimed = claimed_with(claimed, &k.vim_normal.move_right, vn.move_right.as_slice());
    let claimed = claimed_with(claimed, &k.vim_normal.move_up, vn.move_up.as_slice());
    let claimed = claimed_with(claimed, &k.vim_normal.move_down, vn.move_down.as_slice());
    let claimed = claimed_with(claimed, &k.vim_normal.move_word_forward, vn.move_word_forward.as_slice());
    let claimed = claimed_with(claimed, &k.vim_normal.move_word_backward, vn.move_word_backward.as_slice());
    let claimed = claimed_with(claimed, &k.vim_normal.move_word_end, vn.move_word_end.as_slice());
    let claimed = claimed_with(claimed, &k.vim_normal.move_line_start, vn.move_line_start.as_slice());
    let claimed = claimed_with(claimed, &k.vim_normal.move_line_end, vn.move_line_end.as_slice());
    let claimed = claimed_with(claimed, &k.vim_normal.find_forward, vn.find_forward.as_slice());
    let claimed = claimed_with(claimed, &k.vim_normal.find_backward, vn.find_backward.as_slice());
    let claimed = claimed_with(claimed, &k.vim_normal.till_forward, vn.till_forward.as_slice());
    let claimed = claimed_with(claimed, &k.vim_normal.till_backward, vn.till_backward.as_slice());
    let claimed = claimed_with(claimed, &k.vim_normal.jump_top, vn.jump_top.as_slice());
    let claimed = claimed_with(claimed, &k.vim_normal.jump_bottom, vn.jump_bottom.as_slice());
    let claimed = claimed_with(claimed, &k.vim_normal.delete_char, vn.delete_char.as_slice());
    let claimed = claimed_with(claimed, &k.vim_normal.replace_char, vn.replace_char.as_slice());
    let claimed = claimed_with(claimed, &k.vim_normal.substitute_char, vn.substitute_char.as_slice());
    let claimed = claimed_with(claimed, &k.vim_normal.repeat_last_change, vn.repeat_last_change.as_slice());
    let claimed = claimed_with(claimed, &k.vim_normal.change_to_line_end, vn.change_to_line_end.as_slice());
    let claimed = claimed_with(claimed, &k.vim_normal.delete_to_line_end, vn.delete_to_line_end.as_slice());
    let claimed = claimed_with(claimed, &k.vim_normal.yank_line, vn.yank_line.as_slice());
    let claimed = claimed_with(claimed, &k.vim_normal.paste_after, vn.paste_after.as_slice());
    let claimed = claimed_with(claimed, &k.vim_normal.start_delete_operator, vn.start_delete_operator.as_slice());
    let claimed = claimed_with(claimed, &k.vim_normal.start_yank_operator, vn.start_yank_operator.as_slice());
    let claimed = claimed_with(claimed, &k.vim_normal.start_change_operator, vn.start_change_operator.as_slice());
    let claimed = claimed_with(claimed, &k.vim_normal.undo, vn.undo.as_slice());
    let claimed = claimed_with(claimed, &k.vim_normal.redo, vn.redo.as_slice());
    let claimed = claimed_with(claimed, &k.vim_normal.cancel_operator, vn.cancel_operator.as_slice());
    let claimed = claimed_with(claimed, &k.vim_operator.delete_line, vo.delete_line.as_slice());
    let claimed = claimed_with(claimed, &k.vim_operator.yank_line, vo.yank_line.as_slice());
    let claimed = claimed_with(claimed, &k.vim_operator.motion_left, vo.motion_left.as_slice());
    let claimed = claimed_with(claimed, &k.vim_operator.motion_right, vo.motion_right.as_slice());
    let claimed = claimed_with(claimed, &k.vim_operator.motion_up, vo.motion_up.as_slice());
    let claimed = claimed_with(claimed, &k.vim_operator.motion_down, vo.motion_down.as_slice());
    let claimed = claimed_with(claimed, &k.vim_operator.motion_word_forward, vo.motion_word_forward.as_slice());
    let claimed = claimed_with(claimed, &k.vim_operator.motion_word_backward, vo.motion_word_backward.as_slice());
    let claimed = claimed_with(claimed, &k.vim_operator.motion_word_end, vo.motion_word_end.as_slice());
    let claimed = claimed_with(claimed, &k.vim_operator.motion_line_start, vo.motion_line_start.as_slice());
    let claimed = claimed_with(claimed, &k.vim_operator.motion_line_end, vo.motion_line_end.as_slice());
    let claimed = claimed_with(claimed, &k.vim_operator.motion_find_forward, vo.motion_find_forward.as_slice());
    let claimed = claimed_with(claimed, &k.vim_operator.motion_find_backward, vo.motion_find_backward.as_slice());
    let claimed = claimed_with(claimed, &k.vim_operator.motion_till_forward, vo.motion_till_forward.as_slice());
    let claimed = claimed_with(claimed, &k.vim_operator.motion_till_backward, vo.motion_till_backward.as_slice());
    let claimed = claimed_with(claimed, &k.vim_operator.motion_jump_top, vo.motion_jump_top.as_slice());
    let claimed = claimed_with(claimed, &k.vim_operator.motion_jump_bottom, vo.motion_jump_bottom.as_slice());
    let claimed = claimed_with(claimed, &k.vim_operator.cancel, vo.cancel.as_slice());
    if k.vim_search.forward.is_none() {
        vs.forward = retain_without(vs.forward.as_slice(), claimed.as_slice());
    }
    if k.vim_search.backward.is_none() {
        vs.backward = retain_without(vs.backward.as_slice(), claimed.as_slice());
    }
    if k.vim_search.next.is_none() {
        vs.next = retain_without(vs.next.as_slice(), claimed.as_slice());
    }
    if k.vim_search.previous.is_none() {
        vs.previous = retain_without(vs.previous.as_slice(), claimed.as_slice());
    }
}

/// With nothing configured, every action keeps its built-in keys.
pub proof fn lemma_unset_resolves_to_defaults()
    ensures
        resolved_view(TuiKeymap::unset()) == default_view(),
{
    reveal(claim);
    lemma_without_nothing(default_app().open_agents);
    lemma_without_nothing(default_app().open_transcript);
    lemma_without_nothing(default_app().open_external_editor);
    lemma_without_nothing(default_app().copy);
    lemma_without_nothing(default_app().clear_terminal);
    lemma_without_nothing(default_app().toggle_vim_mode);
    lemma_without_nothing(default_app().toggle_fast_mode);
    lemma_without_nothing(default_app().toggle_raw_output);
    lemma_without_nothing(default_app().toggle_side_conversation);
    lemma_without_nothing(default_chat().interrupt_turn);
    lemma_without_nothing(default_chat().decrease_reasoning_effort);
    lemma_without_nothing(default_chat().increase_reasoning_effort);
    lemma_without_nothing(default_chat().previous_permission_mode);
    lemma_without_nothing(default_chat().next_permission_mode);
    lemma_without_nothing(default_chat().edit_queued_message);
    lemma_without_nothing(default_chat().prompt_stack_back);
    lemma_without_nothing(default_chat().skip_question);
    lemma_without_nothing(default_composer().submit);
    lemma_without_nothing(default_composer().queue);
    lemma_without_nothing(default_composer().toggle_shortcuts);
    lemma_without_nothing(default_composer().history_search_previous);
    lemma_without_nothing(default_composer().history_search_next);
    lemma_without_nothing(default_editor().insert_newline);
    lemma_without_nothing(default_editor().move_left);
    lemma_without_nothing(default_editor().move_right);
    lemma_without_nothing(default_editor().move_up);
    lemma_without_nothing(default_editor().move_down);
    lemma_without_nothing(default_editor().move_word_left);
    lemma_without_nothing(default_editor().move_word_right);
    lemma_without_nothing(default_editor().move_line_start);
    lemma_without_nothing(default_editor().move_line_end);
    lemma_without_nothing(default_editor().delete_backward);
    lemma_without_nothing(default_editor().delete_forward);
    lemma_without_nothing(default_editor().delete_backward_word);
    lemma_without_nothing(default_editor().delete_forward_word);
    lemma_without_nothing(default_editor().kill_line_start);
    lemma_without_nothing(default_editor().kill_whole_line);
    lemma_without_nothing(default_editor().kill_line_end);
    lemma_without_nothing(default_editor().yank);
    lemma_without_nothing(default_vim_normal().enter_insert);
    lemma_without_nothing(default_vim_normal().append_after_cursor);
    lemma_without_nothing(default_vim_normal().append_line_end);
    lemma_without_nothing(default_vim_normal().insert_line_start);
    lemma_without_nothing(default_vim_normal().open_line_below);
    lemma_without_nothing(default_vim_normal().open_line_above);
    lemma_without_nothing(default_vim_normal().enter_replace_mode);
    lemma_without_nothing(default_vim_normal().move_left);
    lemma_without_nothing(default_vim_normal().move_right);
    lemma_without_nothing(default_vim_normal().move_up);
    lemma_without_nothing(default_vim_normal().move_down);
    lemma_without_nothing(default_vim_normal().move_word_forward);
    lemma_without_nothing(default_vim_normal().move_word_backward);
    lemma_without_nothing(default_vim_normal().move_word_end);
    lemma_without_nothing(default_vim_normal().move_line_start);
    lemma_without_nothing(default_vim_normal().move_line_end);
    lemma_without_nothing(default_vim_normal().find_forward);
    lemma_without_nothing(default_vim_normal().find_backward);
    lemma_without_nothing(default_vim_normal().till_forward);
    lemma_without_nothing(default_vim_normal().till_backward);
    lemma_without_nothing(default_vim_normal().jump_top);
    lemma_without_nothing(default_vim_normal().jump_bottom);
    lemma_without_nothing(default_vim_normal().delete_char);
    lemma_without_nothing(default_vim_normal().replace_char);
    lemma_without_nothing(default_vim_normal().repeat_last_change);
    lemma_without_nothing(default_vim_normal().substitute_char);
    lemma_without_nothing(default_vim_normal().delete_to_line_end);
    lemma_without_nothing(default_vim_normal().change_to_line_end);
    lemma_without_nothing(default_vim_normal().yank_line);
    lemma_without_nothing(default_vim_normal().paste_after);
    lemma_without_nothing(default_vim_normal().start_delete_operator);
    lemma_without_nothing(default_vim_normal().start_yank_operator);
    lemma_without_nothing(default_vim_normal().start_change_operator);
    lemma_without_nothing(default_vim_normal().undo);
    lemma_without_nothing(default_vim_normal().redo);
    lemma_without_nothing(default_vim_normal().cancel_operator);
    lemma_without_nothing(default_vim_operator().delete_line);
    lemma_without_nothing(default_vim_operator().yank_line);
    lemma_without_nothing(default_vim_operator().motion_left);
    lemma_without_nothing(default_vim_operator().motion_right);
    lemma_without_nothing(default_vim_operator().motion_up);
    lemma_without_nothing(default_vim_operator().motion_down);
    lemma_without_nothing(default_vim_operator().motion_word_forward);
    lemma_without_nothing(default_vim_operator().motion_word_backward);
    lemma_without_nothing(default_vim_operator().motion_word_end);
    lemma_without_nothing(default_vim_operator().motion_line_start);
    lemma_without_nothing(default_vim_operator().motion_line_end);
    lemma_without_nothing(default_vim_operator().motion_find_forward);
    lemma_without_nothing(default_vim_operator().motion_find_backward);
    lemma_without_nothing(default_vim_operator().motion_till_forward);
    lemma_without_nothing(default_vim_operator().motion_till_backward);
    lemma_without_nothing(default_vim_operator().motion_jump_top);
    lemma_without_nothing(default_vim_operator().motion_jump_bottom);
    lemma_without_nothing(default_vim_operator().select_inner_text_object);
    lemma_without_nothing(default_vim_operator().select_around_text_object);
    lemma_without_nothing(default_vim_operator().cancel);
    lemma_without_nothing(default_vim_search().forward);
    lemma_without_nothing(default_vim_search().backward);
    lemma_without_nothing(default_vim_search().next);
    lemma_without_nothing(default_vim_search().previous);
    lemma_without_nothing(default_vim_text_object().word);
    lemma_without_nothing(default_vim_text_object().big_word);
    lemma_without_nothing(default_vim_text_object().parentheses);
    lemma_without_nothing(default_vim_text_object().brackets);
    lemma_without_nothing(default_vim_text_object().braces);
    lemma_without_nothing(default_vim_text_object().double_quote);
    lemma_without_nothing(default_vim_text_object().single_quote);
    lemma_without_nothing(default_vim_text_object().backtick);
    lemma_without_nothing(default_vim_text_object().cancel);
    lemma_without_nothing(default_pager().scroll_up);
    lemma_without_nothing(default_pager().scroll_down);
    lemma_without_nothing(default_pager().page_up);
    lemma_without_nothing(default_pager().page_down);
    lemma_without_nothing(default_pager().half_page_up);
    lemma_without_nothing(default_pager().half_page_down);
    lemma_without_nothing(default_pager().jump_top);
    lemma_without_nothing(default_pager().jump_bottom);
    lemma_without_nothing(default_pager().close);
    lemma_without_nothing(default_pager().close_transcript);
    lemma_without_nothing(default_list().move_up);
    lemma_without_nothing(default_list().move_down);
    lemma_without_nothing(default_list().move_left);
    lemma_without_nothing(default_list().move_right);
    lemma_without_nothing(default_list().page_up);
    lemma_without_nothing(default_list().page_down);
    lemma_without_nothing(default_list().jump_top);
    lemma_without_nothing(default_list().jump_bottom);
    lemma_without_nothing(default_list().accept);
    lemma_without_nothing(default_list().cancel);
    lemma_without_nothing(default_agents().resume);
    lemma_without_nothing(default_agents().search);
    lemma_without_nothing(default_agents().new_task);
    lemma_without_nothing(default_agents().rename);
    lemma_without_nothing(default_agents().stop);
    lemma_without_nothing(default_agents().toggle_grouping);
    lemma_without_nothing(default_approval().open_fullscreen);
    lemma_without_nothing(default_approval().open_thread);
    lemma_without_nothing(default_approval().approve);
    lemma_without_nothing(default_approval().approve_for_session);
    lemma_without_nothing(default_approval().approve_for_prefix);
    lemma_without_nothing(default_approval().deny);
    lemma_without_nothing(default_approval().decline);
    lemma_without_nothing(default_approval().cancel);
    let k = TuiKeymap::unset();
    let v = resolved_view(k);
    assert(v.app =~= default_app());
    assert(v.chat =~= default_chat());
    assert(v.composer =~= default_composer());
    assert(v.editor =~= default_editor());
    assert(v.vim_normal =~= default_vim_normal());
    assert(v.vim_operator =~= default_vim_operator());
    assert(v.vim_search =~= default_vim_search());
    assert(v.vim_text_object =~= default_vim_text_object());
    assert(v.pager =~= default_pager());
    assert(v.list =~= default_list());
    assert(v.agents =~= default_agents());
    assert(v.approval =~= default_approval());
    assert(v =~= default_view());
}

impl RuntimeKeymap {
    /// The runtime keymap with nothing configured: every action keeps its
    /// built-in keys.
    pub fn defaults() -> (r: RuntimeKeymap)
        ensures
            r@ == default_view(),
    {
        proof {
            lemma_unset_resolves_to_defaults();
        }
        match RuntimeKeymap::from_config(&TuiKeymap::default()) {
            Ok(runtime) => runtime,
            Err(_) => built_in_defaults(),
        }
    }

    /// Resolve a runtime keymap from configuration: context value, then
    /// global fallback where the action has one, then built-in keys; then
    /// check the conflict rules.
    ///
    /// Fails with the first spec that does not parse, reported at its config
    /// path, or with the first conflict rule that the resolved keymap breaks.
    pub fn from_config(keymap: &TuiKeymap) -> (r: Result<RuntimeKeymap, String>)
        ensures
            match r {
                Ok(runtime) => parse_error(*keymap) is None && runtime@ == resolved_view(*keymap)
                    && keymap_checks(resolved_view(*keymap)) is Ok,
                Err(e) => match parse_error(*keymap) {
                    Some(m) => e@ == m,
                    None => keymap_checks(resolved_view(*keymap)) == Err::<(), Seq<char>>(e@),
                },
            },
    {
        let defaults = built_in_defaults();
        let app = resolve_app(keymap, &defaults.app)?;
        let chat = resolve_chat(keymap, &defaults.chat)?;
        let composer = resolve_composer(&keymap.composer, &keymap.global, &defaults.composer)?;
        let editor = resolve_editor(&keymap.editor, &defaults.editor)?;
        let mut vim_normal = resolve_vim_normal(&keymap.vim_normal, &defaults.vim_normal)?;
        let vim_operator = resolve_vim_operator(&keymap.vim_operator, &defaults.vim_operator)?;
        let vim_text_object = resolve_vim_text_object(&keymap.vim_text_object, &defaults.vim_text_object)?;
        let pager = resolve_pager(&keymap.pager, &defaults.pager)?;
        let agents = resolve_agents(keymap, &defaults.agents)?;
        let approval = resolve_approval(&keymap.approval, &defaults.approval)?;
        let list = resolve_list(keymap, &app, &approval, &defaults.list)?;
        let mut vim_search = resolve_vim_search(&keymap.vim_search, &defaults.vim_search)?;
        prune_vim_history(keymap, &mut vim_normal, &vim_search, &composer);
        configure_vim_search(keymap, &mut vim_search, &vim_normal, &vim_operator);
        let resolved = RuntimeKeymap {
            app,
            chat,
            composer,
            editor,
            vim_normal,
            vim_operator,
            vim_search,
            vim_text_object,
            pager,
            list,
            agents,
            approval,
        };
        proof {
            assert(resolved@ == resolved_view(*keymap));
        }
        resolved.validate_conflicts()?;
        Ok(resolved)
    }
}

} // verus!
