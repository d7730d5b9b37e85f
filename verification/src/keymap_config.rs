//! The `tui.keymap` configuration: one table per input context, each action
//! holding an optional key spec. A missing value inherits (from `global` where
//! the action supports it, then from the built-in defaults); an empty list
//! unbinds the action.

use vstd::prelude::*;
use crate::bindings::{KeybindingSpec, KeybindingsSpec};
use crate::keys::{KeyBinding, normalized_key};
use crate::parse::{parse_keybinding, parse_keybinding_spec};

verus! {

/// Whether a spec string parses to a key that is the same as the key of `alias`.
pub open spec fn raw_matches_alias(raw: Seq<char>, alias: KeyBinding) -> bool {
    match parse_keybinding_spec(raw) {
        Some(b) => normalized_key(b) == normalized_key(alias),
        None => false,
    }
}

/// Whether a configured value names the key of `alias` in one of its specs.
pub open spec fn value_uses_alias(configured: Option<KeybindingsSpec>, alias: KeyBinding) -> bool {
    match configured {
        None => false,
        Some(spec) => exists|i: int|
            0 <= i < spec.raws().len() && raw_matches_alias(#[trigger] spec.raws()[i], alias),
    }
}

fn raw_uses_alias(raw: &str, alias: KeyBinding) -> (r: bool)
    ensures
        r == raw_matches_alias(raw@, alias),
{
    match parse_keybinding(raw) {
        Some(b) => b.normalized() == alias.normalized(),
        None => false,
    }
}

/// Whether a configured value names the key of `alias` in one of its specs.
pub fn configured_value_uses_alias(configured: &Option<KeybindingsSpec>, alias: KeyBinding) -> (r: bool)
    ensures
        r == value_uses_alias(*configured, alias),
{
    match configured {
        None => false,
        Some(spec) => match spec {
            KeybindingsSpec::One(one) => {
                let r = raw_uses_alias(one.0.as_str(), alias);
                proof {
                    assert(spec.raws()[0] == one.0@);
                }
                r
            },
            KeybindingsSpec::Many(list) => {
                let ghost raws = spec.raws();
                let mut i: usize = 0;
                while i < list.len()
                    invariant
                        raws == list@.map_values(|s: KeybindingSpec| s.0@),
                        raws == spec.raws(),
                        *configured == Some(*spec),
                        0 <= i <= list@.len(),
                        forall|j: int| 0 <= j < i ==> !raw_matches_alias(#[trigger] raws[j], alias),
                    decreases list@.len() - i,
                {
                    if raw_uses_alias(list[i].0.as_str(), alias) {
                        proof {
                            assert(raws[i as int] == list@[i as int].0@);
                            assert(raw_matches_alias(spec.raws()[i as int], alias));
                        }
                        return true;
                    }
                    i = i + 1;
                }
                false
            },
        },
    }
}

/// Main-surface actions (`tui.keymap.global`). `submit`, `queue` and
/// `toggle_shortcuts` here are fallbacks for the composer actions of the same name.
#[derive(Clone, Debug)]
pub struct GlobalKeymapConfig {
    pub open_agents: Option<KeybindingsSpec>,
    pub open_transcript: Option<KeybindingsSpec>,
    pub open_external_editor: Option<KeybindingsSpec>,
    pub copy: Option<KeybindingsSpec>,
    pub clear_terminal: Option<KeybindingsSpec>,
    pub toggle_vim_mode: Option<KeybindingsSpec>,
    pub toggle_fast_mode: Option<KeybindingsSpec>,
    pub toggle_raw_output: Option<KeybindingsSpec>,
    pub toggle_side_conversation: Option<KeybindingsSpec>,
    pub submit: Option<KeybindingsSpec>,
    pub queue: Option<KeybindingsSpec>,
    pub toggle_shortcuts: Option<KeybindingsSpec>,
}

impl GlobalKeymapConfig {
    /// The table with no action configured.
    pub open spec fn unset() -> Self {
        GlobalKeymapConfig {
            open_agents: None,
            open_transcript: None,
            open_external_editor: None,
            copy: None,
            clear_terminal: None,
            toggle_vim_mode: None,
            toggle_fast_mode: None,
            toggle_raw_output: None,
            toggle_side_conversation: None,
            submit: None,
            queue: None,
            toggle_shortcuts: None,
        }
    }

    /// Whether some configured value of this table names the key of `alias`.
    pub open spec fn table_uses_alias(self, alias: KeyBinding) -> bool {
        value_uses_alias(self.open_agents, alias)
            || value_uses_alias(self.open_transcript, alias)
            || value_uses_alias(self.open_external_editor, alias)
            || value_uses_alias(self.copy, alias)
            || value_uses_alias(self.clear_terminal, alias)
            || value_uses_alias(self.toggle_vim_mode, alias)
            || value_uses_alias(self.toggle_fast_mode, alias)
            || value_uses_alias(self.toggle_raw_output, alias)
            || value_uses_alias(self.toggle_side_conversation, alias)
            || value_uses_alias(self.submit, alias)
            || value_uses_alias(self.queue, alias)
            || value_uses_alias(self.toggle_shortcuts, alias)
    }

    /// Whether some configured value of this table names the key of `alias`.
    pub fn uses_alias(&self, alias: KeyBinding) -> (r: bool)
        ensures
            r == self.table_uses_alias(alias),
    {
        configured_value_uses_alias(&self.open_agents, alias)
            || configured_value_uses_alias(&self.open_transcript, alias)
            || configured_value_uses_alias(&self.open_external_editor, alias)
            || configured_value_uses_alias(&self.copy, alias)
            || configured_value_uses_alias(&self.clear_terminal, alias)
            || configured_value_uses_alias(&self.toggle_vim_mode, alias)
            || configured_value_uses_alias(&self.toggle_fast_mode, alias)
            || configured_value_uses_alias(&self.toggle_raw_output, alias)
            || configured_value_uses_alias(&self.toggle_side_conversation, alias)
            || configured_value_uses_alias(&self.submit, alias)
            || configured_value_uses_alias(&self.queue, alias)
            || configured_value_uses_alias(&self.toggle_shortcuts, alias)
    }
}

impl Default for GlobalKeymapConfig {
    fn default() -> (r: Self)
        ensures
            r == Self::unset(),
    {
        GlobalKeymapConfig {
            open_agents: None,
            open_transcript: None,
            open_external_editor: None,
            copy: None,
            clear_terminal: None,
            toggle_vim_mode: None,
            toggle_fast_mode: None,
            toggle_raw_output: None,
            toggle_side_conversation: None,
            submit: None,
            queue: None,
            toggle_shortcuts: None,
        }
    }
}

/// Chat actions evaluated at the app event layer (`tui.keymap.chat`).
#[derive(Clone, Debug)]
pub struct ChatKeymapConfig {
    pub interrupt_turn: Option<KeybindingsSpec>,
    pub decrease_reasoning_effort: Option<KeybindingsSpec>,
    pub increase_reasoning_effort: Option<KeybindingsSpec>,
    pub previous_permission_mode: Option<KeybindingsSpec>,
    pub next_permission_mode: Option<KeybindingsSpec>,
    pub edit_queued_message: Option<KeybindingsSpec>,
    pub prompt_stack_back: Option<KeybindingsSpec>,
    pub skip_question: Option<KeybindingsSpec>,
}

impl ChatKeymapConfig {
    /// The table with no action configured.
    pub open spec fn unset() -> Self {
        ChatKeymapConfig {
            interrupt_turn: None,
            decrease_reasoning_effort: None,
            increase_reasoning_effort: None,
            previous_permission_mode: None,
            next_permission_mode: None,
            edit_queued_message: None,
            prompt_stack_back: None,
            skip_question: None,
        }
    }

    /// Whether some configured value of this table names the key of `alias`.
    pub open spec fn table_uses_alias(self, alias: KeyBinding) -> bool {
        value_uses_alias(self.interrupt_turn, alias)
            || value_uses_alias(self.decrease_reasoning_effort, alias)
            || value_uses_alias(self.increase_reasoning_effort, alias)
            || value_uses_alias(self.previous_permission_mode, alias)
            || value_uses_alias(self.next_permission_mode, alias)
            || value_uses_alias(self.edit_queued_message, alias)
            || value_uses_alias(self.prompt_stack_back, alias)
            || value_uses_alias(self.skip_question, alias)
    }

    /// Whether some configured value of this table names the key of `alias`.
    pub fn uses_alias(&self, alias: KeyBinding) -> (r: bool)
        ensures
            r == self.table_uses_alias(alias),
    {
        configured_value_uses_alias(&self.interrupt_turn, alias)
            || configured_value_uses_alias(&self.decrease_reasoning_effort, alias)
            || configured_value_uses_alias(&self.increase_reasoning_effort, alias)
            || configured_value_uses_alias(&self.previous_permission_mode, alias)
            || configured_value_uses_alias(&self.next_permission_mode, alias)
            || configured_value_uses_alias(&self.edit_queued_message, alias)
            || configured_value_uses_alias(&self.prompt_stack_back, alias)
            || configured_value_uses_alias(&self.skip_question, alias)
    }
}

impl Default for ChatKeymapConfig {
    fn default() -> (r: Self)
        ensures
            r == Self::unset(),
    {
        ChatKeymapConfig {
            interrupt_turn: None,
            decrease_reasoning_effort: None,
            increase_reasoning_effort: None,
            previous_permission_mode: None,
            next_permission_mode: None,
            edit_queued_message: None,
            prompt_stack_back: None,
            skip_question: None,
        }
    }
}

/// Composer actions (`tui.keymap.composer`).
#[derive(Clone, Debug)]
pub struct ComposerKeymapConfig {
    pub submit: Option<KeybindingsSpec>,
    pub queue: Option<KeybindingsSpec>,
    pub toggle_shortcuts: Option<KeybindingsSpec>,
    pub history_search_previous: Option<KeybindingsSpec>,
    pub history_search_next: Option<KeybindingsSpec>,
}

impl ComposerKeymapConfig {
    /// The table with no action configured.
    pub open spec fn unset() -> Self {
        ComposerKeymapConfig {
            submit: None,
            queue: None,
            toggle_shortcuts: None,
            history_search_previous: None,
            history_search_next: None,
        }
    }

    /// Whether some configured value of this table names the key of `alias`.
    pub open spec fn table_uses_alias(self, alias: KeyBinding) -> bool {
        value_uses_alias(self.submit, alias)
            || value_uses_alias(self.queue, alias)
            || value_uses_alias(self.toggle_shortcuts, alias)
            || value_uses_alias(self.history_search_previous, alias)
            || value_uses_alias(self.history_search_next, alias)
    }

    /// Whether some configured value of this table names the key of `alias`.
    pub fn uses_alias(&self, alias: KeyBinding) -> (r: bool)
        ensures
            r == self.table_uses_alias(alias),
    {
        configured_value_uses_alias(&self.submit, alias)
            || configured_value_uses_alias(&self.queue, alias)
            || configured_value_uses_alias(&self.toggle_shortcuts, alias)
            || configured_value_uses_alias(&self.history_search_previous, alias)
            || configured_value_uses_alias(&self.history_search_next, alias)
    }
}

impl Default for ComposerKeymapConfig {
    fn default() -> (r: Self)
        ensures
            r == Self::unset(),
    {
        ComposerKeymapConfig {
            submit: None,
            queue: None,
            toggle_shortcuts: None,
            history_search_previous: None,
            history_search_next: None,
        }
    }
}

/// Text-editing actions of the composer textarea (`tui.keymap.editor`).
#[derive(Clone, Debug)]
pub struct EditorKeymapConfig {
    pub insert_newline: Option<KeybindingsSpec>,
    pub move_left: Option<KeybindingsSpec>,
    pub move_right: Option<KeybindingsSpec>,
    pub move_up: Option<KeybindingsSpec>,
    pub move_down: Option<KeybindingsSpec>,
    pub move_word_left: Option<KeybindingsSpec>,
    pub move_word_right: Option<KeybindingsSpec>,
    pub move_line_start: Option<KeybindingsSpec>,
    pub move_line_end: Option<KeybindingsSpec>,
    pub delete_backward: Option<KeybindingsSpec>,
    pub delete_forward: Option<KeybindingsSpec>,
    pub delete_backward_word: Option<KeybindingsSpec>,
    pub delete_forward_word: Option<KeybindingsSpec>,
    pub kill_line_start: Option<KeybindingsSpec>,
    pub kill_whole_line: Option<KeybindingsSpec>,
    pub kill_line_end: Option<KeybindingsSpec>,
    pub yank: Option<KeybindingsSpec>,
}

impl EditorKeymapConfig {
    /// The table with no action configured.
    pub open spec fn unset() -> Self {
        EditorKeymapConfig {
            insert_newline: None,
            move_left: None,
            move_right: None,
            move_up: None,
            move_down: None,
            move_word_left: None,
            move_word_right: None,
            move_line_start: None,
            move_line_end: None,
            delete_backward: None,
            delete_forward: None,
            delete_backward_word: None,
            delete_forward_word: None,
            kill_line_start: None,
            kill_whole_line: None,
            kill_line_end: None,
            yank: None,
        }
    }

    /// Whether some configured value of this table names the key of `alias`.
    pub open spec fn table_uses_alias(self, alias: KeyBinding) -> bool {
        value_uses_alias(self.insert_newline, alias)
            || value_uses_alias(self.move_left, alias)
            || value_uses_alias(self.move_right, alias)
            || value_uses_alias(self.move_up, alias)
            || value_uses_alias(self.move_down, alias)
            || value_uses_alias(self.move_word_left, alias)
            || value_uses_alias(self.move_word_right, alias)
            || value_uses_alias(self.move_line_start, alias)
            || value_uses_alias(self.move_line_end, alias)
            || value_uses_alias(self.delete_backward, alias)
            || value_uses_alias(self.delete_forward, alias)
            || value_uses_alias(self.delete_backward_word, alias)
            || value_uses_alias(self.delete_forward_word, alias)
            || value_uses_alias(self.kill_line_start, alias)
            || value_uses_alias(self.kill_whole_line, alias)
            || value_uses_alias(self.kill_line_end, alias)
            || value_uses_alias(self.yank, alias)
    }

    /// Whether some configured value of this table names the key of `alias`.
    pub fn uses_alias(&self, alias: KeyBinding) -> (r: bool)
        ensures
            r == self.table_uses_alias(alias),
    {
        configured_value_uses_alias(&self.insert_newline, alias)
            || configured_value_uses_alias(&self.move_left, alias)
            || configured_value_uses_alias(&self.move_right, alias)
            || configured_value_uses_alias(&self.move_up, alias)
            || configured_value_uses_alias(&self.move_down, alias)
            || configured_value_uses_alias(&self.move_word_left, alias)
            || configured_value_uses_alias(&self.move_word_right, alias)
            || configured_value_uses_alias(&self.move_line_start, alias)
            || configured_value_uses_alias(&self.move_line_end, alias)
            || configured_value_uses_alias(&self.delete_backward, alias)
            || configured_value_uses_alias(&self.delete_forward, alias)
            || configured_value_uses_alias(&self.delete_backward_word, alias)
            || configured_value_uses_alias(&self.delete_forward_word, alias)
            || configured_value_uses_alias(&self.kill_line_start, alias)
            || configured_value_uses_alias(&self.kill_whole_line, alias)
            || configured_value_uses_alias(&self.kill_line_end, alias)
            || configured_value_uses_alias(&self.yank, alias)
    }
}

impl Default for EditorKeymapConfig {
    fn default() -> (r: Self)
        ensures
            r == Self::unset(),
    {
        EditorKeymapConfig {
            insert_newline: None,
            move_left: None,
            move_right: None,
            move_up: None,
            move_down: None,
            move_word_left: None,
            move_word_right: None,
            move_line_start: None,
            move_line_end: None,
            delete_backward: None,
            delete_forward: None,
            delete_backward_word: None,
            delete_forward_word: None,
            kill_line_start: None,
            kill_whole_line: None,
            kill_line_end: None,
            yank: None,
        }
    }
}

/// Vim normal-mode actions (`tui.keymap.vim_normal`).
#[derive(Clone, Debug)]
pub struct VimNormalKeymapConfig {
    pub enter_insert: Option<KeybindingsSpec>,
    pub append_after_cursor: Option<KeybindingsSpec>,
    pub append_line_end: Option<KeybindingsSpec>,
    pub insert_line_start: Option<KeybindingsSpec>,
    pub open_line_below: Option<KeybindingsSpec>,
    pub open_line_above: Option<KeybindingsSpec>,
    pub enter_replace_mode: Option<KeybindingsSpec>,
    pub move_left: Option<KeybindingsSpec>,
    pub move_right: Option<KeybindingsSpec>,
    pub move_up: Option<KeybindingsSpec>,
    pub move_down: Option<KeybindingsSpec>,
    pub move_word_forward: Option<KeybindingsSpec>,
    pub move_word_backward: Option<KeybindingsSpec>,
    pub move_word_end: Option<KeybindingsSpec>,
    pub move_line_start: Option<KeybindingsSpec>,
    pub move_line_end: Option<KeybindingsSpec>,
    pub find_forward: Option<KeybindingsSpec>,
    pub find_backward: Option<KeybindingsSpec>,
    pub till_forward: Option<KeybindingsSpec>,
    pub till_backward: Option<KeybindingsSpec>,
    pub jump_top: Option<KeybindingsSpec>,
    pub jump_bottom: Option<KeybindingsSpec>,
    pub delete_char: Option<KeybindingsSpec>,
    pub replace_char: Option<KeybindingsSpec>,
    pub repeat_last_change: Option<KeybindingsSpec>,
    pub substitute_char: Option<KeybindingsSpec>,
    pub delete_to_line_end: Option<KeybindingsSpec>,
    pub change_to_line_end: Option<KeybindingsSpec>,
    pub yank_line: Option<KeybindingsSpec>,
    pub paste_after: Option<KeybindingsSpec>,
    pub start_delete_operator: Option<KeybindingsSpec>,
    pub start_yank_operator: Option<KeybindingsSpec>,
    pub start_change_operator: Option<KeybindingsSpec>,
    pub undo: Option<KeybindingsSpec>,
    pub redo: Option<KeybindingsSpec>,
    pub cancel_operator: Option<KeybindingsSpec>,
}

impl VimNormalKeymapConfig {
    /// The table with no action configured.
    pub open spec fn unset() -> Self {
        VimNormalKeymapConfig {
            enter_insert: None,
            append_after_cursor: None,
            append_line_end: None,
            insert_line_start: None,
            open_line_below: None,
            open_line_above: None,
            enter_replace_mode: None,
            move_left: None,
            move_right: None,
            move_up: None,
            move_down: None,
            move_word_forward: None,
            move_word_backward: None,
            move_word_end: None,
            move_line_start: None,
            move_line_end: None,
            find_forward: None,
            find_backward: None,
            till_forward: None,
            till_backward: None,
            jump_top: None,
            jump_bottom: None,
            delete_char: None,
            replace_char: None,
            repeat_last_change: None,
            substitute_char: None,
            delete_to_line_end: None,
            change_to_line_end: None,
            yank_line: None,
            paste_after: None,
            start_delete_operator: None,
            start_yank_operator: None,
            start_change_operator: None,
            undo: None,
            redo: None,
            cancel_operator: None,
        }
    }

    /// Whether some configured value of this table names the key of `alias`.
    pub open spec fn table_uses_alias(self, alias: KeyBinding) -> bool {
        value_uses_alias(self.enter_insert, alias)
            || value_uses_alias(self.append_after_cursor, alias)
            || value_uses_alias(self.append_line_end, alias)
            || value_uses_alias(self.insert_line_start, alias)
            || value_uses_alias(self.open_line_below, alias)
            || value_uses_alias(self.open_line_above, alias)
            || value_uses_alias(self.enter_replace_mode, alias)
            || value_uses_alias(self.move_left, alias)
            || value_uses_alias(self.move_right, alias)
            || value_uses_alias(self.move_up, alias)
            || value_uses_alias(self.move_down, alias)
            || value_uses_alias(self.move_word_forward, alias)
            || value_uses_alias(self.move_word_backward, alias)
            || value_uses_alias(self.move_word_end, alias)
            || value_uses_alias(self.move_line_start, alias)
            || value_uses_alias(self.move_line_end, alias)
            || value_uses_alias(self.find_forward, alias)
            || value_uses_alias(self.find_backward, alias)
            || value_uses_alias(self.till_forward, alias)
            || value_uses_alias(self.till_backward, alias)
            || value_uses_alias(self.jump_top, alias)
            || value_uses_alias(self.jump_bottom, alias)
            || value_uses_alias(self.delete_char, alias)
            || value_uses_alias(self.replace_char, alias)
            || value_uses_alias(self.repeat_last_change, alias)
            || value_uses_alias(self.substitute_char, alias)
            || value_uses_alias(self.delete_to_line_end, alias)
            || value_uses_alias(self.change_to_line_end, alias)
            || value_uses_alias(self.yank_line, alias)
            || value_uses_alias(self.paste_after, alias)
            || value_uses_alias(self.start_delete_operator, alias)
            || value_uses_alias(self.start_yank_operator, alias)
            || value_uses_alias(self.start_change_operator, alias)
            || value_uses_alias(self.undo, alias)
            || value_uses_alias(self.redo, alias)
            || value_uses_alias(self.cancel_operator, alias)
    }

    /// Whether some configured value of this table names the key of `alias`.
    pub fn uses_alias(&self, alias: KeyBinding) -> (r: bool)
        ensures
            r == self.table_uses_alias(alias),
    {
        configured_value_uses_alias(&self.enter_insert, alias)
            || configured_value_uses_alias(&self.append_after_cursor, alias)
            || configured_value_uses_alias(&self.append_line_end, alias)
            || configured_value_uses_alias(&self.insert_line_start, alias)
            || configured_value_uses_alias(&self.open_line_below, alias)
            || configured_value_uses_alias(&self.open_line_above, alias)
            || configured_value_uses_alias(&self.enter_replace_mode, alias)
            || configured_value_uses_alias(&self.move_left, alias)
            || configured_value_uses_alias(&self.move_right, alias)
            || configured_value_uses_alias(&self.move_up, alias)
            || configured_value_uses_alias(&self.move_down, alias)
            || configured_value_uses_alias(&self.move_word_forward, alias)
            || configured_value_uses_alias(&self.move_word_backward, alias)
            || configured_value_uses_alias(&self.move_word_end, alias)
            || configured_value_uses_alias(&self.move_line_start, alias)
            || configured_value_uses_alias(&self.move_line_end, alias)
            || configured_value_uses_alias(&self.find_forward, alias)
            || configured_value_uses_alias(&self.find_backward, alias)
            || configured_value_uses_alias(&self.till_forward, alias)
            || configured_value_uses_alias(&self.till_backward, alias)
            || configured_value_uses_alias(&self.jump_top, alias)
            || configured_value_uses_alias(&self.jump_bottom, alias)
            || configured_value_uses_alias(&self.delete_char, alias)
            || configured_value_uses_alias(&self.replace_char, alias)
            || configured_value_uses_alias(&self.repeat_last_change, alias)
            || configured_value_uses_alias(&self.substitute_char, alias)
            || configured_value_uses_alias(&self.delete_to_line_end, alias)
            || configured_value_uses_alias(&self.change_to_line_end, alias)
            || configured_value_uses_alias(&self.yank_line, alias)
            || configured_value_uses_alias(&self.paste_after, alias)
            || configured_value_uses_alias(&self.start_delete_operator, alias)
            || configured_value_uses_alias(&self.start_yank_operator, alias)
            || configured_value_uses_alias(&self.start_change_operator, alias)
            || configured_value_uses_alias(&self.undo, alias)
            || configured_value_uses_alias(&self.redo, alias)
            || configured_value_uses_alias(&self.cancel_operator, alias)
    }
}

impl Default for VimNormalKeymapConfig {
    fn default() -> (r: Self)
        ensures
            r == Self::unset(),
    {
        VimNormalKeymapConfig {
            enter_insert: None,
            append_after_cursor: None,
            append_line_end: None,
            insert_line_start: None,
            open_line_below: None,
            open_line_above: None,
            enter_replace_mode: None,
            move_left: None,
            move_right: None,
            move_up: None,
            move_down: None,
            move_word_forward: None,
            move_word_backward: None,
            move_word_end: None,
            move_line_start: None,
            move_line_end: None,
            find_forward: None,
            find_backward: None,
            till_forward: None,
            till_backward: None,
            jump_top: None,
            jump_bottom: None,
            delete_char: None,
            replace_char: None,
            repeat_last_change: None,
            substitute_char: None,
            delete_to_line_end: None,
            change_to_line_end: None,
            yank_line: None,
            paste_after: None,
            start_delete_operator: None,
            start_yank_operator: None,
            start_change_operator: None,
            undo: None,
            redo: None,
            cancel_operator: None,
        }
    }
}

/// Vim operator-pending actions (`tui.keymap.vim_operator`).
#[derive(Clone, Debug)]
pub struct VimOperatorKeymapConfig {
    pub delete_line: Option<KeybindingsSpec>,
    pub yank_line: Option<KeybindingsSpec>,
    pub motion_left: Option<KeybindingsSpec>,
    pub motion_right: Option<KeybindingsSpec>,
    pub motion_up: Option<KeybindingsSpec>,
    pub motion_down: Option<KeybindingsSpec>,
    pub motion_word_forward: Option<KeybindingsSpec>,
    pub motion_word_backward: Option<KeybindingsSpec>,
    pub motion_word_end: Option<KeybindingsSpec>,
    pub motion_line_start: Option<KeybindingsSpec>,
    pub motion_line_end: Option<KeybindingsSpec>,
    pub motion_find_forward: Option<KeybindingsSpec>,
    pub motion_find_backward: Option<KeybindingsSpec>,
    pub motion_till_forward: Option<KeybindingsSpec>,
    pub motion_till_backward: Option<KeybindingsSpec>,
    pub motion_jump_top: Option<KeybindingsSpec>,
    pub motion_jump_bottom: Option<KeybindingsSpec>,
    pub select_inner_text_object: Option<KeybindingsSpec>,
    pub select_around_text_object: Option<KeybindingsSpec>,
    pub cancel: Option<KeybindingsSpec>,
}

impl VimOperatorKeymapConfig {
    /// The table with no action configured.
    pub open spec fn unset() -> Self {
        VimOperatorKeymapConfig {
            delete_line: None,
            yank_line: None,
            motion_left: None,
            motion_right: None,
            motion_up: None,
            motion_down: None,
            motion_word_forward: None,
            motion_word_backward: None,
            motion_word_end: None,
            motion_line_start: None,
            motion_line_end: None,
            motion_find_forward: None,
            motion_find_backward: None,
            motion_till_forward: None,
            motion_till_backward: None,
            motion_jump_top: None,
            motion_jump_bottom: None,
            select_inner_text_object: None,
            select_around_text_object: None,
            cancel: None,
        }
    }

    /// Whether some configured value of this table names the key of `alias`.
    pub open spec fn table_uses_alias(self, alias: KeyBinding) -> bool {
        value_uses_alias(self.delete_line, alias)
            || value_uses_alias(self.yank_line, alias)
            || value_uses_alias(self.motion_left, alias)
            || value_uses_alias(self.motion_right, alias)
            || value_uses_alias(self.motion_up, alias)
            || value_uses_alias(self.motion_down, alias)
            || value_uses_alias(self.motion_word_forward, alias)
            || value_uses_alias(self.motion_word_backward, alias)
            || value_uses_alias(self.motion_word_end, alias)
            || value_uses_alias(self.motion_line_start, alias)
            || value_uses_alias(self.motion_line_end, alias)
            || value_uses_alias(self.motion_find_forward, alias)
            || value_uses_alias(self.motion_find_backward, alias)
            || value_uses_alias(self.motion_till_forward, alias)
            || value_uses_alias(self.motion_till_backward, alias)
            || value_uses_alias(self.motion_jump_top, alias)
            || value_uses_alias(self.motion_jump_bottom, alias)
            || value_uses_alias(self.select_inner_text_object, alias)
            || value_uses_alias(self.select_around_text_object, alias)
            || value_uses_alias(self.cancel, alias)
    }

    /// Whether some configured value of this table names the key of `alias`.
    pub fn uses_alias(&self, alias: KeyBinding) -> (r: bool)
        ensures
            r == self.table_uses_alias(alias),
    {
        configured_value_uses_alias(&self.delete_line, alias)
            || configured_value_uses_alias(&self.yank_line, alias)
            || configured_value_uses_alias(&self.motion_left, alias)
            || configured_value_uses_alias(&self.motion_right, alias)
            || configured_value_uses_alias(&self.motion_up, alias)
            || configured_value_uses_alias(&self.motion_down, alias)
            || configured_value_uses_alias(&self.motion_word_forward, alias)
            || configured_value_uses_alias(&self.motion_word_backward, alias)
            || configured_value_uses_alias(&self.motion_word_end, alias)
            || configured_value_uses_alias(&self.motion_line_start, alias)
            || configured_value_uses_alias(&self.motion_line_end, alias)
            || configured_value_uses_alias(&self.motion_find_forward, alias)
            || configured_value_uses_alias(&self.motion_find_backward, alias)
            || configured_value_uses_alias(&self.motion_till_forward, alias)
            || configured_value_uses_alias(&self.motion_till_backward, alias)
            || configured_value_uses_alias(&self.motion_jump_top, alias)
            || configured_value_uses_alias(&self.motion_jump_bottom, alias)
            || configured_value_uses_alias(&self.select_inner_text_object, alias)
            || configured_value_uses_alias(&self.select_around_text_object, alias)
            || configured_value_uses_alias(&self.cancel, alias)
    }
}

impl Default for VimOperatorKeymapConfig {
    fn default() -> (r: Self)
        ensures
            r == Self::unset(),
    {
        VimOperatorKeymapConfig {
            delete_line: None,
            yank_line: None,
            motion_left: None,
            motion_right: None,
            motion_up: None,
            motion_down: None,
            motion_word_forward: None,
            motion_word_backward: None,
            motion_word_end: None,
            motion_line_start: None,
            motion_line_end: None,
            motion_find_forward: None,
            motion_find_backward: None,
            motion_till_forward: None,
            motion_till_backward: None,
            motion_jump_top: None,
            motion_jump_bottom: None,
            select_inner_text_object: None,
            select_around_text_object: None,
            cancel: None,
        }
    }
}

/// Vim text-object actions (`tui.keymap.vim_text_object`).
#[derive(Clone, Debug)]
pub struct VimTextObjectKeymapConfig {
    pub word: Option<KeybindingsSpec>,
    pub big_word: Option<KeybindingsSpec>,
    pub parentheses: Option<KeybindingsSpec>,
    pub brackets: Option<KeybindingsSpec>,
    pub braces: Option<KeybindingsSpec>,
    pub double_quote: Option<KeybindingsSpec>,
    pub single_quote: Option<KeybindingsSpec>,
    pub backtick: Option<KeybindingsSpec>,
    pub cancel: Option<KeybindingsSpec>,
}

impl VimTextObjectKeymapConfig {
    /// The table with no action configured.
    pub open spec fn unset() -> Self {
        VimTextObjectKeymapConfig {
            word: None,
            big_word: None,
            parentheses: None,
            brackets: None,
            braces: None,
            double_quote: None,
            single_quote: None,
            backtick: None,
            cancel: None,
        }
    }

    /// Whether some configured value of this table names the key of `alias`.
    pub open spec fn table_uses_alias(self, alias: KeyBinding) -> bool {
        value_uses_alias(self.word, alias)
            || value_uses_alias(self.big_word, alias)
            || value_uses_alias(self.parentheses, alias)
            || value_uses_alias(self.brackets, alias)
            || value_uses_alias(self.braces, alias)
            || value_uses_alias(self.double_quote, alias)
            || value_uses_alias(self.single_quote, alias)
            || value_uses_alias(self.backtick, alias)
            || value_uses_alias(self.cancel, alias)
    }

    /// Whether some configured value of this table names the key of `alias`.
    pub fn uses_alias(&self, alias: KeyBinding) -> (r: bool)
        ensures
            r == self.table_uses_alias(alias),
    {
        configured_value_uses_alias(&self.word, alias)
            || configured_value_uses_alias(&self.big_word, alias)
            || configured_value_uses_alias(&self.parentheses, alias)
            || configured_value_uses_alias(&self.brackets, alias)
            || configured_value_uses_alias(&self.braces, alias)
            || configured_value_uses_alias(&self.double_quote, alias)
            || configured_value_uses_alias(&self.single_quote, alias)
            || configured_value_uses_alias(&self.backtick, alias)
            || configured_value_uses_alias(&self.cancel, alias)
    }
}

impl Default for VimTextObjectKeymapConfig {
    fn default() -> (r: Self)
        ensures
            r == Self::unset(),
    {
        VimTextObjectKeymapConfig {
            word: None,
            big_word: None,
            parentheses: None,
            brackets: None,
            braces: None,
            double_quote: None,
            single_quote: None,
            backtick: None,
            cancel: None,
        }
    }
}

/// Vim search actions (`tui.keymap.vim_search`).
#[derive(Clone, Debug)]
pub struct VimSearchKeymapConfig {
    pub forward: Option<KeybindingsSpec>,
    pub backward: Option<KeybindingsSpec>,
    pub next: Option<KeybindingsSpec>,
    pub previous: Option<KeybindingsSpec>,
}

impl VimSearchKeymapConfig {
    /// The table with no action configured.
    pub open spec fn unset() -> Self {
        VimSearchKeymapConfig {
            forward: None,
            backward: None,
            next: None,
            previous: None,
        }
    }

    /// Whether some configured value of this table names the key of `alias`.
    pub open spec fn table_uses_alias(self, alias: KeyBinding) -> bool {
        value_uses_alias(self.forward, alias)
            || value_uses_alias(self.backward, alias)
            || value_uses_alias(self.next, alias)
            || value_uses_alias(self.previous, alias)
    }

    /// Whether some configured value of this table names the key of `alias`.
    pub fn uses_alias(&self, alias: KeyBinding) -> (r: bool)
        ensures
            r == self.table_uses_alias(alias),
    {
        configured_value_uses_alias(&self.forward, alias)
            || configured_value_uses_alias(&self.backward, alias)
            || configured_value_uses_alias(&self.next, alias)
            || configured_value_uses_alias(&self.previous, alias)
    }
}

impl Default for VimSearchKeymapConfig {
    fn default() -> (r: Self)
        ensures
            r == Self::unset(),
    {
        VimSearchKeymapConfig {
            forward: None,
            backward: None,
            next: None,
            previous: None,
        }
    }
}

/// Pager and overlay actions (`tui.keymap.pager`).
#[derive(Clone, Debug)]
pub struct PagerKeymapConfig {
    pub scroll_up: Option<KeybindingsSpec>,
    pub scroll_down: Option<KeybindingsSpec>,
    pub page_up: Option<KeybindingsSpec>,
    pub page_down: Option<KeybindingsSpec>,
    pub half_page_up: Option<KeybindingsSpec>,
    pub half_page_down: Option<KeybindingsSpec>,
    pub jump_top: Option<KeybindingsSpec>,
    pub jump_bottom: Option<KeybindingsSpec>,
    pub close: Option<KeybindingsSpec>,
    pub close_transcript: Option<KeybindingsSpec>,
}

impl PagerKeymapConfig {
    /// The table with no action configured.
    pub open spec fn unset() -> Self {
        PagerKeymapConfig {
            scroll_up: None,
            scroll_down: None,
            page_up: None,
            page_down: None,
            half_page_up: None,
            half_page_down: None,
            jump_top: None,
            jump_bottom: None,
            close: None,
            close_transcript: None,
        }
    }

    /// Whether some configured value of this table names the key of `alias`.
    pub open spec fn table_uses_alias(self, alias: KeyBinding) -> bool {
        value_uses_alias(self.scroll_up, alias)
            || value_uses_alias(self.scroll_down, alias)
            || value_uses_alias(self.page_up, alias)
            || value_uses_alias(self.page_down, alias)
            || value_uses_alias(self.half_page_up, alias)
            || value_uses_alias(self.half_page_down, alias)
            || value_uses_alias(self.jump_top, alias)
            || value_uses_alias(self.jump_bottom, alias)
            || value_uses_alias(self.close, alias)
            || value_uses_alias(self.close_transcript, alias)
    }

    /// Whether some configured value of this table names the key of `alias`.
    pub fn uses_alias(&self, alias: KeyBinding) -> (r: bool)
        ensures
            r == self.table_uses_alias(alias),
    {
        configured_value_uses_alias(&self.scroll_up, alias)
            || configured_value_uses_alias(&self.scroll_down, alias)
            || configured_value_uses_alias(&self.page_up, alias)
            || configured_value_uses_alias(&self.page_down, alias)
            || configured_value_uses_alias(&self.half_page_up, alias)
            || configured_value_uses_alias(&self.half_page_down, alias)
            || configured_value_uses_alias(&self.jump_top, alias)
            || configured_value_uses_alias(&self.jump_bottom, alias)
            || configured_value_uses_alias(&self.close, alias)
            || configured_value_uses_alias(&self.close_transcript, alias)
    }
}

impl Default for PagerKeymapConfig {
    fn default() -> (r: Self)
        ensures
            r == Self::unset(),
    {
        PagerKeymapConfig {
            scroll_up: None,
            scroll_down: None,
            page_up: None,
            page_down: None,
            half_page_up: None,
            half_page_down: None,
            jump_top: None,
            jump_bottom: None,
            close: None,
            close_transcript: None,
        }
    }
}

/// List picker actions (`tui.keymap.list`).
#[derive(Clone, Debug)]
pub struct ListKeymapConfig {
    pub move_up: Option<KeybindingsSpec>,
    pub move_down: Option<KeybindingsSpec>,
    pub move_left: Option<KeybindingsSpec>,
    pub move_right: Option<KeybindingsSpec>,
    pub page_up: Option<KeybindingsSpec>,
    pub page_down: Option<KeybindingsSpec>,
    pub jump_top: Option<KeybindingsSpec>,
    pub jump_bottom: Option<KeybindingsSpec>,
    pub accept: Option<KeybindingsSpec>,
    pub cancel: Option<KeybindingsSpec>,
}

impl ListKeymapConfig {
    /// The table with no action configured.
    pub open spec fn unset() -> Self {
        ListKeymapConfig {
            move_up: None,
            move_down: None,
            move_left: None,
            move_right: None,
            page_up: None,
            page_down: None,
            jump_top: None,
            jump_bottom: None,
            accept: None,
            cancel: None,
        }
    }

    /// Whether some configured value of this table names the key of `alias`.
    pub open spec fn table_uses_alias(self, alias: KeyBinding) -> bool {
        value_uses_alias(self.move_up, alias)
            || value_uses_alias(self.move_down, alias)
            || value_uses_alias(self.move_left, alias)
            || value_uses_alias(self.move_right, alias)
            || value_uses_alias(self.page_up, alias)
            || value_uses_alias(self.page_down, alias)
            || value_uses_alias(self.jump_top, alias)
            || value_uses_alias(self.jump_bottom, alias)
            || value_uses_alias(self.accept, alias)
            || value_uses_alias(self.cancel, alias)
    }

    /// Whether some configured value of this table names the key of `alias`.
    pub fn uses_alias(&self, alias: KeyBinding) -> (r: bool)
        ensures
            r == self.table_uses_alias(alias),
    {
        configured_value_uses_alias(&self.move_up, alias)
            || configured_value_uses_alias(&self.move_down, alias)
            || configured_value_uses_alias(&self.move_left, alias)
            || configured_value_uses_alias(&self.move_right, alias)
            || configured_value_uses_alias(&self.page_up, alias)
            || configured_value_uses_alias(&self.page_down, alias)
            || configured_value_uses_alias(&self.jump_top, alias)
            || configured_value_uses_alias(&self.jump_bottom, alias)
            || configured_value_uses_alias(&self.accept, alias)
            || configured_value_uses_alias(&self.cancel, alias)
    }
}

impl Default for ListKeymapConfig {
    fn default() -> (r: Self)
        ensures
            r == Self::unset(),
    {
        ListKeymapConfig {
            move_up: None,
            move_down: None,
            move_left: None,
            move_right: None,
            page_up: None,
            page_down: None,
            jump_top: None,
            jump_bottom: None,
            accept: None,
            cancel: None,
        }
    }
}

/// Agents dashboard actions (`tui.keymap.agents`).
#[derive(Clone, Debug)]
pub struct AgentsKeymapConfig {
    pub resume: Option<KeybindingsSpec>,
    pub search: Option<KeybindingsSpec>,
    pub new_task: Option<KeybindingsSpec>,
    pub rename: Option<KeybindingsSpec>,
    pub stop: Option<KeybindingsSpec>,
    pub toggle_grouping: Option<KeybindingsSpec>,
}

impl AgentsKeymapConfig {
    /// The table with no action configured.
    pub open spec fn unset() -> Self {
        AgentsKeymapConfig {
            resume: None,
            search: None,
            new_task: None,
            rename: None,
            stop: None,
            toggle_grouping: None,
        }
    }

    /// Whether some configured value of this table names the key of `alias`.
    pub open spec fn table_uses_alias(self, alias: KeyBinding) -> bool {
        value_uses_alias(self.resume, alias)
            || value_uses_alias(self.search, alias)
            || value_uses_alias(self.new_task, alias)
            || value_uses_alias(self.rename, alias)
            || value_uses_alias(self.stop, alias)
            || value_uses_alias(self.toggle_grouping, alias)
    }

    /// Whether some configured value of this table names the key of `alias`.
    pub fn uses_alias(&self, alias: KeyBinding) -> (r: bool)
        ensures
            r == self.table_uses_alias(alias),
    {
        configured_value_uses_alias(&self.resume, alias)
            || configured_value_uses_alias(&self.search, alias)
            || configured_value_uses_alias(&self.new_task, alias)
            || configured_value_uses_alias(&self.rename, alias)
            || configured_value_uses_alias(&self.stop, alias)
            || configured_value_uses_alias(&self.toggle_grouping, alias)
    }
}

impl Default for AgentsKeymapConfig {
    fn default() -> (r: Self)
        ensures
            r == Self::unset(),
    {
        AgentsKeymapConfig {
            resume: None,
            search: None,
            new_task: None,
            rename: None,
            stop: None,
            toggle_grouping: None,
        }
    }
}

/// Approval modal actions (`tui.keymap.approval`).
#[derive(Clone, Debug)]
pub struct ApprovalKeymapConfig {
    pub open_fullscreen: Option<KeybindingsSpec>,
    pub open_thread: Option<KeybindingsSpec>,
    pub approve: Option<KeybindingsSpec>,
    pub approve_for_session: Option<KeybindingsSpec>,
    pub approve_for_prefix: Option<KeybindingsSpec>,
    pub deny: Option<KeybindingsSpec>,
    pub decline: Option<KeybindingsSpec>,
    pub cancel: Option<KeybindingsSpec>,
}

impl ApprovalKeymapConfig {
    /// The table with no action configured.
    pub open spec fn unset() -> Self {
        ApprovalKeymapConfig {
            open_fullscreen: None,
            open_thread: None,
            approve: None,
            approve_for_session: None,
            approve_for_prefix: None,
            deny: None,
            decline: None,
            cancel: None,
        }
    }

    /// Whether some configured value of this table names the key of `alias`.
    pub open spec fn table_uses_alias(self, alias: KeyBinding) -> bool {
        value_uses_alias(self.open_fullscreen, alias)
            || value_uses_alias(self.open_thread, alias)
            || value_uses_alias(self.approve, alias)
            || value_uses_alias(self.approve_for_session, alias)
            || value_uses_alias(self.approve_for_prefix, alias)
            || value_uses_alias(self.deny, alias)
            || value_uses_alias(self.decline, alias)
            || value_uses_alias(self.cancel, alias)
    }

    /// Whether some configured value of this table names the key of `alias`.
    pub fn uses_alias(&self, alias: KeyBinding) -> (r: bool)
        ensures
            r == self.table_uses_alias(alias),
    {
        configured_value_uses_alias(&self.open_fullscreen, alias)
            || configured_value_uses_alias(&self.open_thread, alias)
            || configured_value_uses_alias(&self.approve, alias)
            || configured_value_uses_alias(&self.approve_for_session, alias)
            || configured_value_uses_alias(&self.approve_for_prefix, alias)
            || configured_value_uses_alias(&self.deny, alias)
            || configured_value_uses_alias(&self.decline, alias)
            || configured_value_uses_alias(&self.cancel, alias)
    }
}

impl Default for ApprovalKeymapConfig {
    fn default() -> (r: Self)
        ensures
            r == Self::unset(),
    {
        ApprovalKeymapConfig {
            open_fullscreen: None,
            open_thread: None,
            approve: None,
            approve_for_session: None,
            approve_for_prefix: None,
            deny: None,
            decline: None,
            cancel: None,
        }
    }
}

/// The whole `tui.keymap` table.
#[derive(Clone, Debug)]
pub struct TuiKeymap {
    pub global: GlobalKeymapConfig,
    pub chat: ChatKeymapConfig,
    pub composer: ComposerKeymapConfig,
    pub editor: EditorKeymapConfig,
    pub vim_normal: VimNormalKeymapConfig,
    pub vim_operator: VimOperatorKeymapConfig,
    pub vim_text_object: VimTextObjectKeymapConfig,
    pub vim_search: VimSearchKeymapConfig,
    pub pager: PagerKeymapConfig,
    pub list: ListKeymapConfig,
    pub agents: AgentsKeymapConfig,
    pub approval: ApprovalKeymapConfig,
}

impl TuiKeymap {
    /// The configuration with no action configured.
    pub open spec fn unset() -> Self {
        TuiKeymap {
            global: GlobalKeymapConfig::unset(),
            chat: ChatKeymapConfig::unset(),
            composer: ComposerKeymapConfig::unset(),
            editor: EditorKeymapConfig::unset(),
            vim_normal: VimNormalKeymapConfig::unset(),
            vim_operator: VimOperatorKeymapConfig::unset(),
            vim_text_object: VimTextObjectKeymapConfig::unset(),
            vim_search: VimSearchKeymapConfig::unset(),
            pager: PagerKeymapConfig::unset(),
            list: ListKeymapConfig::unset(),
            agents: AgentsKeymapConfig::unset(),
            approval: ApprovalKeymapConfig::unset(),
        }
    }
}

impl Default for TuiKeymap {
    fn default() -> (r: Self)
        ensures
            r == Self::unset(),
    {
        TuiKeymap {
            global: GlobalKeymapConfig::default(),
            chat: ChatKeymapConfig::default(),
            composer: ComposerKeymapConfig::default(),
            editor: EditorKeymapConfig::default(),
            vim_normal: VimNormalKeymapConfig::default(),
            vim_operator: VimOperatorKeymapConfig::default(),
            vim_text_object: VimTextObjectKeymapConfig::default(),
            vim_search: VimSearchKeymapConfig::default(),
            pager: PagerKeymapConfig::default(),
            list: ListKeymapConfig::default(),
            agents: AgentsKeymapConfig::default(),
            approval: ApprovalKeymapConfig::default(),
        }
    }
}

} // verus!
