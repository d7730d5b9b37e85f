//! The resolved runtime keymap: for every context and action, the keys that
//! trigger it. Input handlers dispatch on this snapshot only.

use vstd::prelude::*;
use crate::keys::{KeyBinding, KeyEvent, any_pressed, is_pressed};

verus! {

/// The abstract form of [`AppKeymap`]: the keys of each action, in order.
#[verifier::ext_equal]
pub struct AppModel {
    pub open_agents: Seq<KeyBinding>,
    pub open_transcript: Seq<KeyBinding>,
    pub open_external_editor: Seq<KeyBinding>,
    pub copy: Seq<KeyBinding>,
    pub clear_terminal: Seq<KeyBinding>,
    pub toggle_vim_mode: Seq<KeyBinding>,
    pub toggle_fast_mode: Seq<KeyBinding>,
    pub toggle_raw_output: Seq<KeyBinding>,
    pub toggle_side_conversation: Seq<KeyBinding>,
}

/// Main-surface actions handled before input reaches the composer.
#[derive(Clone, Debug)]
pub struct AppKeymap {
    pub open_agents: Vec<KeyBinding>,
    pub open_transcript: Vec<KeyBinding>,
    pub open_external_editor: Vec<KeyBinding>,
    pub copy: Vec<KeyBinding>,
    pub clear_terminal: Vec<KeyBinding>,
    pub toggle_vim_mode: Vec<KeyBinding>,
    pub toggle_fast_mode: Vec<KeyBinding>,
    pub toggle_raw_output: Vec<KeyBinding>,
    pub toggle_side_conversation: Vec<KeyBinding>,
}

impl View for AppKeymap {
    type V = AppModel;

    open spec fn view(&self) -> AppModel {
        AppModel {
            open_agents: self.open_agents@,
            open_transcript: self.open_transcript@,
            open_external_editor: self.open_external_editor@,
            copy: self.copy@,
            clear_terminal: self.clear_terminal@,
            toggle_vim_mode: self.toggle_vim_mode@,
            toggle_fast_mode: self.toggle_fast_mode@,
            toggle_raw_output: self.toggle_raw_output@,
            toggle_side_conversation: self.toggle_side_conversation@,
        }
    }
}

/// The abstract form of [`ChatKeymap`]: the keys of each action, in order.
#[verifier::ext_equal]
pub struct ChatModel {
    pub interrupt_turn: Seq<KeyBinding>,
    pub decrease_reasoning_effort: Seq<KeyBinding>,
    pub increase_reasoning_effort: Seq<KeyBinding>,
    pub previous_permission_mode: Seq<KeyBinding>,
    pub next_permission_mode: Seq<KeyBinding>,
    pub edit_queued_message: Seq<KeyBinding>,
    pub prompt_stack_back: Seq<KeyBinding>,
    pub skip_question: Seq<KeyBinding>,
}

/// Chat actions evaluated at the app event layer.
#[derive(Clone, Debug)]
pub struct ChatKeymap {
    pub interrupt_turn: Vec<KeyBinding>,
    pub decrease_reasoning_effort: Vec<KeyBinding>,
    pub increase_reasoning_effort: Vec<KeyBinding>,
    pub previous_permission_mode: Vec<KeyBinding>,
    pub next_permission_mode: Vec<KeyBinding>,
    pub edit_queued_message: Vec<KeyBinding>,
    pub prompt_stack_back: Vec<KeyBinding>,
    pub skip_question: Vec<KeyBinding>,
}

impl View for ChatKeymap {
    type V = ChatModel;

    open spec fn view(&self) -> ChatModel {
        ChatModel {
            interrupt_turn: self.interrupt_turn@,
            decrease_reasoning_effort: self.decrease_reasoning_effort@,
            increase_reasoning_effort: self.increase_reasoning_effort@,
            previous_permission_mode: self.previous_permission_mode@,
            next_permission_mode: self.next_permission_mode@,
            edit_queued_message: self.edit_queued_message@,
            prompt_stack_back: self.prompt_stack_back@,
            skip_question: self.skip_question@,
        }
    }
}

/// The abstract form of [`ComposerKeymap`]: the keys of each action, in order.
#[verifier::ext_equal]
pub struct ComposerModel {
    pub submit: Seq<KeyBinding>,
    pub queue: Seq<KeyBinding>,
    pub toggle_shortcuts: Seq<KeyBinding>,
    pub history_search_previous: Seq<KeyBinding>,
    pub history_search_next: Seq<KeyBinding>,
}

/// Composer actions: submit, queue, shortcut overlay and history search.
#[derive(Clone, Debug)]
pub struct ComposerKeymap {
    pub submit: Vec<KeyBinding>,
    pub queue: Vec<KeyBinding>,
    pub toggle_shortcuts: Vec<KeyBinding>,
    pub history_search_previous: Vec<KeyBinding>,
    pub history_search_next: Vec<KeyBinding>,
}

impl View for ComposerKeymap {
    type V = ComposerModel;

    open spec fn view(&self) -> ComposerModel {
        ComposerModel {
            submit: self.submit@,
            queue: self.queue@,
            toggle_shortcuts: self.toggle_shortcuts@,
            history_search_previous: self.history_search_previous@,
            history_search_next: self.history_search_next@,
        }
    }
}

/// The abstract form of [`EditorKeymap`]: the keys of each action, in order.
#[verifier::ext_equal]
pub struct EditorModel {
    pub insert_newline: Seq<KeyBinding>,
    pub move_left: Seq<KeyBinding>,
    pub move_right: Seq<KeyBinding>,
    pub move_up: Seq<KeyBinding>,
    pub move_down: Seq<KeyBinding>,
    pub move_word_left: Seq<KeyBinding>,
    pub move_word_right: Seq<KeyBinding>,
    pub move_line_start: Seq<KeyBinding>,
    pub move_line_end: Seq<KeyBinding>,
    pub delete_backward: Seq<KeyBinding>,
    pub delete_forward: Seq<KeyBinding>,
    pub delete_backward_word: Seq<KeyBinding>,
    pub delete_forward_word: Seq<KeyBinding>,
    pub kill_line_start: Seq<KeyBinding>,
    pub kill_whole_line: Seq<KeyBinding>,
    pub kill_line_end: Seq<KeyBinding>,
    pub yank: Seq<KeyBinding>,
}

/// Text-editing actions of the composer textarea.
#[derive(Clone, Debug)]
pub struct EditorKeymap {
    pub insert_newline: Vec<KeyBinding>,
    pub move_left: Vec<KeyBinding>,
    pub move_right: Vec<KeyBinding>,
    pub move_up: Vec<KeyBinding>,
    pub move_down: Vec<KeyBinding>,
    pub move_word_left: Vec<KeyBinding>,
    pub move_word_right: Vec<KeyBinding>,
    pub move_line_start: Vec<KeyBinding>,
    pub move_line_end: Vec<KeyBinding>,
    pub delete_backward: Vec<KeyBinding>,
    pub delete_forward: Vec<KeyBinding>,
    pub delete_backward_word: Vec<KeyBinding>,
    pub delete_forward_word: Vec<KeyBinding>,
    pub kill_line_start: Vec<KeyBinding>,
    pub kill_whole_line: Vec<KeyBinding>,
    pub kill_line_end: Vec<KeyBinding>,
    pub yank: Vec<KeyBinding>,
}

impl View for EditorKeymap {
    type V = EditorModel;

    open spec fn view(&self) -> EditorModel {
        EditorModel {
            insert_newline: self.insert_newline@,
            move_left: self.move_left@,
            move_right: self.move_right@,
            move_up: self.move_up@,
            move_down: self.move_down@,
            move_word_left: self.move_word_left@,
            move_word_right: self.move_word_right@,
            move_line_start: self.move_line_start@,
            move_line_end: self.move_line_end@,
            delete_backward: self.delete_backward@,
            delete_forward: self.delete_forward@,
            delete_backward_word: self.delete_backward_word@,
            delete_forward_word: self.delete_forward_word@,
            kill_line_start: self.kill_line_start@,
            kill_whole_line: self.kill_whole_line@,
            kill_line_end: self.kill_line_end@,
            yank: self.yank@,
        }
    }
}

/// The abstract form of [`VimNormalKeymap`]: the keys of each action, in order.
#[verifier::ext_equal]
pub struct VimNormalModel {
    pub enter_insert: Seq<KeyBinding>,
    pub append_after_cursor: Seq<KeyBinding>,
    pub append_line_end: Seq<KeyBinding>,
    pub insert_line_start: Seq<KeyBinding>,
    pub open_line_below: Seq<KeyBinding>,
    pub open_line_above: Seq<KeyBinding>,
    pub enter_replace_mode: Seq<KeyBinding>,
    pub move_left: Seq<KeyBinding>,
    pub move_right: Seq<KeyBinding>,
    pub move_up: Seq<KeyBinding>,
    pub move_down: Seq<KeyBinding>,
    pub move_word_forward: Seq<KeyBinding>,
    pub move_word_backward: Seq<KeyBinding>,
    pub move_word_end: Seq<KeyBinding>,
    pub move_line_start: Seq<KeyBinding>,
    pub move_line_end: Seq<KeyBinding>,
    pub find_forward: Seq<KeyBinding>,
    pub find_backward: Seq<KeyBinding>,
    pub till_forward: Seq<KeyBinding>,
    pub till_backward: Seq<KeyBinding>,
    pub jump_top: Seq<KeyBinding>,
    pub jump_bottom: Seq<KeyBinding>,
    pub delete_char: Seq<KeyBinding>,
    pub replace_char: Seq<KeyBinding>,
    pub repeat_last_change: Seq<KeyBinding>,
    pub substitute_char: Seq<KeyBinding>,
    pub delete_to_line_end: Seq<KeyBinding>,
    pub change_to_line_end: Seq<KeyBinding>,
    pub yank_line: Seq<KeyBinding>,
    pub paste_after: Seq<KeyBinding>,
    pub start_delete_operator: Seq<KeyBinding>,
    pub start_yank_operator: Seq<KeyBinding>,
    pub start_change_operator: Seq<KeyBinding>,
    pub undo: Seq<KeyBinding>,
    pub redo: Seq<KeyBinding>,
    pub cancel_operator: Seq<KeyBinding>,
}

/// Vim normal-mode actions.
#[derive(Clone, Debug)]
pub struct VimNormalKeymap {
    pub enter_insert: Vec<KeyBinding>,
    pub append_after_cursor: Vec<KeyBinding>,
    pub append_line_end: Vec<KeyBinding>,
    pub insert_line_start: Vec<KeyBinding>,
    pub open_line_below: Vec<KeyBinding>,
    pub open_line_above: Vec<KeyBinding>,
    pub enter_replace_mode: Vec<KeyBinding>,
    pub move_left: Vec<KeyBinding>,
    pub move_right: Vec<KeyBinding>,
    pub move_up: Vec<KeyBinding>,
    pub move_down: Vec<KeyBinding>,
    pub move_word_forward: Vec<KeyBinding>,
    pub move_word_backward: Vec<KeyBinding>,
    pub move_word_end: Vec<KeyBinding>,
    pub move_line_start: Vec<KeyBinding>,
    pub move_line_end: Vec<KeyBinding>,
    pub find_forward: Vec<KeyBinding>,
    pub find_backward: Vec<KeyBinding>,
    pub till_forward: Vec<KeyBinding>,
    pub till_backward: Vec<KeyBinding>,
    pub jump_top: Vec<KeyBinding>,
    pub jump_bottom: Vec<KeyBinding>,
    pub delete_char: Vec<KeyBinding>,
    pub replace_char: Vec<KeyBinding>,
    pub repeat_last_change: Vec<KeyBinding>,
    pub substitute_char: Vec<KeyBinding>,
    pub delete_to_line_end: Vec<KeyBinding>,
    pub change_to_line_end: Vec<KeyBinding>,
    pub yank_line: Vec<KeyBinding>,
    pub paste_after: Vec<KeyBinding>,
    pub start_delete_operator: Vec<KeyBinding>,
    pub start_yank_operator: Vec<KeyBinding>,
    pub start_change_operator: Vec<KeyBinding>,
    pub undo: Vec<KeyBinding>,
    pub redo: Vec<KeyBinding>,
    pub cancel_operator: Vec<KeyBinding>,
}

impl View for VimNormalKeymap {
    type V = VimNormalModel;

    open spec fn view(&self) -> VimNormalModel {
        VimNormalModel {
            enter_insert: self.enter_insert@,
            append_after_cursor: self.append_after_cursor@,
            append_line_end: self.append_line_end@,
            insert_line_start: self.insert_line_start@,
            open_line_below: self.open_line_below@,
            open_line_above: self.open_line_above@,
            enter_replace_mode: self.enter_replace_mode@,
            move_left: self.move_left@,
            move_right: self.move_right@,
            move_up: self.move_up@,
            move_down: self.move_down@,
            move_word_forward: self.move_word_forward@,
            move_word_backward: self.move_word_backward@,
            move_word_end: self.move_word_end@,
            move_line_start: self.move_line_start@,
            move_line_end: self.move_line_end@,
            find_forward: self.find_forward@,
            find_backward: self.find_backward@,
            till_forward: self.till_forward@,
            till_backward: self.till_backward@,
            jump_top: self.jump_top@,
            jump_bottom: self.jump_bottom@,
            delete_char: self.delete_char@,
            replace_char: self.replace_char@,
            repeat_last_change: self.repeat_last_change@,
            substitute_char: self.substitute_char@,
            delete_to_line_end: self.delete_to_line_end@,
            change_to_line_end: self.change_to_line_end@,
            yank_line: self.yank_line@,
            paste_after: self.paste_after@,
            start_delete_operator: self.start_delete_operator@,
            start_yank_operator: self.start_yank_operator@,
            start_change_operator: self.start_change_operator@,
            undo: self.undo@,
            redo: self.redo@,
            cancel_operator: self.cancel_operator@,
        }
    }
}

/// The abstract form of [`VimOperatorKeymap`]: the keys of each action, in order.
#[verifier::ext_equal]
pub struct VimOperatorModel {
    pub delete_line: Seq<KeyBinding>,
    pub yank_line: Seq<KeyBinding>,
    pub motion_left: Seq<KeyBinding>,
    pub motion_right: Seq<KeyBinding>,
    pub motion_up: Seq<KeyBinding>,
    pub motion_down: Seq<KeyBinding>,
    pub motion_word_forward: Seq<KeyBinding>,
    pub motion_word_backward: Seq<KeyBinding>,
    pub motion_word_end: Seq<KeyBinding>,
    pub motion_line_start: Seq<KeyBinding>,
    pub motion_line_end: Seq<KeyBinding>,
    pub motion_find_forward: Seq<KeyBinding>,
    pub motion_find_backward: Seq<KeyBinding>,
    pub motion_till_forward: Seq<KeyBinding>,
    pub motion_till_backward: Seq<KeyBinding>,
    pub motion_jump_top: Seq<KeyBinding>,
    pub motion_jump_bottom: Seq<KeyBinding>,
    pub select_inner_text_object: Seq<KeyBinding>,
    pub select_around_text_object: Seq<KeyBinding>,
    pub cancel: Seq<KeyBinding>,
}

/// Vim operator-pending actions, active after `d`, `y` or `c`.
#[derive(Clone, Debug)]
pub struct VimOperatorKeymap {
    pub delete_line: Vec<KeyBinding>,
    pub yank_line: Vec<KeyBinding>,
    pub motion_left: Vec<KeyBinding>,
    pub motion_right: Vec<KeyBinding>,
    pub motion_up: Vec<KeyBinding>,
    pub motion_down: Vec<KeyBinding>,
    pub motion_word_forward: Vec<KeyBinding>,
    pub motion_word_backward: Vec<KeyBinding>,
    pub motion_word_end: Vec<KeyBinding>,
    pub motion_line_start: Vec<KeyBinding>,
    pub motion_line_end: Vec<KeyBinding>,
    pub motion_find_forward: Vec<KeyBinding>,
    pub motion_find_backward: Vec<KeyBinding>,
    pub motion_till_forward: Vec<KeyBinding>,
    pub motion_till_backward: Vec<KeyBinding>,
    pub motion_jump_top: Vec<KeyBinding>,
    pub motion_jump_bottom: Vec<KeyBinding>,
    pub select_inner_text_object: Vec<KeyBinding>,
    pub select_around_text_object: Vec<KeyBinding>,
    pub cancel: Vec<KeyBinding>,
}

impl View for VimOperatorKeymap {
    type V = VimOperatorModel;

    open spec fn view(&self) -> VimOperatorModel {
        VimOperatorModel {
            delete_line: self.delete_line@,
            yank_line: self.yank_line@,
            motion_left: self.motion_left@,
            motion_right: self.motion_right@,
            motion_up: self.motion_up@,
            motion_down: self.motion_down@,
            motion_word_forward: self.motion_word_forward@,
            motion_word_backward: self.motion_word_backward@,
            motion_word_end: self.motion_word_end@,
            motion_line_start: self.motion_line_start@,
            motion_line_end: self.motion_line_end@,
            motion_find_forward: self.motion_find_forward@,
            motion_find_backward: self.motion_find_backward@,
            motion_till_forward: self.motion_till_forward@,
            motion_till_backward: self.motion_till_backward@,
            motion_jump_top: self.motion_jump_top@,
            motion_jump_bottom: self.motion_jump_bottom@,
            select_inner_text_object: self.select_inner_text_object@,
            select_around_text_object: self.select_around_text_object@,
            cancel: self.cancel@,
        }
    }
}

/// The abstract form of [`VimSearchKeymap`]: the keys of each action, in order.
#[verifier::ext_equal]
pub struct VimSearchModel {
    pub forward: Seq<KeyBinding>,
    pub backward: Seq<KeyBinding>,
    pub next: Seq<KeyBinding>,
    pub previous: Seq<KeyBinding>,
}

/// Vim search actions.
#[derive(Clone, Debug)]
pub struct VimSearchKeymap {
    pub forward: Vec<KeyBinding>,
    pub backward: Vec<KeyBinding>,
    pub next: Vec<KeyBinding>,
    pub previous: Vec<KeyBinding>,
}

impl View for VimSearchKeymap {
    type V = VimSearchModel;

    open spec fn view(&self) -> VimSearchModel {
        VimSearchModel {
            forward: self.forward@,
            backward: self.backward@,
            next: self.next@,
            previous: self.previous@,
        }
    }
}

/// The abstract form of [`VimTextObjectKeymap`]: the keys of each action, in order.
#[verifier::ext_equal]
pub struct VimTextObjectModel {
    pub word: Seq<KeyBinding>,
    pub big_word: Seq<KeyBinding>,
    pub parentheses: Seq<KeyBinding>,
    pub brackets: Seq<KeyBinding>,
    pub braces: Seq<KeyBinding>,
    pub double_quote: Seq<KeyBinding>,
    pub single_quote: Seq<KeyBinding>,
    pub backtick: Seq<KeyBinding>,
    pub cancel: Seq<KeyBinding>,
}

/// Vim text-object actions, active after an operator and an inner/around prefix.
#[derive(Clone, Debug)]
pub struct VimTextObjectKeymap {
    pub word: Vec<KeyBinding>,
    pub big_word: Vec<KeyBinding>,
    pub parentheses: Vec<KeyBinding>,
    pub brackets: Vec<KeyBinding>,
    pub braces: Vec<KeyBinding>,
    pub double_quote: Vec<KeyBinding>,
    pub single_quote: Vec<KeyBinding>,
    pub backtick: Vec<KeyBinding>,
    pub cancel: Vec<KeyBinding>,
}

impl View for VimTextObjectKeymap {
    type V = VimTextObjectModel;

    open spec fn view(&self) -> VimTextObjectModel {
        VimTextObjectModel {
            word: self.word@,
            big_word: self.big_word@,
            parentheses: self.parentheses@,
            brackets: self.brackets@,
            braces: self.braces@,
            double_quote: self.double_quote@,
            single_quote: self.single_quote@,
            backtick: self.backtick@,
            cancel: self.cancel@,
        }
    }
}

/// The abstract form of [`PagerKeymap`]: the keys of each action, in order.
#[verifier::ext_equal]
pub struct PagerModel {
    pub scroll_up: Seq<KeyBinding>,
    pub scroll_down: Seq<KeyBinding>,
    pub page_up: Seq<KeyBinding>,
    pub page_down: Seq<KeyBinding>,
    pub half_page_up: Seq<KeyBinding>,
    pub half_page_down: Seq<KeyBinding>,
    pub jump_top: Seq<KeyBinding>,
    pub jump_bottom: Seq<KeyBinding>,
    pub close: Seq<KeyBinding>,
    pub close_transcript: Seq<KeyBinding>,
}

/// Pager and overlay actions for transcript and static help views.
#[derive(Clone, Debug)]
pub struct PagerKeymap {
    pub scroll_up: Vec<KeyBinding>,
    pub scroll_down: Vec<KeyBinding>,
    pub page_up: Vec<KeyBinding>,
    pub page_down: Vec<KeyBinding>,
    pub half_page_up: Vec<KeyBinding>,
    pub half_page_down: Vec<KeyBinding>,
    pub jump_top: Vec<KeyBinding>,
    pub jump_bottom: Vec<KeyBinding>,
    pub close: Vec<KeyBinding>,
    pub close_transcript: Vec<KeyBinding>,
}

impl View for PagerKeymap {
    type V = PagerModel;

    open spec fn view(&self) -> PagerModel {
        PagerModel {
            scroll_up: self.scroll_up@,
            scroll_down: self.scroll_down@,
            page_up: self.page_up@,
            page_down: self.page_down@,
            half_page_up: self.half_page_up@,
            half_page_down: self.half_page_down@,
            jump_top: self.jump_top@,
            jump_bottom: self.jump_bottom@,
            close: self.close@,
            close_transcript: self.close_transcript@,
        }
    }
}

/// The abstract form of [`ListKeymap`]: the keys of each action, in order.
#[verifier::ext_equal]
pub struct ListModel {
    pub move_up: Seq<KeyBinding>,
    pub move_down: Seq<KeyBinding>,
    pub move_left: Seq<KeyBinding>,
    pub move_right: Seq<KeyBinding>,
    pub page_up: Seq<KeyBinding>,
    pub page_down: Seq<KeyBinding>,
    pub jump_top: Seq<KeyBinding>,
    pub jump_bottom: Seq<KeyBinding>,
    pub accept: Seq<KeyBinding>,
    pub cancel: Seq<KeyBinding>,
}

/// Navigation and confirmation actions shared by list-like views.
#[derive(Clone, Debug)]
pub struct ListKeymap {
    pub move_up: Vec<KeyBinding>,
    pub move_down: Vec<KeyBinding>,
    pub move_left: Vec<KeyBinding>,
    pub move_right: Vec<KeyBinding>,
    pub page_up: Vec<KeyBinding>,
    pub page_down: Vec<KeyBinding>,
    pub jump_top: Vec<KeyBinding>,
    pub jump_bottom: Vec<KeyBinding>,
    pub accept: Vec<KeyBinding>,
    pub cancel: Vec<KeyBinding>,
}

impl View for ListKeymap {
    type V = ListModel;

    open spec fn view(&self) -> ListModel {
        ListModel {
            move_up: self.move_up@,
            move_down: self.move_down@,
            move_left: self.move_left@,
            move_right: self.move_right@,
            page_up: self.page_up@,
            page_down: self.page_down@,
            jump_top: self.jump_top@,
            jump_bottom: self.jump_bottom@,
            accept: self.accept@,
            cancel: self.cancel@,
        }
    }
}

/// The abstract form of [`AgentsKeymap`]: the keys of each action, in order.
#[verifier::ext_equal]
pub struct AgentsModel {
    pub resume: Seq<KeyBinding>,
    pub search: Seq<KeyBinding>,
    pub new_task: Seq<KeyBinding>,
    pub rename: Seq<KeyBinding>,
    pub stop: Seq<KeyBinding>,
    pub toggle_grouping: Seq<KeyBinding>,
}

/// Task-management actions of the agents dashboard.
#[derive(Clone, Debug)]
pub struct AgentsKeymap {
    pub resume: Vec<KeyBinding>,
    pub search: Vec<KeyBinding>,
    pub new_task: Vec<KeyBinding>,
    pub rename: Vec<KeyBinding>,
    pub stop: Vec<KeyBinding>,
    pub toggle_grouping: Vec<KeyBinding>,
}

impl View for AgentsKeymap {
    type V = AgentsModel;

    open spec fn view(&self) -> AgentsModel {
        AgentsModel {
            resume: self.resume@,
            search: self.search@,
            new_task: self.new_task@,
            rename: self.rename@,
            stop: self.stop@,
            toggle_grouping: self.toggle_grouping@,
        }
    }
}

/// The abstract form of [`ApprovalKeymap`]: the keys of each action, in order.
#[verifier::ext_equal]
pub struct ApprovalModel {
    pub open_fullscreen: Seq<KeyBinding>,
    pub open_thread: Seq<KeyBinding>,
    pub approve: Seq<KeyBinding>,
    pub approve_for_session: Seq<KeyBinding>,
    pub approve_for_prefix: Seq<KeyBinding>,
    pub deny: Seq<KeyBinding>,
    pub decline: Seq<KeyBinding>,
    pub cancel: Seq<KeyBinding>,
}

/// Approval modal actions.
#[derive(Clone, Debug)]
pub struct ApprovalKeymap {
    pub open_fullscreen: Vec<KeyBinding>,
    pub open_thread: Vec<KeyBinding>,
    pub approve: Vec<KeyBinding>,
    pub approve_for_session: Vec<KeyBinding>,
    pub approve_for_prefix: Vec<KeyBinding>,
    pub deny: Vec<KeyBinding>,
    pub decline: Vec<KeyBinding>,
    pub cancel: Vec<KeyBinding>,
}

impl View for ApprovalKeymap {
    type V = ApprovalModel;

    open spec fn view(&self) -> ApprovalModel {
        ApprovalModel {
            open_fullscreen: self.open_fullscreen@,
            open_thread: self.open_thread@,
            approve: self.approve@,
            approve_for_session: self.approve_for_session@,
            approve_for_prefix: self.approve_for_prefix@,
            deny: self.deny@,
            decline: self.decline@,
            cancel: self.cancel@,
        }
    }
}

/// The abstract form of [`RuntimeKeymap`].
#[verifier::ext_equal]
pub struct KeymapView {
    pub app: AppModel,
    pub chat: ChatModel,
    pub composer: ComposerModel,
    pub editor: EditorModel,
    pub vim_normal: VimNormalModel,
    pub vim_operator: VimOperatorModel,
    pub vim_search: VimSearchModel,
    pub vim_text_object: VimTextObjectModel,
    pub pager: PagerModel,
    pub list: ListModel,
    pub agents: AgentsModel,
    pub approval: ApprovalModel,
}

/// The runtime keymap used by input handlers: a fully resolved snapshot with
/// parsing, global fallback, explicit unbinding and conflict validation
/// already applied.
#[derive(Clone, Debug)]
pub struct RuntimeKeymap {
    pub app: AppKeymap,
    pub chat: ChatKeymap,
    pub composer: ComposerKeymap,
    pub editor: EditorKeymap,
    pub vim_normal: VimNormalKeymap,
    pub vim_operator: VimOperatorKeymap,
    pub vim_search: VimSearchKeymap,
    pub vim_text_object: VimTextObjectKeymap,
    pub pager: PagerKeymap,
    pub list: ListKeymap,
    pub agents: AgentsKeymap,
    pub approval: ApprovalKeymap,
}

impl View for RuntimeKeymap {
    type V = KeymapView;

    open spec fn view(&self) -> KeymapView {
        KeymapView {
            app: self.app@,
            chat: self.chat@,
            composer: self.composer@,
            editor: self.editor@,
            vim_normal: self.vim_normal@,
            vim_operator: self.vim_operator@,
            vim_search: self.vim_search@,
            vim_text_object: self.vim_text_object@,
            pager: self.pager@,
            list: self.list@,
            agents: self.agents@,
            approval: self.approval@,
        }
    }
}

/// Semantic navigation and confirmation actions shared by list-like views.
#[derive(Clone, Copy, Debug, PartialEq, Eq, Structural)]
pub enum ListAction {
    MoveUp,
    MoveDown,
    MoveLeft,
    MoveRight,
    PageUp,
    PageDown,
    JumpTop,
    JumpBottom,
    Accept,
    Cancel,
}

/// Every list action, in the order in which [`ListKeymap::action_for`] tries them.
pub open spec fn list_actions() -> Seq<ListAction> {
    seq![ListAction::MoveUp, ListAction::MoveDown, ListAction::MoveLeft, ListAction::MoveRight, ListAction::PageUp, ListAction::PageDown, ListAction::JumpTop, ListAction::JumpBottom, ListAction::Accept, ListAction::Cancel]
}

/// The configuration name of a list action.
pub open spec fn list_action_name(action: ListAction) -> Seq<char> {
    match action {
        ListAction::MoveUp => "move_up"@,
        ListAction::MoveDown => "move_down"@,
        ListAction::MoveLeft => "move_left"@,
        ListAction::MoveRight => "move_right"@,
        ListAction::PageUp => "page_up"@,
        ListAction::PageDown => "page_down"@,
        ListAction::JumpTop => "jump_top"@,
        ListAction::JumpBottom => "jump_bottom"@,
        ListAction::Accept => "accept"@,
        ListAction::Cancel => "cancel"@,
    }
}

/// The keys of a list action.
pub open spec fn list_action_keys(m: ListModel, action: ListAction) -> Seq<KeyBinding> {
    match action {
        ListAction::MoveUp => m.move_up,
        ListAction::MoveDown => m.move_down,
        ListAction::MoveLeft => m.move_left,
        ListAction::MoveRight => m.move_right,
        ListAction::PageUp => m.page_up,
        ListAction::PageDown => m.page_down,
        ListAction::JumpTop => m.jump_top,
        ListAction::JumpBottom => m.jump_bottom,
        ListAction::Accept => m.accept,
        ListAction::Cancel => m.cancel,
    }
}

/// The first list action, in [`list_actions`] order, that `event` triggers.
pub open spec fn list_action_for(m: ListModel, event: KeyEvent) -> Option<ListAction> {
    if any_pressed(m.move_up, event) {
        Some(ListAction::MoveUp)
    } else if any_pressed(m.move_down, event) {
        Some(ListAction::MoveDown)
    } else if any_pressed(m.move_left, event) {
        Some(ListAction::MoveLeft)
    } else if any_pressed(m.move_right, event) {
        Some(ListAction::MoveRight)
    } else if any_pressed(m.page_up, event) {
        Some(ListAction::PageUp)
    } else if any_pressed(m.page_down, event) {
        Some(ListAction::PageDown)
    } else if any_pressed(m.jump_top, event) {
        Some(ListAction::JumpTop)
    } else if any_pressed(m.jump_bottom, event) {
        Some(ListAction::JumpBottom)
    } else if any_pressed(m.accept, event) {
        Some(ListAction::Accept)
    } else if any_pressed(m.cancel, event) {
        Some(ListAction::Cancel)
    } else {
        None
    }
}

impl ListAction {
    /// The configuration name of the action.
    pub fn config_name(self) -> (r: &'static str)
        ensures
            r@ == list_action_name(self),
    {
        match self {
            ListAction::MoveUp => "move_up",
            ListAction::MoveDown => "move_down",
            ListAction::MoveLeft => "move_left",
            ListAction::MoveRight => "move_right",
            ListAction::PageUp => "page_up",
            ListAction::PageDown => "page_down",
            ListAction::JumpTop => "jump_top",
            ListAction::JumpBottom => "jump_bottom",
            ListAction::Accept => "accept",
            ListAction::Cancel => "cancel",
        }
    }
}

impl ListKeymap {
    /// The keys of one list action.
    pub fn bindings_for(&self, action: ListAction) -> (r: &[KeyBinding])
        ensures
            r@ == list_action_keys(self@, action),
    {
        match action {
            ListAction::MoveUp => self.move_up.as_slice(),
            ListAction::MoveDown => self.move_down.as_slice(),
            ListAction::MoveLeft => self.move_left.as_slice(),
            ListAction::MoveRight => self.move_right.as_slice(),
            ListAction::PageUp => self.page_up.as_slice(),
            ListAction::PageDown => self.page_down.as_slice(),
            ListAction::JumpTop => self.jump_top.as_slice(),
            ListAction::JumpBottom => self.jump_bottom.as_slice(),
            ListAction::Accept => self.accept.as_slice(),
            ListAction::Cancel => self.cancel.as_slice(),
        }
    }

    /// The first list action whose keys `event` triggers.
    pub fn action_for(&self, event: KeyEvent) -> (r: Option<ListAction>)
        ensures
            r == list_action_for(self@, event),
    {
        if is_pressed(self.bindings_for(ListAction::MoveUp), event) {
            Some(ListAction::MoveUp)
        } else if is_pressed(self.bindings_for(ListAction::MoveDown), event) {
            Some(ListAction::MoveDown)
        } else if is_pressed(self.bindings_for(ListAction::MoveLeft), event) {
            Some(ListAction::MoveLeft)
        } else if is_pressed(self.bindings_for(ListAction::MoveRight), event) {
            Some(ListAction::MoveRight)
        } else if is_pressed(self.bindings_for(ListAction::PageUp), event) {
            Some(ListAction::PageUp)
        } else if is_pressed(self.bindings_for(ListAction::PageDown), event) {
            Some(ListAction::PageDown)
        } else if is_pressed(self.bindings_for(ListAction::JumpTop), event) {
            Some(ListAction::JumpTop)
        } else if is_pressed(self.bindings_for(ListAction::JumpBottom), event) {
            Some(ListAction::JumpBottom)
        } else if is_pressed(self.bindings_for(ListAction::Accept), event) {
            Some(ListAction::Accept)
        } else if is_pressed(self.bindings_for(ListAction::Cancel), event) {
            Some(ListAction::Cancel)
        } else {
            None
        }
    }
}

/// The first binding of an action, shown as its primary hint; all bindings
/// stay active for input matching.
pub fn primary_binding(bindings: &[KeyBinding]) -> (r: Option<KeyBinding>)
    ensures
        r == (if bindings@.len() > 0 {
            Some(bindings@[0])
        } else {
            None::<KeyBinding>
        }),
{
    if bindings.len() > 0 {
        Some(bindings[0])
    } else {
        None
    }
}

/// A list key press goes to the first action, in declared order (move up,
/// move down, move left, move right, page up, page down, jump top, jump
/// bottom, accept, cancel), one of whose keys the event presses; an event that
/// presses none of their keys has no action.
pub proof fn lemma_list_action_first_pressed(m: ListModel, event: KeyEvent)
    ensures
        (list_action_for(m, event) == Some(ListAction::MoveUp)) <==> any_pressed(m.move_up, event),
        (list_action_for(m, event) == Some(ListAction::MoveDown)) <==> (!any_pressed(m.move_up, event)
            && any_pressed(m.move_down, event)),
        (list_action_for(m, event) == Some(ListAction::MoveLeft)) <==> (!any_pressed(m.move_up, event)
            && !any_pressed(m.move_down, event) && any_pressed(m.move_left, event)),
        (list_action_for(m, event) == Some(ListAction::MoveRight)) <==> (!any_pressed(m.move_up, event)
            && !any_pressed(m.move_down, event) && !any_pressed(m.move_left, event) && any_pressed(
            m.move_right,
            event,
        )),
        (list_action_for(m, event) == Some(ListAction::PageUp)) <==> (!any_pressed(m.move_up, event)
            && !any_pressed(m.move_down, event) && !any_pressed(m.move_left, event) && !any_pressed(
            m.move_right,
            event,
        ) && any_pressed(m.page_up, event)),
        (list_action_for(m, event) == Some(ListAction::PageDown)) <==> (!any_pressed(m.move_up, event)
            && !any_pressed(m.move_down, event) && !any_pressed(m.move_left, event) && !any_pressed(
            m.move_right,
            event,
        ) && !any_pressed(m.page_up, event) && any_pressed(m.page_down, event)),
        (list_action_for(m, event) == Some(ListAction::JumpTop)) <==> (!any_pressed(m.move_up, event)
            && !any_pressed(m.move_down, event) && !any_pressed(m.move_left, event) && !any_pressed(
            m.move_right,
            event,
        ) && !any_pressed(m.page_up, event) && !any_pressed(m.page_down, event) && any_pressed(
            m.jump_top,
            event,
        )),
        (list_action_for(m, event) == Some(ListAction::JumpBottom)) <==> (!any_pressed(m.move_up, event)
            && !any_pressed(m.move_down, event) && !any_pressed(m.move_left, event) && !any_pressed(
            m.move_right,
            event,
        ) && !any_pressed(m.page_up, event) && !any_pressed(m.page_down, event) && !any_pressed(
            m.jump_top,
            event,
        ) && any_pressed(m.jump_bottom, event)),
        (list_action_for(m, event) == Some(ListAction::Accept)) <==> (!any_pressed(m.move_up, event)
            && !any_pressed(m.move_down, event) && !any_pressed(m.move_left, event) && !any_pressed(
            m.move_right,
            event,
        ) && !any_pressed(m.page_up, event) && !any_pressed(m.page_down, event) && !any_pressed(
            m.jump_top,
            event,
        ) && !any_pressed(m.jump_bottom, event) && any_pressed(m.accept, event)),
        (list_action_for(m, event) == Some(ListAction::Cancel)) <==> (!any_pressed(m.move_up, event)
            && !any_pressed(m.move_down, event) && !any_pressed(m.move_left, event) && !any_pressed(
            m.move_right,
            event,
        ) && !any_pressed(m.page_up, event) && !any_pressed(m.page_down, event) && !any_pressed(
            m.jump_top,
            event,
        ) && !any_pressed(m.jump_bottom, event) && !any_pressed(m.accept, event) && any_pressed(
            m.cancel,
            event,
        )),
        (list_action_for(m, event) is None) <==> (!any_pressed(m.move_up, event) && !any_pressed(
            m.move_down,
            event,
        ) && !any_pressed(m.move_left, event) && !any_pressed(m.move_right, event) && !any_pressed(
            m.page_up,
            event,
        ) && !any_pressed(m.page_down, event) && !any_pressed(m.jump_top, event) && !any_pressed(
            m.jump_bottom,
            event,
        ) && !any_pressed(m.accept, event) && !any_pressed(m.cancel, event)),
{
}

/// Whatever action a list key press gets, the event presses one of that
/// action's own keys.
pub proof fn lemma_list_action_is_pressed(m: ListModel, event: KeyEvent)
    ensures
        list_action_for(m, event) matches Some(a) ==> any_pressed(list_action_keys(m, a), event),
{
}

} // verus!
