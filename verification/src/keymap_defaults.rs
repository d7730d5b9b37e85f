//! The built-in bindings every action starts from.

use vstd::prelude::*;
use crate::keys::{
    KeyBinding, KeyCode, KeyModifiers, alt, binding_of, ctrl, ctrl_shift, no_modifiers, plain, shift,
};
use crate::keymap::{
    AgentsKeymap,
    AgentsModel,
    AppKeymap,
    AppModel,
    ApprovalKeymap,
    ApprovalModel,
    ChatKeymap,
    ChatModel,
    ComposerKeymap,
    ComposerModel,
    EditorKeymap,
    EditorModel,
    KeymapView,
    ListKeymap,
    ListModel,
    PagerKeymap,
    PagerModel,
    RuntimeKeymap,
    VimNormalKeymap,
    VimNormalModel,
    VimOperatorKeymap,
    VimOperatorModel,
    VimSearchKeymap,
    VimSearchModel,
    VimTextObjectKeymap,
    VimTextObjectModel,
};

verus! {

/// The bindings `b0`, in order.
pub fn list_of1(b0: KeyBinding) -> (r: Vec<KeyBinding>)
    ensures
        r@ == seq![b0],
{
    let mut r: Vec<KeyBinding> = Vec::new();
    r.push(b0);
    proof {
        assert(r@ =~= seq![b0]);
    }
    r
}

/// The bindings `b0`, `b1`, in order.
pub fn list_of2(b0: KeyBinding, b1: KeyBinding) -> (r: Vec<KeyBinding>)
    ensures
        r@ == seq![b0, b1],
{
    let mut r: Vec<KeyBinding> = Vec::new();
    r.push(b0);
    r.push(b1);
    proof {
        assert(r@ =~= seq![b0, b1]);
    }
    r
}

/// The bindings `b0`, `b1`, `b2`, in order.
pub fn list_of3(b0: KeyBinding, b1: KeyBinding, b2: KeyBinding) -> (r: Vec<KeyBinding>)
    ensures
        r@ == seq![b0, b1, b2],
{
    let mut r: Vec<KeyBinding> = Vec::new();
    r.push(b0);
    r.push(b1);
    r.push(b2);
    proof {
        assert(r@ =~= seq![b0, b1, b2]);
    }
    r
}

/// The bindings `b0`, `b1`, `b2`, `b3`, in order.
pub fn list_of4(b0: KeyBinding, b1: KeyBinding, b2: KeyBinding, b3: KeyBinding) -> (r: Vec<KeyBinding>)
    ensures
        r@ == seq![b0, b1, b2, b3],
{
    let mut r: Vec<KeyBinding> = Vec::new();
    r.push(b0);
    r.push(b1);
    r.push(b2);
    r.push(b3);
    proof {
        assert(r@ =~= seq![b0, b1, b2, b3]);
    }
    r
}

/// The bindings `b0`, `b1`, `b2`, `b3`, `b4`, in order.
pub fn list_of5(b0: KeyBinding, b1: KeyBinding, b2: KeyBinding, b3: KeyBinding, b4: KeyBinding) -> (r: Vec<KeyBinding>)
    ensures
        r@ == seq![b0, b1, b2, b3, b4],
{
    let mut r: Vec<KeyBinding> = Vec::new();
    r.push(b0);
    r.push(b1);
    r.push(b2);
    r.push(b3);
    r.push(b4);
    proof {
        assert(r@ =~= seq![b0, b1, b2, b3, b4]);
    }
    r
}

/// The built-in keys of the app actions.
pub open spec fn default_app() -> AppModel {
    AppModel {
        open_agents: seq![binding_of(KeyCode::Char('a'), KeyModifiers { alt: true, ..no_modifiers() })],
        open_transcript: seq![binding_of(KeyCode::Char('t'), KeyModifiers { control: true, ..no_modifiers() })],
        open_external_editor: seq![binding_of(KeyCode::Char('g'), KeyModifiers { control: true, ..no_modifiers() })],
        copy: seq![binding_of(KeyCode::Char('o'), KeyModifiers { control: true, ..no_modifiers() })],
        clear_terminal: seq![binding_of(KeyCode::Char('l'), KeyModifiers { control: true, ..no_modifiers() })],
        toggle_vim_mode: Seq::empty(),
        toggle_fast_mode: Seq::empty(),
        toggle_raw_output: seq![binding_of(KeyCode::Char('r'), KeyModifiers { alt: true, ..no_modifiers() })],
        toggle_side_conversation: seq![binding_of(KeyCode::Char('/'), KeyModifiers { control: true, ..no_modifiers() })],
    }
}

/// The built-in keys of the app actions.
pub fn default_app_keymap() -> (r: AppKeymap)
    ensures
        r@ == default_app(),
{
    AppKeymap {
        open_agents: list_of1(alt(KeyCode::Char('a'))),
        open_transcript: list_of1(ctrl(KeyCode::Char('t'))),
        open_external_editor: list_of1(ctrl(KeyCode::Char('g'))),
        copy: list_of1(ctrl(KeyCode::Char('o'))),
        clear_terminal: list_of1(ctrl(KeyCode::Char('l'))),
        toggle_vim_mode: Vec::new(),
        toggle_fast_mode: Vec::new(),
        toggle_raw_output: list_of1(alt(KeyCode::Char('r'))),
        toggle_side_conversation: list_of1(ctrl(KeyCode::Char('/'))),
    }
}

/// The built-in keys of the chat actions.
pub open spec fn default_chat() -> ChatModel {
    ChatModel {
        interrupt_turn: seq![binding_of(KeyCode::Esc, no_modifiers())],
        decrease_reasoning_effort: seq![binding_of(KeyCode::Char(','), KeyModifiers { alt: true, ..no_modifiers() }), binding_of(KeyCode::Down, KeyModifiers { shift: true, ..no_modifiers() })],
        increase_reasoning_effort: seq![binding_of(KeyCode::Char('.'), KeyModifiers { alt: true, ..no_modifiers() }), binding_of(KeyCode::Up, KeyModifiers { shift: true, ..no_modifiers() })],
        previous_permission_mode: Seq::empty(),
        next_permission_mode: Seq::empty(),
        edit_queued_message: seq![binding_of(KeyCode::Up, KeyModifiers { alt: true, ..no_modifiers() }), binding_of(KeyCode::Left, KeyModifiers { shift: true, ..no_modifiers() })],
        prompt_stack_back: seq![binding_of(KeyCode::Down, KeyModifiers { alt: true, ..no_modifiers() }), binding_of(KeyCode::Right, KeyModifiers { shift: true, ..no_modifiers() })],
        skip_question: seq![binding_of(KeyCode::Char(']'), KeyModifiers { control: true, ..no_modifiers() })],
    }
}

/// The built-in keys of the chat actions.
pub fn default_chat_keymap() -> (r: ChatKeymap)
    ensures
        r@ == default_chat(),
{
    ChatKeymap {
        interrupt_turn: list_of1(plain(KeyCode::Esc)),
        decrease_reasoning_effort: list_of2(alt(KeyCode::Char(',')), shift(KeyCode::Down)),
        increase_reasoning_effort: list_of2(alt(KeyCode::Char('.')), shift(KeyCode::Up)),
        previous_permission_mode: Vec::new(),
        next_permission_mode: Vec::new(),
        edit_queued_message: list_of2(alt(KeyCode::Up), shift(KeyCode::Left)),
        prompt_stack_back: list_of2(alt(KeyCode::Down), shift(KeyCode::Right)),
        skip_question: list_of1(ctrl(KeyCode::Char(']'))),
    }
}

/// The built-in keys of the composer actions.
pub open spec fn default_composer() -> ComposerModel {
    ComposerModel {
        submit: seq![binding_of(KeyCode::Enter, no_modifiers())],
        queue: seq![binding_of(KeyCode::Tab, no_modifiers())],
        toggle_shortcuts: seq![binding_of(KeyCode::Char('?'), no_modifiers()), binding_of(KeyCode::Char('?'), KeyModifiers { shift: true, ..no_modifiers() })],
        history_search_previous: seq![binding_of(KeyCode::Char('r'), KeyModifiers { control: true, ..no_modifiers() })],
        history_search_next: seq![binding_of(KeyCode::Char('s'), KeyModifiers { control: true, ..no_modifiers() })],
    }
}

/// The built-in keys of the composer actions.
pub fn default_composer_keymap() -> (r: ComposerKeymap)
    ensures
        r@ == default_composer(),
{
    ComposerKeymap {
        submit: list_of1(plain(KeyCode::Enter)),
        queue: list_of1(plain(KeyCode::Tab)),
        toggle_shortcuts: list_of2(plain(KeyCode::Char('?')), shift(KeyCode::Char('?'))),
        history_search_previous: list_of1(ctrl(KeyCode::Char('r'))),
        history_search_next: list_of1(ctrl(KeyCode::Char('s'))),
    }
}

/// The built-in keys of the editor actions.
pub open spec fn default_editor() -> EditorModel {
    EditorModel {
        insert_newline: seq![binding_of(KeyCode::Char('j'), KeyModifiers { control: true, ..no_modifiers() }), binding_of(KeyCode::Char('m'), KeyModifiers { control: true, ..no_modifiers() }), binding_of(KeyCode::Enter, no_modifiers()), binding_of(KeyCode::Enter, KeyModifiers { shift: true, ..no_modifiers() }), binding_of(KeyCode::Enter, KeyModifiers { alt: true, ..no_modifiers() })],
        move_left: seq![binding_of(KeyCode::Left, no_modifiers()), binding_of(KeyCode::Char('b'), KeyModifiers { control: true, ..no_modifiers() })],
        move_right: seq![binding_of(KeyCode::Right, no_modifiers()), binding_of(KeyCode::Char('f'), KeyModifiers { control: true, ..no_modifiers() })],
        move_up: seq![binding_of(KeyCode::Up, no_modifiers()), binding_of(KeyCode::Char('p'), KeyModifiers { control: true, ..no_modifiers() })],
        move_down: seq![binding_of(KeyCode::Down, no_modifiers()), binding_of(KeyCode::Char('n'), KeyModifiers { control: true, ..no_modifiers() })],
        move_word_left: seq![binding_of(KeyCode::Left, KeyModifiers { control: true, ..no_modifiers() }), binding_of(KeyCode::Char('b'), KeyModifiers { alt: true, ..no_modifiers() })],
        move_word_right: seq![binding_of(KeyCode::Right, KeyModifiers { control: true, ..no_modifiers() }), binding_of(KeyCode::Char('f'), KeyModifiers { alt: true, ..no_modifiers() })],
        move_line_start: seq![binding_of(KeyCode::Home, no_modifiers()), binding_of(KeyCode::Char('a'), KeyModifiers { control: true, ..no_modifiers() })],
        move_line_end: seq![binding_of(KeyCode::End, no_modifiers()), binding_of(KeyCode::Char('e'), KeyModifiers { control: true, ..no_modifiers() })],
        delete_backward: seq![binding_of(KeyCode::Backspace, no_modifiers()), binding_of(KeyCode::Backspace, KeyModifiers { shift: true, ..no_modifiers() }), binding_of(KeyCode::Char('h'), KeyModifiers { control: true, ..no_modifiers() })],
        delete_forward: seq![binding_of(KeyCode::Delete, no_modifiers()), binding_of(KeyCode::Delete, KeyModifiers { shift: true, ..no_modifiers() })],
        delete_backward_word: seq![binding_of(KeyCode::Backspace, KeyModifiers { alt: true, ..no_modifiers() }), binding_of(KeyCode::Backspace, KeyModifiers { control: true, ..no_modifiers() }), binding_of(KeyCode::Backspace, KeyModifiers { control: true, shift: true, ..no_modifiers() }), binding_of(KeyCode::Char('w'), KeyModifiers { control: true, ..no_modifiers() })],
        delete_forward_word: seq![binding_of(KeyCode::Delete, KeyModifiers { alt: true, ..no_modifiers() }), binding_of(KeyCode::Char('d'), KeyModifiers { alt: true, ..no_modifiers() }), binding_of(KeyCode::Delete, KeyModifiers { control: true, ..no_modifiers() }), binding_of(KeyCode::Delete, KeyModifiers { control: true, shift: true, ..no_modifiers() })],
        kill_line_start: seq![binding_of(KeyCode::Char('u'), KeyModifiers { control: true, ..no_modifiers() })],
        kill_whole_line: Seq::empty(),
        kill_line_end: seq![binding_of(KeyCode::Char('k'), KeyModifiers { control: true, ..no_modifiers() })],
        yank: seq![binding_of(KeyCode::Char('y'), KeyModifiers { control: true, ..no_modifiers() })],
    }
}

/// The built-in keys of the editor actions.
pub fn default_editor_keymap() -> (r: EditorKeymap)
    ensures
        r@ == default_editor(),
{
    EditorKeymap {
        insert_newline: list_of5(ctrl(KeyCode::Char('j')), ctrl(KeyCode::Char('m')), plain(KeyCode::Enter), shift(KeyCode::Enter), alt(KeyCode::Enter)),
        move_left: list_of2(plain(KeyCode::Left), ctrl(KeyCode::Char('b'))),
        move_right: list_of2(plain(KeyCode::Right), ctrl(KeyCode::Char('f'))),
        move_up: list_of2(plain(KeyCode::Up), ctrl(KeyCode::Char('p'))),
        move_down: list_of2(plain(KeyCode::Down), ctrl(KeyCode::Char('n'))),
        move_word_left: list_of2(ctrl(KeyCode::Left), alt(KeyCode::Char('b'))),
        move_word_right: list_of2(ctrl(KeyCode::Right), alt(KeyCode::Char('f'))),
        move_line_start: list_of2(plain(KeyCode::Home), ctrl(KeyCode::Char('a'))),
        move_line_end: list_of2(plain(KeyCode::End), ctrl(KeyCode::Char('e'))),
        delete_backward: list_of3(plain(KeyCode::Backspace), shift(KeyCode::Backspace), ctrl(KeyCode::Char('h'))),
        delete_forward: list_of2(plain(KeyCode::Delete), shift(KeyCode::Delete)),
        delete_backward_word: list_of4(alt(KeyCode::Backspace), ctrl(KeyCode::Backspace), ctrl_shift(KeyCode::Backspace), ctrl(KeyCode::Char('w'))),
        delete_forward_word: list_of4(alt(KeyCode::Delete), alt(KeyCode::Char('d')), ctrl(KeyCode::Delete), ctrl_shift(KeyCode::Delete)),
        kill_line_start: list_of1(ctrl(KeyCode::Char('u'))),
        kill_whole_line: Vec::new(),
        kill_line_end: list_of1(ctrl(KeyCode::Char('k'))),
        yank: list_of1(ctrl(KeyCode::Char('y'))),
    }
}

/// The built-in keys of the vim normal actions.
pub open spec fn default_vim_normal() -> VimNormalModel {
    VimNormalModel {
        enter_insert: seq![binding_of(KeyCode::Char('i'), no_modifiers()), binding_of(KeyCode::Insert, no_modifiers())],
        append_after_cursor: seq![binding_of(KeyCode::Char('a'), no_modifiers())],
        append_line_end: seq![binding_of(KeyCode::Char('a'), KeyModifiers { shift: true, ..no_modifiers() }), binding_of(KeyCode::Char('A'), no_modifiers())],
        insert_line_start: seq![binding_of(KeyCode::Char('i'), KeyModifiers { shift: true, ..no_modifiers() }), binding_of(KeyCode::Char('I'), no_modifiers())],
        open_line_below: seq![binding_of(KeyCode::Char('o'), no_modifiers())],
        open_line_above: seq![binding_of(KeyCode::Char('o'), KeyModifiers { shift: true, ..no_modifiers() }), binding_of(KeyCode::Char('O'), no_modifiers())],
        enter_replace_mode: seq![binding_of(KeyCode::Char('r'), KeyModifiers { shift: true, ..no_modifiers() })],
        move_left: seq![binding_of(KeyCode::Char('h'), no_modifiers()), binding_of(KeyCode::Left, no_modifiers())],
        move_right: seq![binding_of(KeyCode::Char('l'), no_modifiers()), binding_of(KeyCode::Right, no_modifiers())],
        move_up: seq![binding_of(KeyCode::Char('k'), no_modifiers()), binding_of(KeyCode::Up, no_modifiers())],
        move_down: seq![binding_of(KeyCode::Char('j'), no_modifiers()), binding_of(KeyCode::Down, no_modifiers())],
        move_word_forward: seq![binding_of(KeyCode::Char('w'), no_modifiers())],
        move_word_backward: seq![binding_of(KeyCode::Char('b'), no_modifiers())],
        move_word_end: seq![binding_of(KeyCode::Char('e'), no_modifiers())],
        move_line_start: seq![binding_of(KeyCode::Char('0'), no_modifiers()), binding_of(KeyCode::Home, no_modifiers())],
        move_line_end: seq![binding_of(KeyCode::Char('$'), no_modifiers()), binding_of(KeyCode::End, no_modifiers())],
        find_forward: seq![binding_of(KeyCode::Char('f'), no_modifiers())],
        find_backward: seq![binding_of(KeyCode::Char('f'), KeyModifiers { shift: true, ..no_modifiers() })],
        till_forward: seq![binding_of(KeyCode::Char('t'), no_modifiers())],
        till_backward: seq![binding_of(KeyCode::Char('t'), KeyModifiers { shift: true, ..no_modifiers() })],
        jump_top: seq![binding_of(KeyCode::Char('g'), no_modifiers())],
        jump_bottom: seq![binding_of(KeyCode::Char('g'), KeyModifiers { shift: true, ..no_modifiers() })],
        delete_char: seq![binding_of(KeyCode::Char('x'), no_modifiers()), binding_of(KeyCode::Delete, no_modifiers())],
        replace_char: seq![binding_of(KeyCode::Char('r'), no_modifiers())],
        repeat_last_change: seq![binding_of(KeyCode::Char('.'), no_modifiers())],
        substitute_char: seq![binding_of(KeyCode::Char('s'), no_modifiers())],
        delete_to_line_end: seq![binding_of(KeyCode::Char('d'), KeyModifiers { shift: true, ..no_modifiers() })],
        change_to_line_end: seq![binding_of(KeyCode::Char('c'), KeyModifiers { shift: true, ..no_modifiers() })],
        yank_line: seq![binding_of(KeyCode::Char('y'), KeyModifiers { shift: true, ..no_modifiers() })],
        paste_after: seq![binding_of(KeyCode::Char('p'), no_modifiers())],
        start_delete_operator: seq![binding_of(KeyCode::Char('d'), no_modifiers())],
        start_yank_operator: seq![binding_of(KeyCode::Char('y'), no_modifiers())],
        start_change_operator: seq![binding_of(KeyCode::Char('c'), no_modifiers())],
        undo: seq![binding_of(KeyCode::Char('u'), no_modifiers())],
        redo: seq![binding_of(KeyCode::Char('r'), KeyModifiers { control: true, ..no_modifiers() })],
        cancel_operator: seq![binding_of(KeyCode::Esc, no_modifiers())],
    }
}

/// The built-in keys of the vim normal actions.
pub fn default_vim_normal_keymap() -> (r: VimNormalKeymap)
    ensures
        r@ == default_vim_normal(),
{
    VimNormalKeymap {
        enter_insert: list_of2(plain(KeyCode::Char('i')), plain(KeyCode::Insert)),
        append_after_cursor: list_of1(plain(KeyCode::Char('a'))),
        append_line_end: list_of2(shift(KeyCode::Char('a')), plain(KeyCode::Char('A'))),
        insert_line_start: list_of2(shift(KeyCode::Char('i')), plain(KeyCode::Char('I'))),
        open_line_below: list_of1(plain(KeyCode::Char('o'))),
        open_line_above: list_of2(shift(KeyCode::Char('o')), plain(KeyCode::Char('O'))),
        enter_replace_mode: list_of1(shift(KeyCode::Char('r'))),
        move_left: list_of2(plain(KeyCode::Char('h')), plain(KeyCode::Left)),
        move_right: list_of2(plain(KeyCode::Char('l')), plain(KeyCode::Right)),
        move_up: list_of2(plain(KeyCode::Char('k')), plain(KeyCode::Up)),
        move_down: list_of2(plain(KeyCode::Char('j')), plain(KeyCode::Down)),
        move_word_forward: list_of1(plain(KeyCode::Char('w'))),
        move_word_backward: list_of1(plain(KeyCode::Char('b'))),
        move_word_end: list_of1(plain(KeyCode::Char('e'))),
        move_line_start: list_of2(plain(KeyCode::Char('0')), plain(KeyCode::Home)),
        move_line_end: list_of2(plain(KeyCode::Char('$')), plain(KeyCode::End)),
        find_forward: list_of1(plain(KeyCode::Char('f'))),
        find_backward: list_of1(shift(KeyCode::Char('f'))),
        till_forward: list_of1(plain(KeyCode::Char('t'))),
        till_backward: list_of1(shift(KeyCode::Char('t'))),
        jump_top: list_of1(plain(KeyCode::Char('g'))),
        jump_bottom: list_of1(shift(KeyCode::Char('g'))),
        delete_char: list_of2(plain(KeyCode::Char('x')), plain(KeyCode::Delete)),
        replace_char: list_of1(plain(KeyCode::Char('r'))),
        repeat_last_change: list_of1(plain(KeyCode::Char('.'))),
        substitute_char: list_of1(plain(KeyCode::Char('s'))),
        delete_to_line_end: list_of1(shift(KeyCode::Char('d'))),
        change_to_line_end: list_of1(shift(KeyCode::Char('c'))),
        yank_line: list_of1(shift(KeyCode::Char('y'))),
        paste_after: list_of1(plain(KeyCode::Char('p'))),
        start_delete_operator: list_of1(plain(KeyCode::Char('d'))),
        start_yank_operator: list_of1(plain(KeyCode::Char('y'))),
        start_change_operator: list_of1(plain(KeyCode::Char('c'))),
        undo: list_of1(plain(KeyCode::Char('u'))),
        redo: list_of1(ctrl(KeyCode::Char('r'))),
        cancel_operator: list_of1(plain(KeyCode::Esc)),
    }
}

/// The built-in keys of the vim operator actions.
pub open spec fn default_vim_operator() -> VimOperatorModel {
    VimOperatorModel {
        delete_line: seq![binding_of(KeyCode::Char('d'), no_modifiers())],
        yank_line: seq![binding_of(KeyCode::Char('y'), no_modifiers())],
        motion_left: seq![binding_of(KeyCode::Char('h'), no_modifiers()), binding_of(KeyCode::Left, no_modifiers())],
        motion_right: seq![binding_of(KeyCode::Char('l'), no_modifiers()), binding_of(KeyCode::Right, no_modifiers())],
        motion_up: seq![binding_of(KeyCode::Char('k'), no_modifiers()), binding_of(KeyCode::Up, no_modifiers())],
        motion_down: seq![binding_of(KeyCode::Char('j'), no_modifiers()), binding_of(KeyCode::Down, no_modifiers())],
        motion_word_forward: seq![binding_of(KeyCode::Char('w'), no_modifiers())],
        motion_word_backward: seq![binding_of(KeyCode::Char('b'), no_modifiers())],
        motion_word_end: seq![binding_of(KeyCode::Char('e'), no_modifiers())],
        motion_line_start: seq![binding_of(KeyCode::Char('0'), no_modifiers()), binding_of(KeyCode::Home, no_modifiers())],
        motion_line_end: seq![binding_of(KeyCode::Char('$'), no_modifiers()), binding_of(KeyCode::End, no_modifiers())],
        motion_find_forward: seq![binding_of(KeyCode::Char('f'), no_modifiers())],
        motion_find_backward: seq![binding_of(KeyCode::Char('f'), KeyModifiers { shift: true, ..no_modifiers() })],
        motion_till_forward: seq![binding_of(KeyCode::Char('t'), no_modifiers())],
        motion_till_backward: seq![binding_of(KeyCode::Char('t'), KeyModifiers { shift: true, ..no_modifiers() })],
        motion_jump_top: seq![binding_of(KeyCode::Char('g'), no_modifiers())],
        motion_jump_bottom: seq![binding_of(KeyCode::Char('g'), KeyModifiers { shift: true, ..no_modifiers() })],
        select_inner_text_object: seq![binding_of(KeyCode::Char('i'), no_modifiers())],
        select_around_text_object: seq![binding_of(KeyCode::Char('a'), no_modifiers())],
        cancel: seq![binding_of(KeyCode::Esc, no_modifiers())],
    }
}

/// The built-in keys of the vim operator actions.
pub fn default_vim_operator_keymap() -> (r: VimOperatorKeymap)
    ensures
        r@ == default_vim_operator(),
{
    VimOperatorKeymap {
        delete_line: list_of1(plain(KeyCode::Char('d'))),
        yank_line: list_of1(plain(KeyCode::Char('y'))),
        motion_left: list_of2(plain(KeyCode::Char('h')), plain(KeyCode::Left)),
        motion_right: list_of2(plain(KeyCode::Char('l')), plain(KeyCode::Right)),
        motion_up: list_of2(plain(KeyCode::Char('k')), plain(KeyCode::Up)),
        motion_down: list_of2(plain(KeyCode::Char('j')), plain(KeyCode::Down)),
        motion_word_forward: list_of1(plain(KeyCode::Char('w'))),
        motion_word_backward: list_of1(plain(KeyCode::Char('b'))),
        motion_word_end: list_of1(plain(KeyCode::Char('e'))),
        motion_line_start: list_of2(plain(KeyCode::Char('0')), plain(KeyCode::Home)),
        motion_line_end: list_of2(plain(KeyCode::Char('$')), plain(KeyCode::End)),
        motion_find_forward: list_of1(plain(KeyCode::Char('f'))),
        motion_find_backward: list_of1(shift(KeyCode::Char('f'))),
        motion_till_forward: list_of1(plain(KeyCode::Char('t'))),
        motion_till_backward: list_of1(shift(KeyCode::Char('t'))),
        motion_jump_top: list_of1(plain(KeyCode::Char('g'))),
        motion_jump_bottom: list_of1(shift(KeyCode::Char('g'))),
        select_inner_text_object: list_of1(plain(KeyCode::Char('i'))),
        select_around_text_object: list_of1(plain(KeyCode::Char('a'))),
        cancel: list_of1(plain(KeyCode::Esc)),
    }
}

/// The built-in keys of the vim search actions.
pub open spec fn default_vim_search() -> VimSearchModel {
    VimSearchModel {
        forward: seq![binding_of(KeyCode::Char('/'), no_modifiers())],
        backward: seq![binding_of(KeyCode::Char('?'), no_modifiers())],
        next: seq![binding_of(KeyCode::Char('n'), no_modifiers())],
        previous: seq![binding_of(KeyCode::Char('n'), KeyModifiers { shift: true, ..no_modifiers() })],
    }
}

/// The built-in keys of the vim search actions.
pub fn default_vim_search_keymap() -> (r: VimSearchKeymap)
    ensures
        r@ == default_vim_search(),
{
    VimSearchKeymap {
        forward: list_of1(plain(KeyCode::Char('/'))),
        backward: list_of1(plain(KeyCode::Char('?'))),
        next: list_of1(plain(KeyCode::Char('n'))),
        previous: list_of1(shift(KeyCode::Char('n'))),
    }
}

/// The built-in keys of the vim text object actions.
pub open spec fn default_vim_text_object() -> VimTextObjectModel {
    VimTextObjectModel {
        word: seq![binding_of(KeyCode::Char('w'), no_modifiers())],
        big_word: seq![binding_of(KeyCode::Char('w'), KeyModifiers { shift: true, ..no_modifiers() })],
        parentheses: seq![binding_of(KeyCode::Char('('), no_modifiers()), binding_of(KeyCode::Char(')'), no_modifiers()), binding_of(KeyCode::Char('b'), no_modifiers())],
        brackets: seq![binding_of(KeyCode::Char('['), no_modifiers()), binding_of(KeyCode::Char(']'), no_modifiers())],
        braces: seq![binding_of(KeyCode::Char('{'), no_modifiers()), binding_of(KeyCode::Char('}'), no_modifiers()), binding_of(KeyCode::Char('b'), KeyModifiers { shift: true, ..no_modifiers() })],
        double_quote: seq![binding_of(KeyCode::Char('"'), no_modifiers())],
        single_quote: seq![binding_of(KeyCode::Char('\''), no_modifiers())],
        backtick: seq![binding_of(KeyCode::Char('`'), no_modifiers())],
        cancel: seq![binding_of(KeyCode::Esc, no_modifiers())],
    }
}

/// The built-in keys of the vim text object actions.
pub fn default_vim_text_object_keymap() -> (r: VimTextObjectKeymap)
    ensures
        r@ == default_vim_text_object(),
{
    VimTextObjectKeymap {
        word: list_of1(plain(KeyCode::Char('w'))),
        big_word: list_of1(shift(KeyCode::Char('w'))),
        parentheses: list_of3(plain(KeyCode::Char('(')), plain(KeyCode::Char(')')), plain(KeyCode::Char('b'))),
        brackets: list_of2(plain(KeyCode::Char('[')), plain(KeyCode::Char(']'))),
        braces: list_of3(plain(KeyCode::Char('{')), plain(KeyCode::Char('}')), shift(KeyCode::Char('b'))),
        double_quote: list_of1(plain(KeyCode::Char('"'))),
        single_quote: list_of1(plain(KeyCode::Char('\''))),
        backtick: list_of1(plain(KeyCode::Char('`'))),
        cancel: list_of1(plain(KeyCode::Esc)),
    }
}

/// The built-in keys of the pager actions.
pub open spec fn default_pager() -> PagerModel {
    PagerModel {
        scroll_up: seq![binding_of(KeyCode::Up, no_modifiers()), binding_of(KeyCode::Char('k'), no_modifiers())],
        scroll_down: seq![binding_of(KeyCode::Down, no_modifiers()), binding_of(KeyCode::Char('j'), no_modifiers())],
        page_up: seq![binding_of(KeyCode::PageUp, no_modifiers()), binding_of(KeyCode::Char('b'), KeyModifiers { control: true, ..no_modifiers() })],
        page_down: seq![binding_of(KeyCode::PageDown, no_modifiers()), binding_of(KeyCode::Char(' '), no_modifiers())],
        half_page_up: seq![binding_of(KeyCode::Char('u'), KeyModifiers { control: true, ..no_modifiers() })],
        half_page_down: seq![binding_of(KeyCode::Char('d'), KeyModifiers { control: true, ..no_modifiers() })],
        jump_top: seq![binding_of(KeyCode::Home, no_modifiers()), binding_of(KeyCode::Char('g'), no_modifiers())],
        jump_bottom: seq![binding_of(KeyCode::End, no_modifiers()), binding_of(KeyCode::Char('g'), KeyModifiers { shift: true, ..no_modifiers() })],
        close: seq![binding_of(KeyCode::Char('q'), no_modifiers())],
        close_transcript: seq![binding_of(KeyCode::Char('t'), KeyModifiers { control: true, ..no_modifiers() })],
    }
}

/// The built-in keys of the pager actions.
pub fn default_pager_keymap() -> (r: PagerKeymap)
    ensures
        r@ == default_pager(),
{
    PagerKeymap {
        scroll_up: list_of2(plain(KeyCode::Up), plain(KeyCode::Char('k'))),
        scroll_down: list_of2(plain(KeyCode::Down), plain(KeyCode::Char('j'))),
        page_up: list_of2(plain(KeyCode::PageUp), ctrl(KeyCode::Char('b'))),
        page_down: list_of2(plain(KeyCode::PageDown), plain(KeyCode::Char(' '))),
        half_page_up: list_of1(ctrl(KeyCode::Char('u'))),
        half_page_down: list_of1(ctrl(KeyCode::Char('d'))),
        jump_top: list_of2(plain(KeyCode::Home), plain(KeyCode::Char('g'))),
        jump_bottom: list_of2(plain(KeyCode::End), shift(KeyCode::Char('g'))),
        close: list_of1(plain(KeyCode::Char('q'))),
        close_transcript: list_of1(ctrl(KeyCode::Char('t'))),
    }
}

/// The built-in keys of the list actions.
pub open spec fn default_list() -> ListModel {
    ListModel {
        move_up: seq![binding_of(KeyCode::Up, no_modifiers()), binding_of(KeyCode::Char('p'), KeyModifiers { control: true, ..no_modifiers() }), binding_of(KeyCode::Char('k'), KeyModifiers { control: true, ..no_modifiers() }), binding_of(KeyCode::Char('k'), no_modifiers())],
        move_down: seq![binding_of(KeyCode::Down, no_modifiers()), binding_of(KeyCode::Char('n'), KeyModifiers { control: true, ..no_modifiers() }), binding_of(KeyCode::Char('j'), KeyModifiers { control: true, ..no_modifiers() }), binding_of(KeyCode::Char('j'), no_modifiers())],
        move_left: seq![binding_of(KeyCode::Left, no_modifiers()), binding_of(KeyCode::Char('h'), KeyModifiers { control: true, ..no_modifiers() })],
        move_right: seq![binding_of(KeyCode::Right, no_modifiers()), binding_of(KeyCode::Char('l'), KeyModifiers { control: true, ..no_modifiers() })],
        page_up: seq![binding_of(KeyCode::PageUp, no_modifiers()), binding_of(KeyCode::Char('b'), KeyModifiers { control: true, ..no_modifiers() })],
        page_down: seq![binding_of(KeyCode::PageDown, no_modifiers()), binding_of(KeyCode::Char('f'), KeyModifiers { control: true, ..no_modifiers() })],
        jump_top: seq![binding_of(KeyCode::Home, no_modifiers())],
        jump_bottom: seq![binding_of(KeyCode::End, no_modifiers())],
        accept: seq![binding_of(KeyCode::Enter, no_modifiers())],
        cancel: seq![binding_of(KeyCode::Esc, no_modifiers())],
    }
}

/// The built-in keys of the list actions.
pub fn default_list_keymap() -> (r: ListKeymap)
    ensures
        r@ == default_list(),
{
    ListKeymap {
        move_up: list_of4(plain(KeyCode::Up), ctrl(KeyCode::Char('p')), ctrl(KeyCode::Char('k')), plain(KeyCode::Char('k'))),
        move_down: list_of4(plain(KeyCode::Down), ctrl(KeyCode::Char('n')), ctrl(KeyCode::Char('j')), plain(KeyCode::Char('j'))),
        move_left: list_of2(plain(KeyCode::Left), ctrl(KeyCode::Char('h'))),
        move_right: list_of2(plain(KeyCode::Right), ctrl(KeyCode::Char('l'))),
        page_up: list_of2(plain(KeyCode::PageUp), ctrl(KeyCode::Char('b'))),
        page_down: list_of2(plain(KeyCode::PageDown), ctrl(KeyCode::Char('f'))),
        jump_top: list_of1(plain(KeyCode::Home)),
        jump_bottom: list_of1(plain(KeyCode::End)),
        accept: list_of1(plain(KeyCode::Enter)),
        cancel: list_of1(plain(KeyCode::Esc)),
    }
}

/// The built-in keys of the agents actions.
pub open spec fn default_agents() -> AgentsModel {
    AgentsModel {
        resume: seq![binding_of(KeyCode::Char('o'), KeyModifiers { control: true, ..no_modifiers() })],
        search: seq![binding_of(KeyCode::Char('f'), KeyModifiers { control: true, ..no_modifiers() })],
        new_task: seq![binding_of(KeyCode::Char('n'), KeyModifiers { control: true, ..no_modifiers() })],
        rename: seq![binding_of(KeyCode::Char('r'), KeyModifiers { control: true, ..no_modifiers() })],
        stop: seq![binding_of(KeyCode::Char('x'), KeyModifiers { control: true, ..no_modifiers() })],
        toggle_grouping: seq![binding_of(KeyCode::Char('g'), KeyModifiers { control: true, ..no_modifiers() })],
    }
}

/// The built-in keys of the agents actions.
pub fn default_agents_keymap() -> (r: AgentsKeymap)
    ensures
        r@ == default_agents(),
{
    AgentsKeymap {
        resume: list_of1(ctrl(KeyCode::Char('o'))),
        search: list_of1(ctrl(KeyCode::Char('f'))),
        new_task: list_of1(ctrl(KeyCode::Char('n'))),
        rename: list_of1(ctrl(KeyCode::Char('r'))),
        stop: list_of1(ctrl(KeyCode::Char('x'))),
        toggle_grouping: list_of1(ctrl(KeyCode::Char('g'))),
    }
}

/// The built-in keys of the approval actions.
pub open spec fn default_approval() -> ApprovalModel {
    ApprovalModel {
        open_fullscreen: seq![binding_of(KeyCode::Char('a'), KeyModifiers { control: true, ..no_modifiers() }), binding_of(KeyCode::Char('a'), KeyModifiers { control: true, shift: true, ..no_modifiers() })],
        open_thread: seq![binding_of(KeyCode::Char('o'), no_modifiers())],
        approve: seq![binding_of(KeyCode::Char('y'), no_modifiers())],
        approve_for_session: seq![binding_of(KeyCode::Char('a'), no_modifiers())],
        approve_for_prefix: seq![binding_of(KeyCode::Char('p'), no_modifiers())],
        deny: seq![binding_of(KeyCode::Char('d'), no_modifiers())],
        decline: seq![binding_of(KeyCode::Char('n'), no_modifiers()), binding_of(KeyCode::Esc, no_modifiers())],
        cancel: seq![binding_of(KeyCode::Char('c'), no_modifiers())],
    }
}

/// The built-in keys of the approval actions.
pub fn default_approval_keymap() -> (r: ApprovalKeymap)
    ensures
        r@ == default_approval(),
{
    ApprovalKeymap {
        open_fullscreen: list_of2(ctrl(KeyCode::Char('a')), ctrl_shift(KeyCode::Char('a'))),
        open_thread: list_of1(plain(KeyCode::Char('o'))),
        approve: list_of1(plain(KeyCode::Char('y'))),
        approve_for_session: list_of1(plain(KeyCode::Char('a'))),
        approve_for_prefix: list_of1(plain(KeyCode::Char('p'))),
        deny: list_of1(plain(KeyCode::Char('d'))),
        decline: list_of2(plain(KeyCode::Char('n')), plain(KeyCode::Esc)),
        cancel: list_of1(plain(KeyCode::Char('c'))),
    }
}

/// The built-in keymap, before any configuration applies.
pub open spec fn default_view() -> KeymapView {
    KeymapView {
        app: default_app(),
        chat: default_chat(),
        composer: default_composer(),
        editor: default_editor(),
        vim_normal: default_vim_normal(),
        vim_operator: default_vim_operator(),
        vim_search: default_vim_search(),
        vim_text_object: default_vim_text_object(),
        pager: default_pager(),
        list: default_list(),
        agents: default_agents(),
        approval: default_approval(),
    }
}

/// The built-in keymap, before any configuration applies.
pub fn built_in_defaults() -> (r: RuntimeKeymap)
    ensures
        r@ == default_view(),
{
    RuntimeKeymap {
        app: default_app_keymap(),
        chat: default_chat_keymap(),
        composer: default_composer_keymap(),
        editor: default_editor_keymap(),
        vim_normal: default_vim_normal_keymap(),
        vim_operator: default_vim_operator_keymap(),
        vim_search: default_vim_search_keymap(),
        vim_text_object: default_vim_text_object_keymap(),
        pager: default_pager_keymap(),
        list: default_list_keymap(),
        agents: default_agents_keymap(),
        approval: default_approval_keymap(),
    }
}

} // verus!
