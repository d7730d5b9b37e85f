//! Laws of keymap resolution: configured actions keep their keys, and
//! newer built-in keys yield to the keys that configured actions use.

use vstd::prelude::*;
use crate::bindings::{KeybindingsSpec, parse_raws, claim, lemma_claim_covers, lemma_without_nothing, preserved_keys, resolved_or, without};
use crate::keys::{binding_of, no_modifiers, KeyBinding, KeyCode, KeyModifiers};
use crate::keymap::{VimNormalModel, VimOperatorModel};
use crate::keymap_config::TuiKeymap;
use crate::keymap_conflicts::{keymap_checks, side_toggle_keys, vim_search_normal_pairs, vim_search_operator_pairs, main_pairs, editor_pairs, vim_text_object_pairs, pager_pairs, list_pairs, agents_pairs, approval_pairs};
use crate::validation::{keys_disjoint, lemma_unique_keys_disjoint, unique_spec};
use crate::keymap::KeymapView;

use crate::keymap_config::{VimNormalKeymapConfig, VimOperatorKeymapConfig};
use crate::keymap_resolve::{
    vim_normal_base, vim_normal_claims, vim_normal_model, vim_operator_base, vim_operator_claims,
    vim_operator_model, yield_unset, chat_base, chat_model, claimed_if, question_alias_in_use, resolved_view,
    vim_text_object_model,
};
use crate::keymap_defaults::{
    default_agents, default_app, default_approval, default_chat, default_composer, default_editor, default_list,
    default_pager, default_vim_normal, default_vim_operator, default_vim_search, default_vim_text_object,
};

verus! {

/// An action whose newer built-in keys yield: when it is configured it keeps
/// its value untouched; when it is not, it keeps, in their order, exactly
/// those of its built-in keys that no configured action claimed.
pub proof fn lemma_yield_unset(configured: Option<KeybindingsSpec>, s: Seq<KeyBinding>, claimed: Seq<KeyBinding>)
    ensures
        configured is Some ==> yield_unset(configured, s, claimed) == s,
        configured is None ==> yield_unset(configured, s, claimed) == s.filter(
            |b: KeyBinding| !claimed.contains(b),
        ),
        configured is None ==> forall|b: KeyBinding| #[trigger]
            yield_unset(configured, s, claimed).contains(b) <==> (s.contains(b) && !claimed.contains(b)),
{
    if configured is None {
        let f = |b: KeyBinding| !claimed.contains(b);
        assert(yield_unset(configured, s, claimed) =~= s.filter(f));
        assert forall|b: KeyBinding| #[trigger] s.filter(f).contains(b) <==> (s.contains(b) && f(b)) by {
            if s.filter(f).contains(b) {
                s.lemma_filter_contains_rev(f, b);
                let j = choose|j: int| 0 <= j < s.filter(f).len() && s.filter(f)[j] == b;
                s.lemma_filter_pred(f, j);
            }
            if s.contains(b) && f(b) {
                let j = choose|j: int| 0 <= j < s.len() && s[j] == b;
                s.lemma_filter_contains(f, j);
            }
        }
    }
}

/// Every key of a configured action among `pairs` is among the preserved keys.
pub proof fn lemma_preserved_keys_cover(pairs: Seq<(bool, Seq<KeyBinding>)>)
    ensures
        forall|i: int, j: int|
            0 <= i < pairs.len() && pairs[i].0 && 0 <= j < pairs[i].1.len() ==> #[trigger] preserved_keys(
                pairs,
            ).contains(pairs[i].1[j]),
    decreases pairs.len(),
{
    if pairs.len() > 0 {
        let d = pairs.drop_last();
        lemma_preserved_keys_cover(d);
        lemma_claim_covers(preserved_keys(d), pairs.last().0, pairs.last().1);
        assert forall|i: int, j: int|
            0 <= i < pairs.len() && pairs[i].0 && 0 <= j < pairs[i].1.len() implies #[trigger] preserved_keys(
            pairs,
        ).contains(pairs[i].1[j]) by {
            if i < d.len() {
                assert(d[i] == pairs[i]);
                assert(preserved_keys(d).contains(d[i].1[j]));
            } else {
                assert(pairs[i] == pairs.last());
            }
        }
    }
}

/// The (configured, keys) pairs of the Vim normal-mode actions whose keys are
/// claimed, in the order they are claimed.
pub open spec fn vim_normal_pairs(c: VimNormalKeymapConfig, m: VimNormalModel) -> Seq<(bool, Seq<KeyBinding>)> {
    seq![
        (c.enter_insert is Some, m.enter_insert),
        (c.append_after_cursor is Some, m.append_after_cursor),
        (c.append_line_end is Some, m.append_line_end),
        (c.insert_line_start is Some, m.insert_line_start),
        (c.open_line_below is Some, m.open_line_below),
        (c.open_line_above is Some, m.open_line_above),
        (c.enter_replace_mode is Some, m.enter_replace_mode),
        (c.move_left is Some, m.move_left),
        (c.move_right is Some, m.move_right),
        (c.move_up is Some, m.move_up),
        (c.move_down is Some, m.move_down),
        (c.move_word_forward is Some, m.move_word_forward),
        (c.move_word_backward is Some, m.move_word_backward),
        (c.move_word_end is Some, m.move_word_end),
        (c.move_line_start is Some, m.move_line_start),
        (c.move_line_end is Some, m.move_line_end),
        (c.find_forward is Some, m.find_forward),
        (c.find_backward is Some, m.find_backward),
        (c.till_forward is Some, m.till_forward),
        (c.till_backward is Some, m.till_backward),
        (c.jump_top is Some, m.jump_top),
        (c.jump_bottom is Some, m.jump_bottom),
        (c.delete_char is Some, m.delete_char),
        (c.replace_char is Some, m.replace_char),
        (c.substitute_char is Some, m.substitute_char),
        (c.repeat_last_change is Some, m.repeat_last_change),
        (c.change_to_line_end is Some, m.change_to_line_end),
        (c.delete_to_line_end is Some, m.delete_to_line_end),
        (c.yank_line is Some, m.yank_line),
        (c.paste_after is Some, m.paste_after),
        (c.start_delete_operator is Some, m.start_delete_operator),
        (c.start_yank_operator is Some, m.start_yank_operator),
        (c.start_change_operator is Some, m.start_change_operator),
        (c.undo is Some, m.undo),
        (c.redo is Some, m.redo),
        (c.cancel_operator is Some, m.cancel_operator),
    ]
}

proof fn lemma_vim_normal_claims_pairs(c: VimNormalKeymapConfig, m: VimNormalModel)
    ensures
        vim_normal_claims(Seq::empty(), c, m) == preserved_keys(vim_normal_pairs(c, m)),
{
    let ps = vim_normal_pairs(c, m);
    assert(preserved_keys(ps.take(0)) == Seq::<KeyBinding>::empty());
    assert(ps.take(1).drop_last() =~= ps.take(0));
    assert(ps.take(1).last() == ps[0]);
    assert(preserved_keys(ps.take(1)) == claim(preserved_keys(ps.take(0)), ps[0].0, ps[0].1));
    assert(ps.take(2).drop_last() =~= ps.take(1));
    assert(ps.take(2).last() == ps[1]);
    assert(preserved_keys(ps.take(2)) == claim(preserved_keys(ps.take(1)), ps[1].0, ps[1].1));
    assert(ps.take(3).drop_last() =~= ps.take(2));
    assert(ps.take(3).last() == ps[2]);
    assert(preserved_keys(ps.take(3)) == claim(preserved_keys(ps.take(2)), ps[2].0, ps[2].1));
    assert(ps.take(4).drop_last() =~= ps.take(3));
    assert(ps.take(4).last() == ps[3]);
    assert(preserved_keys(ps.take(4)) == claim(preserved_keys(ps.take(3)), ps[3].0, ps[3].1));
    assert(ps.take(5).drop_last() =~= ps.take(4));
    assert(ps.take(5).last() == ps[4]);
    assert(preserved_keys(ps.take(5)) == claim(preserved_keys(ps.take(4)), ps[4].0, ps[4].1));
    assert(ps.take(6).drop_last() =~= ps.take(5));
    assert(ps.take(6).last() == ps[5]);
    assert(preserved_keys(ps.take(6)) == claim(preserved_keys(ps.take(5)), ps[5].0, ps[5].1));
    assert(ps.take(7).drop_last() =~= ps.take(6));
    assert(ps.take(7).last() == ps[6]);
    assert(preserved_keys(ps.take(7)) == claim(preserved_keys(ps.take(6)), ps[6].0, ps[6].1));
    assert(ps.take(8).drop_last() =~= ps.take(7));
    assert(ps.take(8).last() == ps[7]);
    assert(preserved_keys(ps.take(8)) == claim(preserved_keys(ps.take(7)), ps[7].0, ps[7].1));
    assert(ps.take(9).drop_last() =~= ps.take(8));
    assert(ps.take(9).last() == ps[8]);
    assert(preserved_keys(ps.take(9)) == claim(preserved_keys(ps.take(8)), ps[8].0, ps[8].1));
    assert(ps.take(10).drop_last() =~= ps.take(9));
    assert(ps.take(10).last() == ps[9]);
    assert(preserved_keys(ps.take(10)) == claim(preserved_keys(ps.take(9)), ps[9].0, ps[9].1));
    assert(ps.take(11).drop_last() =~= ps.take(10));
    assert(ps.take(11).last() == ps[10]);
    assert(preserved_keys(ps.take(11)) == claim(preserved_keys(ps.take(10)), ps[10].0, ps[10].1));
    assert(ps.take(12).drop_last() =~= ps.take(11));
    assert(ps.take(12).last() == ps[11]);
    assert(preserved_keys(ps.take(12)) == claim(preserved_keys(ps.take(11)), ps[11].0, ps[11].1));
    assert(ps.take(13).drop_last() =~= ps.take(12));
    assert(ps.take(13).last() == ps[12]);
    assert(preserved_keys(ps.take(13)) == claim(preserved_keys(ps.take(12)), ps[12].0, ps[12].1));
    assert(ps.take(14).drop_last() =~= ps.take(13));
    assert(ps.take(14).last() == ps[13]);
    assert(preserved_keys(ps.take(14)) == claim(preserved_keys(ps.take(13)), ps[13].0, ps[13].1));
    assert(ps.take(15).drop_last() =~= ps.take(14));
    assert(ps.take(15).last() == ps[14]);
    assert(preserved_keys(ps.take(15)) == claim(preserved_keys(ps.take(14)), ps[14].0, ps[14].1));
    assert(ps.take(16).drop_last() =~= ps.take(15));
    assert(ps.take(16).last() == ps[15]);
    assert(preserved_keys(ps.take(16)) == claim(preserved_keys(ps.take(15)), ps[15].0, ps[15].1));
    assert(ps.take(17).drop_last() =~= ps.take(16));
    assert(ps.take(17).last() == ps[16]);
    assert(preserved_keys(ps.take(17)) == claim(preserved_keys(ps.take(16)), ps[16].0, ps[16].1));
    assert(ps.take(18).drop_last() =~= ps.take(17));
    assert(ps.take(18).last() == ps[17]);
    assert(preserved_keys(ps.take(18)) == claim(preserved_keys(ps.take(17)), ps[17].0, ps[17].1));
    assert(ps.take(19).drop_last() =~= ps.take(18));
    assert(ps.take(19).last() == ps[18]);
    assert(preserved_keys(ps.take(19)) == claim(preserved_keys(ps.take(18)), ps[18].0, ps[18].1));
    assert(ps.take(20).drop_last() =~= ps.take(19));
    assert(ps.take(20).last() == ps[19]);
    assert(preserved_keys(ps.take(20)) == claim(preserved_keys(ps.take(19)), ps[19].0, ps[19].1));
    assert(ps.take(21).drop_last() =~= ps.take(20));
    assert(ps.take(21).last() == ps[20]);
    assert(preserved_keys(ps.take(21)) == claim(preserved_keys(ps.take(20)), ps[20].0, ps[20].1));
    assert(ps.take(22).drop_last() =~= ps.take(21));
    assert(ps.take(22).last() == ps[21]);
    assert(preserved_keys(ps.take(22)) == claim(preserved_keys(ps.take(21)), ps[21].0, ps[21].1));
    assert(ps.take(23).drop_last() =~= ps.take(22));
    assert(ps.take(23).last() == ps[22]);
    assert(preserved_keys(ps.take(23)) == claim(preserved_keys(ps.take(22)), ps[22].0, ps[22].1));
    assert(ps.take(24).drop_last() =~= ps.take(23));
    assert(ps.take(24).last() == ps[23]);
    assert(preserved_keys(ps.take(24)) == claim(preserved_keys(ps.take(23)), ps[23].0, ps[23].1));
    assert(ps.take(25).drop_last() =~= ps.take(24));
    assert(ps.take(25).last() == ps[24]);
    assert(preserved_keys(ps.take(25)) == claim(preserved_keys(ps.take(24)), ps[24].0, ps[24].1));
    assert(ps.take(26).drop_last() =~= ps.take(25));
    assert(ps.take(26).last() == ps[25]);
    assert(preserved_keys(ps.take(26)) == claim(preserved_keys(ps.take(25)), ps[25].0, ps[25].1));
    assert(ps.take(27).drop_last() =~= ps.take(26));
    assert(ps.take(27).last() == ps[26]);
    assert(preserved_keys(ps.take(27)) == claim(preserved_keys(ps.take(26)), ps[26].0, ps[26].1));
    assert(ps.take(28).drop_last() =~= ps.take(27));
    assert(ps.take(28).last() == ps[27]);
    assert(preserved_keys(ps.take(28)) == claim(preserved_keys(ps.take(27)), ps[27].0, ps[27].1));
    assert(ps.take(29).drop_last() =~= ps.take(28));
    assert(ps.take(29).last() == ps[28]);
    assert(preserved_keys(ps.take(29)) == claim(preserved_keys(ps.take(28)), ps[28].0, ps[28].1));
    assert(ps.take(30).drop_last() =~= ps.take(29));
    assert(ps.take(30).last() == ps[29]);
    assert(preserved_keys(ps.take(30)) == claim(preserved_keys(ps.take(29)), ps[29].0, ps[29].1));
    assert(ps.take(31).drop_last() =~= ps.take(30));
    assert(ps.take(31).last() == ps[30]);
    assert(preserved_keys(ps.take(31)) == claim(preserved_keys(ps.take(30)), ps[30].0, ps[30].1));
    assert(ps.take(32).drop_last() =~= ps.take(31));
    assert(ps.take(32).last() == ps[31]);
    assert(preserved_keys(ps.take(32)) == claim(preserved_keys(ps.take(31)), ps[31].0, ps[31].1));
    assert(ps.take(33).drop_last() =~= ps.take(32));
    assert(ps.take(33).last() == ps[32]);
    assert(preserved_keys(ps.take(33)) == claim(preserved_keys(ps.take(32)), ps[32].0, ps[32].1));
    assert(ps.take(34).drop_last() =~= ps.take(33));
    assert(ps.take(34).last() == ps[33]);
    assert(preserved_keys(ps.take(34)) == claim(preserved_keys(ps.take(33)), ps[33].0, ps[33].1));
    assert(ps.take(35).drop_last() =~= ps.take(34));
    assert(ps.take(35).last() == ps[34]);
    assert(preserved_keys(ps.take(35)) == claim(preserved_keys(ps.take(34)), ps[34].0, ps[34].1));
    assert(ps.take(36).drop_last() =~= ps.take(35));
    assert(ps.take(36).last() == ps[35]);
    assert(preserved_keys(ps.take(36)) == claim(preserved_keys(ps.take(35)), ps[35].0, ps[35].1));
    assert(ps.take(36) =~= ps);
}

/// Vim normal-mode resolution: every key of an action the user configured is
/// claimed; such an action keeps its configured keys; and a newer action
/// left unset keeps, in order, exactly those of its built-in keys that no
/// configured Vim normal-mode action uses.
pub proof fn lemma_vim_normal_resolution(c: VimNormalKeymapConfig)
    ensures
        forall|i: int, j: int|
            0 <= i < vim_normal_pairs(c, vim_normal_base(c)).len() && vim_normal_pairs(c, vim_normal_base(c))[i].0 && 0 <= j
                < vim_normal_pairs(c, vim_normal_base(c))[i].1.len() ==> #[trigger] vim_normal_claims(Seq::empty(), c, vim_normal_base(c)).contains(
                vim_normal_pairs(c, vim_normal_base(c))[i].1[j],
            ),
        c.start_change_operator is Some ==> vim_normal_model(c).start_change_operator == vim_normal_base(c).start_change_operator,
        c.start_change_operator is None ==> forall|b: KeyBinding| #[trigger] vim_normal_model(c).start_change_operator.contains(b) <==> (vim_normal_base(c).start_change_operator.contains(
            b,
        ) && !vim_normal_claims(Seq::empty(), c, vim_normal_base(c)).contains(b)),
        c.substitute_char is Some ==> vim_normal_model(c).substitute_char == vim_normal_base(c).substitute_char,
        c.substitute_char is None ==> forall|b: KeyBinding| #[trigger] vim_normal_model(c).substitute_char.contains(b) <==> (vim_normal_base(c).substitute_char.contains(
            b,
        ) && !vim_normal_claims(Seq::empty(), c, vim_normal_base(c)).contains(b)),
        c.replace_char is Some ==> vim_normal_model(c).replace_char == vim_normal_base(c).replace_char,
        c.replace_char is None ==> forall|b: KeyBinding| #[trigger] vim_normal_model(c).replace_char.contains(b) <==> (vim_normal_base(c).replace_char.contains(
            b,
        ) && !vim_normal_claims(Seq::empty(), c, vim_normal_base(c)).contains(b)),
        c.repeat_last_change is Some ==> vim_normal_model(c).repeat_last_change == vim_normal_base(c).repeat_last_change,
        c.repeat_last_change is None ==> forall|b: KeyBinding| #[trigger] vim_normal_model(c).repeat_last_change.contains(b) <==> (vim_normal_base(c).repeat_last_change.contains(
            b,
        ) && !vim_normal_claims(Seq::empty(), c, vim_normal_base(c)).contains(b)),
        c.find_forward is Some ==> vim_normal_model(c).find_forward == vim_normal_base(c).find_forward,
        c.find_forward is None ==> forall|b: KeyBinding| #[trigger] vim_normal_model(c).find_forward.contains(b) <==> (vim_normal_base(c).find_forward.contains(
            b,
        ) && !vim_normal_claims(Seq::empty(), c, vim_normal_base(c)).contains(b)),
        c.find_backward is Some ==> vim_normal_model(c).find_backward == vim_normal_base(c).find_backward,
        c.find_backward is None ==> forall|b: KeyBinding| #[trigger] vim_normal_model(c).find_backward.contains(b) <==> (vim_normal_base(c).find_backward.contains(
            b,
        ) && !vim_normal_claims(Seq::empty(), c, vim_normal_base(c)).contains(b)),
        c.till_forward is Some ==> vim_normal_model(c).till_forward == vim_normal_base(c).till_forward,
        c.till_forward is None ==> forall|b: KeyBinding| #[trigger] vim_normal_model(c).till_forward.contains(b) <==> (vim_normal_base(c).till_forward.contains(
            b,
        ) && !vim_normal_claims(Seq::empty(), c, vim_normal_base(c)).contains(b)),
        c.till_backward is Some ==> vim_normal_model(c).till_backward == vim_normal_base(c).till_backward,
        c.till_backward is None ==> forall|b: KeyBinding| #[trigger] vim_normal_model(c).till_backward.contains(b) <==> (vim_normal_base(c).till_backward.contains(
            b,
        ) && !vim_normal_claims(Seq::empty(), c, vim_normal_base(c)).contains(b)),
        c.jump_top is Some ==> vim_normal_model(c).jump_top == vim_normal_base(c).jump_top,
        c.jump_top is None ==> forall|b: KeyBinding| #[trigger] vim_normal_model(c).jump_top.contains(b) <==> (vim_normal_base(c).jump_top.contains(
            b,
        ) && !vim_normal_claims(Seq::empty(), c, vim_normal_base(c)).contains(b)),
        c.jump_bottom is Some ==> vim_normal_model(c).jump_bottom == vim_normal_base(c).jump_bottom,
        c.jump_bottom is None ==> forall|b: KeyBinding| #[trigger] vim_normal_model(c).jump_bottom.contains(b) <==> (vim_normal_base(c).jump_bottom.contains(
            b,
        ) && !vim_normal_claims(Seq::empty(), c, vim_normal_base(c)).contains(b)),
{
    let base = vim_normal_base(c);
    let claimed = vim_normal_claims(Seq::empty(), c, base);
    lemma_vim_normal_claims_pairs(c, base);
    lemma_preserved_keys_cover(vim_normal_pairs(c, base));
    lemma_yield_unset(c.start_change_operator, base.start_change_operator, claimed);
    lemma_yield_unset(c.substitute_char, base.substitute_char, claimed);
    lemma_yield_unset(c.replace_char, base.replace_char, claimed);
    lemma_yield_unset(c.repeat_last_change, base.repeat_last_change, claimed);
    lemma_yield_unset(c.find_forward, base.find_forward, claimed);
    lemma_yield_unset(c.find_backward, base.find_backward, claimed);
    lemma_yield_unset(c.till_forward, base.till_forward, claimed);
    lemma_yield_unset(c.till_backward, base.till_backward, claimed);
    lemma_yield_unset(c.jump_top, base.jump_top, claimed);
    lemma_yield_unset(c.jump_bottom, base.jump_bottom, claimed);
}

/// The (configured, keys) pairs of the Vim operator-pending actions whose keys are
/// claimed, in the order they are claimed.
pub open spec fn vim_operator_pairs(c: VimOperatorKeymapConfig, m: VimOperatorModel) -> Seq<(bool, Seq<KeyBinding>)> {
    seq![
        (c.delete_line is Some, m.delete_line),
        (c.yank_line is Some, m.yank_line),
        (c.motion_left is Some, m.motion_left),
        (c.motion_right is Some, m.motion_right),
        (c.motion_up is Some, m.motion_up),
        (c.motion_down is Some, m.motion_down),
        (c.motion_word_forward is Some, m.motion_word_forward),
        (c.motion_word_backward is Some, m.motion_word_backward),
        (c.motion_word_end is Some, m.motion_word_end),
        (c.motion_line_start is Some, m.motion_line_start),
        (c.motion_line_end is Some, m.motion_line_end),
        (c.motion_find_forward is Some, m.motion_find_forward),
        (c.motion_find_backward is Some, m.motion_find_backward),
        (c.motion_till_forward is Some, m.motion_till_forward),
        (c.motion_till_backward is Some, m.motion_till_backward),
        (c.motion_jump_top is Some, m.motion_jump_top),
        (c.motion_jump_bottom is Some, m.motion_jump_bottom),
        (c.cancel is Some, m.cancel),
    ]
}

proof fn lemma_vim_operator_claims_pairs(c: VimOperatorKeymapConfig, m: VimOperatorModel)
    ensures
        vim_operator_claims(Seq::empty(), c, m) == preserved_keys(vim_operator_pairs(c, m)),
{
    let ps = vim_operator_pairs(c, m);
    assert(preserved_keys(ps.take(0)) == Seq::<KeyBinding>::empty());
    assert(ps.take(1).drop_last() =~= ps.take(0));
    assert(ps.take(1).last() == ps[0]);
    assert(preserved_keys(ps.take(1)) == claim(preserved_keys(ps.take(0)), ps[0].0, ps[0].1));
    assert(ps.take(2).drop_last() =~= ps.take(1));
    assert(ps.take(2).last() == ps[1]);
    assert(preserved_keys(ps.take(2)) == claim(preserved_keys(ps.take(1)), ps[1].0, ps[1].1));
    assert(ps.take(3).drop_last() =~= ps.take(2));
    assert(ps.take(3).last() == ps[2]);
    assert(preserved_keys(ps.take(3)) == claim(preserved_keys(ps.take(2)), ps[2].0, ps[2].1));
    assert(ps.take(4).drop_last() =~= ps.take(3));
    assert(ps.take(4).last() == ps[3]);
    assert(preserved_keys(ps.take(4)) == claim(preserved_keys(ps.take(3)), ps[3].0, ps[3].1));
    assert(ps.take(5).drop_last() =~= ps.take(4));
    assert(ps.take(5).last() == ps[4]);
    assert(preserved_keys(ps.take(5)) == claim(preserved_keys(ps.take(4)), ps[4].0, ps[4].1));
    assert(ps.take(6).drop_last() =~= ps.take(5));
    assert(ps.take(6).last() == ps[5]);
    assert(preserved_keys(ps.take(6)) == claim(preserved_keys(ps.take(5)), ps[5].0, ps[5].1));
    assert(ps.take(7).drop_last() =~= ps.take(6));
    assert(ps.take(7).last() == ps[6]);
    assert(preserved_keys(ps.take(7)) == claim(preserved_keys(ps.take(6)), ps[6].0, ps[6].1));
    assert(ps.take(8).drop_last() =~= ps.take(7));
    assert(ps.take(8).last() == ps[7]);
    assert(preserved_keys(ps.take(8)) == claim(preserved_keys(ps.take(7)), ps[7].0, ps[7].1));
    assert(ps.take(9).drop_last() =~= ps.take(8));
    assert(ps.take(9).last() == ps[8]);
    assert(preserved_keys(ps.take(9)) == claim(preserved_keys(ps.take(8)), ps[8].0, ps[8].1));
    assert(ps.take(10).drop_last() =~= ps.take(9));
    assert(ps.take(10).last() == ps[9]);
    assert(preserved_keys(ps.take(10)) == claim(preserved_keys(ps.take(9)), ps[9].0, ps[9].1));
    assert(ps.take(11).drop_last() =~= ps.take(10));
    assert(ps.take(11).last() == ps[10]);
    assert(preserved_keys(ps.take(11)) == claim(preserved_keys(ps.take(10)), ps[10].0, ps[10].1));
    assert(ps.take(12).drop_last() =~= ps.take(11));
    assert(ps.take(12).last() == ps[11]);
    assert(preserved_keys(ps.take(12)) == claim(preserved_keys(ps.take(11)), ps[11].0, ps[11].1));
    assert(ps.take(13).drop_last() =~= ps.take(12));
    assert(ps.take(13).last() == ps[12]);
    assert(preserved_keys(ps.take(13)) == claim(preserved_keys(ps.take(12)), ps[12].0, ps[12].1));
    assert(ps.take(14).drop_last() =~= ps.take(13));
    assert(ps.take(14).last() == ps[13]);
    assert(preserved_keys(ps.take(14)) == claim(preserved_keys(ps.take(13)), ps[13].0, ps[13].1));
    assert(ps.take(15).drop_last() =~= ps.take(14));
    assert(ps.take(15).last() == ps[14]);
    assert(preserved_keys(ps.take(15)) == claim(preserved_keys(ps.take(14)), ps[14].0, ps[14].1));
    assert(ps.take(16).drop_last() =~= ps.take(15));
    assert(ps.take(16).last() == ps[15]);
    assert(preserved_keys(ps.take(16)) == claim(preserved_keys(ps.take(15)), ps[15].0, ps[15].1));
    assert(ps.take(17).drop_last() =~= ps.take(16));
    assert(ps.take(17).last() == ps[16]);
    assert(preserved_keys(ps.take(17)) == claim(preserved_keys(ps.take(16)), ps[16].0, ps[16].1));
    assert(ps.take(18).drop_last() =~= ps.take(17));
    assert(ps.take(18).last() == ps[17]);
    assert(preserved_keys(ps.take(18)) == claim(preserved_keys(ps.take(17)), ps[17].0, ps[17].1));
    assert(ps.take(18) =~= ps);
}

/// Vim operator-pending resolution: every key of an action the user configured is
/// claimed; such an action keeps its configured keys; and a newer action
/// left unset keeps, in order, exactly those of its built-in keys that no
/// configured Vim operator-pending action uses.
pub proof fn lemma_vim_operator_resolution(c: VimOperatorKeymapConfig)
    ensures
        forall|i: int, j: int|
            0 <= i < vim_operator_pairs(c, vim_operator_base(c)).len() && vim_operator_pairs(c, vim_operator_base(c))[i].0 && 0 <= j
                < vim_operator_pairs(c, vim_operator_base(c))[i].1.len() ==> #[trigger] vim_operator_claims(Seq::empty(), c, vim_operator_base(c)).contains(
                vim_operator_pairs(c, vim_operator_base(c))[i].1[j],
            ),
        c.select_inner_text_object is Some ==> vim_operator_model(c).select_inner_text_object == vim_operator_base(c).select_inner_text_object,
        c.select_inner_text_object is None ==> forall|b: KeyBinding| #[trigger] vim_operator_model(c).select_inner_text_object.contains(b) <==> (vim_operator_base(c).select_inner_text_object.contains(
            b,
        ) && !vim_operator_claims(Seq::empty(), c, vim_operator_base(c)).contains(b)),
        c.select_around_text_object is Some ==> vim_operator_model(c).select_around_text_object == vim_operator_base(c).select_around_text_object,
        c.select_around_text_object is None ==> forall|b: KeyBinding| #[trigger] vim_operator_model(c).select_around_text_object.contains(b) <==> (vim_operator_base(c).select_around_text_object.contains(
            b,
        ) && !vim_operator_claims(Seq::empty(), c, vim_operator_base(c)).contains(b)),
        c.motion_find_forward is Some ==> vim_operator_model(c).motion_find_forward == vim_operator_base(c).motion_find_forward,
        c.motion_find_forward is None ==> forall|b: KeyBinding| #[trigger] vim_operator_model(c).motion_find_forward.contains(b) <==> (vim_operator_base(c).motion_find_forward.contains(
            b,
        ) && !vim_operator_claims(Seq::empty(), c, vim_operator_base(c)).contains(b)),
        c.motion_find_backward is Some ==> vim_operator_model(c).motion_find_backward == vim_operator_base(c).motion_find_backward,
        c.motion_find_backward is None ==> forall|b: KeyBinding| #[trigger] vim_operator_model(c).motion_find_backward.contains(b) <==> (vim_operator_base(c).motion_find_backward.contains(
            b,
        ) && !vim_operator_claims(Seq::empty(), c, vim_operator_base(c)).contains(b)),
        c.motion_till_forward is Some ==> vim_operator_model(c).motion_till_forward == vim_operator_base(c).motion_till_forward,
        c.motion_till_forward is None ==> forall|b: KeyBinding| #[trigger] vim_operator_model(c).motion_till_forward.contains(b) <==> (vim_operator_base(c).motion_till_forward.contains(
            b,
        ) && !vim_operator_claims(Seq::empty(), c, vim_operator_base(c)).contains(b)),
        c.motion_till_backward is Some ==> vim_operator_model(c).motion_till_backward == vim_operator_base(c).motion_till_backward,
        c.motion_till_backward is None ==> forall|b: KeyBinding| #[trigger] vim_operator_model(c).motion_till_backward.contains(b) <==> (vim_operator_base(c).motion_till_backward.contains(
            b,
        ) && !vim_operator_claims(Seq::empty(), c, vim_operator_base(c)).contains(b)),
        c.motion_jump_top is Some ==> vim_operator_model(c).motion_jump_top == vim_operator_base(c).motion_jump_top,
        c.motion_jump_top is None ==> forall|b: KeyBinding| #[trigger] vim_operator_model(c).motion_jump_top.contains(b) <==> (vim_operator_base(c).motion_jump_top.contains(
            b,
        ) && !vim_operator_claims(Seq::empty(), c, vim_operator_base(c)).contains(b)),
        c.motion_jump_bottom is Some ==> vim_operator_model(c).motion_jump_bottom == vim_operator_base(c).motion_jump_bottom,
        c.motion_jump_bottom is None ==> forall|b: KeyBinding| #[trigger] vim_operator_model(c).motion_jump_bottom.contains(b) <==> (vim_operator_base(c).motion_jump_bottom.contains(
            b,
        ) && !vim_operator_claims(Seq::empty(), c, vim_operator_base(c)).contains(b)),
{
    let base = vim_operator_base(c);
    let claimed = vim_operator_claims(Seq::empty(), c, base);
    lemma_vim_operator_claims_pairs(c, base);
    lemma_preserved_keys_cover(vim_operator_pairs(c, base));
    lemma_yield_unset(c.select_inner_text_object, base.select_inner_text_object, claimed);
    lemma_yield_unset(c.select_around_text_object, base.select_around_text_object, claimed);
    lemma_yield_unset(c.motion_find_forward, base.motion_find_forward, claimed);
    lemma_yield_unset(c.motion_find_backward, base.motion_find_backward, claimed);
    lemma_yield_unset(c.motion_till_forward, base.motion_till_forward, claimed);
    lemma_yield_unset(c.motion_till_backward, base.motion_till_backward, claimed);
    lemma_yield_unset(c.motion_jump_top, base.motion_jump_top, claimed);
    lemma_yield_unset(c.motion_jump_bottom, base.motion_jump_bottom, claimed);
}

proof fn lemma_without_within(s: Seq<KeyBinding>, removed: Seq<KeyBinding>)
    ensures
        forall|b: KeyBinding| #[trigger] without(s, removed).contains(b) ==> s.contains(b),
{
    assert forall|b: KeyBinding| #[trigger] without(s, removed).contains(b) implies s.contains(b) by {
        s.lemma_filter_contains_rev(|x: KeyBinding| !removed.contains(x), b);
    }
}

/// Chat resolution: the chat actions keep the values their configuration
/// resolves to, except the reasoning-effort and question keys, which keep
/// theirs whenever they are configured and otherwise keep only some of
/// those keys, in their order (their built-in keys yield to the same keys
/// used on their input path).
pub proof fn lemma_chat_resolution(k: TuiKeymap)
    ensures
        chat_model(k).interrupt_turn == chat_base(k.chat).interrupt_turn,
        chat_model(k).previous_permission_mode == chat_base(k.chat).previous_permission_mode,
        chat_model(k).next_permission_mode == chat_base(k.chat).next_permission_mode,
        chat_model(k).edit_queued_message == chat_base(k.chat).edit_queued_message,
        k.chat.decrease_reasoning_effort is Some ==> chat_model(k).decrease_reasoning_effort == chat_base(k.chat).decrease_reasoning_effort,
        forall|b: KeyBinding| #[trigger] chat_model(k).decrease_reasoning_effort.contains(b) ==> chat_base(k.chat).decrease_reasoning_effort.contains(b),
        exists|removed: Seq<KeyBinding>| chat_model(k).decrease_reasoning_effort == without(chat_base(k.chat).decrease_reasoning_effort, removed),
        k.chat.increase_reasoning_effort is Some ==> chat_model(k).increase_reasoning_effort == chat_base(k.chat).increase_reasoning_effort,
        forall|b: KeyBinding| #[trigger] chat_model(k).increase_reasoning_effort.contains(b) ==> chat_base(k.chat).increase_reasoning_effort.contains(b),
        exists|removed: Seq<KeyBinding>| chat_model(k).increase_reasoning_effort == without(chat_base(k.chat).increase_reasoning_effort, removed),
        k.chat.prompt_stack_back is Some ==> chat_model(k).prompt_stack_back == chat_base(k.chat).prompt_stack_back,
        forall|b: KeyBinding| #[trigger] chat_model(k).prompt_stack_back.contains(b) ==> chat_base(k.chat).prompt_stack_back.contains(b),
        exists|removed: Seq<KeyBinding>| chat_model(k).prompt_stack_back == without(chat_base(k.chat).prompt_stack_back, removed),
        k.chat.skip_question is Some ==> chat_model(k).skip_question == chat_base(k.chat).skip_question,
        forall|b: KeyBinding| #[trigger] chat_model(k).skip_question.contains(b) ==> chat_base(k.chat).skip_question.contains(b),
        exists|removed: Seq<KeyBinding>| chat_model(k).skip_question == without(chat_base(k.chat).skip_question, removed),
{
    let base = chat_base(k.chat);
    let shift = KeyModifiers { shift: true, ..no_modifiers() };
    let alt = KeyModifiers { alt: true, ..no_modifiers() };
    let control = KeyModifiers { control: true, ..no_modifiers() };
    let shift_down = binding_of(KeyCode::Down, shift);
    let shift_up = binding_of(KeyCode::Up, shift);
    let alt_down = binding_of(KeyCode::Down, alt);
    let shift_right = binding_of(KeyCode::Right, shift);
    let ctrl_bracket = binding_of(KeyCode::Char(']'), control);
    lemma_without_within(base.decrease_reasoning_effort, seq![shift_down]);
    lemma_without_within(base.increase_reasoning_effort, seq![shift_up]);
    let back_claims = claimed_if(question_alias_in_use(k, alt_down), alt_down) + claimed_if(
        question_alias_in_use(k, shift_right),
        shift_right,
    );
    lemma_without_within(base.prompt_stack_back, back_claims);
    lemma_without_within(base.skip_question, claimed_if(question_alias_in_use(k, ctrl_bracket), ctrl_bracket));
    lemma_without_nothing(base.decrease_reasoning_effort);
    lemma_without_nothing(base.increase_reasoning_effort);
    lemma_without_nothing(base.prompt_stack_back);
    lemma_without_nothing(base.skip_question);
    let m = chat_model(k);
    if !(m.decrease_reasoning_effort == without(base.decrease_reasoning_effort, Seq::empty())) {
        assert(m.decrease_reasoning_effort == without(base.decrease_reasoning_effort, seq![shift_down]));
    }
    if !(m.increase_reasoning_effort == without(base.increase_reasoning_effort, Seq::empty())) {
        assert(m.increase_reasoning_effort == without(base.increase_reasoning_effort, seq![shift_up]));
    }
    if !(m.prompt_stack_back == without(base.prompt_stack_back, Seq::empty())) {
        assert(m.prompt_stack_back == without(base.prompt_stack_back, back_claims));
    }
    let skip_claims = claimed_if(question_alias_in_use(k, ctrl_bracket), ctrl_bracket);
    if !(m.skip_question == without(base.skip_question, Seq::empty())) {
        assert(m.skip_question == without(base.skip_question, skip_claims));
    }
}

/// The Vim keys of a resolved keymap: each newer Vim normal-mode and
/// operator-pending action that the user configured has its configured keys
/// as parsed; left unset, it has exactly those of its built-in keys that no
/// configured action of its context uses, in their order (see
/// [`lemma_vim_normal_resolution`] and [`lemma_vim_operator_resolution`] for
/// the claimed keys and the order); the text objects resolve as configured.
/// `RuntimeKeymap::from_config` gives this keymap whenever it succeeds.
pub proof fn lemma_resolved_vim_keys(k: TuiKeymap)
    ensures
        k.vim_normal.start_change_operator is Some ==> resolved_view(k).vim_normal.start_change_operator == resolved_or(k.vim_normal.start_change_operator, default_vim_normal().start_change_operator),
        k.vim_normal.start_change_operator is None ==> forall|b: KeyBinding| #[trigger] resolved_view(k).vim_normal.start_change_operator.contains(b) <==> (
            default_vim_normal().start_change_operator.contains(b) && !vim_normal_claims(Seq::empty(), k.vim_normal, vim_normal_base(k.vim_normal)).contains(b)),
        k.vim_normal.substitute_char is Some ==> resolved_view(k).vim_normal.substitute_char == resolved_or(k.vim_normal.substitute_char, default_vim_normal().substitute_char),
        k.vim_normal.substitute_char is None ==> forall|b: KeyBinding| #[trigger] resolved_view(k).vim_normal.substitute_char.contains(b) <==> (
            default_vim_normal().substitute_char.contains(b) && !vim_normal_claims(Seq::empty(), k.vim_normal, vim_normal_base(k.vim_normal)).contains(b)),
        k.vim_normal.replace_char is Some ==> resolved_view(k).vim_normal.replace_char == resolved_or(k.vim_normal.replace_char, default_vim_normal().replace_char),
        k.vim_normal.replace_char is None ==> forall|b: KeyBinding| #[trigger] resolved_view(k).vim_normal.replace_char.contains(b) <==> (
            default_vim_normal().replace_char.contains(b) && !vim_normal_claims(Seq::empty(), k.vim_normal, vim_normal_base(k.vim_normal)).contains(b)),
        k.vim_normal.repeat_last_change is Some ==> resolved_view(k).vim_normal.repeat_last_change == resolved_or(k.vim_normal.repeat_last_change, default_vim_normal().repeat_last_change),
        k.vim_normal.repeat_last_change is None ==> forall|b: KeyBinding| #[trigger] resolved_view(k).vim_normal.repeat_last_change.contains(b) <==> (
            default_vim_normal().repeat_last_change.contains(b) && !vim_normal_claims(Seq::empty(), k.vim_normal, vim_normal_base(k.vim_normal)).contains(b)),
        k.vim_normal.find_forward is Some ==> resolved_view(k).vim_normal.find_forward == resolved_or(k.vim_normal.find_forward, default_vim_normal().find_forward),
        k.vim_normal.find_forward is None ==> forall|b: KeyBinding| #[trigger] resolved_view(k).vim_normal.find_forward.contains(b) <==> (
            default_vim_normal().find_forward.contains(b) && !vim_normal_claims(Seq::empty(), k.vim_normal, vim_normal_base(k.vim_normal)).contains(b)),
        k.vim_normal.find_backward is Some ==> resolved_view(k).vim_normal.find_backward == resolved_or(k.vim_normal.find_backward, default_vim_normal().find_backward),
        k.vim_normal.find_backward is None ==> forall|b: KeyBinding| #[trigger] resolved_view(k).vim_normal.find_backward.contains(b) <==> (
            default_vim_normal().find_backward.contains(b) && !vim_normal_claims(Seq::empty(), k.vim_normal, vim_normal_base(k.vim_normal)).contains(b)),
        k.vim_normal.till_forward is Some ==> resolved_view(k).vim_normal.till_forward == resolved_or(k.vim_normal.till_forward, default_vim_normal().till_forward),
        k.vim_normal.till_forward is None ==> forall|b: KeyBinding| #[trigger] resolved_view(k).vim_normal.till_forward.contains(b) <==> (
            default_vim_normal().till_forward.contains(b) && !vim_normal_claims(Seq::empty(), k.vim_normal, vim_normal_base(k.vim_normal)).contains(b)),
        k.vim_normal.till_backward is Some ==> resolved_view(k).vim_normal.till_backward == resolved_or(k.vim_normal.till_backward, default_vim_normal().till_backward),
        k.vim_normal.till_backward is None ==> forall|b: KeyBinding| #[trigger] resolved_view(k).vim_normal.till_backward.contains(b) <==> (
            default_vim_normal().till_backward.contains(b) && !vim_normal_claims(Seq::empty(), k.vim_normal, vim_normal_base(k.vim_normal)).contains(b)),
        k.vim_normal.jump_top is Some ==> resolved_view(k).vim_normal.jump_top == resolved_or(k.vim_normal.jump_top, default_vim_normal().jump_top),
        k.vim_normal.jump_top is None ==> forall|b: KeyBinding| #[trigger] resolved_view(k).vim_normal.jump_top.contains(b) <==> (
            default_vim_normal().jump_top.contains(b) && !vim_normal_claims(Seq::empty(), k.vim_normal, vim_normal_base(k.vim_normal)).contains(b)),
        k.vim_normal.jump_bottom is Some ==> resolved_view(k).vim_normal.jump_bottom == resolved_or(k.vim_normal.jump_bottom, default_vim_normal().jump_bottom),
        k.vim_normal.jump_bottom is None ==> forall|b: KeyBinding| #[trigger] resolved_view(k).vim_normal.jump_bottom.contains(b) <==> (
            default_vim_normal().jump_bottom.contains(b) && !vim_normal_claims(Seq::empty(), k.vim_normal, vim_normal_base(k.vim_normal)).contains(b)),
        k.vim_operator.select_inner_text_object is Some ==> resolved_view(k).vim_operator.select_inner_text_object == resolved_or(k.vim_operator.select_inner_text_object, default_vim_operator().select_inner_text_object),
        k.vim_operator.select_inner_text_object is None ==> forall|b: KeyBinding| #[trigger] resolved_view(k).vim_operator.select_inner_text_object.contains(b) <==> (
            default_vim_operator().select_inner_text_object.contains(b) && !vim_operator_claims(Seq::empty(), k.vim_operator, vim_operator_base(k.vim_operator)).contains(b)),
        k.vim_operator.select_around_text_object is Some ==> resolved_view(k).vim_operator.select_around_text_object == resolved_or(k.vim_operator.select_around_text_object, default_vim_operator().select_around_text_object),
        k.vim_operator.select_around_text_object is None ==> forall|b: KeyBinding| #[trigger] resolved_view(k).vim_operator.select_around_text_object.contains(b) <==> (
            default_vim_operator().select_around_text_object.contains(b) && !vim_operator_claims(Seq::empty(), k.vim_operator, vim_operator_base(k.vim_operator)).contains(b)),
        k.vim_operator.motion_find_forward is Some ==> resolved_view(k).vim_operator.motion_find_forward == resolved_or(k.vim_operator.motion_find_forward, default_vim_operator().motion_find_forward),
        k.vim_operator.motion_find_forward is None ==> forall|b: KeyBinding| #[trigger] resolved_view(k).vim_operator.motion_find_forward.contains(b) <==> (
            default_vim_operator().motion_find_forward.contains(b) && !vim_operator_claims(Seq::empty(), k.vim_operator, vim_operator_base(k.vim_operator)).contains(b)),
        k.vim_operator.motion_find_backward is Some ==> resolved_view(k).vim_operator.motion_find_backward == resolved_or(k.vim_operator.motion_find_backward, default_vim_operator().motion_find_backward),
        k.vim_operator.motion_find_backward is None ==> forall|b: KeyBinding| #[trigger] resolved_view(k).vim_operator.motion_find_backward.contains(b) <==> (
            default_vim_operator().motion_find_backward.contains(b) && !vim_operator_claims(Seq::empty(), k.vim_operator, vim_operator_base(k.vim_operator)).contains(b)),
        k.vim_operator.motion_till_forward is Some ==> resolved_view(k).vim_operator.motion_till_forward == resolved_or(k.vim_operator.motion_till_forward, default_vim_operator().motion_till_forward),
        k.vim_operator.motion_till_forward is None ==> forall|b: KeyBinding| #[trigger] resolved_view(k).vim_operator.motion_till_forward.contains(b) <==> (
            default_vim_operator().motion_till_forward.contains(b) && !vim_operator_claims(Seq::empty(), k.vim_operator, vim_operator_base(k.vim_operator)).contains(b)),
        k.vim_operator.motion_till_backward is Some ==> resolved_view(k).vim_operator.motion_till_backward == resolved_or(k.vim_operator.motion_till_backward, default_vim_operator().motion_till_backward),
        k.vim_operator.motion_till_backward is None ==> forall|b: KeyBinding| #[trigger] resolved_view(k).vim_operator.motion_till_backward.contains(b) <==> (
            default_vim_operator().motion_till_backward.contains(b) && !vim_operator_claims(Seq::empty(), k.vim_operator, vim_operator_base(k.vim_operator)).contains(b)),
        k.vim_operator.motion_jump_top is Some ==> resolved_view(k).vim_operator.motion_jump_top == resolved_or(k.vim_operator.motion_jump_top, default_vim_operator().motion_jump_top),
        k.vim_operator.motion_jump_top is None ==> forall|b: KeyBinding| #[trigger] resolved_view(k).vim_operator.motion_jump_top.contains(b) <==> (
            default_vim_operator().motion_jump_top.contains(b) && !vim_operator_claims(Seq::empty(), k.vim_operator, vim_operator_base(k.vim_operator)).contains(b)),
        k.vim_operator.motion_jump_bottom is Some ==> resolved_view(k).vim_operator.motion_jump_bottom == resolved_or(k.vim_operator.motion_jump_bottom, default_vim_operator().motion_jump_bottom),
        k.vim_operator.motion_jump_bottom is None ==> forall|b: KeyBinding| #[trigger] resolved_view(k).vim_operator.motion_jump_bottom.contains(b) <==> (
            default_vim_operator().motion_jump_bottom.contains(b) && !vim_operator_claims(Seq::empty(), k.vim_operator, vim_operator_base(k.vim_operator)).contains(b)),
        resolved_view(k).vim_text_object == vim_text_object_model(k.vim_text_object),
{
    lemma_vim_normal_resolution(k.vim_normal);
    lemma_vim_operator_resolution(k.vim_operator);
}

/// Distinct keys: a keymap that passes the conflict checks has no key twice
/// among the Vim search actions together with the Vim normal-mode actions, inside one action or across two.
#[verifier::rlimit(40)]
pub proof fn lemma_vim_search_normal_keys_distinct(m: KeymapView)
    requires
        keymap_checks(m) is Ok,
    ensures
        keys_disjoint(
            seq![
            m.vim_normal.enter_insert,
            m.vim_normal.append_after_cursor,
            m.vim_normal.append_line_end,
            m.vim_normal.insert_line_start,
            m.vim_normal.open_line_below,
            m.vim_normal.open_line_above,
            m.vim_normal.enter_replace_mode,
            m.vim_normal.move_left,
            m.vim_normal.move_right,
            m.vim_normal.move_up,
            m.vim_normal.move_down,
            m.vim_normal.move_word_forward,
            m.vim_normal.move_word_backward,
            m.vim_normal.move_word_end,
            m.vim_normal.move_line_start,
            m.vim_normal.move_line_end,
            m.vim_normal.find_forward,
            m.vim_normal.find_backward,
            m.vim_normal.till_forward,
            m.vim_normal.till_backward,
            m.vim_normal.jump_top,
            m.vim_normal.jump_bottom,
            m.vim_normal.delete_char,
            m.vim_normal.replace_char,
            m.vim_normal.repeat_last_change,
            m.vim_normal.substitute_char,
            m.vim_normal.delete_to_line_end,
            m.vim_normal.change_to_line_end,
            m.vim_normal.yank_line,
            m.vim_normal.paste_after,
            m.vim_normal.start_delete_operator,
            m.vim_normal.start_yank_operator,
            m.vim_normal.start_change_operator,
            m.vim_normal.undo,
            m.vim_normal.redo,
            m.vim_normal.cancel_operator,
            m.vim_search.forward,
            m.vim_search.backward,
            m.vim_search.next,
            m.vim_search.previous,
        ],
        ),
{
    let pairs = vim_search_normal_pairs(m);
    assert(unique_spec("vim_search"@, pairs) is Ok);
    lemma_unique_keys_disjoint("vim_search"@, pairs);
    assert(pairs.map_values(|x: (Seq<char>, Seq<KeyBinding>)| x.1) =~= seq![
            m.vim_normal.enter_insert,
            m.vim_normal.append_after_cursor,
            m.vim_normal.append_line_end,
            m.vim_normal.insert_line_start,
            m.vim_normal.open_line_below,
            m.vim_normal.open_line_above,
            m.vim_normal.enter_replace_mode,
            m.vim_normal.move_left,
            m.vim_normal.move_right,
            m.vim_normal.move_up,
            m.vim_normal.move_down,
            m.vim_normal.move_word_forward,
            m.vim_normal.move_word_backward,
            m.vim_normal.move_word_end,
            m.vim_normal.move_line_start,
            m.vim_normal.move_line_end,
            m.vim_normal.find_forward,
            m.vim_normal.find_backward,
            m.vim_normal.till_forward,
            m.vim_normal.till_backward,
            m.vim_normal.jump_top,
            m.vim_normal.jump_bottom,
            m.vim_normal.delete_char,
            m.vim_normal.replace_char,
            m.vim_normal.repeat_last_change,
            m.vim_normal.substitute_char,
            m.vim_normal.delete_to_line_end,
            m.vim_normal.change_to_line_end,
            m.vim_normal.yank_line,
            m.vim_normal.paste_after,
            m.vim_normal.start_delete_operator,
            m.vim_normal.start_yank_operator,
            m.vim_normal.start_change_operator,
            m.vim_normal.undo,
            m.vim_normal.redo,
            m.vim_normal.cancel_operator,
            m.vim_search.forward,
            m.vim_search.backward,
            m.vim_search.next,
            m.vim_search.previous,
    ]);
}

/// Distinct keys: a keymap that passes the conflict checks has no key twice
/// among the Vim search actions together with the Vim operator-pending actions, inside one action or across two.
#[verifier::rlimit(40)]
pub proof fn lemma_vim_search_operator_keys_distinct(m: KeymapView)
    requires
        keymap_checks(m) is Ok,
    ensures
        keys_disjoint(
            seq![
            m.vim_operator.delete_line,
            m.vim_operator.yank_line,
            m.vim_operator.motion_left,
            m.vim_operator.motion_right,
            m.vim_operator.motion_up,
            m.vim_operator.motion_down,
            m.vim_operator.motion_word_forward,
            m.vim_operator.motion_word_backward,
            m.vim_operator.motion_word_end,
            m.vim_operator.motion_line_start,
            m.vim_operator.motion_line_end,
            m.vim_operator.motion_find_forward,
            m.vim_operator.motion_find_backward,
            m.vim_operator.motion_till_forward,
            m.vim_operator.motion_till_backward,
            m.vim_operator.motion_jump_top,
            m.vim_operator.motion_jump_bottom,
            m.vim_operator.select_inner_text_object,
            m.vim_operator.select_around_text_object,
            m.vim_operator.cancel,
            m.vim_search.forward,
            m.vim_search.backward,
            m.vim_search.next,
            m.vim_search.previous,
        ],
        ),
{
    let pairs = vim_search_operator_pairs(m);
    assert(unique_spec("vim_search"@, pairs) is Ok);
    lemma_unique_keys_disjoint("vim_search"@, pairs);
    assert(pairs.map_values(|x: (Seq<char>, Seq<KeyBinding>)| x.1) =~= seq![
            m.vim_operator.delete_line,
            m.vim_operator.yank_line,
            m.vim_operator.motion_left,
            m.vim_operator.motion_right,
            m.vim_operator.motion_up,
            m.vim_operator.motion_down,
            m.vim_operator.motion_word_forward,
            m.vim_operator.motion_word_backward,
            m.vim_operator.motion_word_end,
            m.vim_operator.motion_line_start,
            m.vim_operator.motion_line_end,
            m.vim_operator.motion_find_forward,
            m.vim_operator.motion_find_backward,
            m.vim_operator.motion_till_forward,
            m.vim_operator.motion_till_backward,
            m.vim_operator.motion_jump_top,
            m.vim_operator.motion_jump_bottom,
            m.vim_operator.select_inner_text_object,
            m.vim_operator.select_around_text_object,
            m.vim_operator.cancel,
            m.vim_search.forward,
            m.vim_search.backward,
            m.vim_search.next,
            m.vim_search.previous,
    ]);
}

/// Distinct keys: a keymap that passes the conflict checks has no key twice
/// among the main-surface actions (application, chat and composer shortcuts), inside one action or across two.
#[verifier::rlimit(40)]
pub proof fn lemma_main_keys_distinct(m: KeymapView)
    requires
        keymap_checks(m) is Ok,
    ensures
        keys_disjoint(
            seq![
            m.app.open_agents,
            m.app.open_transcript,
            m.app.open_external_editor,
            m.app.copy,
            m.app.clear_terminal,
            m.app.toggle_vim_mode,
            m.app.toggle_fast_mode,
            m.app.toggle_raw_output,
            side_toggle_keys(m.app.toggle_side_conversation),
            m.chat.interrupt_turn,
            m.chat.decrease_reasoning_effort,
            m.chat.increase_reasoning_effort,
            m.chat.previous_permission_mode,
            m.chat.next_permission_mode,
            m.chat.edit_queued_message,
            m.chat.prompt_stack_back,
            m.chat.skip_question,
            m.composer.submit,
            m.composer.queue,
            m.composer.toggle_shortcuts,
            m.composer.history_search_previous,
            m.composer.history_search_next,
        ],
        ),
{
    let pairs = main_pairs(m, side_toggle_keys(m.app.toggle_side_conversation));
    assert(unique_spec("app"@, pairs) is Ok);
    lemma_unique_keys_disjoint("app"@, pairs);
    assert(pairs.map_values(|x: (Seq<char>, Seq<KeyBinding>)| x.1) =~= seq![
            m.app.open_agents,
            m.app.open_transcript,
            m.app.open_external_editor,
            m.app.copy,
            m.app.clear_terminal,
            m.app.toggle_vim_mode,
            m.app.toggle_fast_mode,
            m.app.toggle_raw_output,
            side_toggle_keys(m.app.toggle_side_conversation),
            m.chat.interrupt_turn,
            m.chat.decrease_reasoning_effort,
            m.chat.increase_reasoning_effort,
            m.chat.previous_permission_mode,
            m.chat.next_permission_mode,
            m.chat.edit_queued_message,
            m.chat.prompt_stack_back,
            m.chat.skip_question,
            m.composer.submit,
            m.composer.queue,
            m.composer.toggle_shortcuts,
            m.composer.history_search_previous,
            m.composer.history_search_next,
    ]);
}

/// Distinct keys: a keymap that passes the conflict checks has no key twice
/// among the editor actions, inside one action or across two.
#[verifier::rlimit(40)]
pub proof fn lemma_editor_keys_distinct(m: KeymapView)
    requires
        keymap_checks(m) is Ok,
    ensures
        keys_disjoint(
            seq![
            m.editor.insert_newline,
            m.editor.move_left,
            m.editor.move_right,
            m.editor.move_up,
            m.editor.move_down,
            m.editor.move_word_left,
            m.editor.move_word_right,
            m.editor.move_line_start,
            m.editor.move_line_end,
            m.editor.delete_backward,
            m.editor.delete_forward,
            m.editor.delete_backward_word,
            m.editor.delete_forward_word,
            m.editor.kill_line_start,
            m.editor.kill_whole_line,
            m.editor.kill_line_end,
            m.editor.yank,
        ],
        ),
{
    let pairs = editor_pairs(m);
    assert(unique_spec("editor"@, pairs) is Ok);
    lemma_unique_keys_disjoint("editor"@, pairs);
    assert(pairs.map_values(|x: (Seq<char>, Seq<KeyBinding>)| x.1) =~= seq![
            m.editor.insert_newline,
            m.editor.move_left,
            m.editor.move_right,
            m.editor.move_up,
            m.editor.move_down,
            m.editor.move_word_left,
            m.editor.move_word_right,
            m.editor.move_line_start,
            m.editor.move_line_end,
            m.editor.delete_backward,
            m.editor.delete_forward,
            m.editor.delete_backward_word,
            m.editor.delete_forward_word,
            m.editor.kill_line_start,
            m.editor.kill_whole_line,
            m.editor.kill_line_end,
            m.editor.yank,
    ]);
}

/// Distinct keys: a keymap that passes the conflict checks has no key twice
/// among the Vim normal-mode actions, inside one action or across two.
#[verifier::rlimit(40)]
pub proof fn lemma_vim_normal_keys_distinct(m: KeymapView)
    requires
        keymap_checks(m) is Ok,
    ensures
        keys_disjoint(
            seq![
            m.vim_normal.enter_insert,
            m.vim_normal.append_after_cursor,
            m.vim_normal.append_line_end,
            m.vim_normal.insert_line_start,
            m.vim_normal.open_line_below,
            m.vim_normal.open_line_above,
            m.vim_normal.enter_replace_mode,
            m.vim_normal.move_left,
            m.vim_normal.move_right,
            m.vim_normal.move_up,
            m.vim_normal.move_down,
            m.vim_normal.move_word_forward,
            m.vim_normal.move_word_backward,
            m.vim_normal.move_word_end,
            m.vim_normal.move_line_start,
            m.vim_normal.move_line_end,
            m.vim_normal.find_forward,
            m.vim_normal.find_backward,
            m.vim_normal.till_forward,
            m.vim_normal.till_backward,
            m.vim_normal.jump_top,
            m.vim_normal.jump_bottom,
            m.vim_normal.delete_char,
            m.vim_normal.replace_char,
            m.vim_normal.repeat_last_change,
            m.vim_normal.substitute_char,
            m.vim_normal.delete_to_line_end,
            m.vim_normal.change_to_line_end,
            m.vim_normal.yank_line,
            m.vim_normal.paste_after,
            m.vim_normal.start_delete_operator,
            m.vim_normal.start_yank_operator,
            m.vim_normal.start_change_operator,
            m.vim_normal.undo,
            m.vim_normal.redo,
            m.vim_normal.cancel_operator,
        ],
        ),
{
    let pairs = crate::keymap_conflicts::vim_normal_pairs(m);
    assert(unique_spec("vim_normal"@, pairs) is Ok);
    lemma_unique_keys_disjoint("vim_normal"@, pairs);
    assert(pairs.map_values(|x: (Seq<char>, Seq<KeyBinding>)| x.1) =~= seq![
            m.vim_normal.enter_insert,
            m.vim_normal.append_after_cursor,
            m.vim_normal.append_line_end,
            m.vim_normal.insert_line_start,
            m.vim_normal.open_line_below,
            m.vim_normal.open_line_above,
            m.vim_normal.enter_replace_mode,
            m.vim_normal.move_left,
            m.vim_normal.move_right,
            m.vim_normal.move_up,
            m.vim_normal.move_down,
            m.vim_normal.move_word_forward,
            m.vim_normal.move_word_backward,
            m.vim_normal.move_word_end,
            m.vim_normal.move_line_start,
            m.vim_normal.move_line_end,
            m.vim_normal.find_forward,
            m.vim_normal.find_backward,
            m.vim_normal.till_forward,
            m.vim_normal.till_backward,
            m.vim_normal.jump_top,
            m.vim_normal.jump_bottom,
            m.vim_normal.delete_char,
            m.vim_normal.replace_char,
            m.vim_normal.repeat_last_change,
            m.vim_normal.substitute_char,
            m.vim_normal.delete_to_line_end,
            m.vim_normal.change_to_line_end,
            m.vim_normal.yank_line,
            m.vim_normal.paste_after,
            m.vim_normal.start_delete_operator,
            m.vim_normal.start_yank_operator,
            m.vim_normal.start_change_operator,
            m.vim_normal.undo,
            m.vim_normal.redo,
            m.vim_normal.cancel_operator,
    ]);
}

/// Distinct keys: a keymap that passes the conflict checks has no key twice
/// among the Vim operator-pending actions, inside one action or across two.
#[verifier::rlimit(40)]
pub proof fn lemma_vim_operator_keys_distinct(m: KeymapView)
    requires
        keymap_checks(m) is Ok,
    ensures
        keys_disjoint(
            seq![
            m.vim_operator.delete_line,
            m.vim_operator.yank_line,
            m.vim_operator.motion_left,
            m.vim_operator.motion_right,
            m.vim_operator.motion_up,
            m.vim_operator.motion_down,
            m.vim_operator.motion_word_forward,
            m.vim_operator.motion_word_backward,
            m.vim_operator.motion_word_end,
            m.vim_operator.motion_line_start,
            m.vim_operator.motion_line_end,
            m.vim_operator.motion_find_forward,
            m.vim_operator.motion_find_backward,
            m.vim_operator.motion_till_forward,
            m.vim_operator.motion_till_backward,
            m.vim_operator.motion_jump_top,
            m.vim_operator.motion_jump_bottom,
            m.vim_operator.select_inner_text_object,
            m.vim_operator.select_around_text_object,
            m.vim_operator.cancel,
        ],
        ),
{
    let pairs = crate::keymap_conflicts::vim_operator_pairs(m);
    assert(unique_spec("vim_operator"@, pairs) is Ok);
    lemma_unique_keys_disjoint("vim_operator"@, pairs);
    assert(pairs.map_values(|x: (Seq<char>, Seq<KeyBinding>)| x.1) =~= seq![
            m.vim_operator.delete_line,
            m.vim_operator.yank_line,
            m.vim_operator.motion_left,
            m.vim_operator.motion_right,
            m.vim_operator.motion_up,
            m.vim_operator.motion_down,
            m.vim_operator.motion_word_forward,
            m.vim_operator.motion_word_backward,
            m.vim_operator.motion_word_end,
            m.vim_operator.motion_line_start,
            m.vim_operator.motion_line_end,
            m.vim_operator.motion_find_forward,
            m.vim_operator.motion_find_backward,
            m.vim_operator.motion_till_forward,
            m.vim_operator.motion_till_backward,
            m.vim_operator.motion_jump_top,
            m.vim_operator.motion_jump_bottom,
            m.vim_operator.select_inner_text_object,
            m.vim_operator.select_around_text_object,
            m.vim_operator.cancel,
    ]);
}

/// Distinct keys: a keymap that passes the conflict checks has no key twice
/// among the Vim text-object actions, inside one action or across two.
#[verifier::rlimit(40)]
pub proof fn lemma_vim_text_object_keys_distinct(m: KeymapView)
    requires
        keymap_checks(m) is Ok,
    ensures
        keys_disjoint(
            seq![
            m.vim_text_object.word,
            m.vim_text_object.big_word,
            m.vim_text_object.parentheses,
            m.vim_text_object.brackets,
            m.vim_text_object.braces,
            m.vim_text_object.double_quote,
            m.vim_text_object.single_quote,
            m.vim_text_object.backtick,
            m.vim_text_object.cancel,
        ],
        ),
{
    let pairs = vim_text_object_pairs(m);
    assert(unique_spec("vim_text_object"@, pairs) is Ok);
    lemma_unique_keys_disjoint("vim_text_object"@, pairs);
    assert(pairs.map_values(|x: (Seq<char>, Seq<KeyBinding>)| x.1) =~= seq![
            m.vim_text_object.word,
            m.vim_text_object.big_word,
            m.vim_text_object.parentheses,
            m.vim_text_object.brackets,
            m.vim_text_object.braces,
            m.vim_text_object.double_quote,
            m.vim_text_object.single_quote,
            m.vim_text_object.backtick,
            m.vim_text_object.cancel,
    ]);
}

/// Distinct keys: a keymap that passes the conflict checks has no key twice
/// among the pager actions, inside one action or across two.
#[verifier::rlimit(40)]
pub proof fn lemma_pager_keys_distinct(m: KeymapView)
    requires
        keymap_checks(m) is Ok,
    ensures
        keys_disjoint(
            seq![
            m.pager.scroll_up,
            m.pager.scroll_down,
            m.pager.page_up,
            m.pager.page_down,
            m.pager.half_page_up,
            m.pager.half_page_down,
            m.pager.jump_top,
            m.pager.jump_bottom,
            m.pager.close,
            m.pager.close_transcript,
        ],
        ),
{
    let pairs = pager_pairs(m);
    assert(unique_spec("pager"@, pairs) is Ok);
    lemma_unique_keys_disjoint("pager"@, pairs);
    assert(pairs.map_values(|x: (Seq<char>, Seq<KeyBinding>)| x.1) =~= seq![
            m.pager.scroll_up,
            m.pager.scroll_down,
            m.pager.page_up,
            m.pager.page_down,
            m.pager.half_page_up,
            m.pager.half_page_down,
            m.pager.jump_top,
            m.pager.jump_bottom,
            m.pager.close,
            m.pager.close_transcript,
    ]);
}

/// Distinct keys: a keymap that passes the conflict checks has no key twice
/// among the list actions, inside one action or across two.
#[verifier::rlimit(40)]
pub proof fn lemma_list_keys_distinct(m: KeymapView)
    requires
        keymap_checks(m) is Ok,
    ensures
        keys_disjoint(
            seq![
            m.list.move_up,
            m.list.move_down,
            m.list.move_left,
            m.list.move_right,
            m.list.page_up,
            m.list.page_down,
            m.list.jump_top,
            m.list.jump_bottom,
            m.list.accept,
            m.list.cancel,
        ],
        ),
{
    let pairs = list_pairs(m);
    assert(unique_spec("list"@, pairs) is Ok);
    lemma_unique_keys_disjoint("list"@, pairs);
    assert(pairs.map_values(|x: (Seq<char>, Seq<KeyBinding>)| x.1) =~= seq![
            m.list.move_up,
            m.list.move_down,
            m.list.move_left,
            m.list.move_right,
            m.list.page_up,
            m.list.page_down,
            m.list.jump_top,
            m.list.jump_bottom,
            m.list.accept,
            m.list.cancel,
    ]);
}

/// Distinct keys: a keymap that passes the conflict checks has no key twice
/// among the agents dashboard actions, inside one action or across two.
#[verifier::rlimit(40)]
pub proof fn lemma_agents_keys_distinct(m: KeymapView)
    requires
        keymap_checks(m) is Ok,
    ensures
        keys_disjoint(
            seq![
            m.agents.resume,
            m.agents.search,
            m.agents.new_task,
            m.agents.rename,
            m.agents.stop,
            m.agents.toggle_grouping,
        ],
        ),
{
    let pairs = agents_pairs(m);
    assert(unique_spec("agents"@, pairs) is Ok);
    lemma_unique_keys_disjoint("agents"@, pairs);
    assert(pairs.map_values(|x: (Seq<char>, Seq<KeyBinding>)| x.1) =~= seq![
            m.agents.resume,
            m.agents.search,
            m.agents.new_task,
            m.agents.rename,
            m.agents.stop,
            m.agents.toggle_grouping,
    ]);
}

/// Distinct keys: a keymap that passes the conflict checks has no key twice
/// among the approval actions, inside one action or across two.
#[verifier::rlimit(40)]
pub proof fn lemma_approval_keys_distinct(m: KeymapView)
    requires
        keymap_checks(m) is Ok,
    ensures
        keys_disjoint(
            seq![
            m.approval.open_fullscreen,
            m.approval.open_thread,
            m.approval.approve,
            m.approval.approve_for_session,
            m.approval.approve_for_prefix,
            m.approval.deny,
            m.approval.decline,
            m.approval.cancel,
        ],
        ),
{
    let pairs = approval_pairs(m);
    assert(unique_spec("approval"@, pairs) is Ok);
    lemma_unique_keys_disjoint("approval"@, pairs);
    assert(pairs.map_values(|x: (Seq<char>, Seq<KeyBinding>)| x.1) =~= seq![
            m.approval.open_fullscreen,
            m.approval.open_thread,
            m.approval.approve,
            m.approval.approve_for_session,
            m.approval.approve_for_prefix,
            m.approval.deny,
            m.approval.decline,
            m.approval.cancel,
    ]);
}

/// Configured keys win: in the main-surface context, an action whose configured
/// value parses resolves to exactly the keys it names, in their order, in place
/// of the built-in keys; an action left unset keeps its built-in keys, except
/// toggle side conversation, whose built-in keys may yield to keys configured
/// elsewhere.
pub proof fn lemma_app_configured_keys(k: TuiKeymap)
    ensures
        (k.global.open_agents is Some && parse_raws(k.global.open_agents->0.raws()) is Ok) ==> resolved_view(k).app.open_agents
            == parse_raws(k.global.open_agents->0.raws())->Ok_0,
        (k.global.open_transcript is Some && parse_raws(k.global.open_transcript->0.raws()) is Ok) ==> resolved_view(k).app.open_transcript
            == parse_raws(k.global.open_transcript->0.raws())->Ok_0,
        (k.global.open_external_editor is Some && parse_raws(k.global.open_external_editor->0.raws()) is Ok) ==> resolved_view(k).app.open_external_editor
            == parse_raws(k.global.open_external_editor->0.raws())->Ok_0,
        (k.global.copy is Some && parse_raws(k.global.copy->0.raws()) is Ok) ==> resolved_view(k).app.copy
            == parse_raws(k.global.copy->0.raws())->Ok_0,
        (k.global.clear_terminal is Some && parse_raws(k.global.clear_terminal->0.raws()) is Ok) ==> resolved_view(k).app.clear_terminal
            == parse_raws(k.global.clear_terminal->0.raws())->Ok_0,
        (k.global.toggle_vim_mode is Some && parse_raws(k.global.toggle_vim_mode->0.raws()) is Ok) ==> resolved_view(k).app.toggle_vim_mode
            == parse_raws(k.global.toggle_vim_mode->0.raws())->Ok_0,
        (k.global.toggle_fast_mode is Some && parse_raws(k.global.toggle_fast_mode->0.raws()) is Ok) ==> resolved_view(k).app.toggle_fast_mode
            == parse_raws(k.global.toggle_fast_mode->0.raws())->Ok_0,
        (k.global.toggle_raw_output is Some && parse_raws(k.global.toggle_raw_output->0.raws()) is Ok) ==> resolved_view(k).app.toggle_raw_output
            == parse_raws(k.global.toggle_raw_output->0.raws())->Ok_0,
        (k.global.toggle_side_conversation is Some && parse_raws(k.global.toggle_side_conversation->0.raws()) is Ok) ==> resolved_view(k).app.toggle_side_conversation
            == parse_raws(k.global.toggle_side_conversation->0.raws())->Ok_0,
        k.global.open_agents is None ==> resolved_view(k).app.open_agents == default_app().open_agents,
        k.global.open_transcript is None ==> resolved_view(k).app.open_transcript == default_app().open_transcript,
        k.global.open_external_editor is None ==> resolved_view(k).app.open_external_editor == default_app().open_external_editor,
        k.global.copy is None ==> resolved_view(k).app.copy == default_app().copy,
        k.global.clear_terminal is None ==> resolved_view(k).app.clear_terminal == default_app().clear_terminal,
        k.global.toggle_vim_mode is None ==> resolved_view(k).app.toggle_vim_mode == default_app().toggle_vim_mode,
        k.global.toggle_fast_mode is None ==> resolved_view(k).app.toggle_fast_mode == default_app().toggle_fast_mode,
        k.global.toggle_raw_output is None ==> resolved_view(k).app.toggle_raw_output == default_app().toggle_raw_output,
{
}

/// Configured keys win: in the chat context, an action whose configured value
/// parses resolves to exactly the keys it names, in their order, in place of the
/// built-in keys; an action left unset keeps its built-in keys, except decrease
/// reasoning effort, increase reasoning effort, prompt stack back and skip
/// question, whose built-in keys may yield to keys configured elsewhere.
pub proof fn lemma_chat_configured_keys(k: TuiKeymap)
    ensures
        (k.chat.interrupt_turn is Some && parse_raws(k.chat.interrupt_turn->0.raws()) is Ok) ==> resolved_view(k).chat.interrupt_turn
            == parse_raws(k.chat.interrupt_turn->0.raws())->Ok_0,
        (k.chat.decrease_reasoning_effort is Some && parse_raws(k.chat.decrease_reasoning_effort->0.raws()) is Ok) ==> resolved_view(k).chat.decrease_reasoning_effort
            == parse_raws(k.chat.decrease_reasoning_effort->0.raws())->Ok_0,
        (k.chat.increase_reasoning_effort is Some && parse_raws(k.chat.increase_reasoning_effort->0.raws()) is Ok) ==> resolved_view(k).chat.increase_reasoning_effort
            == parse_raws(k.chat.increase_reasoning_effort->0.raws())->Ok_0,
        (k.chat.previous_permission_mode is Some && parse_raws(k.chat.previous_permission_mode->0.raws()) is Ok) ==> resolved_view(k).chat.previous_permission_mode
            == parse_raws(k.chat.previous_permission_mode->0.raws())->Ok_0,
        (k.chat.next_permission_mode is Some && parse_raws(k.chat.next_permission_mode->0.raws()) is Ok) ==> resolved_view(k).chat.next_permission_mode
            == parse_raws(k.chat.next_permission_mode->0.raws())->Ok_0,
        (k.chat.edit_queued_message is Some && parse_raws(k.chat.edit_queued_message->0.raws()) is Ok) ==> resolved_view(k).chat.edit_queued_message
            == parse_raws(k.chat.edit_queued_message->0.raws())->Ok_0,
        (k.chat.prompt_stack_back is Some && parse_raws(k.chat.prompt_stack_back->0.raws()) is Ok) ==> resolved_view(k).chat.prompt_stack_back
            == parse_raws(k.chat.prompt_stack_back->0.raws())->Ok_0,
        (k.chat.skip_question is Some && parse_raws(k.chat.skip_question->0.raws()) is Ok) ==> resolved_view(k).chat.skip_question
            == parse_raws(k.chat.skip_question->0.raws())->Ok_0,
        k.chat.interrupt_turn is None ==> resolved_view(k).chat.interrupt_turn == default_chat().interrupt_turn,
        k.chat.previous_permission_mode is None ==> resolved_view(k).chat.previous_permission_mode == default_chat().previous_permission_mode,
        k.chat.next_permission_mode is None ==> resolved_view(k).chat.next_permission_mode == default_chat().next_permission_mode,
        k.chat.edit_queued_message is None ==> resolved_view(k).chat.edit_queued_message == default_chat().edit_queued_message,
{
}

/// Configured keys win: in the editor context, an action whose configured value
/// parses resolves to exactly the keys it names, in their order, in place of the
/// built-in keys; an action left unset keeps its built-in keys.
pub proof fn lemma_editor_configured_keys(k: TuiKeymap)
    ensures
        (k.editor.insert_newline is Some && parse_raws(k.editor.insert_newline->0.raws()) is Ok) ==> resolved_view(k).editor.insert_newline
            == parse_raws(k.editor.insert_newline->0.raws())->Ok_0,
        (k.editor.move_left is Some && parse_raws(k.editor.move_left->0.raws()) is Ok) ==> resolved_view(k).editor.move_left
            == parse_raws(k.editor.move_left->0.raws())->Ok_0,
        (k.editor.move_right is Some && parse_raws(k.editor.move_right->0.raws()) is Ok) ==> resolved_view(k).editor.move_right
            == parse_raws(k.editor.move_right->0.raws())->Ok_0,
        (k.editor.move_up is Some && parse_raws(k.editor.move_up->0.raws()) is Ok) ==> resolved_view(k).editor.move_up
            == parse_raws(k.editor.move_up->0.raws())->Ok_0,
        (k.editor.move_down is Some && parse_raws(k.editor.move_down->0.raws()) is Ok) ==> resolved_view(k).editor.move_down
            == parse_raws(k.editor.move_down->0.raws())->Ok_0,
        (k.editor.move_word_left is Some && parse_raws(k.editor.move_word_left->0.raws()) is Ok) ==> resolved_view(k).editor.move_word_left
            == parse_raws(k.editor.move_word_left->0.raws())->Ok_0,
        (k.editor.move_word_right is Some && parse_raws(k.editor.move_word_right->0.raws()) is Ok) ==> resolved_view(k).editor.move_word_right
            == parse_raws(k.editor.move_word_right->0.raws())->Ok_0,
        (k.editor.move_line_start is Some && parse_raws(k.editor.move_line_start->0.raws()) is Ok) ==> resolved_view(k).editor.move_line_start
            == parse_raws(k.editor.move_line_start->0.raws())->Ok_0,
        (k.editor.move_line_end is Some && parse_raws(k.editor.move_line_end->0.raws()) is Ok) ==> resolved_view(k).editor.move_line_end
            == parse_raws(k.editor.move_line_end->0.raws())->Ok_0,
        (k.editor.delete_backward is Some && parse_raws(k.editor.delete_backward->0.raws()) is Ok) ==> resolved_view(k).editor.delete_backward
            == parse_raws(k.editor.delete_backward->0.raws())->Ok_0,
        (k.editor.delete_forward is Some && parse_raws(k.editor.delete_forward->0.raws()) is Ok) ==> resolved_view(k).editor.delete_forward
            == parse_raws(k.editor.delete_forward->0.raws())->Ok_0,
        (k.editor.delete_backward_word is Some && parse_raws(k.editor.delete_backward_word->0.raws()) is Ok) ==> resolved_view(k).editor.delete_backward_word
            == parse_raws(k.editor.delete_backward_word->0.raws())->Ok_0,
        (k.editor.delete_forward_word is Some && parse_raws(k.editor.delete_forward_word->0.raws()) is Ok) ==> resolved_view(k).editor.delete_forward_word
            == parse_raws(k.editor.delete_forward_word->0.raws())->Ok_0,
        (k.editor.kill_line_start is Some && parse_raws(k.editor.kill_line_start->0.raws()) is Ok) ==> resolved_view(k).editor.kill_line_start
            == parse_raws(k.editor.kill_line_start->0.raws())->Ok_0,
        (k.editor.kill_whole_line is Some && parse_raws(k.editor.kill_whole_line->0.raws()) is Ok) ==> resolved_view(k).editor.kill_whole_line
            == parse_raws(k.editor.kill_whole_line->0.raws())->Ok_0,
        (k.editor.kill_line_end is Some && parse_raws(k.editor.kill_line_end->0.raws()) is Ok) ==> resolved_view(k).editor.kill_line_end
            == parse_raws(k.editor.kill_line_end->0.raws())->Ok_0,
        (k.editor.yank is Some && parse_raws(k.editor.yank->0.raws()) is Ok) ==> resolved_view(k).editor.yank
            == parse_raws(k.editor.yank->0.raws())->Ok_0,
        k.editor.insert_newline is None ==> resolved_view(k).editor.insert_newline == default_editor().insert_newline,
        k.editor.move_left is None ==> resolved_view(k).editor.move_left == default_editor().move_left,
        k.editor.move_right is None ==> resolved_view(k).editor.move_right == default_editor().move_right,
        k.editor.move_up is None ==> resolved_view(k).editor.move_up == default_editor().move_up,
        k.editor.move_down is None ==> resolved_view(k).editor.move_down == default_editor().move_down,
        k.editor.move_word_left is None ==> resolved_view(k).editor.move_word_left == default_editor().move_word_left,
        k.editor.move_word_right is None ==> resolved_view(k).editor.move_word_right == default_editor().move_word_right,
        k.editor.move_line_start is None ==> resolved_view(k).editor.move_line_start == default_editor().move_line_start,
        k.editor.move_line_end is None ==> resolved_view(k).editor.move_line_end == default_editor().move_line_end,
        k.editor.delete_backward is None ==> resolved_view(k).editor.delete_backward == default_editor().delete_backward,
        k.editor.delete_forward is None ==> resolved_view(k).editor.delete_forward == default_editor().delete_forward,
        k.editor.delete_backward_word is None ==> resolved_view(k).editor.delete_backward_word == default_editor().delete_backward_word,
        k.editor.delete_forward_word is None ==> resolved_view(k).editor.delete_forward_word == default_editor().delete_forward_word,
        k.editor.kill_line_start is None ==> resolved_view(k).editor.kill_line_start == default_editor().kill_line_start,
        k.editor.kill_whole_line is None ==> resolved_view(k).editor.kill_whole_line == default_editor().kill_whole_line,
        k.editor.kill_line_end is None ==> resolved_view(k).editor.kill_line_end == default_editor().kill_line_end,
        k.editor.yank is None ==> resolved_view(k).editor.yank == default_editor().yank,
{
}

/// Configured keys win: in the Vim normal-mode context, an action whose
/// configured value parses resolves to exactly the keys it names, in their order,
/// in place of the built-in keys; an action left unset keeps its built-in keys,
/// except start change operator, substitute char, replace char, repeat last
/// change, find forward, find backward, till forward, till backward, jump top,
/// jump bottom, undo, redo and enter replace mode, whose built-in keys may yield
/// to keys configured elsewhere.
pub proof fn lemma_vim_normal_configured_keys(k: TuiKeymap)
    ensures
        (k.vim_normal.enter_insert is Some && parse_raws(k.vim_normal.enter_insert->0.raws()) is Ok) ==> resolved_view(k).vim_normal.enter_insert
            == parse_raws(k.vim_normal.enter_insert->0.raws())->Ok_0,
        (k.vim_normal.append_after_cursor is Some && parse_raws(k.vim_normal.append_after_cursor->0.raws()) is Ok) ==> resolved_view(k).vim_normal.append_after_cursor
            == parse_raws(k.vim_normal.append_after_cursor->0.raws())->Ok_0,
        (k.vim_normal.append_line_end is Some && parse_raws(k.vim_normal.append_line_end->0.raws()) is Ok) ==> resolved_view(k).vim_normal.append_line_end
            == parse_raws(k.vim_normal.append_line_end->0.raws())->Ok_0,
        (k.vim_normal.insert_line_start is Some && parse_raws(k.vim_normal.insert_line_start->0.raws()) is Ok) ==> resolved_view(k).vim_normal.insert_line_start
            == parse_raws(k.vim_normal.insert_line_start->0.raws())->Ok_0,
        (k.vim_normal.open_line_below is Some && parse_raws(k.vim_normal.open_line_below->0.raws()) is Ok) ==> resolved_view(k).vim_normal.open_line_below
            == parse_raws(k.vim_normal.open_line_below->0.raws())->Ok_0,
        (k.vim_normal.open_line_above is Some && parse_raws(k.vim_normal.open_line_above->0.raws()) is Ok) ==> resolved_view(k).vim_normal.open_line_above
            == parse_raws(k.vim_normal.open_line_above->0.raws())->Ok_0,
        (k.vim_normal.enter_replace_mode is Some && parse_raws(k.vim_normal.enter_replace_mode->0.raws()) is Ok) ==> resolved_view(k).vim_normal.enter_replace_mode
            == parse_raws(k.vim_normal.enter_replace_mode->0.raws())->Ok_0,
        (k.vim_normal.move_left is Some && parse_raws(k.vim_normal.move_left->0.raws()) is Ok) ==> resolved_view(k).vim_normal.move_left
            == parse_raws(k.vim_normal.move_left->0.raws())->Ok_0,
        (k.vim_normal.move_right is Some && parse_raws(k.vim_normal.move_right->0.raws()) is Ok) ==> resolved_view(k).vim_normal.move_right
            == parse_raws(k.vim_normal.move_right->0.raws())->Ok_0,
        (k.vim_normal.move_up is Some && parse_raws(k.vim_normal.move_up->0.raws()) is Ok) ==> resolved_view(k).vim_normal.move_up
            == parse_raws(k.vim_normal.move_up->0.raws())->Ok_0,
        (k.vim_normal.move_down is Some && parse_raws(k.vim_normal.move_down->0.raws()) is Ok) ==> resolved_view(k).vim_normal.move_down
            == parse_raws(k.vim_normal.move_down->0.raws())->Ok_0,
        (k.vim_normal.move_word_forward is Some && parse_raws(k.vim_normal.move_word_forward->0.raws()) is Ok) ==> resolved_view(k).vim_normal.move_word_forward
            == parse_raws(k.vim_normal.move_word_forward->0.raws())->Ok_0,
        (k.vim_normal.move_word_backward is Some && parse_raws(k.vim_normal.move_word_backward->0.raws()) is Ok) ==> resolved_view(k).vim_normal.move_word_backward
            == parse_raws(k.vim_normal.move_word_backward->0.raws())->Ok_0,
        (k.vim_normal.move_word_end is Some && parse_raws(k.vim_normal.move_word_end->0.raws()) is Ok) ==> resolved_view(k).vim_normal.move_word_end
            == parse_raws(k.vim_normal.move_word_end->0.raws())->Ok_0,
        (k.vim_normal.move_line_start is Some && parse_raws(k.vim_normal.move_line_start->0.raws()) is Ok) ==> resolved_view(k).vim_normal.move_line_start
            == parse_raws(k.vim_normal.move_line_start->0.raws())->Ok_0,
        (k.vim_normal.move_line_end is Some && parse_raws(k.vim_normal.move_line_end->0.raws()) is Ok) ==> resolved_view(k).vim_normal.move_line_end
            == parse_raws(k.vim_normal.move_line_end->0.raws())->Ok_0,
        (k.vim_normal.find_forward is Some && parse_raws(k.vim_normal.find_forward->0.raws()) is Ok) ==> resolved_view(k).vim_normal.find_forward
            == parse_raws(k.vim_normal.find_forward->0.raws())->Ok_0,
        (k.vim_normal.find_backward is Some && parse_raws(k.vim_normal.find_backward->0.raws()) is Ok) ==> resolved_view(k).vim_normal.find_backward
            == parse_raws(k.vim_normal.find_backward->0.raws())->Ok_0,
        (k.vim_normal.till_forward is Some && parse_raws(k.vim_normal.till_forward->0.raws()) is Ok) ==> resolved_view(k).vim_normal.till_forward
            == parse_raws(k.vim_normal.till_forward->0.raws())->Ok_0,
        (k.vim_normal.till_backward is Some && parse_raws(k.vim_normal.till_backward->0.raws()) is Ok) ==> resolved_view(k).vim_normal.till_backward
            == parse_raws(k.vim_normal.till_backward->0.raws())->Ok_0,
        (k.vim_normal.jump_top is Some && parse_raws(k.vim_normal.jump_top->0.raws()) is Ok) ==> resolved_view(k).vim_normal.jump_top
            == parse_raws(k.vim_normal.jump_top->0.raws())->Ok_0,
        (k.vim_normal.jump_bottom is Some && parse_raws(k.vim_normal.jump_bottom->0.raws()) is Ok) ==> resolved_view(k).vim_normal.jump_bottom
            == parse_raws(k.vim_normal.jump_bottom->0.raws())->Ok_0,
        (k.vim_normal.delete_char is Some && parse_raws(k.vim_normal.delete_char->0.raws()) is Ok) ==> resolved_view(k).vim_normal.delete_char
            == parse_raws(k.vim_normal.delete_char->0.raws())->Ok_0,
        (k.vim_normal.replace_char is Some && parse_raws(k.vim_normal.replace_char->0.raws()) is Ok) ==> resolved_view(k).vim_normal.replace_char
            == parse_raws(k.vim_normal.replace_char->0.raws())->Ok_0,
        (k.vim_normal.repeat_last_change is Some && parse_raws(k.vim_normal.repeat_last_change->0.raws()) is Ok) ==> resolved_view(k).vim_normal.repeat_last_change
            == parse_raws(k.vim_normal.repeat_last_change->0.raws())->Ok_0,
        (k.vim_normal.substitute_char is Some && parse_raws(k.vim_normal.substitute_char->0.raws()) is Ok) ==> resolved_view(k).vim_normal.substitute_char
            == parse_raws(k.vim_normal.substitute_char->0.raws())->Ok_0,
        (k.vim_normal.delete_to_line_end is Some && parse_raws(k.vim_normal.delete_to_line_end->0.raws()) is Ok) ==> resolved_view(k).vim_normal.delete_to_line_end
            == parse_raws(k.vim_normal.delete_to_line_end->0.raws())->Ok_0,
        (k.vim_normal.change_to_line_end is Some && parse_raws(k.vim_normal.change_to_line_end->0.raws()) is Ok) ==> resolved_view(k).vim_normal.change_to_line_end
            == parse_raws(k.vim_normal.change_to_line_end->0.raws())->Ok_0,
        (k.vim_normal.yank_line is Some && parse_raws(k.vim_normal.yank_line->0.raws()) is Ok) ==> resolved_view(k).vim_normal.yank_line
            == parse_raws(k.vim_normal.yank_line->0.raws())->Ok_0,
        (k.vim_normal.paste_after is Some && parse_raws(k.vim_normal.paste_after->0.raws()) is Ok) ==> resolved_view(k).vim_normal.paste_after
            == parse_raws(k.vim_normal.paste_after->0.raws())->Ok_0,
        (k.vim_normal.start_delete_operator is Some && parse_raws(k.vim_normal.start_delete_operator->0.raws()) is Ok) ==> resolved_view(k).vim_normal.start_delete_operator
            == parse_raws(k.vim_normal.start_delete_operator->0.raws())->Ok_0,
        (k.vim_normal.start_yank_operator is Some && parse_raws(k.vim_normal.start_yank_operator->0.raws()) is Ok) ==> resolved_view(k).vim_normal.start_yank_operator
            == parse_raws(k.vim_normal.start_yank_operator->0.raws())->Ok_0,
        (k.vim_normal.start_change_operator is Some && parse_raws(k.vim_normal.start_change_operator->0.raws()) is Ok) ==> resolved_view(k).vim_normal.start_change_operator
            == parse_raws(k.vim_normal.start_change_operator->0.raws())->Ok_0,
        (k.vim_normal.undo is Some && parse_raws(k.vim_normal.undo->0.raws()) is Ok) ==> resolved_view(k).vim_normal.undo
            == parse_raws(k.vim_normal.undo->0.raws())->Ok_0,
        (k.vim_normal.redo is Some && parse_raws(k.vim_normal.redo->0.raws()) is Ok) ==> resolved_view(k).vim_normal.redo
            == parse_raws(k.vim_normal.redo->0.raws())->Ok_0,
        (k.vim_normal.cancel_operator is Some && parse_raws(k.vim_normal.cancel_operator->0.raws()) is Ok) ==> resolved_view(k).vim_normal.cancel_operator
            == parse_raws(k.vim_normal.cancel_operator->0.raws())->Ok_0,
        k.vim_normal.enter_insert is None ==> resolved_view(k).vim_normal.enter_insert == default_vim_normal().enter_insert,
        k.vim_normal.append_after_cursor is None ==> resolved_view(k).vim_normal.append_after_cursor == default_vim_normal().append_after_cursor,
        k.vim_normal.append_line_end is None ==> resolved_view(k).vim_normal.append_line_end == default_vim_normal().append_line_end,
        k.vim_normal.insert_line_start is None ==> resolved_view(k).vim_normal.insert_line_start == default_vim_normal().insert_line_start,
        k.vim_normal.open_line_below is None ==> resolved_view(k).vim_normal.open_line_below == default_vim_normal().open_line_below,
        k.vim_normal.open_line_above is None ==> resolved_view(k).vim_normal.open_line_above == default_vim_normal().open_line_above,
        k.vim_normal.move_left is None ==> resolved_view(k).vim_normal.move_left == default_vim_normal().move_left,
        k.vim_normal.move_right is None ==> resolved_view(k).vim_normal.move_right == default_vim_normal().move_right,
        k.vim_normal.move_up is None ==> resolved_view(k).vim_normal.move_up == default_vim_normal().move_up,
        k.vim_normal.move_down is None ==> resolved_view(k).vim_normal.move_down == default_vim_normal().move_down,
        k.vim_normal.move_word_forward is None ==> resolved_view(k).vim_normal.move_word_forward == default_vim_normal().move_word_forward,
        k.vim_normal.move_word_backward is None ==> resolved_view(k).vim_normal.move_word_backward == default_vim_normal().move_word_backward,
        k.vim_normal.move_word_end is None ==> resolved_view(k).vim_normal.move_word_end == default_vim_normal().move_word_end,
        k.vim_normal.move_line_start is None ==> resolved_view(k).vim_normal.move_line_start == default_vim_normal().move_line_start,
        k.vim_normal.move_line_end is None ==> resolved_view(k).vim_normal.move_line_end == default_vim_normal().move_line_end,
        k.vim_normal.delete_char is None ==> resolved_view(k).vim_normal.delete_char == default_vim_normal().delete_char,
        k.vim_normal.delete_to_line_end is None ==> resolved_view(k).vim_normal.delete_to_line_end == default_vim_normal().delete_to_line_end,
        k.vim_normal.change_to_line_end is None ==> resolved_view(k).vim_normal.change_to_line_end == default_vim_normal().change_to_line_end,
        k.vim_normal.yank_line is None ==> resolved_view(k).vim_normal.yank_line == default_vim_normal().yank_line,
        k.vim_normal.paste_after is None ==> resolved_view(k).vim_normal.paste_after == default_vim_normal().paste_after,
        k.vim_normal.start_delete_operator is None ==> resolved_view(k).vim_normal.start_delete_operator == default_vim_normal().start_delete_operator,
        k.vim_normal.start_yank_operator is None ==> resolved_view(k).vim_normal.start_yank_operator == default_vim_normal().start_yank_operator,
        k.vim_normal.cancel_operator is None ==> resolved_view(k).vim_normal.cancel_operator == default_vim_normal().cancel_operator,
{
}

/// Configured keys win: in the Vim operator-pending context, an action whose
/// configured value parses resolves to exactly the keys it names, in their order,
/// in place of the built-in keys; an action left unset keeps its built-in keys,
/// except select inner text object, select around text object, motion find
/// forward, motion find backward, motion till forward, motion till backward,
/// motion jump top and motion jump bottom, whose built-in keys may yield to keys
/// configured elsewhere.
pub proof fn lemma_vim_operator_configured_keys(k: TuiKeymap)
    ensures
        (k.vim_operator.delete_line is Some && parse_raws(k.vim_operator.delete_line->0.raws()) is Ok) ==> resolved_view(k).vim_operator.delete_line
            == parse_raws(k.vim_operator.delete_line->0.raws())->Ok_0,
        (k.vim_operator.yank_line is Some && parse_raws(k.vim_operator.yank_line->0.raws()) is Ok) ==> resolved_view(k).vim_operator.yank_line
            == parse_raws(k.vim_operator.yank_line->0.raws())->Ok_0,
        (k.vim_operator.motion_left is Some && parse_raws(k.vim_operator.motion_left->0.raws()) is Ok) ==> resolved_view(k).vim_operator.motion_left
            == parse_raws(k.vim_operator.motion_left->0.raws())->Ok_0,
        (k.vim_operator.motion_right is Some && parse_raws(k.vim_operator.motion_right->0.raws()) is Ok) ==> resolved_view(k).vim_operator.motion_right
            == parse_raws(k.vim_operator.motion_right->0.raws())->Ok_0,
        (k.vim_operator.motion_up is Some && parse_raws(k.vim_operator.motion_up->0.raws()) is Ok) ==> resolved_view(k).vim_operator.motion_up
            == parse_raws(k.vim_operator.motion_up->0.raws())->Ok_0,
        (k.vim_operator.motion_down is Some && parse_raws(k.vim_operator.motion_down->0.raws()) is Ok) ==> resolved_view(k).vim_operator.motion_down
            == parse_raws(k.vim_operator.motion_down->0.raws())->Ok_0,
        (k.vim_operator.motion_word_forward is Some && parse_raws(k.vim_operator.motion_word_forward->0.raws()) is Ok) ==> resolved_view(k).vim_operator.motion_word_forward
            == parse_raws(k.vim_operator.motion_word_forward->0.raws())->Ok_0,
        (k.vim_operator.motion_word_backward is Some && parse_raws(k.vim_operator.motion_word_backward->0.raws()) is Ok) ==> resolved_view(k).vim_operator.motion_word_backward
            == parse_raws(k.vim_operator.motion_word_backward->0.raws())->Ok_0,
        (k.vim_operator.motion_word_end is Some && parse_raws(k.vim_operator.motion_word_end->0.raws()) is Ok) ==> resolved_view(k).vim_operator.motion_word_end
            == parse_raws(k.vim_operator.motion_word_end->0.raws())->Ok_0,
        (k.vim_operator.motion_line_start is Some && parse_raws(k.vim_operator.motion_line_start->0.raws()) is Ok) ==> resolved_view(k).vim_operator.motion_line_start
            == parse_raws(k.vim_operator.motion_line_start->0.raws())->Ok_0,
        (k.vim_operator.motion_line_end is Some && parse_raws(k.vim_operator.motion_line_end->0.raws()) is Ok) ==> resolved_view(k).vim_operator.motion_line_end
            == parse_raws(k.vim_operator.motion_line_end->0.raws())->Ok_0,
        (k.vim_operator.motion_find_forward is Some && parse_raws(k.vim_operator.motion_find_forward->0.raws()) is Ok) ==> resolved_view(k).vim_operator.motion_find_forward
            == parse_raws(k.vim_operator.motion_find_forward->0.raws())->Ok_0,
        (k.vim_operator.motion_find_backward is Some && parse_raws(k.vim_operator.motion_find_backward->0.raws()) is Ok) ==> resolved_view(k).vim_operator.motion_find_backward
            == parse_raws(k.vim_operator.motion_find_backward->0.raws())->Ok_0,
        (k.vim_operator.motion_till_forward is Some && parse_raws(k.vim_operator.motion_till_forward->0.raws()) is Ok) ==> resolved_view(k).vim_operator.motion_till_forward
            == parse_raws(k.vim_operator.motion_till_forward->0.raws())->Ok_0,
        (k.vim_operator.motion_till_backward is Some && parse_raws(k.vim_operator.motion_till_backward->0.raws()) is Ok) ==> resolved_view(k).vim_operator.motion_till_backward
            == parse_raws(k.vim_operator.motion_till_backward->0.raws())->Ok_0,
        (k.vim_operator.motion_jump_top is Some && parse_raws(k.vim_operator.motion_jump_top->0.raws()) is Ok) ==> resolved_view(k).vim_operator.motion_jump_top
            == parse_raws(k.vim_operator.motion_jump_top->0.raws())->Ok_0,
        (k.vim_operator.motion_jump_bottom is Some && parse_raws(k.vim_operator.motion_jump_bottom->0.raws()) is Ok) ==> resolved_view(k).vim_operator.motion_jump_bottom
            == parse_raws(k.vim_operator.motion_jump_bottom->0.raws())->Ok_0,
        (k.vim_operator.select_inner_text_object is Some && parse_raws(k.vim_operator.select_inner_text_object->0.raws()) is Ok) ==> resolved_view(k).vim_operator.select_inner_text_object
            == parse_raws(k.vim_operator.select_inner_text_object->0.raws())->Ok_0,
        (k.vim_operator.select_around_text_object is Some && parse_raws(k.vim_operator.select_around_text_object->0.raws()) is Ok) ==> resolved_view(k).vim_operator.select_around_text_object
            == parse_raws(k.vim_operator.select_around_text_object->0.raws())->Ok_0,
        (k.vim_operator.cancel is Some && parse_raws(k.vim_operator.cancel->0.raws()) is Ok) ==> resolved_view(k).vim_operator.cancel
            == parse_raws(k.vim_operator.cancel->0.raws())->Ok_0,
        k.vim_operator.delete_line is None ==> resolved_view(k).vim_operator.delete_line == default_vim_operator().delete_line,
        k.vim_operator.yank_line is None ==> resolved_view(k).vim_operator.yank_line == default_vim_operator().yank_line,
        k.vim_operator.motion_left is None ==> resolved_view(k).vim_operator.motion_left == default_vim_operator().motion_left,
        k.vim_operator.motion_right is None ==> resolved_view(k).vim_operator.motion_right == default_vim_operator().motion_right,
        k.vim_operator.motion_up is None ==> resolved_view(k).vim_operator.motion_up == default_vim_operator().motion_up,
        k.vim_operator.motion_down is None ==> resolved_view(k).vim_operator.motion_down == default_vim_operator().motion_down,
        k.vim_operator.motion_word_forward is None ==> resolved_view(k).vim_operator.motion_word_forward == default_vim_operator().motion_word_forward,
        k.vim_operator.motion_word_backward is None ==> resolved_view(k).vim_operator.motion_word_backward == default_vim_operator().motion_word_backward,
        k.vim_operator.motion_word_end is None ==> resolved_view(k).vim_operator.motion_word_end == default_vim_operator().motion_word_end,
        k.vim_operator.motion_line_start is None ==> resolved_view(k).vim_operator.motion_line_start == default_vim_operator().motion_line_start,
        k.vim_operator.motion_line_end is None ==> resolved_view(k).vim_operator.motion_line_end == default_vim_operator().motion_line_end,
        k.vim_operator.cancel is None ==> resolved_view(k).vim_operator.cancel == default_vim_operator().cancel,
{
}

/// Configured keys win: in the Vim text-object context, an action whose
/// configured value parses resolves to exactly the keys it names, in their order,
/// in place of the built-in keys; an action left unset keeps its built-in keys.
pub proof fn lemma_vim_text_object_configured_keys(k: TuiKeymap)
    ensures
        (k.vim_text_object.word is Some && parse_raws(k.vim_text_object.word->0.raws()) is Ok) ==> resolved_view(k).vim_text_object.word
            == parse_raws(k.vim_text_object.word->0.raws())->Ok_0,
        (k.vim_text_object.big_word is Some && parse_raws(k.vim_text_object.big_word->0.raws()) is Ok) ==> resolved_view(k).vim_text_object.big_word
            == parse_raws(k.vim_text_object.big_word->0.raws())->Ok_0,
        (k.vim_text_object.parentheses is Some && parse_raws(k.vim_text_object.parentheses->0.raws()) is Ok) ==> resolved_view(k).vim_text_object.parentheses
            == parse_raws(k.vim_text_object.parentheses->0.raws())->Ok_0,
        (k.vim_text_object.brackets is Some && parse_raws(k.vim_text_object.brackets->0.raws()) is Ok) ==> resolved_view(k).vim_text_object.brackets
            == parse_raws(k.vim_text_object.brackets->0.raws())->Ok_0,
        (k.vim_text_object.braces is Some && parse_raws(k.vim_text_object.braces->0.raws()) is Ok) ==> resolved_view(k).vim_text_object.braces
            == parse_raws(k.vim_text_object.braces->0.raws())->Ok_0,
        (k.vim_text_object.double_quote is Some && parse_raws(k.vim_text_object.double_quote->0.raws()) is Ok) ==> resolved_view(k).vim_text_object.double_quote
            == parse_raws(k.vim_text_object.double_quote->0.raws())->Ok_0,
        (k.vim_text_object.single_quote is Some && parse_raws(k.vim_text_object.single_quote->0.raws()) is Ok) ==> resolved_view(k).vim_text_object.single_quote
            == parse_raws(k.vim_text_object.single_quote->0.raws())->Ok_0,
        (k.vim_text_object.backtick is Some && parse_raws(k.vim_text_object.backtick->0.raws()) is Ok) ==> resolved_view(k).vim_text_object.backtick
            == parse_raws(k.vim_text_object.backtick->0.raws())->Ok_0,
        (k.vim_text_object.cancel is Some && parse_raws(k.vim_text_object.cancel->0.raws()) is Ok) ==> resolved_view(k).vim_text_object.cancel
            == parse_raws(k.vim_text_object.cancel->0.raws())->Ok_0,
        k.vim_text_object.word is None ==> resolved_view(k).vim_text_object.word == default_vim_text_object().word,
        k.vim_text_object.big_word is None ==> resolved_view(k).vim_text_object.big_word == default_vim_text_object().big_word,
        k.vim_text_object.parentheses is None ==> resolved_view(k).vim_text_object.parentheses == default_vim_text_object().parentheses,
        k.vim_text_object.brackets is None ==> resolved_view(k).vim_text_object.brackets == default_vim_text_object().brackets,
        k.vim_text_object.braces is None ==> resolved_view(k).vim_text_object.braces == default_vim_text_object().braces,
        k.vim_text_object.double_quote is None ==> resolved_view(k).vim_text_object.double_quote == default_vim_text_object().double_quote,
        k.vim_text_object.single_quote is None ==> resolved_view(k).vim_text_object.single_quote == default_vim_text_object().single_quote,
        k.vim_text_object.backtick is None ==> resolved_view(k).vim_text_object.backtick == default_vim_text_object().backtick,
        k.vim_text_object.cancel is None ==> resolved_view(k).vim_text_object.cancel == default_vim_text_object().cancel,
{
}

/// Configured keys win: in the Vim search context, an action whose configured
/// value parses resolves to exactly the keys it names, in their order, in place
/// of the built-in keys (the built-in keys of an unset search action may yield
/// to keys configured elsewhere).
pub proof fn lemma_vim_search_configured_keys(k: TuiKeymap)
    ensures
        (k.vim_search.forward is Some && parse_raws(k.vim_search.forward->0.raws()) is Ok) ==> resolved_view(k).vim_search.forward
            == parse_raws(k.vim_search.forward->0.raws())->Ok_0,
        (k.vim_search.backward is Some && parse_raws(k.vim_search.backward->0.raws()) is Ok) ==> resolved_view(k).vim_search.backward
            == parse_raws(k.vim_search.backward->0.raws())->Ok_0,
        (k.vim_search.next is Some && parse_raws(k.vim_search.next->0.raws()) is Ok) ==> resolved_view(k).vim_search.next
            == parse_raws(k.vim_search.next->0.raws())->Ok_0,
        (k.vim_search.previous is Some && parse_raws(k.vim_search.previous->0.raws()) is Ok) ==> resolved_view(k).vim_search.previous
            == parse_raws(k.vim_search.previous->0.raws())->Ok_0,
{
}

/// Configured keys win: in the pager context, an action whose configured value
/// parses resolves to exactly the keys it names, in their order, in place of the
/// built-in keys; an action left unset keeps its built-in keys.
pub proof fn lemma_pager_configured_keys(k: TuiKeymap)
    ensures
        (k.pager.scroll_up is Some && parse_raws(k.pager.scroll_up->0.raws()) is Ok) ==> resolved_view(k).pager.scroll_up
            == parse_raws(k.pager.scroll_up->0.raws())->Ok_0,
        (k.pager.scroll_down is Some && parse_raws(k.pager.scroll_down->0.raws()) is Ok) ==> resolved_view(k).pager.scroll_down
            == parse_raws(k.pager.scroll_down->0.raws())->Ok_0,
        (k.pager.page_up is Some && parse_raws(k.pager.page_up->0.raws()) is Ok) ==> resolved_view(k).pager.page_up
            == parse_raws(k.pager.page_up->0.raws())->Ok_0,
        (k.pager.page_down is Some && parse_raws(k.pager.page_down->0.raws()) is Ok) ==> resolved_view(k).pager.page_down
            == parse_raws(k.pager.page_down->0.raws())->Ok_0,
        (k.pager.half_page_up is Some && parse_raws(k.pager.half_page_up->0.raws()) is Ok) ==> resolved_view(k).pager.half_page_up
            == parse_raws(k.pager.half_page_up->0.raws())->Ok_0,
        (k.pager.half_page_down is Some && parse_raws(k.pager.half_page_down->0.raws()) is Ok) ==> resolved_view(k).pager.half_page_down
            == parse_raws(k.pager.half_page_down->0.raws())->Ok_0,
        (k.pager.jump_top is Some && parse_raws(k.pager.jump_top->0.raws()) is Ok) ==> resolved_view(k).pager.jump_top
            == parse_raws(k.pager.jump_top->0.raws())->Ok_0,
        (k.pager.jump_bottom is Some && parse_raws(k.pager.jump_bottom->0.raws()) is Ok) ==> resolved_view(k).pager.jump_bottom
            == parse_raws(k.pager.jump_bottom->0.raws())->Ok_0,
        (k.pager.close is Some && parse_raws(k.pager.close->0.raws()) is Ok) ==> resolved_view(k).pager.close
            == parse_raws(k.pager.close->0.raws())->Ok_0,
        (k.pager.close_transcript is Some && parse_raws(k.pager.close_transcript->0.raws()) is Ok) ==> resolved_view(k).pager.close_transcript
            == parse_raws(k.pager.close_transcript->0.raws())->Ok_0,
        k.pager.scroll_up is None ==> resolved_view(k).pager.scroll_up == default_pager().scroll_up,
        k.pager.scroll_down is None ==> resolved_view(k).pager.scroll_down == default_pager().scroll_down,
        k.pager.page_up is None ==> resolved_view(k).pager.page_up == default_pager().page_up,
        k.pager.page_down is None ==> resolved_view(k).pager.page_down == default_pager().page_down,
        k.pager.half_page_up is None ==> resolved_view(k).pager.half_page_up == default_pager().half_page_up,
        k.pager.half_page_down is None ==> resolved_view(k).pager.half_page_down == default_pager().half_page_down,
        k.pager.jump_top is None ==> resolved_view(k).pager.jump_top == default_pager().jump_top,
        k.pager.jump_bottom is None ==> resolved_view(k).pager.jump_bottom == default_pager().jump_bottom,
        k.pager.close is None ==> resolved_view(k).pager.close == default_pager().close,
        k.pager.close_transcript is None ==> resolved_view(k).pager.close_transcript == default_pager().close_transcript,
{
}

/// Configured keys win: in the list context, an action whose configured value
/// parses resolves to exactly the keys it names, in their order, in place of the
/// built-in keys; an action left unset keeps its built-in keys, except move left,
/// move right, page up, page down, jump top and jump bottom, whose built-in keys
/// may yield to keys configured elsewhere.
pub proof fn lemma_list_configured_keys(k: TuiKeymap)
    ensures
        (k.list.move_up is Some && parse_raws(k.list.move_up->0.raws()) is Ok) ==> resolved_view(k).list.move_up
            == parse_raws(k.list.move_up->0.raws())->Ok_0,
        (k.list.move_down is Some && parse_raws(k.list.move_down->0.raws()) is Ok) ==> resolved_view(k).list.move_down
            == parse_raws(k.list.move_down->0.raws())->Ok_0,
        (k.list.move_left is Some && parse_raws(k.list.move_left->0.raws()) is Ok) ==> resolved_view(k).list.move_left
            == parse_raws(k.list.move_left->0.raws())->Ok_0,
        (k.list.move_right is Some && parse_raws(k.list.move_right->0.raws()) is Ok) ==> resolved_view(k).list.move_right
            == parse_raws(k.list.move_right->0.raws())->Ok_0,
        (k.list.page_up is Some && parse_raws(k.list.page_up->0.raws()) is Ok) ==> resolved_view(k).list.page_up
            == parse_raws(k.list.page_up->0.raws())->Ok_0,
        (k.list.page_down is Some && parse_raws(k.list.page_down->0.raws()) is Ok) ==> resolved_view(k).list.page_down
            == parse_raws(k.list.page_down->0.raws())->Ok_0,
        (k.list.jump_top is Some && parse_raws(k.list.jump_top->0.raws()) is Ok) ==> resolved_view(k).list.jump_top
            == parse_raws(k.list.jump_top->0.raws())->Ok_0,
        (k.list.jump_bottom is Some && parse_raws(k.list.jump_bottom->0.raws()) is Ok) ==> resolved_view(k).list.jump_bottom
            == parse_raws(k.list.jump_bottom->0.raws())->Ok_0,
        (k.list.accept is Some && parse_raws(k.list.accept->0.raws()) is Ok) ==> resolved_view(k).list.accept
            == parse_raws(k.list.accept->0.raws())->Ok_0,
        (k.list.cancel is Some && parse_raws(k.list.cancel->0.raws()) is Ok) ==> resolved_view(k).list.cancel
            == parse_raws(k.list.cancel->0.raws())->Ok_0,
        k.list.move_up is None ==> resolved_view(k).list.move_up == default_list().move_up,
        k.list.move_down is None ==> resolved_view(k).list.move_down == default_list().move_down,
        k.list.accept is None ==> resolved_view(k).list.accept == default_list().accept,
        k.list.cancel is None ==> resolved_view(k).list.cancel == default_list().cancel,
{
}

/// Configured keys win: in the agents context, an action whose configured value
/// parses resolves to exactly the keys it names, in their order, in place of the
/// built-in keys; an action left unset keeps its built-in keys, except resume,
/// whose built-in keys may yield to keys configured elsewhere.
pub proof fn lemma_agents_configured_keys(k: TuiKeymap)
    ensures
        (k.agents.resume is Some && parse_raws(k.agents.resume->0.raws()) is Ok) ==> resolved_view(k).agents.resume
            == parse_raws(k.agents.resume->0.raws())->Ok_0,
        (k.agents.search is Some && parse_raws(k.agents.search->0.raws()) is Ok) ==> resolved_view(k).agents.search
            == parse_raws(k.agents.search->0.raws())->Ok_0,
        (k.agents.new_task is Some && parse_raws(k.agents.new_task->0.raws()) is Ok) ==> resolved_view(k).agents.new_task
            == parse_raws(k.agents.new_task->0.raws())->Ok_0,
        (k.agents.rename is Some && parse_raws(k.agents.rename->0.raws()) is Ok) ==> resolved_view(k).agents.rename
            == parse_raws(k.agents.rename->0.raws())->Ok_0,
        (k.agents.stop is Some && parse_raws(k.agents.stop->0.raws()) is Ok) ==> resolved_view(k).agents.stop
            == parse_raws(k.agents.stop->0.raws())->Ok_0,
        (k.agents.toggle_grouping is Some && parse_raws(k.agents.toggle_grouping->0.raws()) is Ok) ==> resolved_view(k).agents.toggle_grouping
            == parse_raws(k.agents.toggle_grouping->0.raws())->Ok_0,
        k.agents.search is None ==> resolved_view(k).agents.search == default_agents().search,
        k.agents.new_task is None ==> resolved_view(k).agents.new_task == default_agents().new_task,
        k.agents.rename is None ==> resolved_view(k).agents.rename == default_agents().rename,
        k.agents.stop is None ==> resolved_view(k).agents.stop == default_agents().stop,
        k.agents.toggle_grouping is None ==> resolved_view(k).agents.toggle_grouping == default_agents().toggle_grouping,
{
}

/// Configured keys win: in the approval context, an action whose configured value
/// parses resolves to exactly the keys it names, in their order, in place of the
/// built-in keys; an action left unset keeps its built-in keys.
pub proof fn lemma_approval_configured_keys(k: TuiKeymap)
    ensures
        (k.approval.open_fullscreen is Some && parse_raws(k.approval.open_fullscreen->0.raws()) is Ok) ==> resolved_view(k).approval.open_fullscreen
            == parse_raws(k.approval.open_fullscreen->0.raws())->Ok_0,
        (k.approval.open_thread is Some && parse_raws(k.approval.open_thread->0.raws()) is Ok) ==> resolved_view(k).approval.open_thread
            == parse_raws(k.approval.open_thread->0.raws())->Ok_0,
        (k.approval.approve is Some && parse_raws(k.approval.approve->0.raws()) is Ok) ==> resolved_view(k).approval.approve
            == parse_raws(k.approval.approve->0.raws())->Ok_0,
        (k.approval.approve_for_session is Some && parse_raws(k.approval.approve_for_session->0.raws()) is Ok) ==> resolved_view(k).approval.approve_for_session
            == parse_raws(k.approval.approve_for_session->0.raws())->Ok_0,
        (k.approval.approve_for_prefix is Some && parse_raws(k.approval.approve_for_prefix->0.raws()) is Ok) ==> resolved_view(k).approval.approve_for_prefix
            == parse_raws(k.approval.approve_for_prefix->0.raws())->Ok_0,
        (k.approval.deny is Some && parse_raws(k.approval.deny->0.raws()) is Ok) ==> resolved_view(k).approval.deny
            == parse_raws(k.approval.deny->0.raws())->Ok_0,
        (k.approval.decline is Some && parse_raws(k.approval.decline->0.raws()) is Ok) ==> resolved_view(k).approval.decline
            == parse_raws(k.approval.decline->0.raws())->Ok_0,
        (k.approval.cancel is Some && parse_raws(k.approval.cancel->0.raws()) is Ok) ==> resolved_view(k).approval.cancel
            == parse_raws(k.approval.cancel->0.raws())->Ok_0,
        k.approval.open_fullscreen is None ==> resolved_view(k).approval.open_fullscreen == default_approval().open_fullscreen,
        k.approval.open_thread is None ==> resolved_view(k).approval.open_thread == default_approval().open_thread,
        k.approval.approve is None ==> resolved_view(k).approval.approve == default_approval().approve,
        k.approval.approve_for_session is None ==> resolved_view(k).approval.approve_for_session == default_approval().approve_for_session,
        k.approval.approve_for_prefix is None ==> resolved_view(k).approval.approve_for_prefix == default_approval().approve_for_prefix,
        k.approval.deny is None ==> resolved_view(k).approval.deny == default_approval().deny,
        k.approval.decline is None ==> resolved_view(k).approval.decline == default_approval().decline,
        k.approval.cancel is None ==> resolved_view(k).approval.cancel == default_approval().cancel,
{
}


/// Configured keys win in the composer context: an action whose composer value
/// parses resolves to exactly the keys it names; submit, queue and the shortcut
/// overlay, left unset in the composer, take their `global` value when that
/// parses, and keep their built-in keys when both are unset; the history search
/// actions left unset keep their built-in keys.
pub proof fn lemma_composer_configured_keys(k: TuiKeymap)
    ensures
        (k.composer.submit is Some && parse_raws(k.composer.submit->0.raws()) is Ok) ==> resolved_view(k).composer.submit
            == parse_raws(k.composer.submit->0.raws())->Ok_0,
        (k.composer.queue is Some && parse_raws(k.composer.queue->0.raws()) is Ok) ==> resolved_view(k).composer.queue
            == parse_raws(k.composer.queue->0.raws())->Ok_0,
        (k.composer.toggle_shortcuts is Some && parse_raws(k.composer.toggle_shortcuts->0.raws()) is Ok) ==> resolved_view(k).composer.toggle_shortcuts
            == parse_raws(k.composer.toggle_shortcuts->0.raws())->Ok_0,
        (k.composer.history_search_previous is Some && parse_raws(k.composer.history_search_previous->0.raws()) is Ok) ==> resolved_view(k).composer.history_search_previous
            == parse_raws(k.composer.history_search_previous->0.raws())->Ok_0,
        (k.composer.history_search_next is Some && parse_raws(k.composer.history_search_next->0.raws()) is Ok) ==> resolved_view(k).composer.history_search_next
            == parse_raws(k.composer.history_search_next->0.raws())->Ok_0,
        (k.composer.submit is None && k.global.submit is Some && parse_raws(k.global.submit->0.raws()) is Ok)
            ==> resolved_view(k).composer.submit == parse_raws(k.global.submit->0.raws())->Ok_0,
        (k.composer.submit is None && k.global.submit is None) ==> resolved_view(k).composer.submit
            == default_composer().submit,
        (k.composer.queue is None && k.global.queue is Some && parse_raws(k.global.queue->0.raws()) is Ok)
            ==> resolved_view(k).composer.queue == parse_raws(k.global.queue->0.raws())->Ok_0,
        (k.composer.queue is None && k.global.queue is None) ==> resolved_view(k).composer.queue
            == default_composer().queue,
        (k.composer.toggle_shortcuts is None && k.global.toggle_shortcuts is Some && parse_raws(k.global.toggle_shortcuts->0.raws()) is Ok)
            ==> resolved_view(k).composer.toggle_shortcuts == parse_raws(k.global.toggle_shortcuts->0.raws())->Ok_0,
        (k.composer.toggle_shortcuts is None && k.global.toggle_shortcuts is None) ==> resolved_view(k).composer.toggle_shortcuts
            == default_composer().toggle_shortcuts,
        k.composer.history_search_previous is None ==> resolved_view(k).composer.history_search_previous == default_composer().history_search_previous,
        k.composer.history_search_next is None ==> resolved_view(k).composer.history_search_next == default_composer().history_search_next,
{
}

} // verus!
