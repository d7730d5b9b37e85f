//! The model picker of a workflow field: which models it offers, in which
//! order, and which one starts selected.

use vstd::prelude::*;
use crate::text::owned;
use crate::validation::str_eq;

verus! {

/// A model of the catalog.
#[derive(Clone, Debug)]
pub struct ModelPreset {
    pub model: String,
    pub description: String,
    pub show_in_picker: bool,
}

/// One entry of the picker: the value that answers the field, the name
/// shown and its description.
#[derive(Clone, Debug, PartialEq, Eq)]
pub struct ModelChoice {
    pub value: String,
    pub name: String,
    pub description: String,
}

/// A choice as plain values.
pub type ChoiceView = (Seq<char>, Seq<char>, Seq<char>);

/// The view of a choice.
pub open spec fn choice_view(c: ModelChoice) -> ChoiceView {
    (c.value@, c.name@, c.description@)
}

/// The views of some choices.
pub open spec fn choices_view(cs: Seq<ModelChoice>) -> Seq<ChoiceView> {
    cs.map_values(|c: ModelChoice| choice_view(c))
}

/// Whether some choice answers with `value`.
pub open spec fn has_value(choices: Seq<ChoiceView>, value: Seq<char>) -> bool {
    exists|i: int| 0 <= i < choices.len() && (#[trigger] choices[i]).0 == value
}

/// The choices after the catalog's models that the picker shows, in order,
/// each once.
pub open spec fn add_presets(choices: Seq<ChoiceView>, presets: Seq<ModelPreset>) -> Seq<ChoiceView>
    decreases presets.len(),
{
    if presets.len() == 0 {
        choices
    } else {
        let p = presets[0];
        let next = if p.show_in_picker && !has_value(choices, p.model@) {
            choices.push((p.model@, p.model@, p.description@))
        } else {
            choices
        };
        add_presets(next, presets.skip(1))
    }
}

/// The picker's choices: the current model first when the field may be left
/// unset, then the catalog's models, then the field's default when the
/// catalog lacks it; the current model alone when nothing else is offered.
pub open spec fn choices_spec(required: bool, default: Seq<char>, current_model: Seq<char>, presets: Seq<ModelPreset>) -> Seq<
    ChoiceView,
> {
    let first: Seq<ChoiceView> = if required {
        Seq::empty()
    } else {
        seq![(Seq::empty(), "Use current Antex model"@, current_model)]
    };
    let listed = add_presets(first, presets);
    let with_default = if default.len() > 0 && !has_value(listed, default) {
        listed.push((default, default, "Workflow default (not in current catalog)"@))
    } else {
        listed
    };
    if with_default.len() == 0 {
        seq![(current_model, current_model, "Current Antex model"@)]
    } else {
        with_default
    }
}

/// The first choice that answers with `value`, from position `i` on.
pub open spec fn first_with_value(choices: Seq<ChoiceView>, value: Seq<char>, i: int) -> Option<int>
    decreases choices.len() - i,
{
    if i < 0 || i >= choices.len() {
        None
    } else if choices[i].0 == value {
        Some(i)
    } else {
        first_with_value(choices, value, i + 1)
    }
}

/// Whether a choice answers with `value`.
fn answers_with(choices: &Vec<ModelChoice>, value: &str) -> (r: bool)
    ensures
        r == has_value(choices_view(choices@), value@),
{
    let ghost cv = choices_view(choices@);
    let mut i: usize = 0;
    while i < choices.len()
        invariant
            cv == choices_view(choices@),
            0 <= i <= choices@.len(),
            forall|k: int| 0 <= k < i ==> (#[trigger] cv[k]).0 != value@,
        decreases choices@.len() - i,
    {
        if str_eq(choices[i].value.as_str(), value) {
            proof {
                assert(cv[i as int].0 == value@);
            }
            return true;
        }
        i = i + 1;
    }
    false
}

/// The first choice that answers with `value`.
fn position_of_value(choices: &Vec<ModelChoice>, value: &str) -> (r: Option<usize>)
    ensures
        match r {
            Some(i) => first_with_value(choices_view(choices@), value@, 0) == Some(i as int),
            None => first_with_value(choices_view(choices@), value@, 0) is None,
        },
{
    let ghost cv = choices_view(choices@);
    let mut k: usize = 0;
    while k < choices.len()
        invariant
            cv == choices_view(choices@),
            0 <= k <= choices@.len(),
            first_with_value(cv, value@, 0) == first_with_value(cv, value@, k as int),
        decreases choices@.len() - k,
    {
        if str_eq(choices[k].value.as_str(), value) {
            return Some(k);
        }
        k = k + 1;
    }
    None
}

/// The choices of a workflow field's model picker and the one that starts
/// selected (the first that answers with the field's default): `required`
/// says whether the field must be set, `default` is its default (empty when
/// it has none), `current_model` the model in use.
pub fn workflow_model_choices(required: bool, default: &str, current_model: &str, presets: &[ModelPreset]) -> (r: (
    Vec<ModelChoice>,
    Option<usize>,
))
    ensures
        choices_view(r.0@) == choices_spec(required, default@, current_model@, presets@),
        match r.1 {
            Some(i) => first_with_value(choices_view(r.0@), default@, 0) == Some(i as int),
            None => first_with_value(choices_view(r.0@), default@, 0) is None,
        },
{
    let mut choices: Vec<ModelChoice> = Vec::new();
    if !required {
        choices.push(
            ModelChoice {
                value: String::new(),
                name: owned("Use current Antex model"),
                description: owned(current_model),
            },
        );
    }
    let ghost first = choices_view(choices@);
    proof {
        if required {
            assert(first =~= Seq::<ChoiceView>::empty());
        } else {
            assert(first =~= seq![(Seq::<char>::empty(), "Use current Antex model"@, current_model@)]);
        }
        assert(presets@.skip(0) =~= presets@);
    }
    let mut i: usize = 0;
    while i < presets.len()
        invariant
            0 <= i <= presets@.len(),
            add_presets(first, presets@) == add_presets(choices_view(choices@), presets@.skip(i as int)),
        decreases presets@.len() - i,
    {
        let preset = &presets[i];
        let ghost before = choices_view(choices@);
        proof {
            assert(presets@.skip(i as int)[0] == *preset);
            assert(presets@.skip(i as int).skip(1) =~= presets@.skip(i + 1));
        }
        if preset.show_in_picker && !answers_with(&choices, preset.model.as_str()) {
            choices.push(
                ModelChoice {
                    value: owned(preset.model.as_str()),
                    name: owned(preset.model.as_str()),
                    description: owned(preset.description.as_str()),
                },
            );
            proof {
                assert(choices_view(choices@) =~= before.push(
                    (preset.model@, preset.model@, preset.description@),
                ));
            }
        }
        i = i + 1;
    }
    proof {
        assert(presets@.skip(presets@.len() as int).len() == 0);
    }
    if default.unicode_len() > 0 && !answers_with(&choices, default) {
        let ghost before = choices_view(choices@);
        choices.push(
            ModelChoice {
                value: owned(default),
                name: owned(default),
                description: owned("Workflow default (not in current catalog)"),
            },
        );
        proof {
            assert(choices_view(choices@) =~= before.push(
                (default@, default@, "Workflow default (not in current catalog)"@),
            ));
        }
    }
    if choices.len() == 0 {
        choices.push(
            ModelChoice {
                value: owned(current_model),
                name: owned(current_model),
                description: owned("Current Antex model"),
            },
        );
        proof {
            assert(choices_view(choices@) =~= seq![(current_model@, current_model@, "Current Antex model"@)]);
        }
    }
    let initial = position_of_value(&choices, default);
    (choices, initial)
}

} // verus!
