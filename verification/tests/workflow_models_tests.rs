use antex::workflow_models::{workflow_model_choices, ModelChoice, ModelPreset};

fn preset(model: &str, description: &str, show: bool) -> ModelPreset {
    ModelPreset { model: model.to_string(), description: description.to_string(), show_in_picker: show }
}

fn choice(value: &str, name: &str, description: &str) -> ModelChoice {
    ModelChoice { value: value.to_string(), name: name.to_string(), description: description.to_string() }
}

#[test]
fn an_optional_field_offers_the_current_model_first() {
    let presets = [preset("fast", "Quick", true), preset("hidden", "No", false), preset("deep", "Careful", true)];
    let (choices, initial) = workflow_model_choices(false, "", "deep", &presets);
    assert_eq!(
        choices,
        vec![
            choice("", "Use current Antex model", "deep"),
            choice("fast", "fast", "Quick"),
            choice("deep", "deep", "Careful"),
        ]
    );
    assert_eq!(initial, Some(0));
}

#[test]
fn a_default_outside_the_catalog_is_offered_last_and_selected() {
    let presets = [preset("fast", "Quick", true)];
    let (choices, initial) = workflow_model_choices(true, "legacy", "fast", &presets);
    assert_eq!(
        choices,
        vec![
            choice("fast", "fast", "Quick"),
            choice("legacy", "legacy", "Workflow default (not in current catalog)"),
        ]
    );
    assert_eq!(initial, Some(1));
    let (choices, initial) = workflow_model_choices(true, "fast", "fast", &presets);
    assert_eq!(choices, vec![choice("fast", "fast", "Quick")]);
    assert_eq!(initial, Some(0));
}

#[test]
fn repeated_catalog_models_are_offered_once() {
    let presets = [preset("m", "first", true), preset("m", "second", true)];
    let (choices, initial) = workflow_model_choices(true, "x", "cur", &presets);
    assert_eq!(
        choices,
        vec![choice("m", "m", "first"), choice("x", "x", "Workflow default (not in current catalog)")]
    );
    assert_eq!(initial, Some(1));
}

#[test]
fn with_nothing_to_offer_the_current_model_stands_alone() {
    let (choices, initial) = workflow_model_choices(true, "", "cur", &[preset("h", "", false)]);
    assert_eq!(choices, vec![choice("cur", "cur", "Current Antex model")]);
    assert_eq!(initial, None);
}
