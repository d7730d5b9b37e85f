use antex::project_context::{instruction_directories, push_catalog_line, ContextKind, ProjectContext};

fn texts(context: &ProjectContext) -> Vec<String> {
    context.fragments.iter().map(|fragment| fragment.text.clone()).collect()
}

#[test]
fn a_short_text_is_one_fragment_headed_by_its_source() {
    let mut context = ProjectContext::new();
    assert_eq!(context.append(ContextKind::System, "Antex", "hello", 100), Ok(()));
    assert_eq!(texts(&context), vec!["Antex\nhello".to_string()]);
    assert_eq!(context.fragments[0].kind, ContextKind::System);
    assert_eq!(context.bytes, 11);
}

#[test]
fn long_texts_are_cut_to_the_text_budget() {
    let mut context = ProjectContext::new();
    context.append(ContextKind::Project, "S", "abcdefghij", 6).unwrap();
    assert_eq!(texts(&context), vec!["S\nabcd", "S\nefgh", "S\nij"]);
    assert_eq!(context.bytes, 16);
}

#[test]
fn cuts_fall_between_characters() {
    let mut context = ProjectContext::new();
    context.append(ContextKind::Skill, "S", "aé€b", 6).unwrap();
    assert_eq!(texts(&context), vec!["S\naé", "S\n€b"]);
    assert_eq!(context.bytes, 11);
}

#[test]
fn empty_text_adds_nothing() {
    let mut context = ProjectContext::new();
    assert_eq!(context.append(ContextKind::Project, "S", "", 6), Ok(()));
    assert!(context.fragments.is_empty());
    assert_eq!(context.bytes, 0);
}

#[test]
fn a_character_wider_than_the_budget_is_refused() {
    let mut context = ProjectContext::new();
    context.append(ContextKind::Project, "S", "ok", 6).unwrap();
    assert_eq!(
        context.append(ContextKind::Project, "S", "€", 4),
        Err("instruction fragment cannot fit its byte budget".to_string())
    );
    assert_eq!(texts(&context), vec!["S\nok"]);
    assert_eq!(context.bytes, 4);
}

#[test]
fn a_source_name_must_leave_room_for_text() {
    let mut context = ProjectContext::new();
    assert_eq!(
        context.append(ContextKind::Project, "0123456789", "x", 11),
        Err("instruction source name is too long".to_string())
    );
    assert_eq!(context.append(ContextKind::Project, "0123456789", "x", 12), Ok(()));
}

#[test]
fn all_fragments_together_stay_within_64_kib() {
    let mut context = ProjectContext::new();
    let text = "a".repeat(65534);
    assert_eq!(context.append(ContextKind::Project, "S", &text, 100_000), Ok(()));
    assert_eq!(context.bytes, 65536);
    assert_eq!(
        context.append(ContextKind::Project, "S", "b", 100),
        Err("project instructions exceed the total context budget".to_string())
    );
    assert_eq!(context.fragments.len(), 1);
    assert_eq!(context.bytes, 65536);
}

#[test]
fn cutting_loses_nothing_and_respects_the_budget() {
    let text = "Grüße, 世界! ".repeat(40);
    let mut context = ProjectContext::new();
    context.append(ContextKind::Project, "Project instructions: AGENTS.md", &text, 64).unwrap();
    let head = "Project instructions: AGENTS.md\n";
    let mut rebuilt = String::new();
    for fragment in &context.fragments {
        assert!(fragment.text.len() <= 64);
        assert!(fragment.text.starts_with(head));
        rebuilt.push_str(&fragment.text[head.len()..]);
    }
    assert_eq!(rebuilt, text);
    let total: usize = context.fragments.iter().map(|fragment| fragment.text.len()).sum();
    assert_eq!(context.bytes, total);
}

#[test]
fn instructions_are_searched_up_to_the_repository_root() {
    // The workspace, its parent (the repository root) and beyond.
    assert_eq!(instruction_directories(&[false, true, false], true), Ok(2));
    assert_eq!(instruction_directories(&[true], true), Ok(1));
    // Without a repository, every ancestor up to the file system root.
    assert_eq!(instruction_directories(&[false, false, false], false), Ok(3));
    assert_eq!(instruction_directories(&[], false), Ok(0));
}

#[test]
fn instruction_search_is_bounded_to_32_directories() {
    let deep = vec![false; 32];
    assert_eq!(
        instruction_directories(&deep, true),
        Err("workspace ancestry exceeds its context discovery budget".to_string())
    );
    assert_eq!(instruction_directories(&deep, false), Ok(32));
    let mut found = vec![false; 40];
    found[31] = true;
    assert_eq!(instruction_directories(&found, true), Ok(32));
    found[31] = false;
    found[35] = true;
    assert_eq!(
        instruction_directories(&found, false),
        Err("workspace ancestry exceeds its context discovery budget".to_string())
    );
}

#[test]
fn the_skill_catalog_stays_within_its_budget() {
    let mut catalog = String::new();
    assert!(push_catalog_line(&mut catalog, "example", "Useful for testing", "/h/skills/example/SKILL.md", 1000));
    assert_eq!(catalog, "- example: Useful for testing (/h/skills/example/SKILL.md)\n");
    let before = catalog.clone();
    // 200 bytes leave 72 for the catalog once 128 are kept back.
    assert!(!push_catalog_line(&mut catalog, "other", "x", "/p", 200));
    assert_eq!(catalog, before);
    let mut small = String::new();
    assert!(push_catalog_line(&mut small, "a", "b", "c", 128 + 12));
    assert_eq!(small, "- a: b (c)\n");
    assert!(!push_catalog_line(&mut String::new(), "a", "b", "c", 128 + 10));
}

use antex::project_context::{context_sources, environment_text};

#[test]
fn the_environment_names_the_workspace_as_a_json_string() {
    assert_eq!(
        environment_text("/work/a \"b\"\\c"),
        "Current working directory: \"/work/a \\\"b\\\"\\\\c\"\nResolve relative file paths against this directory."
    );
    assert_eq!(
        environment_text("/tab\there\u{1}"),
        "Current working directory: \"/tab\\there\\u0001\"\nResolve relative file paths against this directory."
    );
}

#[test]
fn instructions_are_appended_outermost_first_with_the_catalog_last() {
    let ancestors = vec![
        ("/w/p/AGENTS.md".to_string(), Some("inner".to_string())),
        ("/w/AGENTS.md".to_string(), None),
        ("/AGENTS.md".to_string(), Some("outer".to_string())),
    ];
    let sources = context_sources("prompt", "/w/p", Some("global"), &ancestors, "- s: d (p)\n");
    let names: Vec<(ContextKind, &str)> = sources.iter().map(|(k, s, _)| (*k, s.as_str())).collect();
    assert_eq!(
        names,
        vec![
            (ContextKind::System, "Antex"),
            (ContextKind::System, "Execution environment"),
            (ContextKind::Project, "Global AGENTS.md"),
            (ContextKind::Project, "Project instructions: /AGENTS.md"),
            (ContextKind::Project, "Project instructions: /w/p/AGENTS.md"),
            (ContextKind::Skill, "Available skills — read SKILL.md before acting"),
        ]
    );
    assert_eq!(sources[3].2, "outer");
    assert_eq!(sources[4].2, "inner");
    let bare = context_sources("prompt", "/w", None, &[], "");
    assert_eq!(bare.len(), 2);
}
