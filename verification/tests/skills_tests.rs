use antex::skills::skill_description;

#[test]
fn the_description_field_gives_the_description() {
    let text = "---\nname: review\ndescription: Reviews pull requests\n---\nBody";
    assert_eq!(skill_description(text), "Reviews pull requests");
    assert_eq!(skill_description("description:no space"), "no space");
    assert_eq!(skill_description("description: hi\r\nname: x"), "hi");
}

#[test]
fn quotes_around_the_value_are_dropped() {
    assert_eq!(skill_description("description: \"Quoted value\""), "Quoted value");
    assert_eq!(skill_description("description: 'single'"), "single");
    assert_eq!(skill_description("description: \"'mixed\"'"), "mixed");
}

#[test]
fn only_the_first_description_counts() {
    let text = "description: first\ndescription: second";
    assert_eq!(skill_description(text), "first");
}

#[test]
fn an_indented_key_is_not_the_description() {
    assert_eq!(skill_description("  description: nested\nname: x"), "");
    assert_eq!(skill_description("name: x\n"), "");
    assert_eq!(skill_description(""), "");
}

#[test]
fn block_descriptions_join_their_indented_lines() {
    let text = "description: >\n  first line\n  second\nname: y\n  not this";
    assert_eq!(skill_description(text), "first line second");
    let text = "description: |-\n\ttabbed\n    spaced  \n";
    assert_eq!(skill_description(text), "tabbed spaced");
    assert_eq!(skill_description("description: \"|\"\n  quoted marker"), "quoted marker");
    assert_eq!(skill_description("description: >\nflush"), "");
}

#[test]
fn descriptions_are_cut_at_160_characters() {
    let long = "x".repeat(200);
    let text = format!("description: {long}");
    assert_eq!(skill_description(&text), "x".repeat(160));
}

#[test]
fn block_reading_stops_after_640_bytes() {
    // Each blank indented line adds one space; the scan stops before "word".
    let mut text = "description: >\n".to_string();
    for _ in 0..641 {
        text.push_str("  \n");
    }
    text.push_str("  word\n");
    assert_eq!(skill_description(&text), "");
    let mut text = "description: >\n".to_string();
    for _ in 0..639 {
        text.push_str("  \n");
    }
    text.push_str("  word\n");
    assert_eq!(skill_description(&text), "word");
}

#[test]
fn a_folded_block_description_reads_as_one_sentence() {
    let text = "---\nname: example\ndescription: >\n  Useful for testing\n  bounded context.\n---\nInstructions\n";
    assert_eq!(skill_description(text), "Useful for testing bounded context.");
}

use antex::skills::{listed_skill_entries, SkillEntry};

fn entry(name: &str, is_dir: bool) -> SkillEntry {
    SkillEntry { name: name.as_bytes().to_vec(), is_dir, utf8: true }
}

#[test]
fn the_catalog_lists_directories_in_name_order_within_the_limits() {
    let entries = vec![entry("zeta", true), entry("alpha", true), entry("notes.md", false), entry(&"n".repeat(65), true)];
    let (listed, limited) = listed_skill_entries(&entries);
    assert_eq!(listed, vec![1, 0]);
    assert!(!limited);
}

#[test]
fn only_the_first_64_entries_by_name_are_looked_at() {
    let entries: Vec<SkillEntry> = (0..65).rev().map(|i| entry(&format!("s{i:02}"), true)).collect();
    let (listed, limited) = listed_skill_entries(&entries);
    assert!(limited);
    assert_eq!(listed.len(), 64);
    assert_eq!(listed[0], 64);
    assert!(!listed.contains(&0));
}
