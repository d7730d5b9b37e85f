use antex::items::{StartupMascotSkin, DiffSummary, FileChange};
use antex::session::{RecordKind, RecordPayload, Session};

#[test]
fn saved_ui_state_reads_back() {
    let mut session = Session::new();
    assert_eq!(session.load_ui_state("layout"), None);
    session.save_ui_state("layout", b"{\"split\":3}").unwrap();
    assert_eq!(session.load_ui_state("layout"), Some(b"{\"split\":3}".to_vec()));
}

#[test]
fn newest_ui_state_wins_and_other_names_are_kept() {
    let mut session = Session::new();
    session.save_ui_state("a", b"1").unwrap();
    session.save_ui_state("b", b"2").unwrap();
    session.save_ui_state("a", b"3").unwrap();
    assert_eq!(session.load_ui_state("a"), Some(b"3".to_vec()));
    assert_eq!(session.load_ui_state("b"), Some(b"2".to_vec()));
    assert_eq!(session.load_ui_state("c"), None);
}

#[test]
fn null_ui_state_reads_as_nothing() {
    let mut session = Session::new();
    session.save_ui_state("a", b"1").unwrap();
    session.save_ui_state("a", b"null").unwrap();
    assert_eq!(session.load_ui_state("a"), None);
}

#[test]
fn ui_state_over_budget_is_refused() {
    let mut session = Session::new();
    for name in ["", "has space", "ünï", &"x".repeat(65)] {
        assert_eq!(
            session.save_ui_state(name, b"1"),
            Err("UI state exceeds its budget".to_string())
        );
    }
    assert!(session.save_ui_state(&"x".repeat(64), b"1").is_ok());
    assert!(session.save_ui_state("ok_name-2", &vec![b'1'; 16 * 1024 * 1024]).is_ok());
    assert!(session.save_ui_state("ok_name-2", &vec![b'1'; 16 * 1024 * 1024 + 1]).is_err());
}

#[test]
fn mascot_defaults_to_ant_03() {
    assert_eq!(StartupMascotSkin::default(), StartupMascotSkin::Ant03);
}

#[test]
fn diff_summary_keeps_changes_and_cwd() {
    let summary = DiffSummary::new(
        vec![("a.txt".to_string(), FileChange::Add { content: "x\n".to_string() })],
        "/repo".to_string(),
    );
    assert_eq!(summary.changes.len(), 1);
    assert_eq!(summary.cwd, "/repo");
}

#[test]
fn saving_ui_state_appends_one_record_and_keeps_the_others() {
    let mut session = Session::new();
    session.append(RecordKind::User, RecordPayload::Other, 12);
    session.save_ui_state("a", b"1").unwrap();
    assert_eq!(session.records.len(), 2);
    assert_eq!(session.records[0].kind, RecordKind::User);
    assert_eq!(session.records[0].length, 12);
    assert_eq!(session.records[1].kind, RecordKind::UiState);
    assert_eq!(session.records[1].parent, Some(0));
    assert_eq!(session.head, Some(1));
    match &session.records[1].payload {
        RecordPayload::UiState { name, value } => {
            assert_eq!(name, "a");
            assert_eq!(value, b"1");
        }
        _ => panic!("not a UI state record"),
    }
    session.append(RecordKind::Assistant, RecordPayload::Other, 3);
    assert_eq!(session.load_ui_state("a"), Some(b"1".to_vec()));
}
