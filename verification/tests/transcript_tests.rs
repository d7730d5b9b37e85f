use antex::session::{ContentBlock, RecordKind, RecordPayload, Session};

fn entry(text: &str, pretty_json: &str, content: Vec<ContentBlock>) -> RecordPayload {
    RecordPayload::Entry {
        text: text.to_string(),
        pretty_json: pretty_json.to_string(),
        content,
    }
}

fn user(session: &mut Session, text: &str) {
    session.append(
        RecordKind::User,
        entry("", "", vec![ContentBlock::Text(text.to_string())]),
        10,
    );
}

#[test]
fn page_lists_messages_oldest_first_with_roles() {
    let mut session = Session::new();
    user(&mut session, "hi");
    session.append(
        RecordKind::Assistant,
        entry(
            "",
            "",
            vec![
                ContentBlock::Text("hello".to_string()),
                ContentBlock::Reasoning("think".to_string()),
                ContentBlock::Image,
                ContentBlock::Other,
            ],
        ),
        10,
    );
    session.append(RecordKind::ToolCall, entry("", "{\n  \"a\": 1\n}", vec![]), 10);
    session.save_ui_state("layout", b"1").unwrap();
    session.append(RecordKind::ToolResult, entry("ok", "", vec![]), 10);

    let page = session.transcript_page(None).unwrap();
    assert_eq!(
        page.text,
        "## You · 0\n\nhi\n\n\
         ## Antex · 1\n\nhello\n[Reasoning summary]\nthink\n[Image attachment]\n\n\n\
         ## Tool call · 2\n\n```json\n{\n  \"a\": 1\n}\n```\n\n\
         ## Tool result · 4\n\nok\n\n"
    );
    assert_eq!(page.next_cursor, None);
}

#[test]
fn cursor_off_the_active_branch_is_refused() {
    let mut session = Session::new();
    user(&mut session, "a");
    assert_eq!(
        session.transcript_page(Some(7)).err(),
        Some("transcript cursor is not on the active branch".to_string())
    );
    assert!(session.transcript_page(Some(0)).is_ok());
}

#[test]
fn a_page_holds_at_most_sixty_four_messages() {
    let mut session = Session::new();
    for i in 0..70 {
        user(&mut session, &format!("m{i}"));
    }
    let page = session.transcript_page(None).unwrap();
    assert_eq!(page.next_cursor, Some(5));
    assert!(page.text.starts_with("## You · 6\n\nm6\n\n"));
    assert!(page.text.ends_with("## You · 69\n\nm69\n\n"));
    let older = session.transcript_page(page.next_cursor).unwrap();
    assert_eq!(older.next_cursor, None);
    assert!(older.text.starts_with("## You · 0\n\nm0\n\n"));
}

#[test]
fn long_messages_are_cut_with_a_note() {
    let mut session = Session::new();
    user(&mut session, &"é".repeat(30000));
    let page = session.transcript_page(None).unwrap();
    let expected = format!(
        "## You · 0\n\n{}\n[Long message truncated in this view; original remains in the session]\n\n",
        "é".repeat(24576)
    );
    assert_eq!(page.text, expected);
}

#[test]
fn empty_log_has_an_empty_page() {
    let session = Session::new();
    let page = session.transcript_page(None).unwrap();
    assert_eq!(page.text, "");
    assert_eq!(page.next_cursor, None);
}

#[test]
fn paging_back_from_the_head_moves_to_older_records_and_ends() {
    let mut session = Session::new();
    for i in 0..150 {
        user(&mut session, &format!("message {i}"));
    }
    let mut cursor = None;
    let mut start = 149;
    let mut pages = 0;
    loop {
        let page = session.transcript_page(cursor).unwrap();
        let messages = page.text.matches("You · ").count();
        assert!(messages >= 1 && messages <= 64);
        pages += 1;
        match page.next_cursor {
            Some(next) => {
                assert!(next < start);
                start = next;
                cursor = Some(next);
            }
            None => break,
        }
    }
    assert_eq!(pages, 3);
}

#[test]
fn pages_of_several_messages_stay_within_64_kib() {
    let mut session = Session::new();
    for _ in 0..20 {
        user(&mut session, &"x".repeat(10_000));
    }
    let page = session.transcript_page(None).unwrap();
    assert!(page.text.matches("You · ").count() > 1);
    assert!(page.text.len() <= 65536);
    assert!(page.next_cursor.is_some());
}
