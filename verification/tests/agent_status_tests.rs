use antex::agent_status::{active_agent_paths, AgentEntry};

fn entry(thread_id: u128, is_running: bool, is_closed: bool, path: Option<&str>) -> AgentEntry {
    AgentEntry { thread_id, is_running, is_closed, agent_path: path.map(str::to_string) }
}

#[test]
fn only_running_open_agents_with_paths_are_listed() {
    let entries = [
        entry(1, true, false, Some("  root/tester ")),
        entry(2, false, false, Some("root/idle")),
        entry(3, true, true, Some("root/closed")),
        entry(4, true, false, None),
        entry(5, true, false, Some("root/planner")),
    ];
    assert_eq!(
        active_agent_paths(&entries),
        vec![(1, "root/tester".to_string()), (5, "root/planner".to_string())]
    );
    assert_eq!(active_agent_paths(&[]), Vec::new());
}
