use santosobot::agent::history::{Role, SessionHistory};

fn filled(turns: usize) -> SessionHistory {
    let mut history = SessionHistory::new();
    for i in 0..turns {
        history.record_turn(&format!("q{}", i), &format!("a{}", i), vec![format!("tool{}", i)]);
    }
    history
}

#[test]
fn a_turn_adds_a_user_and_an_assistant_entry() {
    let mut history = SessionHistory::new();
    assert_eq!(history.len(), 0);
    history.record_turn("Hello", "Hi there!", vec!["shell".to_string(), "web_fetch".to_string()]);
    assert_eq!(history.len(), 2);
    assert_eq!(history.entry(0).role, Role::User);
    assert_eq!(history.entry(0).content, "Hello");
    assert!(history.entry(0).tools_used.is_empty());
    assert_eq!(history.entry(1).role, Role::Assistant);
    assert_eq!(history.entry(1).content, "Hi there!");
    assert_eq!(history.entry(1).tools_used, vec!["shell", "web_fetch"]);
}

#[test]
fn consolidation_is_due_beyond_twice_the_window() {
    let history = filled(5);
    assert_eq!(history.len(), 10);
    assert!(!history.needs_consolidation(5));
    assert!(history.needs_consolidation(4));
    assert!(history.needs_consolidation(0));
    assert!(!history.needs_consolidation(u32::MAX));
}

#[test]
fn aged_entries_are_all_but_half_a_window() {
    let history = filled(5);
    assert_eq!(history.aged_count(4), 8);
    assert_eq!(history.aged_count(5), 8);
    assert_eq!(history.aged_count(10), 5);
    assert_eq!(history.aged_count(11), 0);
    assert_eq!(history.aged_count(0), 10);
    assert_eq!(history.aged_count(1), 10);
}

#[test]
fn consolidation_lines_name_time_role_and_content() {
    let history = filled(3);
    let lines = history.consolidation_lines(2, "2024-05-01 10:30");
    assert_eq!(
        lines,
        vec![
            "[2024-05-01 10:30] USER: q0",
            "[2024-05-01 10:30] ASSISTANT: a0",
            "[2024-05-01 10:30] USER: q1",
            "[2024-05-01 10:30] ASSISTANT: a1",
            "[2024-05-01 10:30] USER: q2",
        ]
    );
    assert_eq!(history.line_at(5, "t"), "[t] ASSISTANT: a2");
    let now = history.consolidate(2);
    assert_eq!(now.len(), 5);
    assert!(now[0].starts_with('['));
    assert!(now[0].ends_with("] USER: q0"));
    assert!(now[4].ends_with("] USER: q2"));
}

#[test]
fn forgetting_keeps_the_newest_and_settles() {
    let mut history = filled(5);
    assert!(history.needs_consolidation(4));
    history.forget_consolidated(4);
    assert_eq!(history.len(), 2);
    assert_eq!(history.entry(0).content, "q4");
    assert_eq!(history.entry(1).content, "a4");
    assert!(!history.needs_consolidation(4));
    history.forget_consolidated(4);
    assert_eq!(history.len(), 2);
}
