use santosobot::agent::tools::reminder::parse_moment;
use santosobot::agent::tools::schema::{number_arg, optional_text_arg, text_arg};
use santosobot::agent::tools::{BraveSearchTool, MessageTool, ReminderTool, SpawnTool};
use santosobot::json::{parse, Json, JsonNumber};

fn object(entries: &[(&str, &str)]) -> Json {
    Json::Object(entries.iter().map(|(k, v)| (k.to_string(), Json::Text(v.to_string()))).collect())
}

#[test]
fn test_brave_search_tool_parameters() {
    let tool = BraveSearchTool::new("test-key".to_string());

    let params = tool.parameters();
    assert_eq!(params.get("type"), Some(&Json::Text("object".to_string())));
    assert!(matches!(params.get("properties").unwrap().get("query"), Some(Json::Object(_))));
    assert!(matches!(params.get("properties").unwrap().get("count"), Some(Json::Object(_))));
    assert!(params.get("required").unwrap().at(0) == Some(&Json::Text("query".to_string())));
}

#[test]
fn test_validate_query_valid() {
    let tool = BraveSearchTool::new("test-key".to_string());

    let valid_queries = vec!["hello world", "Rust programming language", "weather forecast"];

    for query in valid_queries {
        let result = tool.validate_query(query);
        assert!(result.is_ok(), "Query '{}' should be valid: {:?}", query, result.err());
    }
}

#[test]
fn test_validate_query_invalid() {
    let tool = BraveSearchTool::new("test-key".to_string());

    let long_query = "a".repeat(501);
    let invalid_queries = vec![("", "Empty query"), (&long_query, "Too long query")];

    for (query, desc) in invalid_queries {
        let result = tool.validate_query(query);
        assert!(result.is_err(), "Query '{}' ({}) should be invalid", query, desc);
    }
}

#[test]
fn test_validate_query_null_bytes() {
    let tool = BraveSearchTool::new("test-key".to_string());

    let query_with_null = "hello\0world";
    let result = tool.validate_query(query_with_null);
    assert!(result.is_err());
}

#[test]
fn query_verdicts() {
    let tool = BraveSearchTool::new("k".to_string());
    assert_eq!(tool.validate_query("  rust  "), Ok("rust".to_string()));
    assert_eq!(tool.validate_query("   "), Ok(String::new()));
    assert_eq!(tool.validate_query(""), Err("Query cannot be empty".to_string()));
    assert_eq!(tool.validate_query(&"a".repeat(500)), Ok("a".repeat(500)));
    assert_eq!(
        tool.validate_query(&"é".repeat(251)),
        Err("Query too long (max 500 characters)".to_string())
    );
    assert_eq!(tool.validate_query(&"é".repeat(250)), Ok("é".repeat(250)));
    assert_eq!(tool.validate_query("a\0b"), Err("Query contains null characters".to_string()));
    assert_eq!(tool.api_key, "k");
    assert_eq!(tool.timeout_secs, 30);
    assert_eq!(BraveSearchTool::default().api_key, "");
    assert_eq!(BraveSearchTool::default().timeout_secs, 30);
    assert_eq!(tool.name(), "brave_search");
}

#[test]
fn search_results_are_shown_up_to_the_count() {
    let tool = BraveSearchTool::new("k".to_string());
    let response = parse(
        "{\"web\":{\"results\":[{\"title\":\"A\",\"url\":\"u1\",\"description\":\"d1\"},{\"title\":\"B\"},{\"url\":\"u3\",\"description\":7}]}}",
    )
    .unwrap();
    assert_eq!(
        tool.format_results(&response, 2),
        "Title: A\nURL: u1\nDescription: d1\n\nTitle: B\nURL: No URL\nDescription: No description\n"
    );
    assert_eq!(
        tool.format_results(&response, 10),
        "Title: A\nURL: u1\nDescription: d1\n\nTitle: B\nURL: No URL\nDescription: No description\n\nTitle: No title\nURL: u3\nDescription: No description\n"
    );
    let none = "No search results found for the given query.";
    assert_eq!(tool.format_results(&response, 0), none);
    assert_eq!(tool.format_results(&parse("{\"web\":{}}").unwrap(), 5), none);
    assert_eq!(tool.format_results(&parse("{\"web\":{\"results\":{}}}").unwrap(), 5), none);
    assert_eq!(tool.format_results(&Json::Null, 5), none);
    assert_eq!(tool.result_count(&Json::Object(vec![])), 5);
    let count = |n: u64| Json::Object(vec![("count".to_string(), Json::Number(JsonNumber::PosInt(n)))]);
    assert_eq!(tool.result_count(&count(3)), 3);
    assert_eq!(tool.result_count(&count(10)), 10);
    assert_eq!(tool.result_count(&count(11)), 10);
    assert_eq!(tool.result_count(&object(&[("count", "3")])), 5);
}

#[test]
fn arguments_are_read_by_key() {
    let args = Json::Object(vec![
        ("path".to_string(), Json::Text("a.txt".to_string())),
        ("n".to_string(), Json::Number(JsonNumber::PosInt(4))),
    ]);
    assert_eq!(text_arg(&args, "path", "Missing path parameter"), Ok("a.txt".to_string()));
    assert_eq!(text_arg(&args, "n", "Missing n"), Err("Missing n".to_string()));
    assert_eq!(text_arg(&args, "x", "Missing x"), Err("Missing x".to_string()));
    assert_eq!(text_arg(&Json::Null, "path", "Missing path"), Err("Missing path".to_string()));
    assert_eq!(optional_text_arg(&args, "path"), Some("a.txt".to_string()));
    assert_eq!(optional_text_arg(&args, "n"), None);
    assert_eq!(number_arg(&args, "n", 9), 4);
    assert_eq!(number_arg(&args, "path", 9), 9);
    assert_eq!(number_arg(&args, "x", 9), 9);
}

#[test]
fn messages_need_content_channel_and_sender() {
    let mut tool = MessageTool::new();
    let full = object(&[("content", "hi"), ("channel", "telegram"), ("chat_id", "42")]);
    assert_eq!(tool.prepare(&full).unwrap_err(), "Message sender not configured");
    assert_eq!(
        tool.prepare(&object(&[("channel", "telegram")])).unwrap_err(),
        "Missing content parameter"
    );
    assert_eq!(tool.prepare(&object(&[("content", "hi")])).unwrap_err(), "Missing channel parameter");
    tool.set_sender();
    let msg = tool.prepare(&full).unwrap();
    assert_eq!((msg.channel.as_str(), msg.chat_id.as_str(), msg.content.as_str()), ("telegram", "42", "hi"));
    assert!(!msg.is_streaming);
    assert_eq!(msg.message_id, None);
    let msg = tool.prepare(&object(&[("content", "hi"), ("channel", "cli")])).unwrap();
    assert_eq!((msg.channel.as_str(), msg.chat_id.as_str()), ("cli", "default"));
    tool.set_context("telegram".to_string(), "77".to_string());
    let msg = tool.prepare(&object(&[("content", "hi")])).unwrap();
    assert_eq!((msg.channel.as_str(), msg.chat_id.as_str()), ("77", "77"));
    assert_eq!(tool.sent(), "Message sent");
    assert_eq!(tool.name(), "message");
    assert_eq!(tool.description(), "Send a message to a user on a chat channel");
    assert_eq!(
        tool.parameters().get("required"),
        Some(&Json::Array(vec![Json::Text("content".to_string())]))
    );
}

#[test]
fn subagents_are_kept_by_name() {
    let mut tool = SpawnTool::new();
    assert_eq!(
        tool.spawn(&object(&[("name", "scout"), ("task", "look around")])),
        Ok("Subagent 'scout' spawned with task: look around".to_string())
    );
    assert_eq!(tool.spawn(&object(&[("name", "clerk"), ("task", "file it")])).is_ok(), true);
    assert_eq!(tool.spawn(&object(&[("name", "scout"), ("task", "again")])).is_ok(), true);
    assert_eq!(tool.subagents.len(), 2);
    assert_eq!(tool.subagents[0].name, "scout");
    assert_eq!(tool.subagents[0].task, "again");
    assert_eq!(tool.subagents[0].status, "pending");
    assert_eq!(tool.subagents[1].name, "clerk");
    assert_eq!(tool.spawn(&object(&[("task", "x")])), Err("Missing name parameter".to_string()));
    assert_eq!(tool.spawn(&object(&[("name", "x")])), Err("Missing task parameter".to_string()));
    assert_eq!(tool.subagents.len(), 2);
    tool.set_context("cli".to_string(), "direct".to_string());
    assert_eq!(tool.channel, Some("cli".to_string()));
    assert_eq!(tool.chat_id, Some("direct".to_string()));
    assert_eq!(tool.name(), "spawn");
    assert_eq!(tool.description(), "Spawn a background subagent to handle a task");
    assert_eq!(
        tool.parameters().get("required"),
        Some(&Json::Array(vec![Json::Text("name".to_string()), Json::Text("task".to_string())]))
    );
}

fn reminder_args() -> Json {
    object(&[
        ("message", "Test reminder"),
        ("time", "2099-12-31 23:59:59"),
        ("user_id", "test_user"),
        ("channel", "telegram"),
    ])
}

#[test]
fn test_reminder_creation() {
    let mut tool = ReminderTool::new("/tmp/workspace".to_string());

    let args = reminder_args();

    let result = tool.schedule(&args);
    assert!(result.is_ok());

    assert_eq!(tool.reminders.len(), 1);
    assert_eq!(tool.reminders[0].message, "Test reminder");
}

#[test]
fn moments_are_read_as_utc() {
    assert_eq!(parse_moment("1970-01-01 00:00:00"), Ok(0));
    assert_eq!(parse_moment("2099-12-31 23:59:59"), Ok(4102444799));
    assert_eq!(parse_moment("2024-02-29 12:00:01"), Ok(1709208001));
    assert!(parse_moment("2023-02-29 12:00:00").is_err());
    assert!(parse_moment("2024-02-29").is_err());
    assert!(parse_moment("").is_err());
}

#[test]
fn reminders_are_planned_for_the_future() {
    let mut tool = ReminderTool::new("/w".to_string());
    let args = reminder_args();
    assert_eq!(
        tool.schedule_at(&args, 4102444798),
        Ok("Reminder scheduled successfully for 2099-12-31 23:59:59".to_string())
    );
    let kept = &tool.reminders[0];
    assert_eq!(kept.id, "reminder_test_user_4102444799");
    assert_eq!(kept.user_id, "test_user");
    assert_eq!(kept.channel, "telegram");
    assert_eq!(kept.scheduled_time, 4102444799);
    assert_eq!(kept.created_at, 4102444798);
    assert_eq!(kept.repeat_pattern, None);
    assert_eq!(
        tool.schedule_at(&args, 4102444799),
        Err("Scheduled time must be in the future".to_string())
    );
    assert_eq!(tool.reminders.len(), 1);
    let plan = tool.plan(&args, Err("nonsense".to_string()), 0);
    assert_eq!(plan.unwrap_err(), "Failed to parse time: nonsense");
    for (missing, message) in [
        ("message", "Missing message parameter"),
        ("time", "Missing time parameter"),
        ("user_id", "Missing user_id parameter"),
        ("channel", "Missing channel parameter"),
    ] {
        let entries: Vec<(String, Json)> = match reminder_args() {
            Json::Object(e) => e.into_iter().filter(|(k, _)| k != missing).collect(),
            _ => unreachable!(),
        };
        assert_eq!(tool.plan(&Json::Object(entries), Ok(10), 0).unwrap_err(), message);
    }
    assert_eq!(tool.storage_path(), "/w/reminders.json");
}

#[test]
fn reminders_wait_and_repeat() {
    let mut tool = ReminderTool::new("/w".to_string());
    let mut entries = match reminder_args() {
        Json::Object(e) => e,
        _ => unreachable!(),
    };
    entries.push(("repeat".to_string(), Json::Text("daily".to_string())));
    tool.schedule_at(&Json::Object(entries), 100).unwrap();
    let daily = &tool.reminders[0];
    assert_eq!(tool.delay_seconds(daily, 4102444790), 9);
    assert_eq!(tool.delay_seconds(daily, 4102444799), 0);
    assert_eq!(tool.delay_seconds(daily, i64::MAX), 0);
    assert_eq!(tool.delay_seconds(daily, i64::MIN), 4102444799u64 + (1u64 << 63));
    assert_eq!(tool.reminder_text(daily), "⏰ **REMINDER**: Test reminder");
    let next = tool.next_daily(daily, 5).unwrap();
    assert_eq!(next.scheduled_time, 4102444799 + 86400);
    assert_eq!(next.id, "reminder_test_user_4102444799_repeat_4102531199");
    assert_eq!(next.created_at, 5);
    assert_eq!(next.repeat_pattern, Some("daily".to_string()));
    assert_eq!(next.message, "Test reminder");
    tool.schedule_at(&reminder_args(), 100).unwrap();
    assert!(tool.next_daily(&tool.reminders[1], 5).is_none());
    assert_eq!(tool.name(), "reminder");
}
