use santosobot::agent::context::{bootstrap_file_names, BootstrapFile, PromptInputs};
use santosobot::agent::history::SessionHistory;
use santosobot::agent::{ContextBuilder, MemoryStore};
use santosobot::providers::types::ChatMessage;

fn inputs() -> PromptInputs {
    PromptInputs {
        now: "2024-05-01 10:30 (Wednesday)".to_string(),
        bootstrap: vec![],
        long_term_memory: String::new(),
    }
}

fn history() -> SessionHistory {
    let mut history = SessionHistory::new();
    history.record_turn("Hello", "Hi there!", vec![]);
    history
}

#[test]
fn test_context_builder_creation() {
    let context_builder = ContextBuilder::new("/tmp/workspace");

    assert_eq!(context_builder.workspace, "/tmp/workspace");
}

#[test]
fn test_build_system_prompt() {
    let context_builder = ContextBuilder::new("/tmp/workspace");

    let prompt = context_builder.build_system_prompt(&inputs());

    assert!(prompt.contains("# Santoso 🤖"));
    assert!(prompt.contains("You are Santoso, a helpful AI assistant."));
    assert!(prompt.contains("Workspace"));
    assert!(prompt.contains("Your Capabilities"));
}

#[test]
fn test_build_messages() {
    let context_builder = ContextBuilder::new("/tmp/workspace");

    let messages = context_builder.build_messages(
        &inputs(),
        &history(),
        "How are you?",
        Some("cli"),
        Some("test-chat"),
    );

    assert!(messages.len() >= 3);

    assert_eq!(messages[0].role, "system");

    assert_eq!(messages[messages.len() - 1].role, "user");
    assert_eq!(messages[messages.len() - 1].content, "How are you?");
}

#[test]
fn test_load_bootstrap_files() {
    let context_builder = ContextBuilder::new("/tmp/workspace");
    let mut given = inputs();
    given.bootstrap.push(BootstrapFile {
        name: "AGENTS.md".to_string(),
        content: "# Agents\nSpecialized agents for various tasks".to_string(),
    });
    let prompt = context_builder.build_system_prompt(&given);

    assert!(prompt.contains("## AGENTS.md"));
    assert!(prompt.contains("Specialized agents for various tasks"));
}

fn identity(now: &str, ws: &str) -> String {
    format!(
        "# Santoso 🤖\n\nYou are Santoso, a helpful AI assistant.\n\n## Current Time\n{}\n\n## Workspace\nYour workspace is at: {}\n- Long-term memory: {}/memory/MEMORY.md\n- History log: {}/memory/HISTORY.md\n\n## Your Capabilities\nYou have access to tools that allow you to:\n- Read, write, and edit files\n- Execute shell commands\n- Fetch web pages\n- Send messages to users\n- Spawn subagents for background tasks\n\nIMPORTANT: When responding to direct questions or conversations, reply directly with your text response.\nOnly use the 'message' tool when you need to send a message to a specific chat channel.\n\nAlways be helpful, accurate, and concise. When using tools, think step by step.\nWhen remembering something important, write to {}/memory/MEMORY.md",
        now, ws, ws, ws, ws
    )
}

#[test]
fn system_prompt_is_identity_alone_without_files_and_memory() {
    let builder = ContextBuilder::new("/w");
    assert_eq!(
        builder.build_system_prompt(&inputs()),
        identity("2024-05-01 10:30 (Wednesday)", "/w")
    );
}

#[test]
fn system_prompt_joins_its_sections() {
    let builder = ContextBuilder::new("/w");
    let given = PromptInputs {
        now: "now".to_string(),
        bootstrap: vec![
            BootstrapFile { name: "AGENTS.md".to_string(), content: "  agents\n".to_string() },
            BootstrapFile { name: "SOUL.md".to_string(), content: " \n\t".to_string() },
            BootstrapFile { name: "USER.md".to_string(), content: "user".to_string() },
        ],
        long_term_memory: "likes tea".to_string(),
    };
    let expected = format!(
        "{}\n\n---\n\n## AGENTS.md\n\nagents\n\n## USER.md\n\nuser\n\n---\n\n## Long-term Memory\n\nlikes tea",
        identity("now", "/w")
    );
    assert_eq!(builder.build_system_prompt(&given), expected);
}

#[test]
fn system_prompt_with_tools_shows_the_catalogue() {
    let builder = ContextBuilder::new("/w");
    let prompt = builder.build_system_prompt_with_tools(&inputs(), "[TOOLS]");
    let expected = format!(
        "{}\n\n## Available Tools\nYou have access to the following tools. When you need to use a tool, respond with a JSON object in this format:\n```json\n{{\n    \"tool\": \"tool_name\",\n    \"arguments\": {{\n        \"arg1\": \"value1\",\n        \"arg2\": \"value2\"\n    }}\n}}\n```\n\nAvailable tools:\n[TOOLS]\n\nAfter receiving the tool result, you can continue with your response or use another tool if needed.\nIf the user's request doesn't require any tools, just respond naturally with text.",
        identity("2024-05-01 10:30 (Wednesday)", "/w")
    );
    assert_eq!(prompt, expected);
}

#[test]
fn messages_are_prompt_history_and_question() {
    let builder = ContextBuilder::new("/w");
    let mut history = history();
    history.record_turn("Second", "Answer two", vec!["shell".to_string()]);
    let messages =
        builder.build_messages(&inputs(), &history, "Now?", Some("telegram"), Some("42"));
    assert_eq!(messages.len(), 6);
    assert_eq!(
        messages[0].content,
        format!(
            "{}\n\n## Current Session\nChannel: telegram\nChat ID: 42",
            identity("2024-05-01 10:30 (Wednesday)", "/w")
        )
    );
    let roles: Vec<&str> = messages.iter().map(|m| m.role.as_str()).collect();
    assert_eq!(roles, vec!["system", "user", "assistant", "user", "assistant", "user"]);
    let contents: Vec<&str> = messages[1..].iter().map(|m| m.content.as_str()).collect();
    assert_eq!(contents, vec!["Hello", "Hi there!", "Second", "Answer two", "Now?"]);
    let without = builder.build_messages(&inputs(), &SessionHistory::new(), "Q", Some("cli"), None);
    assert_eq!(without.len(), 2);
    assert_eq!(without[0].content, identity("2024-05-01 10:30 (Wednesday)", "/w"));
    let with_tools = builder.build_messages_with_tools(
        &inputs(),
        &SessionHistory::new(),
        "Q",
        None,
        Some("42"),
        "[]",
    );
    assert_eq!(with_tools.len(), 2);
    assert!(with_tools[0].content.contains("Available tools:\n[]\n"));
    assert!(!with_tools[0].content.contains("Current Session"));
}

#[test]
fn adding_messages() {
    let builder = ContextBuilder::new("/w");
    let mut messages = vec![ChatMessage::system("s")];
    builder.add_tool_result(&mut messages, "call_1", "shell", "done");
    builder.add_assistant_message(&mut messages, None);
    builder.add_assistant_message(&mut messages, Some("said"));
    assert_eq!(messages.len(), 3);
    assert_eq!(messages[1].role, "tool");
    assert_eq!(messages[1].content, "done");
    assert_eq!(messages[1].tool_call_id, Some("call_1".to_string()));
    assert_eq!(messages[2].role, "assistant");
    assert_eq!(messages[2].content, "said");
}

#[test]
fn bootstrap_files_are_five() {
    assert_eq!(
        bootstrap_file_names(),
        vec!["AGENTS.md", "SOUL.md", "USER.md", "TOOLS.md", "IDENTITY.md"]
    );
}

#[test]
fn test_memory_store_creation() {
    let memory_store = MemoryStore::new("/tmp/workspace");

    assert_eq!(memory_store.memory_dir, "/tmp/workspace/memory");
    assert_eq!(memory_store.memory_file, "/tmp/workspace/memory/MEMORY.md");
    assert_eq!(memory_store.history_file, "/tmp/workspace/memory/HISTORY.md");
}

#[test]
fn test_memory_store_get_memory_context() {
    let memory_store = MemoryStore::new("/tmp/workspace");

    assert!(memory_store.get_memory_context("").is_empty());

    let test_content = "Important information";

    let context = memory_store.get_memory_context(test_content);
    assert!(context.contains(test_content));
    assert!(context.contains("## Long-term Memory"));
    assert_eq!(context, "## Long-term Memory\n\nImportant information");
}

#[test]
fn memory_store_records_and_rotation() {
    let memory_store = MemoryStore::new("/w");
    assert_eq!(memory_store.history_record("  Test history entry \n"), "Test history entry\n\n");
    assert_eq!(memory_store.history_record(""), "\n\n");
    assert!(!memory_store.needs_rotation(10, 10));
    assert!(memory_store.needs_rotation(11, 10));
    assert_eq!(memory_store.backup_file(), "/w/memory/HISTORY.md.backup");
    assert!(memory_store.is_old_backup("HISTORY.backup"));
    assert!(memory_store.is_old_backup("HISTORY.backup.1"));
    assert!(!memory_store.is_old_backup("HISTORY.md.backup"));
    assert!(!memory_store.is_old_backup("history.backup"));
}
