use santosobot::agent::tools::{Tool, ToolRegistry};
use santosobot::agent::turn::{tool_result_text, AgentTurn, Step, TurnOutcome};
use santosobot::json::Json;
use santosobot::providers::types::ChatMessage;
use std::sync::{Arc, Mutex};

struct Counting {
    name: &'static str,
    calls: Arc<Mutex<u32>>,
    fails: bool,
}

impl Tool for Counting {
    fn name(&self) -> &str {
        self.name
    }

    fn description(&self) -> &str {
        "Counts its calls"
    }

    fn parameters(&self) -> Json {
        Json::Object(vec![])
    }

    fn execute(&self, _args: Json) -> Result<String, String> {
        let mut calls = self.calls.lock().unwrap();
        *calls += 1;
        let count = *calls;
        if self.fails {
            Err(format!("failure {}", count))
        } else {
            Ok(format!("result {}", count))
        }
    }
}

fn tools(fails: bool) -> (ToolRegistry, Arc<Mutex<u32>>) {
    let calls = Arc::new(Mutex::new(0));
    let mut registry = ToolRegistry::new();
    registry.register(Counting { name: "echo", calls: calls.clone(), fails });
    (registry, calls)
}

fn start(max_iterations: u32) -> AgentTurn {
    AgentTurn::new(vec![ChatMessage::system("prompt"), ChatMessage::user("hello")], max_iterations)
}

const CALL: &str = "I will use a tool.\n```json\n{\"tool\":\"echo\",\"arguments\":{\"x\":1}}\n```\nWait.";

fn expect_call(step: Step) -> Vec<ChatMessage> {
    match step {
        Step::CallModel(messages) => messages,
        other => panic!("turn ended early: {:?}", other),
    }
}

fn expect_done(step: Step) -> TurnOutcome {
    match step {
        Step::Done(outcome) => outcome,
        other => panic!("turn did not end in an outcome: {:?}", other),
    }
}

#[test]
fn plain_text_is_answered_after_one_iteration() {
    let (registry, calls) = tools(false);
    let mut turn = start(20);
    let messages = expect_call(turn.next());
    assert_eq!(messages.len(), 2);
    assert_eq!(turn.iterations(), 1);
    turn.receive("  Just an answer.\n", &registry, 5);
    match expect_done(turn.next()) {
        TurnOutcome::Answered(text) => assert_eq!(text, "  Just an answer.\n"),
        other => panic!("unexpected outcome {:?}", other),
    }
    assert_eq!(turn.iterations(), 1);
    assert_eq!(*calls.lock().unwrap(), 0);
    assert!(turn.tools_used().is_empty());
}

#[test]
fn tool_call_on_every_iteration_uses_up_the_limit() {
    let (registry, calls) = tools(false);
    let n = 3;
    let mut turn = start(n);
    for round in 1..=n {
        let messages = expect_call(turn.next());
        assert_eq!(turn.iterations(), round);
        assert_eq!(messages.len(), 2 + 3 * (round as usize - 1));
        turn.receive(CALL, &registry, round as i64);
        assert_eq!(*calls.lock().unwrap(), round);
    }
    match expect_done(turn.next()) {
        TurnOutcome::AnsweredFromToolResults(text) => {
            assert_eq!(text, "result 1\nresult 2\nresult 3")
        }
        other => panic!("unexpected outcome {:?}", other),
    }
    assert_eq!(turn.iterations(), n);
    assert_eq!(turn.tools_used(), vec!["echo", "echo", "echo"]);
}

#[test]
fn detected_tool_runs_exactly_once() {
    let (registry, calls) = tools(false);
    let mut turn = start(5);
    expect_call(turn.next());
    turn.receive(CALL, &registry, 77);
    assert_eq!(*calls.lock().unwrap(), 1);
    let messages = expect_call(turn.next());
    assert_eq!(messages.len(), 5);
    assert_eq!(messages[2].role, "assistant");
    assert_eq!(messages[2].content, CALL);
    assert_eq!(messages[3].role, "tool");
    assert_eq!(messages[3].content, "result 1");
    assert_eq!(messages[3].tool_call_id, Some("call_77".to_string()));
    assert_eq!(messages[4].role, "user");
    assert_eq!(
        messages[4].content,
        "Tool executed. Continue with your response or use another tool if needed."
    );
    turn.receive("All done.", &registry, 78);
    assert_eq!(*calls.lock().unwrap(), 1);
    match expect_done(turn.next()) {
        TurnOutcome::Answered(text) => assert_eq!(text, "All done."),
        other => panic!("unexpected outcome {:?}", other),
    }
    assert_eq!(turn.iterations(), 2);
    assert_eq!(turn.tools_used(), vec!["echo"]);
}

#[test]
fn failing_tool_still_ends_the_turn() {
    let (registry, calls) = tools(true);
    let limit = 4;
    let mut turn = start(limit);
    let mut rounds = 0;
    loop {
        match turn.next() {
            Step::CallModel(messages) => {
                rounds += 1;
                assert!(rounds <= limit);
                if rounds > 1 {
                    let fed_back = &messages[messages.len() - 2];
                    assert_eq!(fed_back.role, "tool");
                    assert_eq!(fed_back.content, format!("Error: failure {}", rounds - 1));
                }
                turn.receive(CALL, &registry, 0);
            }
            Step::Done(outcome) => {
                match outcome {
                    TurnOutcome::AnsweredFromToolResults(text) => assert_eq!(
                        text,
                        "Error: failure 1\nError: failure 2\nError: failure 3\nError: failure 4"
                    ),
                    other => panic!("unexpected outcome {:?}", other),
                }
                break;
            }
            Step::Failed(error) => panic!("turn failed: {}", error),
        }
    }
    assert_eq!(rounds, limit);
    assert_eq!(*calls.lock().unwrap(), limit);
}

#[test]
fn malformed_fence_becomes_the_answer() {
    let (registry, calls) = tools(false);
    for text in [
        "Here:\n```json\n{\"tool\": \"echo\", \"arguments\": \n```\nOops.",
        "Here:\n```json\n{\"tool\":\"missing\",\"arguments\":{}}\n```\nOops.",
    ] {
        let mut turn = start(3);
        expect_call(turn.next());
        turn.receive(text, &registry, 1);
        match expect_done(turn.next()) {
            TurnOutcome::Answered(answer) => assert_eq!(answer, text),
            other => panic!("unexpected outcome {:?}", other),
        }
        assert_eq!(turn.iterations(), 1);
    }
    assert_eq!(*calls.lock().unwrap(), 0);
}

#[test]
fn no_iterations_give_no_response() {
    let mut turn = start(0);
    assert!(matches!(expect_done(turn.next()), TurnOutcome::NoResponse));
    assert_eq!(turn.iterations(), 0);
    assert!(matches!(expect_done(turn.next()), TurnOutcome::NoResponse));
}

#[test]
fn a_failed_model_call_ends_the_turn() {
    let (registry, calls) = tools(false);
    let mut turn = start(5);
    expect_call(turn.next());
    turn.receive(CALL, &registry, 1);
    expect_call(turn.next());
    turn.fail("LLM API error: 503 - overloaded");
    for _ in 0..2 {
        match turn.next() {
            Step::Failed(error) => assert_eq!(error, "LLM API error: 503 - overloaded"),
            other => panic!("unexpected step {:?}", other),
        }
    }
    assert_eq!(turn.iterations(), 2);
    assert_eq!(*calls.lock().unwrap(), 1);
    assert_eq!(turn.tools_used(), vec!["echo"]);

    let mut at_once = start(5);
    at_once.fail("connection refused");
    match at_once.next() {
        Step::Failed(error) => assert_eq!(error, "connection refused"),
        other => panic!("unexpected step {:?}", other),
    }
    assert_eq!(at_once.iterations(), 0);
}

#[test]
fn tool_result_text_marks_errors() {
    assert_eq!(tool_result_text(Ok("fine".to_string())), "fine");
    assert_eq!(tool_result_text(Err("bad".to_string())), "Error: bad");
    assert_eq!(tool_result_text(Err(String::new())), "Error: ");
}
