use santosobot::agent::tools::{Tool, ToolRegistry};
use santosobot::json::Json;

struct MockTool {
    name: String,
    description: String,
}

fn mock(name: &str, description: &str) -> MockTool {
    MockTool { name: name.to_string(), description: description.to_string() }
}

fn test_param_schema() -> Json {
    Json::Object(vec![
        ("type".to_string(), Json::Text("object".to_string())),
        (
            "properties".to_string(),
            Json::Object(vec![(
                "test_param".to_string(),
                Json::Object(vec![
                    ("type".to_string(), Json::Text("string".to_string())),
                    ("description".to_string(), Json::Text("A test parameter".to_string())),
                ]),
            )]),
        ),
        ("required".to_string(), Json::Array(vec![Json::Text("test_param".to_string())])),
    ])
}

fn test_args() -> Json {
    Json::Object(vec![("test_param".to_string(), Json::Text("value".to_string()))])
}

impl Tool for MockTool {
    fn name(&self) -> &str {
        &self.name
    }

    fn description(&self) -> &str {
        &self.description
    }

    fn parameters(&self) -> Json {
        test_param_schema()
    }

    fn execute(&self, _args: Json) -> Result<String, String> {
        Ok(format!("Executed {}", self.name))
    }
}

#[test]
fn test_tool_registry_register_and_get() {
    let mut registry = ToolRegistry::new();

    let mock_tool = mock("test_tool", "A test tool");

    registry.register(mock_tool);

    let definitions = registry.get_definitions();
    assert_eq!(definitions.len(), 1);
    assert_eq!(definitions[0].function.name, "test_tool");
}

#[test]
fn test_tool_registry_execute() {
    let mut registry = ToolRegistry::new();

    let mock_tool = mock("test_tool", "A test tool");

    registry.register(mock_tool);

    let result = registry.execute("test_tool", test_args());
    assert!(result.is_ok());
    assert_eq!(result.unwrap(), "Executed test_tool");
}

#[test]
fn test_tool_registry_execute_nonexistent() {
    let registry = ToolRegistry::new();

    let result = registry.execute("nonexistent_tool", Json::Object(vec![]));
    assert!(result.is_err());
    assert!(result.unwrap_err().contains("Tool not found"));
}

#[test]
fn test_tool_registry_multiple_tools() {
    let mut registry = ToolRegistry::new();

    registry.register(mock("tool1", "First tool"));

    registry.register(mock("tool2", "Second tool"));

    let definitions = registry.get_definitions();
    assert_eq!(definitions.len(), 2);

    let result1 = registry.execute("tool1", test_args());
    assert!(result1.is_ok());

    let result2 = registry.execute("tool2", test_args());
    assert!(result2.is_ok());
}

#[test]
fn registering_a_name_again_replaces_the_tool() {
    let mut registry = ToolRegistry::new();
    registry.register(mock("echo", "first"));
    registry.register(mock("other", "another"));
    registry.register(mock("echo", "second"));

    let definitions = registry.get_definitions();
    assert_eq!(definitions.len(), 2);
    let named: Vec<_> = definitions.iter().filter(|d| d.function.name == "echo").collect();
    assert_eq!(named.len(), 1);
    assert_eq!(named[0].function.description, "second");
    assert_eq!(named[0].tool_type, "function");
    assert_eq!(named[0].function.parameters, test_param_schema());
    assert_eq!(registry.get("echo").unwrap().description(), "second");
    assert_eq!(registry.get("other").unwrap().description(), "another");
    assert_eq!(registry.len(), 2);
}

struct Fixed {
    name: &'static str,
    answer: &'static str,
}

impl Tool for Fixed {
    fn name(&self) -> &str {
        self.name
    }

    fn description(&self) -> &str {
        "Gives a fixed answer"
    }

    fn parameters(&self) -> Json {
        Json::Null
    }

    fn execute(&self, args: Json) -> Result<String, String> {
        Ok(format!("{} {:?}", self.answer, args))
    }
}

#[test]
fn the_tool_under_a_name_is_the_one_registered_last() {
    let mut registry = ToolRegistry::new();
    registry.register(Fixed { name: "a", answer: "first a" });
    registry.register(Fixed { name: "b", answer: "first b" });
    registry.register_boxed(Box::new(Fixed { name: "a", answer: "second a" }));
    assert_eq!(registry.execute("a", Json::Bool(true)), Ok("second a Bool(true)".to_string()));
    assert_eq!(registry.execute("b", Json::Null), Ok("first b Null".to_string()));
    assert_eq!(
        registry.get("a").unwrap().execute(Json::Null),
        Ok("second a Null".to_string())
    );
    registry.register_as(
        "b".to_string(),
        "Replaced".to_string(),
        Json::Null,
        Box::new(Fixed { name: "ignored", answer: "second b" }),
    );
    assert_eq!(registry.execute("b", Json::Null), Ok("second b Null".to_string()));
    assert_eq!(registry.execute("a", Json::Null), Ok("second a Null".to_string()));
    assert_eq!(registry.len(), 2);
}

#[test]
fn unregistered_name_is_not_found() {
    let mut registry = ToolRegistry::new();
    registry.register(mock("echo", "an echo"));
    assert_eq!(
        registry.execute("missing", Json::Null),
        Err("Tool not found: missing".to_string())
    );
    assert!(registry.get("missing").is_none());
    assert!(!registry.contains("missing"));
    assert!(registry.contains("echo"));
    assert!(!registry.contains("ech"));
    assert!(!registry.contains("Echo"));
}

#[test]
fn boxed_registration_and_default_registry() {
    let mut registry = ToolRegistry::default();
    assert_eq!(registry.len(), 0);
    assert!(registry.get_definitions().is_empty());
    registry.register_boxed(Box::new(mock("boxed", "in a box")));
    registry.register_boxed(Box::new(FailingTool));
    assert_eq!(registry.execute("boxed", Json::Null), Ok("Executed boxed".to_string()));
    assert_eq!(registry.execute("broken", Json::Null), Err("it broke".to_string()));
    registry.register_as(
        "alias".to_string(),
        "Under another name".to_string(),
        Json::Null,
        Box::new(mock("inner", "hidden")),
    );
    assert_eq!(registry.execute("alias", Json::Null), Ok("Executed inner".to_string()));
    assert!(!registry.contains("inner"));
    let definitions = registry.get_definitions();
    assert_eq!(definitions[2].function.name, "alias");
    assert_eq!(definitions[2].function.description, "Under another name");
    assert_eq!(definitions[2].function.parameters, Json::Null);
}

struct FailingTool;

impl Tool for FailingTool {
    fn name(&self) -> &str {
        "broken"
    }

    fn description(&self) -> &str {
        "Always fails"
    }

    fn parameters(&self) -> Json {
        Json::Object(vec![])
    }

    fn execute(&self, _args: Json) -> Result<String, String> {
        Err("it broke".to_string())
    }
}

#[test]
fn tool_error_is_handed_back_unchanged() {
    let mut registry = ToolRegistry::new();
    registry.register(FailingTool);
    assert_eq!(registry.execute("broken", Json::Null), Err("it broke".to_string()));
}
