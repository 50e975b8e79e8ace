use santosobot::agent::tools::filesystem::{is_within, DirEntry};
use santosobot::agent::tools::{EditFileTool, ListDirTool, ReadFileTool, WriteFileTool};
use santosobot::json::Json;

#[test]
fn test_validate_path_allowed_dir() {
    let allowed_dir = "/tmp/workspace".to_string();

    let tool = ReadFileTool::new(Some(allowed_dir.clone()));
    assert_eq!(tool.allowed_dir, Some(allowed_dir));
}

fn ok(s: &str) -> Result<String, String> {
    Ok(s.to_string())
}

fn err(s: &str) -> Result<String, String> {
    Err(s.to_string())
}

#[test]
fn paths_lie_within_by_whole_names() {
    assert!(is_within("/w", "/w"));
    assert!(is_within("/w/a.txt", "/w"));
    assert!(is_within("/w/a/b", "/w/"));
    assert!(is_within("/anything", "/"));
    assert!(!is_within("/work/a.txt", "/w"));
    assert!(!is_within("/", "/w"));
    assert!(!is_within("/x/w/a", "/w"));
    assert!(!is_within("/w", "/w/a"));
}

#[test]
fn read_paths() {
    let free = ReadFileTool::new(None);
    assert_eq!(free.validate_path("any/path", &err("unused"), &err("unused")), ok("any/path"));
    let tool = ReadFileTool::new(Some("/w".to_string()));
    assert_eq!(tool.validate_path("a.txt", &ok("/w/a.txt"), &ok("/w")), ok("a.txt"));
    assert_eq!(
        tool.validate_path("../etc/passwd", &ok("/etc/passwd"), &ok("/w")),
        err("Path outside workspace not allowed")
    );
    assert_eq!(
        tool.validate_path("gone", &err("No such file"), &ok("/w")),
        err("Invalid path: No such file")
    );
    assert_eq!(
        tool.validate_path("a.txt", &ok("/w/a.txt"), &err("No such directory")),
        err("Invalid workspace: No such directory")
    );
    assert_eq!(
        tool.validate_path("gone", &err("first"), &err("second")),
        err("Invalid path: first")
    );
}

#[test]
fn write_paths() {
    let free = WriteFileTool::new(None);
    assert_eq!(free.validate_path("rel.txt", "/cwd/rel.txt", &err("unused"), &None), ok("rel.txt"));
    let tool = WriteFileTool::new(Some("/w".to_string()));
    let parent = Some("/w/sub".to_string());
    assert_eq!(tool.validate_path("sub/n.txt", "/w/sub/n.txt", &ok("/w"), &parent), ok("/w/sub/n.txt"));
    assert_eq!(
        tool.validate_path("sub/n.txt", "/w/sub/n.txt", &err("gone"), &parent),
        err("Invalid workspace: gone")
    );
    assert_eq!(
        tool.validate_path("sub/n.txt", "/w/sub/n.txt", &ok("/w"), &None),
        err("Path validation failed: parent directory does not exist")
    );
    assert_eq!(
        tool.validate_path("/etc/n.txt", "/etc/n.txt", &ok("/w"), &Some("/etc".to_string())),
        err("Path outside workspace not allowed")
    );
    assert_eq!(
        tool.validate_path("sub/../n.txt", "/w/sub/../n.txt", &ok("/w"), &Some("/w".to_string())),
        err("Path contains invalid sequences")
    );
    assert_eq!(tool.written("n.txt"), "File written successfully: n.txt");
}

#[test]
fn edits_replace_every_occurrence() {
    let tool = EditFileTool::new(None);
    assert_eq!(tool.apply_edit("Original content", "Original", "Modified"), ok("Modified content"));
    assert_eq!(tool.apply_edit("a-b-a-b", "a", "xy"), ok("xy-b-xy-b"));
    assert_eq!(tool.apply_edit("aaa", "aa", "b"), ok("ba"));
    assert_eq!(tool.apply_edit("abc", "abc", ""), ok(""));
    assert_eq!(tool.apply_edit("ab", "", "-"), ok("-a-b-"));
    assert_eq!(tool.apply_edit("", "", "-"), ok("-"));
    assert_eq!(tool.apply_edit("abc", "x", "y"), err("old_string not found in file"));
    assert_eq!(tool.apply_edit("", "x", "y"), err("old_string not found in file"));
}

#[test]
fn listings_mark_directories() {
    let tool = ListDirTool::new(None);
    let entries = vec![
        DirEntry { name: "subdir".to_string(), is_dir: true },
        DirEntry { name: "file.txt".to_string(), is_dir: false },
    ];
    assert_eq!(tool.format_listing(&entries), "subdir/\nfile.txt");
    assert_eq!(tool.format_listing(&vec![]), "");
}

#[test]
fn file_tools_describe_themselves() {
    assert_eq!(ReadFileTool::new(None).name(), "read_file");
    assert_eq!(ReadFileTool::new(None).description(), "Read contents of a file");
    assert_eq!(WriteFileTool::new(None).name(), "write_file");
    assert_eq!(
        WriteFileTool::new(None).description(),
        "Write content to a file (creates or overwrites)"
    );
    assert_eq!(EditFileTool::new(None).name(), "edit_file");
    assert_eq!(EditFileTool::new(None).description(), "Edit a file by replacing specific text");
    assert_eq!(ListDirTool::new(None).name(), "list_dir");
    assert_eq!(ListDirTool::new(None).description(), "List files in a directory");
    let params = EditFileTool::new(None).parameters();
    assert_eq!(
        params.get("required"),
        Some(&Json::Array(vec![
            Json::Text("path".to_string()),
            Json::Text("old_string".to_string()),
            Json::Text("new_string".to_string()),
        ]))
    );
    let write = WriteFileTool::new(None).parameters();
    assert_eq!(
        write.get("properties").unwrap().get("content").unwrap().get("description"),
        Some(&Json::Text("Content to write to the file".to_string()))
    );
    let read = ReadFileTool::new(None).parameters();
    assert_eq!(
        read.get("properties").unwrap().get("path").unwrap().get("description"),
        Some(&Json::Text("Path to the file to read".to_string()))
    );
    let list = ListDirTool::new(None).parameters();
    assert_eq!(
        list.get("properties").unwrap().get("path").unwrap().get("description"),
        Some(&Json::Text("Directory path to list".to_string()))
    );
}
