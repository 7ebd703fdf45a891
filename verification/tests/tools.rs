use rig_code::descriptor::{ParameterSchema, Property, ToolDescriptor};
use rig_code::document::{Document, Field};
use rig_code::error::ToolError;
use rig_code::runner::Execution;
use rig_code::tools::{
    Bash, BashArgs, ReadFile, ReadFileArgs, WriteFile, WriteFileArgs, WriteOutcome, BASH_NAME,
    READ_FILE_NAME, WRITE_FILE_NAME,
};

fn string_property(name: &str, description: &str) -> Property {
    Property {
        name: String::from(name),
        kind: String::from("string"),
        description: String::from(description),
    }
}

#[test]
fn the_tools_are_called_by_their_names() {
    assert_eq!(READ_FILE_NAME, "read_file");
    assert_eq!(WRITE_FILE_NAME, "write_file");
    assert_eq!(BASH_NAME, "bash");
    assert_eq!(ReadFile.definition(String::new()).name, READ_FILE_NAME);
    assert_eq!(WriteFile.definition(String::new()).name, WRITE_FILE_NAME);
    assert_eq!(Bash.definition(String::new()).name, BASH_NAME);
}

#[test]
fn read_file_declares_a_required_path() {
    let descriptor = ReadFile.definition(String::new());
    assert_eq!(
        descriptor,
        ToolDescriptor {
            name: String::from("read_file"),
            description: String::from(
                "Read the contents of a file at the specified path. Returns the file contents as a string."
            ),
            parameters: ParameterSchema {
                kind: String::from("object"),
                properties: vec![string_property("path", "The path to the file to read")],
                required: vec![String::from("path")],
            },
        }
    );
    assert!(descriptor.is_well_formed());
}

#[test]
fn write_file_declares_a_required_path_and_content() {
    let descriptor = WriteFile.definition(String::from("any prompt"));
    assert_eq!(
        descriptor,
        ToolDescriptor {
            name: String::from("write_file"),
            description: String::from(
                "Write content to a file at the specified path. Creates parent directories if they don't exist. Overwrites the file if it already exists."
            ),
            parameters: ParameterSchema {
                kind: String::from("object"),
                properties: vec![
                    string_property("path", "The path to the file to write"),
                    string_property("content", "The content to write to the file"),
                ],
                required: vec![String::from("path"), String::from("content")],
            },
        }
    );
    assert!(descriptor.is_well_formed());
}

#[test]
fn bash_declares_a_required_command() {
    let descriptor = Bash.definition(String::new());
    assert_eq!(
        descriptor,
        ToolDescriptor {
            name: String::from("bash"),
            description: String::from(
                "Execute a bash command and return its output. Use this for running shell commands, git operations, running tests, installing packages, etc. The command runs in the current working directory."
            ),
            parameters: ParameterSchema {
                kind: String::from("object"),
                properties: vec![string_property("command", "The bash command to execute")],
                required: vec![String::from("command")],
            },
        }
    );
    assert!(descriptor.is_well_formed());
}

fn text(text: &str) -> Document {
    Document::Text(String::from(text))
}

fn field(name: &str, value: Document) -> Field {
    Field { name: String::from(name), value }
}

#[test]
fn the_schema_of_read_file_as_a_document() {
    assert_eq!(
        ReadFile.definition(String::new()).parameters.document(),
        Document::Object(vec![
            field("type", text("object")),
            field(
                "properties",
                Document::Object(vec![field(
                    "path",
                    Document::Object(vec![
                        field("type", text("string")),
                        field("description", text("The path to the file to read")),
                    ]),
                )]),
            ),
            field("required", Document::List(vec![text("path")])),
        ])
    );
}

#[test]
fn the_schema_of_write_file_as_a_document() {
    assert_eq!(
        WriteFile.definition(String::new()).parameters.document(),
        Document::Object(vec![
            field("type", text("object")),
            field(
                "properties",
                Document::Object(vec![
                    field(
                        "path",
                        Document::Object(vec![
                            field("type", text("string")),
                            field("description", text("The path to the file to write")),
                        ]),
                    ),
                    field(
                        "content",
                        Document::Object(vec![
                            field("type", text("string")),
                            field("description", text("The content to write to the file")),
                        ]),
                    ),
                ]),
            ),
            field("required", Document::List(vec![text("path"), text("content")])),
        ])
    );
}

#[test]
fn the_schema_of_bash_as_a_document() {
    assert_eq!(
        Bash.definition(String::new()).parameters.document(),
        Document::Object(vec![
            field("type", text("object")),
            field(
                "properties",
                Document::Object(vec![field(
                    "command",
                    Document::Object(vec![
                        field("type", text("string")),
                        field("description", text("The bash command to execute")),
                    ]),
                )]),
            ),
            field("required", Document::List(vec![text("command")])),
        ])
    );
}

#[test]
fn a_descriptor_as_a_document() {
    assert_eq!(
        Bash.definition(String::new()).document(),
        Document::Object(vec![
            field("name", text("bash")),
            field(
                "description",
                text(
                    "Execute a bash command and return its output. Use this for running shell commands, git operations, running tests, installing packages, etc. The command runs in the current working directory."
                )
            ),
            field("parameters", Bash.definition(String::new()).parameters.document()),
        ])
    );
}

#[test]
fn documents_are_built_from_their_parts() {
    assert_eq!(Document::text("a"), text("a"));
    assert_eq!(Document::list(vec![text("a"), text("b")]), Document::List(vec![text("a"), text("b")]));
    assert_eq!(
        Document::object(vec![Field::new("k", text("v"))]),
        Document::Object(vec![field("k", text("v"))])
    );
    assert_eq!(
        string_property("n", "d").document(),
        Document::Object(vec![field("type", text("string")), field("description", text("d"))])
    );
}

#[test]
fn the_definition_does_not_depend_on_the_prompt() {
    assert_eq!(Bash.definition(String::new()), Bash.definition(String::from("list the files")));
}

#[test]
fn a_schema_that_requires_an_undeclared_argument_is_not_well_formed() {
    let schema = ParameterSchema {
        kind: String::from("object"),
        properties: vec![string_property("path", "")],
        required: vec![String::from("path"), String::from("mode")],
    };
    assert!(schema.declares(&String::from("path")));
    assert!(!schema.declares(&String::from("mode")));
    assert!(!schema.is_well_formed());
}

#[test]
fn a_schema_that_declares_a_name_twice_is_not_well_formed() {
    let schema = ParameterSchema {
        kind: String::from("object"),
        properties: vec![
            string_property("path", "one"),
            string_property("content", ""),
            string_property("path", "two"),
        ],
        required: vec![String::from("path")],
    };
    assert!(!schema.is_well_formed());
}

#[test]
fn a_schema_without_arguments_is_well_formed() {
    let schema = ParameterSchema {
        kind: String::from("object"),
        properties: Vec::new(),
        required: Vec::new(),
    };
    assert!(schema.is_well_formed());
    assert!(!schema.declares(&String::new()));
}

#[test]
fn read_file_returns_the_content_as_it_was_read() {
    let args = ReadFileArgs { path: String::from("notes/a.txt") };
    assert_eq!(
        ReadFile.call(args.clone(), Ok(String::from("line one\nline two\n"))),
        Ok(String::from("line one\nline two\n"))
    );
    assert_eq!(ReadFile.call(args.clone(), Ok(String::new())), Ok(String::new()));
}

#[test]
fn read_file_reports_the_path_and_the_cause() {
    let args = ReadFileArgs { path: String::from("notes/a.txt") };
    let result = ReadFile.call(args.clone(), Err(String::from("No such file or directory (os error 2)")));
    assert_eq!(
        result,
        Err(ToolError::new(String::from(
            "Failed to read file 'notes/a.txt': No such file or directory (os error 2)"
        )))
    );
    assert_eq!(
        result.unwrap_err().to_string(),
        "Failed to read file 'notes/a.txt': No such file or directory (os error 2)"
    );
}

#[test]
fn read_file_reports_an_empty_path_as_any_other() {
    let args = ReadFileArgs { path: String::new() };
    assert_eq!(
        ReadFile.call(args.clone(), Err(String::from("No such file or directory (os error 2)")))
            .unwrap_err()
            .to_string(),
        "Failed to read file '': No such file or directory (os error 2)"
    );
}

#[test]
fn write_file_makes_the_parent_of_the_path() {
    let parent = |path: &str| {
        WriteFile.parent_directory(&WriteFileArgs {
            path: String::from(path),
            content: String::new(),
        })
    };
    assert_eq!(parent("a/b/c.txt"), Some(String::from("a/b")));
    assert_eq!(parent("/tmp/out.txt"), Some(String::from("/tmp")));
    assert_eq!(parent("/out.txt"), Some(String::from("/")));
    assert_eq!(parent("dir/sub/"), Some(String::from("dir")));
}

#[test]
fn write_file_makes_no_directory_for_a_bare_name() {
    let parent = |path: &str| {
        WriteFile.parent_directory(&WriteFileArgs {
            path: String::from(path),
            content: String::new(),
        })
    };
    assert_eq!(parent("c.txt"), None);
    assert_eq!(parent(""), None);
    assert_eq!(parent("/"), None);
}

#[test]
fn needed_directory_leaves_out_an_empty_parent() {
    assert_eq!(WriteFile::needed_directory(None), None);
    assert_eq!(WriteFile::needed_directory(Some("")), None);
    assert_eq!(WriteFile::needed_directory(Some("a/b")), Some(String::from("a/b")));
}

#[test]
fn write_file_confirms_the_bytes_written_and_the_path() {
    let args = WriteFileArgs { path: String::from("out/a.txt"), content: String::from("hello") };
    assert_eq!(
        WriteFile.call(args.clone(), WriteOutcome::Written),
        Ok(String::from("Successfully wrote 5 bytes to 'out/a.txt'"))
    );
    let args = WriteFileArgs { path: String::from("a.txt"), content: String::from("h\u{e9}llo") };
    assert_eq!(
        WriteFile.call(args.clone(), WriteOutcome::Written),
        Ok(String::from("Successfully wrote 6 bytes to 'a.txt'"))
    );
    let args = WriteFileArgs { path: String::from("a.txt"), content: String::new() };
    assert_eq!(
        WriteFile.call(args.clone(), WriteOutcome::Written),
        Ok(String::from("Successfully wrote 0 bytes to 'a.txt'"))
    );
}

#[test]
fn write_file_reports_a_directory_that_could_not_be_made() {
    let args = WriteFileArgs { path: String::from("/proc/x/a.txt"), content: String::from("c") };
    let result =
        WriteFile.call(args.clone(), WriteOutcome::DirectoryFailed(String::from("Permission denied")));
    assert_eq!(
        result.unwrap_err().to_string(),
        "Failed to create directories for '/proc/x/a.txt': Permission denied"
    );
}

#[test]
fn write_file_reports_a_file_that_could_not_be_written() {
    let args = WriteFileArgs { path: String::from("out/a.txt"), content: String::from("c") };
    let result = WriteFile.call(args.clone(), WriteOutcome::WriteFailed(String::from("Is a directory")));
    assert_eq!(
        result,
        Err(ToolError::new(String::from("Failed to write file 'out/a.txt': Is a directory")))
    );
}

#[test]
fn bash_runs_with_the_standard_settings() {
    let runner = Bash.runner();
    assert_eq!(runner.max_output_bytes, 51200);
    assert_eq!(runner.warning_timeout_secs, 60);
    let args = BashArgs { command: String::from("echo hi") };
    assert_eq!(
        runner.invocation(&args.command).arguments,
        vec![String::from("-c"), String::from("echo hi")]
    );
}

#[test]
fn bash_reports_an_exit_status_as_a_result() {
    let exited = Execution::Exited {
        code: Some(1),
        stdout: Vec::new(),
        stderr: b"cat: nope: No such file or directory\n".to_vec(),
    };
    let expected = Ok(String::from("Exit code: 1\nstderr:\ncat: nope: No such file or directory\n"));
    assert_eq!(Bash.run(exited.clone()), expected);
    assert_eq!(Bash.call(exited), expected);
}

#[test]
fn bash_fails_only_where_the_shell_could_not_be_run() {
    assert_eq!(
        Bash.call(Execution::SpawnFailed(String::from("not found"))).unwrap_err().to_string(),
        "Failed to spawn command: not found"
    );
    assert_eq!(
        Bash.call(Execution::WaitFailed(String::from("no child"))).unwrap_err().to_string(),
        "Command failed: no child"
    );
    assert!(
        Bash.call(Execution::Exited { code: None, stdout: Vec::new(), stderr: Vec::new() }).is_ok()
    );
}

#[test]
fn bash_cuts_a_result_over_fifty_kibibytes() {
    let result = Bash
        .run(Execution::Exited { code: Some(0), stdout: vec![b'a'; 60000], stderr: Vec::new() })
        .unwrap();
    assert_eq!(
        result,
        format!("{}\n... [output truncated, 60000 bytes total]", "a".repeat(51200))
    );
}

#[test]
fn a_tool_error_is_displayed_as_its_message() {
    let error = ToolError::new(String::from("it broke"));
    assert_eq!(error.to_string(), "it broke");
    assert_eq!(error, ToolError::new(String::from("it broke")));
    assert_ne!(error, ToolError::new(String::from("it held")));
}
