//! The three tools: their descriptors, and what each makes of the outcome
//! of its work on the machine.

use crate::decimal::{decimal, push_decimal};
use crate::descriptor::{
    ParameterSchema, ParameterSchemaView, Property, PropertyView, ToolDescriptor,
    ToolDescriptorView,
};
use crate::error::{result_view, ToolError};
use crate::runner::{
    outcome, outcome_of_text, wrote_text, CommandRunner, Execution, MAX_MARKER_BYTES,
    MAX_OUTPUT_BYTES, WARNING_TIMEOUT_SECS,
};
use crate::text::views;
use crate::utf8::{byte_len, byte_length};
use vstd::prelude::*;

verus! {

/// The name of the tool that reads a file.
pub const READ_FILE_NAME: &'static str = "read_file";

/// The name of the tool that writes a file.
pub const WRITE_FILE_NAME: &'static str = "write_file";

/// The name of the tool that runs a shell command.
pub const BASH_NAME: &'static str = "bash";

/// The arguments of `read_file`.
#[derive(Clone, Debug, PartialEq, Eq)]
pub struct ReadFileArgs {
    pub path: String,
}

/// The tool that reads a file.
#[derive(Clone, Copy, Debug, PartialEq, Eq)]
pub struct ReadFile;

/// The arguments of `write_file`.
#[derive(Clone, Debug, PartialEq, Eq)]
pub struct WriteFileArgs {
    pub path: String,
    pub content: String,
}

/// The tool that writes a file.
#[derive(Clone, Copy, Debug, PartialEq, Eq)]
pub struct WriteFile;

/// The arguments of `bash`.
#[derive(Clone, Debug, PartialEq, Eq)]
pub struct BashArgs {
    pub command: String,
}

/// The tool that runs a shell command.
#[derive(Clone, Copy, Debug, PartialEq, Eq)]
pub struct Bash;

/// How an attempt to write a file ended.
#[derive(Clone, Debug, PartialEq, Eq)]
pub enum WriteOutcome {
    /// The parent directory could not be made; the cause, as text.
    DirectoryFailed(String),
    /// The file could not be written; the cause, as text.
    WriteFailed(String),
    /// The content is in the file.
    Written,
}

/// A schema property of type string.
pub open spec fn string_property(name: Seq<char>, description: Seq<char>) -> PropertyView {
    PropertyView { name, kind: "string"@, description }
}

/// A schema of type object.
pub open spec fn object_schema(
    properties: Seq<PropertyView>,
    required: Seq<Seq<char>>,
) -> ParameterSchemaView {
    ParameterSchemaView { kind: "object"@, properties, required }
}

/// The descriptor of `read_file`.
pub open spec fn read_file_descriptor() -> ToolDescriptorView {
    ToolDescriptorView {
        name: READ_FILE_NAME@,
        description:
            "Read the contents of a file at the specified path. Returns the file contents as a string."@,
        parameters: object_schema(
            seq![string_property("path"@, "The path to the file to read"@)],
            seq!["path"@],
        ),
    }
}

/// The descriptor of `write_file`.
pub open spec fn write_file_descriptor() -> ToolDescriptorView {
    ToolDescriptorView {
        name: WRITE_FILE_NAME@,
        description:
            "Write content to a file at the specified path. Creates parent directories if they don't exist. Overwrites the file if it already exists."@,
        parameters: object_schema(
            seq![
                string_property("path"@, "The path to the file to write"@),
                string_property("content"@, "The content to write to the file"@),
            ],
            seq!["path"@, "content"@],
        ),
    }
}

/// The descriptor of `bash`.
pub open spec fn bash_descriptor() -> ToolDescriptorView {
    ToolDescriptorView {
        name: BASH_NAME@,
        description:
            "Execute a bash command and return its output. Use this for running shell commands, git operations, running tests, installing packages, etc. The command runs in the current working directory."@,
        parameters: object_schema(
            seq![string_property("command"@, "The bash command to execute"@)],
            seq!["command"@],
        ),
    }
}

/// In the descriptor of each tool, every required argument is declared, and
/// no argument is declared twice.
pub proof fn lemma_descriptors_well_formed()
    ensures
        read_file_descriptor().wf(),
        write_file_descriptor().wf(),
        bash_descriptor().wf(),
{
    reveal_strlit("path");
    reveal_strlit("content");
    assert(read_file_descriptor().parameters.properties[0].name == "path"@);
    assert(write_file_descriptor().parameters.properties[0].name == "path"@);
    assert(write_file_descriptor().parameters.properties[1].name == "content"@);
    assert(bash_descriptor().parameters.properties[0].name == "command"@);
}

/// The message of a file that could not be read.
pub open spec fn read_failure(path: Seq<char>, cause: Seq<char>) -> Seq<char> {
    "Failed to read file '"@ + path + "': "@ + cause
}

/// The result owed for a file read with the outcome `read`: the content as
/// it is, or the failure with the path and the cause.
pub open spec fn read_outcome(path: Seq<char>, read: Result<String, String>) -> Result<
    Seq<char>,
    Seq<char>,
> {
    match read {
        Ok(content) => Ok(content@),
        Err(cause) => Err(read_failure(path, cause@)),
    }
}

/// The message of a parent directory that could not be made.
pub open spec fn directory_failure(path: Seq<char>, cause: Seq<char>) -> Seq<char> {
    "Failed to create directories for '"@ + path + "': "@ + cause
}

/// The message of a file that could not be written.
pub open spec fn write_failure(path: Seq<char>, cause: Seq<char>) -> Seq<char> {
    "Failed to write file '"@ + path + "': "@ + cause
}

/// The confirmation of a written file: the bytes written, and where.
pub open spec fn write_confirmation(path: Seq<char>, content: Seq<char>) -> Seq<char> {
    "Successfully wrote "@ + decimal(byte_len(content)) + " bytes to '"@ + path + "'"@
}

/// The result owed for a file written with the outcome `outcome`.
pub open spec fn write_outcome(path: Seq<char>, content: Seq<char>, outcome: WriteOutcome) -> Result<
    Seq<char>,
    Seq<char>,
> {
    match outcome {
        WriteOutcome::DirectoryFailed(cause) => Err(directory_failure(path, cause@)),
        WriteOutcome::WriteFailed(cause) => Err(write_failure(path, cause@)),
        WriteOutcome::Written => Ok(write_confirmation(path, content)),
    }
}

/// The text of an optional string.
pub open spec fn optional_text(text: Option<String>) -> Option<Seq<char>> {
    match text {
        Some(text) => Some(text@),
        None => None,
    }
}

/// The path without its last component, as `std::path::Path::parent` gives
/// it for the target's path syntax; `None` where the path ends in a root or
/// is empty.
pub uninterp spec fn parent_path(path: Seq<char>) -> Option<Seq<char>>;

/// The directory to make before a file is written: the path's parent,
/// unless it has none or an empty one.
pub open spec fn directory_needed(parent: Option<Seq<char>>) -> Option<Seq<char>> {
    match parent {
        Some(directory) => if directory.len() > 0 {
            Some(directory)
        } else {
            None
        },
        None => None,
    }
}

/// Calls `std::path::Path::parent` on `path`, read as a path. The result is
/// the part of `path` that the call returns, named by `parent_path`.
#[verifier::external_body]
fn path_parent(path: &str) -> (r: Option<&str>)
    ensures
        match r {
            Some(parent) => parent_path(path@) == Some(parent@),
            None => parent_path(path@) is None,
        },
{
    match std::path::Path::new(path).parent() {
        Some(parent) => parent.to_str(),
        None => None,
    }
}

/// A property of type string.
fn new_string_property(name: &str, description: &str) -> (r: Property)
    ensures
        r@ == string_property(name@, description@),
{
    Property {
        name: String::from_str(name),
        kind: String::from_str("string"),
        description: String::from_str(description),
    }
}

/// A descriptor whose schema is an object.
fn new_descriptor(
    name: &str,
    description: &str,
    properties: Vec<Property>,
    required: Vec<String>,
) -> (r: ToolDescriptor)
    ensures
        r@.name == name@,
        r@.description == description@,
        r@.parameters == object_schema(
            Seq::new(properties@.len(), |i: int| properties@[i]@),
            views(required@),
        ),
{
    ToolDescriptor {
        name: String::from_str(name),
        description: String::from_str(description),
        parameters: ParameterSchema {
            kind: String::from_str("object"),
            properties,
            required,
        },
    }
}

impl ReadFile {
    /// What the tool declares of itself.
    pub fn definition(&self, _prompt: String) -> (r: ToolDescriptor)
        ensures
            r@ == read_file_descriptor(),
            r@.wf(),
    {
        let mut properties: Vec<Property> = Vec::new();
        properties.push(new_string_property("path", "The path to the file to read"));
        let mut required: Vec<String> = Vec::new();
        required.push(String::from_str("path"));
        let r = new_descriptor(
            READ_FILE_NAME,
            "Read the contents of a file at the specified path. Returns the file contents as a string.",
            properties,
            required,
        );
        assert(r@.parameters.properties =~= read_file_descriptor().parameters.properties);
        assert(r@.parameters.required =~= read_file_descriptor().parameters.required);
        proof {
            lemma_descriptors_well_formed();
        }
        r
    }

    /// The result of the tool call, `read` being what came of reading the
    /// whole file at `args.path` as text: its content, or the cause of the
    /// failure as text.
    pub fn call(&self, args: ReadFileArgs, read: Result<String, String>) -> (r: Result<
        String,
        ToolError,
    >)
        ensures
            result_view(r) == read_outcome(args.path@, read),
    {
        match read {
            Ok(content) => Ok(content),
            Err(cause) => {
                let mut message = String::from_str("Failed to read file '");
                message.append(args.path.as_str());
                message.append("': ");
                message.append(cause.as_str());
                Err(ToolError::new(message))
            },
        }
    }
}

impl WriteFile {
    /// What the tool declares of itself.
    pub fn definition(&self, _prompt: String) -> (r: ToolDescriptor)
        ensures
            r@ == write_file_descriptor(),
            r@.wf(),
    {
        let mut properties: Vec<Property> = Vec::new();
        properties.push(new_string_property("path", "The path to the file to write"));
        properties.push(new_string_property("content", "The content to write to the file"));
        let mut required: Vec<String> = Vec::new();
        required.push(String::from_str("path"));
        required.push(String::from_str("content"));
        let r = new_descriptor(
            WRITE_FILE_NAME,
            "Write content to a file at the specified path. Creates parent directories if they don't exist. Overwrites the file if it already exists.",
            properties,
            required,
        );
        assert(r@.parameters.properties =~= write_file_descriptor().parameters.properties);
        assert(r@.parameters.required =~= write_file_descriptor().parameters.required);
        proof {
            lemma_descriptors_well_formed();
        }
        r
    }

    /// The directory to make, with its missing ancestors, before the file is
    /// written, `parent` being the parent of the file's path.
    pub fn needed_directory(parent: Option<&str>) -> (r: Option<String>)
        ensures
            optional_text(r) == directory_needed(
                match parent {
                    Some(directory) => Some(directory@),
                    None => None,
                },
            ),
    {
        match parent {
            Some(directory) => {
                if directory.is_empty() {
                    None
                } else {
                    Some(String::from_str(directory))
                }
            },
            None => None,
        }
    }

    /// The directory to make, with its missing ancestors, before the file at
    /// `args.path` is written: none where the path has no parent, or an empty
    /// one.
    pub fn parent_directory(&self, args: &WriteFileArgs) -> (r: Option<String>)
        ensures
            optional_text(r) == directory_needed(parent_path(args.path@)),
    {
        WriteFile::needed_directory(path_parent(args.path.as_str()))
    }

    /// The result of the tool call, `outcome` being what came of making the
    /// parent directory and then replacing the file at `args.path` by
    /// `args.content`.
    pub fn call(&self, args: WriteFileArgs, outcome: WriteOutcome) -> (r: Result<
        String,
        ToolError,
    >)
        ensures
            result_view(r) == write_outcome(args.path@, args.content@, outcome),
    {
        match outcome {
            WriteOutcome::DirectoryFailed(cause) => {
                let mut message = String::from_str("Failed to create directories for '");
                message.append(args.path.as_str());
                message.append("': ");
                message.append(cause.as_str());
                Err(ToolError::new(message))
            },
            WriteOutcome::WriteFailed(cause) => {
                let mut message = String::from_str("Failed to write file '");
                message.append(args.path.as_str());
                message.append("': ");
                message.append(cause.as_str());
                Err(ToolError::new(message))
            },
            WriteOutcome::Written => {
                let mut message = String::from_str("Successfully wrote ");
                push_decimal(&mut message, byte_length(args.content.as_str()) as u64);
                message.append(" bytes to '");
                message.append(args.path.as_str());
                message.append("'");
                Ok(message)
            },
        }
    }
}

impl Bash {
    /// What the tool declares of itself.
    pub fn definition(&self, _prompt: String) -> (r: ToolDescriptor)
        ensures
            r@ == bash_descriptor(),
            r@.wf(),
    {
        let mut properties: Vec<Property> = Vec::new();
        properties.push(new_string_property("command", "The bash command to execute"));
        let mut required: Vec<String> = Vec::new();
        required.push(String::from_str("command"));
        let r = new_descriptor(
            BASH_NAME,
            "Execute a bash command and return its output. Use this for running shell commands, git operations, running tests, installing packages, etc. The command runs in the current working directory.",
            properties,
            required,
        );
        assert(r@.parameters.properties =~= bash_descriptor().parameters.properties);
        assert(r@.parameters.required =~= bash_descriptor().parameters.required);
        proof {
            lemma_descriptors_well_formed();
        }
        r
    }

    /// The runner that the tool uses: the one with the standard settings.
    pub fn runner(&self) -> (r: CommandRunner)
        ensures
            r.max_output_bytes == MAX_OUTPUT_BYTES,
            r.warning_timeout_secs == WARNING_TIMEOUT_SECS,
    {
        CommandRunner::standard()
    }

    /// The result of the tool call for a command that ended as `execution`
    /// says.
    pub fn run(&self, execution: Execution) -> (r: Result<String, ToolError>)
        ensures
            result_view(r) == outcome(execution, MAX_OUTPUT_BYTES as nat),
            wrote_text(execution) ==> result_view(r) == outcome_of_text(
                execution,
                MAX_OUTPUT_BYTES as nat,
            ),
            r is Ok ==> byte_len(r->Ok_0@) <= MAX_OUTPUT_BYTES + MAX_MARKER_BYTES,
    {
        self.runner().run(execution)
    }

    /// The result of the tool call: that of `run`.
    pub fn call(&self, execution: Execution) -> (r: Result<String, ToolError>)
        ensures
            result_view(r) == outcome(execution, MAX_OUTPUT_BYTES as nat),
            wrote_text(execution) ==> result_view(r) == outcome_of_text(
                execution,
                MAX_OUTPUT_BYTES as nat,
            ),
            r is Ok ==> byte_len(r->Ok_0@) <= MAX_OUTPUT_BYTES + MAX_MARKER_BYTES,
    {
        self.run(execution)
    }
}

} // verus!
