//! The command runner: what is launched, how the wait is supervised, and
//! what is reported of the finished command.

use crate::decimal::{
    decimal, lemma_decimal_digits, lemma_decimal_len_u64, lemma_signed_decimal_i32, push_decimal,
    push_signed, signed_decimal,
};
use crate::error::{result_view, ToolError};
use crate::text::{from_utf8_lossy, lossy_text, views};
use crate::utf8::{
    byte_len, byte_length, fitting_prefix, fitting_str, lemma_ascii_byte_len,
    lemma_encode_concat, lemma_fitting_chars_at_least, lemma_fitting_chars_bound,
    lemma_fitting_prefix, lemma_fitting_prefix_longest,
};
use vstd::prelude::*;
use vstd::utf8::{decode_utf8, encode_utf8, is_ascii_chars, is_char_boundary, valid_utf8};

verus! {

/// The size, in bytes, to which the standard runner cuts a result.
pub const MAX_OUTPUT_BYTES: usize = 51200;

/// The seconds after which the standard runner warns of a long command.
pub const WARNING_TIMEOUT_SECS: u64 = 60;

/// The most bytes that a truncation marker takes.
pub const MAX_MARKER_BYTES: usize = 57;

/// The most bytes that the line of an exit code takes.
pub const MAX_EXIT_LINE_BYTES: usize = 23;

/// The settings of a command runner.
#[derive(Clone, Copy, Debug, PartialEq, Eq)]
pub struct CommandRunner {
    /// The size, in bytes, to which a result is cut.
    pub max_output_bytes: usize,
    /// The seconds after which a running command is warned of.
    pub warning_timeout_secs: u64,
}

/// The process that runs a command: a program and its arguments. Its
/// standard output and standard error are to be captured, each by itself.
#[derive(Clone, Debug, PartialEq, Eq)]
pub struct Invocation {
    pub program: String,
    pub arguments: Vec<String>,
}

/// How the wait for a command is supervised.
#[derive(Clone, Copy, Debug, PartialEq, Eq, Structural)]
pub enum Supervision {
    /// The wait is raced against the advisory timeout.
    Racing,
    /// The warning was given: the wait has no limit.
    Unbounded,
}

/// What became of a command, as the caller observed it.
#[derive(Clone, Debug, PartialEq, Eq)]
pub enum Execution {
    /// The shell could not be started; the cause, as text.
    SpawnFailed(String),
    /// The wait for the process failed; the cause, as text.
    WaitFailed(String),
    /// The process ended. `code` is its exit code, if the status has one;
    /// `stdout` and `stderr` are the bytes drained from its two pipes.
    Exited { code: Option<i32>, stdout: Vec<u8>, stderr: Vec<u8> },
}

/// The warning of a command that runs for more than `secs` seconds.
pub open spec fn warning_text(secs: nat) -> Seq<char> {
    "\n[Command running for >"@ + decimal(secs) + "s. Press Ctrl+C to interrupt]\n"@
}

/// The number shown for an exit status: the code, or -1 where there is none.
pub open spec fn exit_number(code: Option<i32>) -> int {
    match code {
        Some(n) => n as int,
        None => -1,
    }
}

/// The first line of the report of a failed command.
pub open spec fn exit_line(code: Option<i32>) -> Seq<char> {
    "Exit code: "@ + signed_decimal(exit_number(code)) + "\n"@
}

/// The block that reports the standard output of a failed command.
pub open spec fn stdout_block(stdout: Seq<char>) -> Seq<char> {
    if stdout.len() == 0 {
        Seq::empty()
    } else {
        "stdout:\n"@ + stdout + "\n"@
    }
}

/// The block that reports what a command wrote to standard error.
pub open spec fn stderr_block(stderr: Seq<char>) -> Seq<char> {
    if stderr.len() == 0 {
        Seq::empty()
    } else {
        "stderr:\n"@ + stderr
    }
}

/// The report of a command that ended with exit status `code` (`None` where
/// the status has no code) after writing `stdout` and `stderr`.
pub open spec fn composed(code: Option<i32>, stdout: Seq<char>, stderr: Seq<char>) -> Seq<char> {
    if code == Some(0i32) {
        if stdout.len() > 0 && stderr.len() > 0 {
            stdout + "\n"@ + stderr_block(stderr)
        } else {
            stdout + stderr_block(stderr)
        }
    } else {
        exit_line(code) + stdout_block(stdout) + stderr_block(stderr)
    }
}

/// The note that ends a report that was cut, `total` being the size of the
/// whole report in bytes.
pub open spec fn truncation_marker(total: nat) -> Seq<char> {
    "\n... [output truncated, "@ + decimal(total) + " bytes total]"@
}

/// `text` held to `limit` bytes: itself where it fits, else its longest
/// prefix of whole characters that fits, followed by the truncation marker.
pub open spec fn bounded(text: Seq<char>, limit: nat) -> Seq<char> {
    if byte_len(text) <= limit {
        text
    } else {
        fitting_prefix(text, limit as int) + truncation_marker(byte_len(text))
    }
}

/// The result owed for a command that ended as `execution` says, by a runner
/// that cuts at `limit` bytes: an error where the shell could not be started
/// or waited for, else the report of what it wrote and how it ended.
pub open spec fn outcome(execution: Execution, limit: nat) -> Result<Seq<char>, Seq<char>> {
    match execution {
        Execution::SpawnFailed(cause) => Err("Failed to spawn command: "@ + cause@),
        Execution::WaitFailed(cause) => Err("Command failed: "@ + cause@),
        Execution::Exited { code, stdout, stderr } => Ok(
            bounded(composed(code, lossy_text(stdout@), lossy_text(stderr@)), limit),
        ),
    }
}

/// The same for a command whose output is valid UTF-8, which is read as it
/// stands.
pub open spec fn outcome_of_text(execution: Execution, limit: nat) -> Result<
    Seq<char>,
    Seq<char>,
> {
    match execution {
        Execution::SpawnFailed(cause) => Err("Failed to spawn command: "@ + cause@),
        Execution::WaitFailed(cause) => Err("Command failed: "@ + cause@),
        Execution::Exited { code, stdout, stderr } => Ok(
            bounded(composed(code, decode_utf8(stdout@), decode_utf8(stderr@)), limit),
        ),
    }
}

/// Whether what a command wrote is valid UTF-8.
pub open spec fn wrote_text(execution: Execution) -> bool {
    match execution {
        Execution::Exited { code, stdout, stderr } => valid_utf8(stdout@) && valid_utf8(stderr@),
        _ => true,
    }
}

/// The truncation marker takes 37 bytes and one more for each digit of the
/// total.
pub proof fn lemma_marker_size(total: nat)
    ensures
        byte_len(truncation_marker(total)) == 37 + decimal(total).len(),
        total <= u64::MAX ==> byte_len(truncation_marker(total)) <= MAX_MARKER_BYTES,
{
    let head = "\n... [output truncated, "@;
    let tail = " bytes total]"@;
    reveal_strlit("\n... [output truncated, ");
    reveal_strlit(" bytes total]");
    lemma_decimal_digits(total);
    lemma_ascii_byte_len(head);
    lemma_ascii_byte_len(tail);
    lemma_ascii_byte_len(decimal(total));
    lemma_encode_concat(head, decimal(total));
    lemma_encode_concat(head + decimal(total), tail);
    if total <= u64::MAX {
        lemma_decimal_len_u64(total);
    }
}

/// A bounded text takes at most the limit and the bytes of the truncation
/// marker. Where it was cut, it was cut between two characters of the text,
/// fewer than four bytes before the limit.
pub proof fn lemma_bounded_size(text: Seq<char>, limit: nat)
    ensures
        byte_len(bounded(text, limit)) <= limit + byte_len(truncation_marker(byte_len(text))),
        byte_len(text) <= u64::MAX ==> byte_len(bounded(text, limit)) <= limit + MAX_MARKER_BYTES,
        byte_len(text) > limit ==> {
            let kept = fitting_prefix(text, limit as int);
            &&& bounded(text, limit) == kept + truncation_marker(byte_len(text))
            &&& kept == text.take(kept.len() as int)
            &&& limit - 4 < byte_len(kept) <= limit
            &&& is_char_boundary(encode_utf8(text), byte_len(kept) as int)
        },
{
    lemma_marker_size(byte_len(text));
    if byte_len(text) > limit {
        let kept = fitting_prefix(text, limit as int);
        lemma_fitting_prefix(text, limit as int);
        lemma_fitting_chars_bound(text, limit as int);
        lemma_fitting_prefix_longest(text, limit as int);
        lemma_encode_concat(kept, truncation_marker(byte_len(text)));
    }
}

/// What a text begins with, a bounded text begins with too, where the limit
/// leaves room for it.
pub proof fn lemma_bounded_keeps_prefix(head: Seq<char>, text: Seq<char>, limit: nat)
    requires
        head.is_prefix_of(text),
        byte_len(head) <= limit,
    ensures
        head.is_prefix_of(bounded(text, limit)),
{
    if byte_len(text) > limit {
        lemma_fitting_chars_at_least(text, head.len() as int, limit as int);
        lemma_fitting_chars_bound(text, limit as int);
    }
}

/// The line of an exit code takes at most 23 bytes.
pub proof fn lemma_exit_line_size(code: Option<i32>)
    ensures
        byte_len(exit_line(code)) <= MAX_EXIT_LINE_BYTES,
{
    let head = "Exit code: "@;
    let number = signed_decimal(exit_number(code));
    let tail = "\n"@;
    reveal_strlit("Exit code: ");
    reveal_strlit("\n");
    lemma_signed_decimal_i32(exit_number(code));
    lemma_ascii_byte_len(head);
    lemma_ascii_byte_len(number);
    lemma_ascii_byte_len(tail);
    lemma_encode_concat(head, number);
    lemma_encode_concat(head + number, tail);
}

/// The result for a failed command begins with the line of its exit code,
/// cut or not, and holds a block for standard output only where there was
/// output.
pub proof fn lemma_failure_report(
    code: Option<i32>,
    stdout: Seq<char>,
    stderr: Seq<char>,
    limit: nat,
)
    requires
        code != Some(0i32),
        limit >= MAX_EXIT_LINE_BYTES,
    ensures
        exit_line(code).is_prefix_of(bounded(composed(code, stdout, stderr), limit)),
        stdout.len() == 0 ==> composed(code, stdout, stderr) == exit_line(code) + stderr_block(
            stderr,
        ),
        stdout.len() > 0 ==> composed(code, stdout, stderr) == exit_line(code) + "stdout:\n"@
            + stdout + "\n"@ + stderr_block(stderr),
{
    lemma_exit_line_size(code);
    lemma_bounded_keeps_prefix(exit_line(code), composed(code, stdout, stderr), limit);
}

/// The result for a command that succeeded and wrote to standard error only
/// begins with the label: no line break stands before it.
pub proof fn lemma_stderr_only(stderr: Seq<char>, limit: nat)
    requires
        stderr.len() > 0,
        limit >= 8,
    ensures
        composed(Some(0i32), Seq::empty(), stderr) == "stderr:\n"@ + stderr,
        "stderr:\n"@.is_prefix_of(bounded(composed(Some(0i32), Seq::empty(), stderr), limit)),
        bounded(composed(Some(0i32), Seq::empty(), stderr), limit)[0] == 's',
{
    reveal_strlit("stderr:\n");
    lemma_ascii_byte_len("stderr:\n"@);
    lemma_bounded_keeps_prefix(
        "stderr:\n"@,
        composed(Some(0i32), Seq::empty(), stderr),
        limit,
    );
}

/// Composes the report of a finished command.
pub fn compose_output(code: Option<i32>, stdout: &str, stderr: &str) -> (r: String)
    ensures
        r@ == composed(code, stdout@, stderr@),
{
    let succeeded = match code {
        Some(n) => n == 0,
        None => false,
    };
    if succeeded {
        let mut out = String::from_str(stdout);
        if !stderr.is_empty() {
            if !stdout.is_empty() {
                out.append("\n");
            }
            out.append("stderr:\n");
            out.append(stderr);
        }
        out
    } else {
        let number: i64 = match code {
            Some(n) => n as i64,
            None => -1,
        };
        let mut out = String::from_str("Exit code: ");
        push_signed(&mut out, number);
        out.append("\n");
        if !stdout.is_empty() {
            out.append("stdout:\n");
            out.append(stdout);
            out.append("\n");
        }
        if !stderr.is_empty() {
            out.append("stderr:\n");
            out.append(stderr);
        }
        out
    }
}

/// Holds `output` to `limit` bytes.
pub fn truncate_output(output: String, limit: usize) -> (r: String)
    ensures
        r@ == bounded(output@, limit as nat),
        byte_len(r@) <= limit + MAX_MARKER_BYTES,
{
    proof {
        lemma_bounded_size(output@, limit as nat);
    }
    let total = byte_length(output.as_str());
    if total <= limit {
        output
    } else {
        let mut out = String::from_str(fitting_str(output.as_str(), limit));
        out.append("\n... [output truncated, ");
        push_decimal(&mut out, total as u64);
        out.append(" bytes total]");
        out
    }
}

impl CommandRunner {
    /// A runner with the given settings.
    pub fn new(max_output_bytes: usize, warning_timeout_secs: u64) -> (r: CommandRunner)
        ensures
            r.max_output_bytes == max_output_bytes,
            r.warning_timeout_secs == warning_timeout_secs,
    {
        CommandRunner { max_output_bytes, warning_timeout_secs }
    }

    /// The runner with the standard settings.
    pub fn standard() -> (r: CommandRunner)
        ensures
            r.max_output_bytes == MAX_OUTPUT_BYTES,
            r.warning_timeout_secs == WARNING_TIMEOUT_SECS,
    {
        CommandRunner::new(MAX_OUTPUT_BYTES, WARNING_TIMEOUT_SECS)
    }

    /// The process to start for `command`: the shell, told by `-c` to run the
    /// command string as it stands.
    pub fn invocation(&self, command: &str) -> (r: Invocation)
        ensures
            r.program@ == "bash"@,
            views(r.arguments@) == seq!["-c"@, command@],
    {
        let mut arguments: Vec<String> = Vec::new();
        arguments.push(String::from_str("-c"));
        arguments.push(String::from_str(command));
        Invocation { program: String::from_str("bash"), arguments }
    }

    /// The supervision that a wait begins with.
    pub fn start(&self) -> (r: Supervision)
        ensures
            r == Supervision::Racing,
    {
        Supervision::Racing
    }

    /// The seconds after which the next wait is given up as timed out:
    /// the advisory timeout while racing, none after the warning.
    pub fn wait_limit(&self, state: Supervision) -> (r: Option<u64>)
        ensures
            r == match state {
                Supervision::Racing => Some(self.warning_timeout_secs),
                Supervision::Unbounded => None::<u64>,
            },
    {
        match state {
            Supervision::Racing => Some(self.warning_timeout_secs),
            Supervision::Unbounded => None,
        }
    }

    /// The decision when a wait timed out. The first time, the warning is
    /// returned, to be written to the error stream. Either way the process
    /// is left running and is waited for again, from now on without limit.
    pub fn timed_out(&self, state: Supervision) -> (r: (Supervision, Option<String>))
        ensures
            r.0 == Supervision::Unbounded,
            state == Supervision::Unbounded ==> r.1 is None,
            state == Supervision::Racing ==> r.1 is Some && r.1->0@ == warning_text(
                self.warning_timeout_secs as nat,
            ),
    {
        match state {
            Supervision::Racing => {
                let mut warning = String::from_str("\n[Command running for >");
                push_decimal(&mut warning, self.warning_timeout_secs);
                warning.append("s. Press Ctrl+C to interrupt]\n");
                (Supervision::Unbounded, Some(warning))
            },
            Supervision::Unbounded => (Supervision::Unbounded, None),
        }
    }

    /// The report of a command that ended with `code`, after writing the
    /// texts `stdout` and `stderr`: composed, then held to the size limit.
    pub fn report(&self, code: Option<i32>, stdout: &str, stderr: &str) -> (r: String)
        ensures
            r@ == bounded(composed(code, stdout@, stderr@), self.max_output_bytes as nat),
            byte_len(r@) <= self.max_output_bytes + MAX_MARKER_BYTES,
    {
        truncate_output(compose_output(code, stdout, stderr), self.max_output_bytes)
    }

    /// The result of the tool call for a command that ended as `execution`
    /// says. A failure to start the shell or to wait for it is the only
    /// error; an exit status, whatever it is, is reported in the result. The
    /// bytes of the two pipes are read as UTF-8, with U+FFFD in place of what
    /// is not.
    pub fn run(&self, execution: Execution) -> (r: Result<String, ToolError>)
        ensures
            result_view(r) == outcome(execution, self.max_output_bytes as nat),
            wrote_text(execution) ==> result_view(r) == outcome_of_text(
                execution,
                self.max_output_bytes as nat,
            ),
            r is Ok ==> byte_len(r->Ok_0@) <= self.max_output_bytes + MAX_MARKER_BYTES,
    {
        match execution {
            Execution::SpawnFailed(cause) => {
                let mut message = String::from_str("Failed to spawn command: ");
                message.append(cause.as_str());
                Err(ToolError::new(message))
            },
            Execution::WaitFailed(cause) => {
                let mut message = String::from_str("Command failed: ");
                message.append(cause.as_str());
                Err(ToolError::new(message))
            },
            Execution::Exited { code, stdout, stderr } => {
                let out = from_utf8_lossy(stdout.as_slice());
                let err = from_utf8_lossy(stderr.as_slice());
                Ok(self.report(code, out.as_str(), err.as_str()))
            },
        }
    }
}

} // verus!
