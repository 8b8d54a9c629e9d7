//! What the service asks of the outside world and what it gets back: the
//! commands to spawn, their collected output, and the requests a driver
//! hands to its caller between two decisions.

use crate::error::{DomainError, ErrorKind};
use vstd::prelude::*;
use vstd::string::StringExecFns;

verus! {

/// A program to spawn, with its arguments.
pub struct Command {
    pub program: String,
    pub args: Vec<String>,
}

/// A command as plain text.
pub struct CommandView {
    pub program: Seq<char>,
    pub args: Seq<Seq<char>>,
}

/// The texts of a list of strings.
pub open spec fn texts(items: Seq<String>) -> Seq<Seq<char>> {
    Seq::new(items.len(), |i: int| items[i]@)
}

impl View for Command {
    type V = CommandView;

    open spec fn view(&self) -> CommandView {
        CommandView { program: self.program@, args: texts(self.args@) }
    }
}

/// What a terminated process left behind.
pub struct ProcessOutput {
    pub stdout: String,
    pub stderr: String,
    pub exit_code: i32,
}

/// A directory found below a language environment's `lib` directory.
pub struct LibEntry {
    pub path: String,
    pub is_dir: bool,
    pub has_site_packages: bool,
}

/// What a driver needs from its caller before it can decide further.
pub enum Request {
    /// Does this path exist? Answered by `Reply::Exists`.
    Exists(String),
    /// Spawn the command and wait for it. Answered by `Reply::Exited`, or
    /// by `Reply::Failed` when it could not be spawned or awaited.
    Run(Command),
    /// Read the file as text. Answered by `Reply::Text` or `Reply::Failed`.
    ReadFile(String),
    /// The value of `HOME`, and the entries of the given directory below
    /// it. Answered by `Reply::Environment`.
    Environment(String),
}

/// The caller's answer to a `Request`.
pub enum Reply {
    Exists(bool),
    Exited(ProcessOutput),
    Text(String),
    Environment { home: Option<String>, entries: Vec<LibEntry> },
    Failed(String),
}

/// The outcome of one decision: a request to the caller, or the end.
pub enum Step<T> {
    Ask(Request),
    Done(Result<T, DomainError>),
}

impl<T> Step<T> {
    /// The step asks the caller to spawn exactly this command.
    pub open spec fn asks_run(&self, command: CommandView) -> bool {
        match self {
            Step::Ask(Request::Run(c)) => c@ == command,
            _ => false,
        }
    }

    /// The step asks whether exactly this path exists.
    pub open spec fn asks_exists(&self, path: Seq<char>) -> bool {
        match self {
            Step::Ask(Request::Exists(p)) => p@ == path,
            _ => false,
        }
    }

    /// The step asks for the text of exactly this file.
    pub open spec fn asks_read(&self, path: Seq<char>) -> bool {
        match self {
            Step::Ask(Request::ReadFile(p)) => p@ == path,
            _ => false,
        }
    }

    /// The step asks for `HOME` and the entries of this directory below it.
    pub open spec fn asks_environment(&self, dir: Seq<char>) -> bool {
        match self {
            Step::Ask(Request::Environment(p)) => p@ == dir,
            _ => false,
        }
    }

    /// The step ends in an error of this kind and detail.
    pub open spec fn fails_with(&self, kind: ErrorKind, detail: Seq<char>) -> bool {
        match self {
            Step::Done(Err(e)) => e.kind_of() == kind && e.detail() == detail,
            _ => false,
        }
    }
}

/// The detail of the error that answers a reply the driver did not ask for.
pub open spec fn unexpected_reply_text() -> Seq<char> {
    "Unexpected reply"@
}

/// The error that answers a reply the driver did not ask for.
pub fn unexpected_reply() -> (e: DomainError)
    ensures
        e.kind_of() == ErrorKind::Internal,
        e.detail() == unexpected_reply_text(),
{
    DomainError::Internal(String::from_str("Unexpected reply"))
}

/// Interprets what spawning a program gave.
pub struct ProcessExecutor;

impl ProcessExecutor {
    /// An interpreter of process outcomes.
    pub fn new() -> (p: Self) {
        ProcessExecutor
    }

    /// The exit code reported for a process: its own, or -1 when it ended
    /// without one.
    pub fn exit_code(&self, code: Option<i32>) -> (c: i32)
        ensures
            c == match code {
                Some(v) => v,
                None => -1i32,
            },
    {
        match code {
            Some(v) => v,
            None => -1,
        }
    }

    /// The output of a terminated process. A non-zero exit code is no
    /// failure here.
    pub fn command_output(&self, stdout: String, stderr: String, code: Option<i32>) -> (out:
        ProcessOutput)
        ensures
            out.stdout == stdout,
            out.stderr == stderr,
            out.exit_code == match code {
                Some(v) => v,
                None => -1i32,
            },
    {
        let exit_code = self.exit_code(code);
        ProcessOutput { stdout, stderr, exit_code }
    }

    /// The error for a program that could not be spawned or awaited.
    pub fn spawn_failure(&self, reason: &str) -> (e: DomainError)
        ensures
            e.kind_of() == ErrorKind::Internal,
            e.detail() == "Failed to execute command: "@ + reason@,
    {
        DomainError::Internal(String::from_str("Failed to execute command: ").concat(reason))
    }

    /// The command that runs a shell script.
    pub fn script_command(&self, script_path: &str) -> (c: Command)
        ensures
            c@.program == "bash"@,
            c@.args == seq![script_path@],
    {
        let mut args: Vec<String> = Vec::new();
        args.push(String::from_str(script_path));
        let c = Command { program: String::from_str("bash"), args };
        assert(c@.args =~= seq![script_path@]);
        c
    }

    /// The outcome of a script: one that did not exit with success is a
    /// failure that carries what it wrote to its error stream.
    pub fn script_result(&self, success: bool, stderr: &str) -> (r: Result<(), DomainError>)
        ensures
            r is Ok <==> success,
            r matches Err(e) ==> e.kind_of() == ErrorKind::Internal && e.detail()
                == "Script execution failed: "@ + stderr@,
    {
        if success {
            Ok(())
        } else {
            Err(DomainError::Internal(String::from_str("Script execution failed: ").concat(stderr)))
        }
    }

    /// The error for a script that could not be spawned or awaited.
    pub fn script_spawn_failure(&self, reason: &str) -> (e: DomainError)
        ensures
            e.kind_of() == ErrorKind::Internal,
            e.detail() == "Failed to execute script: "@ + reason@,
    {
        DomainError::Internal(String::from_str("Failed to execute script: ").concat(reason))
    }
}

/// Names the errors of file-system operations.
pub struct FileSystem;

impl FileSystem {
    /// A namer of file-system errors.
    pub fn new() -> (f: Self) {
        FileSystem
    }

    /// The error for a file that could not be copied.
    pub fn copy_failure(&self, reason: &str) -> (e: DomainError)
        ensures
            e.kind_of() == ErrorKind::IoError,
            e.detail() == "Failed to copy file: "@ + reason@,
    {
        DomainError::IoError(String::from_str("Failed to copy file: ").concat(reason))
    }

    /// The error for a file that could not be read.
    pub fn read_failure(&self, reason: &str) -> (e: DomainError)
        ensures
            e.kind_of() == ErrorKind::IoError,
            e.detail() == "Failed to read file: "@ + reason@,
    {
        DomainError::IoError(String::from_str("Failed to read file: ").concat(reason))
    }

    /// The error for a directory that could not be created.
    pub fn create_directory_failure(&self, reason: &str) -> (e: DomainError)
        ensures
            e.kind_of() == ErrorKind::IoError,
            e.detail() == "Failed to create directory: "@ + reason@,
    {
        DomainError::IoError(String::from_str("Failed to create directory: ").concat(reason))
    }
}

} // verus!
