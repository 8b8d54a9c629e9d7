//! The sandbox driver: the commands that take one slot through its
//! lifecycle, what their outcomes mean, and the run of a program in a slot
//! as a sequence of decisions.

use crate::box_pool::{after_acquire, after_release, can_release, initial_queue, queue_valid};
use crate::box_pool::{release_refusal, BoxPool};
use crate::error::{DomainError, ErrorKind};
use crate::execution::{parse_metadata, parsed_metadata, ExecutionMetadata};
use crate::language::Language;
use crate::process::{unexpected_reply, unexpected_reply_text, Command, CommandView, FileSystem};
use crate::process::{texts, LibEntry, ProcessExecutor, ProcessOutput, Reply, Request, Step};
use crate::text::{append_decimal, decimal_text, join_path, joined_path, nonempty_lines};
use crate::text::split_lines;
use vstd::prelude::*;
use vstd::string::StringExecFns;

verus! {

/// What a run in the sandbox needs: the slot, the binary and the runner on
/// the host, the language, and where the sandbox shall write its metadata.
pub struct SandboxExecutionConfig {
    pub box_id: u32,
    pub binary_path: String,
    pub runner_path: String,
    pub language: Language,
    pub metadata_path: String,
}

/// What a run in the sandbox gave. The slot stays held.
pub struct SandboxExecutionResult {
    pub stdout: String,
    pub stderr: String,
    pub metadata: ExecutionMetadata,
    pub box_id: u32,
}

/// The working directory of a slot.
pub open spec fn box_dir(box_id: u32) -> Seq<char> {
    "/var/lib/isolate/"@ + decimal_text(box_id as nat) + "/box"@
}

/// The path of a file in the working directory of a slot.
pub open spec fn box_file(box_id: u32, name: Seq<char>) -> Seq<char> {
    box_dir(box_id) + "/"@ + name
}

/// The sandbox tool called on a slot with one verb.
pub open spec fn isolate_command(box_id: u32, verb: Seq<char>) -> CommandView {
    CommandView {
        program: "sudo"@,
        args: seq!["isolate"@, "-b"@, decimal_text(box_id as nat), "--cg"@, verb],
    }
}

/// The command that copies a host file into a slot under a new name.
pub open spec fn copy_command(box_id: u32, source: Seq<char>, name: Seq<char>) -> CommandView {
    CommandView { program: "sudo"@, args: seq!["cp"@, source, box_file(box_id, name)] }
}

/// The command that runs the runner in a slot.
pub open spec fn run_command(box_id: u32, site_packages: Seq<char>, metadata_path: Seq<char>)
    -> CommandView {
    CommandView {
        program: "sudo"@,
        args: seq![
            "isolate"@,
            "-b"@,
            decimal_text(box_id as nat),
            "--cg"@,
            "--open-files=0"@,
            "--processes"@,
            "--dir=/packages="@ + site_packages,
            "--env=HOME=/box"@,
            "--env=PYTHONPATH=/packages"@,
            "--meta="@ + metadata_path,
            "--run"@,
            "--"@,
            "runner"@,
        ],
    }
}

/// The command that lists the files of a slot, one name per line.
pub open spec fn list_command(box_id: u32) -> CommandView {
    CommandView { program: "sudo"@, args: seq!["ls"@, "-1"@, box_dir(box_id)] }
}

/// The command that writes a file of a slot to its output.
pub open spec fn read_command(box_id: u32, name: Seq<char>) -> CommandView {
    CommandView { program: "sudo"@, args: seq!["cat"@, box_file(box_id, name)] }
}

/// The command that deletes a file of a slot.
pub open spec fn delete_command(box_id: u32, name: Seq<char>) -> CommandView {
    CommandView { program: "sudo"@, args: seq!["rm"@, "-f"@, box_file(box_id, name)] }
}

/// The directory, below the home directory, that holds the libraries of a
/// language's private environment.
pub open spec fn environment_lib(language: Seq<char>) -> Seq<char> {
    ".isolate-sandbox/environment/"@ + language + "/lib"@
}

/// The site-packages directory of the first entry that is a directory and
/// has one.
pub open spec fn first_site_packages(entries: Seq<LibEntry>) -> Option<Seq<char>>
    decreases entries.len(),
{
    if entries.len() == 0 {
        None
    } else if entries[0].is_dir && entries[0].has_site_packages {
        Some(joined_path(entries[0].path@, "site-packages"@))
    } else {
        first_site_packages(entries.drop_first())
    }
}

/// The site-packages directory to bind for a language, if it has one: only
/// `python` has, and only where the home directory is known.
pub open spec fn site_packages_of(
    language: Seq<char>,
    home: Option<String>,
    entries: Seq<LibEntry>,
) -> Option<Seq<char>> {
    if home is Some && language == "python"@ {
        first_site_packages(entries)
    } else {
        None
    }
}

/// The detail of the error for a language without site-packages.
pub open spec fn site_packages_refusal(language: Seq<char>, home: Option<String>) -> Seq<char> {
    if home is None {
        "HOME env var not set"@
    } else {
        "Could not find site-packages for "@ + language
    }
}

/// The command that asks the sandbox tool for its version.
pub open spec fn version_command() -> CommandView {
    CommandView { program: "sudo"@, args: seq!["isolate"@, "--version"@] }
}

/// The command that asks the sandbox tool for its version.
pub fn verify_isolate_command() -> (c: Command)
    ensures
        c@ == version_command(),
{
    let mut args: Vec<String> = Vec::new();
    args.push(String::from_str("isolate"));
    args.push(String::from_str("--version"));
    let c = Command { program: String::from_str("sudo"), args };
    assert(c@.args =~= version_command().args);
    c
}

/// Whether the sandbox tool is installed, from the outcome of the version
/// command: only an exit with zero says so. Anything else is a
/// misconfiguration that must stop the startup.
pub fn verify_isolate(reply: &Reply) -> (r: Result<(), DomainError>)
    ensures
        r is Ok <==> (reply matches Reply::Exited(out) && out.exit_code == 0),
        r matches Err(e) ==> e.kind_of() == ErrorKind::InvalidConfiguration && e.detail() == (
        match reply {
            Reply::Exited(out) => "Isolate command failed: "@ + out.stderr@,
            Reply::Failed(reason) => "Isolate not found. Please install isolate: "@ + reason@,
            _ => unexpected_reply_text(),
        }),
{
    match reply {
        Reply::Exited(out) => {
            if out.exit_code == 0 {
                Ok(())
            } else {
                Err(
                    DomainError::InvalidConfiguration(
                        String::from_str("Isolate command failed: ").concat(out.stderr.as_str()),
                    ),
                )
            }
        },
        Reply::Failed(reason) => Err(
            DomainError::InvalidConfiguration(
                String::from_str("Isolate not found. Please install isolate: ").concat(
                    reason.as_str(),
                ),
            ),
        ),
        _ => Err(DomainError::InvalidConfiguration(String::from_str("Unexpected reply"))),
    }
}

/// Where a run in the sandbox stands: each stage but the last waits for
/// the answer to one request.
#[derive(Clone, Copy, Debug, PartialEq, Eq, Structural)]
pub enum SandboxStage {
    Init,
    CopyBinary,
    CopyRunner,
    Environment,
    Run,
    ReadMetadata,
    DeleteBinary,
    DeleteRunner,
    Finished,
}

/// One run in the sandbox in progress.
pub struct SandboxRun {
    pub stage: SandboxStage,
    pub config: SandboxExecutionConfig,
    pub stdout: String,
    pub stderr: String,
    pub metadata: ExecutionMetadata,
}

/// The number of requests that a run at the given stage can still make.
pub open spec fn stages_left(stage: SandboxStage) -> nat {
    match stage {
        SandboxStage::Init => 8,
        SandboxStage::CopyBinary => 7,
        SandboxStage::CopyRunner => 6,
        SandboxStage::Environment => 5,
        SandboxStage::Run => 4,
        SandboxStage::ReadMetadata => 3,
        SandboxStage::DeleteBinary => 2,
        SandboxStage::DeleteRunner => 1,
        SandboxStage::Finished => 0,
    }
}

/// The step ends the run: the given failure.
pub open spec fn run_fails(
    after: SandboxRun,
    step: Step<SandboxExecutionResult>,
    kind: ErrorKind,
    detail: Seq<char>,
) -> bool {
    after.stage == SandboxStage::Finished && step.fails_with(kind, detail)
}

/// The step takes the run to the next stage with a command to spawn.
pub open spec fn run_goes_on(
    after: SandboxRun,
    step: Step<SandboxExecutionResult>,
    stage: SandboxStage,
    command: CommandView,
) -> bool {
    after.stage == stage && step.asks_run(command)
}

/// What `resume` decides, for each stage and reply.
pub open spec fn sandbox_decision(
    before: SandboxRun,
    reply: Reply,
    after: SandboxRun,
    step: Step<SandboxExecutionResult>,
) -> bool {
    let box_id = before.config.box_id;
    &&& after.config == before.config
    &&& match (before.stage, reply) {
        (SandboxStage::Init, Reply::Exited(out)) => if out.exit_code == 0 {
            run_goes_on(
                after,
                step,
                SandboxStage::CopyBinary,
                copy_command(box_id, before.config.binary_path@, "bin"@),
            )
        } else {
            run_fails(
                after,
                step,
                ErrorKind::SandboxError,
                "Failed to initialize sandbox: "@ + out.stderr@,
            )
        },
        (SandboxStage::CopyBinary, Reply::Exited(out)) => if out.exit_code == 0 {
            run_goes_on(
                after,
                step,
                SandboxStage::CopyRunner,
                copy_command(box_id, before.config.runner_path@, "runner"@),
            )
        } else {
            run_fails(
                after,
                step,
                ErrorKind::SandboxError,
                "Failed to copy file to sandbox: "@ + out.stderr@,
            )
        },
        (SandboxStage::CopyRunner, Reply::Exited(out)) => if out.exit_code == 0 {
            &&& after.stage == SandboxStage::Environment
            &&& step.asks_environment(environment_lib(before.config.language.name@))
        } else {
            run_fails(
                after,
                step,
                ErrorKind::SandboxError,
                "Failed to copy file to sandbox: "@ + out.stderr@,
            )
        },
        (SandboxStage::Environment, Reply::Environment { home, entries }) => match site_packages_of(
            before.config.language.name@,
            home,
            entries@,
        ) {
            Some(site_packages) => run_goes_on(
                after,
                step,
                SandboxStage::Run,
                run_command(box_id, site_packages, before.config.metadata_path@),
            ),
            None => run_fails(
                after,
                step,
                ErrorKind::Internal,
                site_packages_refusal(before.config.language.name@, home),
            ),
        },
        (SandboxStage::Run, Reply::Exited(out)) => {
            &&& after.stage == SandboxStage::ReadMetadata
            &&& after.stdout@ == out.stdout@
            &&& after.stderr@ == out.stderr@
            &&& step.asks_read(before.config.metadata_path@)
        },
        (SandboxStage::ReadMetadata, Reply::Text(content)) => {
            &&& after.stdout@ == before.stdout@
            &&& after.stderr@ == before.stderr@
            &&& after.metadata@ == parsed_metadata(content@)
            &&& run_goes_on(after, step, SandboxStage::DeleteBinary, delete_command(box_id, "bin"@))
        },
        (SandboxStage::ReadMetadata, Reply::Failed(reason)) => run_fails(
            after,
            step,
            ErrorKind::IoError,
            "Failed to read file: "@ + reason@,
        ),
        (SandboxStage::DeleteBinary, Reply::Exited(_))
        | (SandboxStage::DeleteBinary, Reply::Failed(_)) => {
            &&& after.stdout@ == before.stdout@
            &&& after.stderr@ == before.stderr@
            &&& after.metadata@ == before.metadata@
            &&& run_goes_on(
                after,
                step,
                SandboxStage::DeleteRunner,
                delete_command(box_id, "runner"@),
            )
        },
        (SandboxStage::DeleteRunner, Reply::Exited(_))
        | (SandboxStage::DeleteRunner, Reply::Failed(_)) => {
            &&& after.stage == SandboxStage::Finished
            &&& step matches Step::Done(Ok(result))
            &&& result.stdout@ == before.stdout@
            &&& result.stderr@ == before.stderr@
            &&& result.metadata@ == before.metadata@
            &&& result.box_id == box_id
        },
        (SandboxStage::Init, Reply::Failed(reason))
        | (SandboxStage::CopyBinary, Reply::Failed(reason))
        | (SandboxStage::CopyRunner, Reply::Failed(reason))
        | (SandboxStage::Run, Reply::Failed(reason)) => run_fails(
            after,
            step,
            ErrorKind::Internal,
            "Failed to execute command: "@ + reason@,
        ),
        _ => run_fails(after, step, ErrorKind::Internal, unexpected_reply_text()),
    }
}

/// A sandbox with a pool of slots, driven one decision at a time.
pub trait SandboxService {
    /// The slots that are free, oldest first.
    spec fn free_queue(&self) -> Seq<u32>;

    /// The number of slots.
    spec fn capacity(&self) -> nat;

    /// Begins a run in the sandbox: the first request initializes the slot.
    fn execute(&self, config: SandboxExecutionConfig) -> (r: (
        SandboxRun,
        Step<SandboxExecutionResult>,
    ))
        ensures
            r.0.stage == SandboxStage::Init,
            r.0.config == config,
            r.1.asks_run(isolate_command(config.box_id, "--init"@)),
    ;

    /// Takes the run one decision further, given the answer to its last
    /// request. The slot is never released here: it stays held when the run
    /// ends, whether in a result or in an error.
    fn resume(&self, run: &mut SandboxRun, reply: Reply) -> (step: Step<SandboxExecutionResult>)
        ensures
            sandbox_decision(*old(run), reply, *final(run), step),
            stages_left(final(run).stage) < stages_left(old(run).stage) || old(run).stage
                == SandboxStage::Finished,
            step is Done ==> final(run).stage == SandboxStage::Finished,
    ;

    /// Takes the slot that has been free the longest, or fails with
    /// `BoxPoolExhausted`.
    fn acquire_box_id(&mut self) -> (r: Result<u32, DomainError>)
        ensures
            queue_valid(old(self).free_queue(), old(self).capacity()),
            queue_valid(final(self).free_queue(), final(self).capacity()),
            final(self).capacity() == old(self).capacity(),
            final(self).free_queue() == after_acquire(old(self).free_queue()),
            match r {
                Ok(id) => old(self).free_queue().len() > 0 && id == old(self).free_queue()[0],
                Err(e) => old(self).free_queue().len() == 0 && e.kind_of()
                    == ErrorKind::BoxPoolExhausted,
            },
    ;

    /// Gives a held slot back to the pool, or fails with `Internal`.
    fn release_box_id(&mut self, box_id: u32) -> (r: Result<(), DomainError>)
        ensures
            queue_valid(old(self).free_queue(), old(self).capacity()),
            queue_valid(final(self).free_queue(), final(self).capacity()),
            final(self).capacity() == old(self).capacity(),
            final(self).free_queue() == after_release(
                old(self).free_queue(),
                old(self).capacity(),
                box_id,
            ),
            r is Ok <==> can_release(
                old(self).free_queue(),
                old(self).capacity(),
                box_id,
            ),
            r matches Err(e) ==> e.kind_of() == ErrorKind::Internal && e.detail()
                == release_refusal(old(self).capacity(), box_id),
    ;

    /// The command that lists the files of a slot.
    fn list_files_command(&self, box_id: u32) -> (c: Command)
        ensures
            c@ == list_command(box_id),
    ;

    /// The names of the files of a slot, from the outcome of the listing
    /// command: the non-empty lines of its output. A listing that did not
    /// exit with zero fails with `SandboxError`.
    fn list_files(&self, output: &ProcessOutput) -> (r: Result<Vec<String>, DomainError>)
        ensures
            r is Ok <==> output.exit_code == 0,
            r matches Ok(files) ==> texts(files@) == nonempty_lines(output.stdout@),
            r matches Err(e) ==> e.kind_of() == ErrorKind::SandboxError && e.detail()
                == "Failed to list files in box: "@ + output.stderr@,
    ;

    /// The command that writes a file of a slot to its output.
    fn get_file_command(&self, box_id: u32, filename: &str) -> (c: Command)
        ensures
            c@ == read_command(box_id, filename@),
    ;

    /// The bytes of a file of a slot, from the outcome of the reading
    /// command: its raw output. A command that did not exit with zero fails
    /// with `SandboxError`.
    fn get_file(&self, stdout: Vec<u8>, stderr: &str, exit_code: i32) -> (r: Result<
        Vec<u8>,
        DomainError,
    >)
        ensures
            r is Ok <==> exit_code == 0,
            r matches Ok(bytes) ==> bytes@ == stdout@,
            r matches Err(e) ==> e.kind_of() == ErrorKind::SandboxError && e.detail()
                == "Failed to read file from box: "@ + stderr@,
    ;

    /// The command that tears a slot down.
    fn cleanup(&self, box_id: u32) -> (c: Command)
        ensures
            c@ == isolate_command(box_id, "--cleanup"@),
    ;
}

/// Drives the sandbox tool and owns the pool of its slots.
pub struct IsolateSandboxService {
    box_pool: BoxPool,
    process_executor: ProcessExecutor,
    file_system: FileSystem,
}

impl IsolateSandboxService {
    /// The pool of slots.
    pub closed spec fn pool(&self) -> BoxPool {
        self.box_pool
    }

    /// The pool is valid.
    pub open spec fn inv(&self) -> bool {
        self.pool().inv()
    }

    /// A driver with a pool of `pool_size` free slots.
    pub fn new(pool_size: u32) -> (s: Self)
        ensures
            s.inv(),
            s.pool().capacity() == pool_size,
            s.pool().free_queue() == initial_queue(pool_size as nat),
    {
        IsolateSandboxService {
            box_pool: BoxPool::new(pool_size),
            process_executor: ProcessExecutor::new(),
            file_system: FileSystem::new(),
        }
    }

    /// The number of slots that are free.
    pub fn free_slots(&self) -> (n: usize)
        ensures
            n == self.pool().free_queue().len(),
    {
        self.box_pool.free_count()
    }

    fn box_path(&self, box_id: u32) -> (p: String)
        ensures
            p@ == box_dir(box_id),
    {
        let mut p = String::from_str("/var/lib/isolate/");
        append_decimal(&mut p, box_id as u64);
        p.append("/box");
        p
    }

    fn file_path(&self, box_id: u32, name: &str) -> (p: String)
        ensures
            p@ == box_file(box_id, name@),
    {
        let mut p = self.box_path(box_id);
        p.append("/");
        p.append(name);
        p
    }

    fn isolate(&self, box_id: u32, verb: &str) -> (c: Command)
        ensures
            c@ == isolate_command(box_id, verb@),
    {
        let mut id = String::new();
        append_decimal(&mut id, box_id as u64);
        assert(id@ =~= decimal_text(box_id as nat));
        let mut args: Vec<String> = Vec::new();
        args.push(String::from_str("isolate"));
        args.push(String::from_str("-b"));
        args.push(id);
        args.push(String::from_str("--cg"));
        args.push(String::from_str(verb));
        let c = Command { program: String::from_str("sudo"), args };
        assert(c@.args =~= isolate_command(box_id, verb@).args);
        c
    }

    /// The command that initializes a slot.
    pub fn init_command(&self, box_id: u32) -> (c: Command)
        ensures
            c@ == isolate_command(box_id, "--init"@),
    {
        self.isolate(box_id, "--init")
    }

    /// The command that copies the host file `source` into a slot as `name`.
    pub fn copy_to_sandbox_command(&self, box_id: u32, source: &str, name: &str) -> (c: Command)
        ensures
            c@ == copy_command(box_id, source@, name@),
    {
        let mut args: Vec<String> = Vec::new();
        args.push(String::from_str("cp"));
        args.push(String::from_str(source));
        args.push(self.file_path(box_id, name));
        let c = Command { program: String::from_str("sudo"), args };
        assert(c@.args =~= copy_command(box_id, source@, name@).args);
        c
    }

    /// The command that runs the runner in a slot, with the site-packages
    /// directory bound at `/packages` and the metadata written to
    /// `metadata_path`.
    pub fn run_in_sandbox_command(&self, box_id: u32, site_packages: &str, metadata_path: &str) -> (c:
        Command)
        ensures
            c@ == run_command(box_id, site_packages@, metadata_path@),
    {
        let mut id = String::new();
        append_decimal(&mut id, box_id as u64);
        assert(id@ =~= decimal_text(box_id as nat));
        let mut args: Vec<String> = Vec::new();
        args.push(String::from_str("isolate"));
        args.push(String::from_str("-b"));
        args.push(id);
        args.push(String::from_str("--cg"));
        args.push(String::from_str("--open-files=0"));
        args.push(String::from_str("--processes"));
        args.push(String::from_str("--dir=/packages=").concat(site_packages));
        args.push(String::from_str("--env=HOME=/box"));
        args.push(String::from_str("--env=PYTHONPATH=/packages"));
        args.push(String::from_str("--meta=").concat(metadata_path));
        args.push(String::from_str("--run"));
        args.push(String::from_str("--"));
        args.push(String::from_str("runner"));
        let c = Command { program: String::from_str("sudo"), args };
        assert(c@.args =~= run_command(box_id, site_packages@, metadata_path@).args);
        c
    }

    /// The command that deletes a file of a slot. Its outcome is not
    /// looked at: deletion is best effort.
    pub fn delete_file_command(&self, box_id: u32, filename: &str) -> (c: Command)
        ensures
            c@ == delete_command(box_id, filename@),
    {
        let mut args: Vec<String> = Vec::new();
        args.push(String::from_str("rm"));
        args.push(String::from_str("-f"));
        args.push(self.file_path(box_id, filename));
        let c = Command { program: String::from_str("sudo"), args };
        assert(c@.args =~= delete_command(box_id, filename@).args);
        c
    }

    /// The site-packages directory to bind for a language, given the home
    /// directory and the entries of the language's library directory.
    pub fn get_site_packages_path(
        &self,
        language_name: &str,
        home: &Option<String>,
        entries: &Vec<LibEntry>,
    ) -> (r: Result<String, DomainError>)
        ensures
            match site_packages_of(language_name@, *home, entries@) {
                Some(path) => r matches Ok(p) && p@ == path,
                None => r matches Err(e) && e.kind_of() == ErrorKind::Internal && e.detail()
                    == site_packages_refusal(language_name@, *home),
            },
    {
        if home.is_none() {
            return Err(DomainError::Internal(String::from_str("HOME env var not set")));
        }
        if String::from_str(language_name) == String::from_str("python") {
            let mut i: usize = 0;
            assert(entries@.skip(0) =~= entries@);
            while i < entries.len()
                invariant
                    i <= entries.len(),
                    *home is Some,
                    language_name@ == "python"@,
                    first_site_packages(entries@) == first_site_packages(entries@.skip(i as int)),
                decreases entries.len() - i,
            {
                let entry = &entries[i];
                proof {
                    assert(entries@.skip(i as int).len() > 0);
                    assert(entries@.skip(i as int)[0] == entries@[i as int]);
                    assert(entries@.skip(i as int).drop_first() =~= entries@.skip(i + 1));
                }
                if entry.is_dir && entry.has_site_packages {
                    let path = join_path(entry.path.as_str(), "site-packages");
                    return Ok(path);
                }
                i = i + 1;
            }
        }
        Err(
            DomainError::Internal(
                String::from_str("Could not find site-packages for ").concat(language_name),
            ),
        )
    }

}

impl SandboxService for IsolateSandboxService {
    open spec fn free_queue(&self) -> Seq<u32> {
        self.pool().free_queue()
    }

    open spec fn capacity(&self) -> nat {
        self.pool().capacity()
    }

    fn execute(&self, config: SandboxExecutionConfig) -> (r: (
        SandboxRun,
        Step<SandboxExecutionResult>,
    )) {
        let command = self.init_command(config.box_id);
        let run = SandboxRun {
            stage: SandboxStage::Init,
            config,
            stdout: String::new(),
            stderr: String::new(),
            metadata: ExecutionMetadata::new(),
        };
        (run, Step::Ask(Request::Run(command)))
    }

    fn resume(&self, run: &mut SandboxRun, reply: Reply) -> (step: Step<SandboxExecutionResult>) {
        let stage = run.stage;
        let box_id = run.config.box_id;
        run.stage = SandboxStage::Finished;
        match (stage, reply) {
            (SandboxStage::Init, Reply::Exited(out)) => {
                if out.exit_code == 0 {
                    run.stage = SandboxStage::CopyBinary;
                    Step::Ask(
                        Request::Run(
                            self.copy_to_sandbox_command(
                                box_id,
                                run.config.binary_path.as_str(),
                                "bin",
                            ),
                        ),
                    )
                } else {
                    Step::Done(
                        Err(
                            DomainError::SandboxError(
                                String::from_str("Failed to initialize sandbox: ").concat(
                                    out.stderr.as_str(),
                                ),
                            ),
                        ),
                    )
                }
            },
            (SandboxStage::CopyBinary, Reply::Exited(out)) => {
                if out.exit_code == 0 {
                    run.stage = SandboxStage::CopyRunner;
                    Step::Ask(
                        Request::Run(
                            self.copy_to_sandbox_command(
                                box_id,
                                run.config.runner_path.as_str(),
                                "runner",
                            ),
                        ),
                    )
                } else {
                    Step::Done(
                        Err(
                            DomainError::SandboxError(
                                String::from_str("Failed to copy file to sandbox: ").concat(
                                    out.stderr.as_str(),
                                ),
                            ),
                        ),
                    )
                }
            },
            (SandboxStage::CopyRunner, Reply::Exited(out)) => {
                if out.exit_code == 0 {
                    run.stage = SandboxStage::Environment;
                    let dir = String::from_str(".isolate-sandbox/environment/").concat(
                        run.config.language.name.as_str(),
                    ).concat("/lib");
                    Step::Ask(Request::Environment(dir))
                } else {
                    Step::Done(
                        Err(
                            DomainError::SandboxError(
                                String::from_str("Failed to copy file to sandbox: ").concat(
                                    out.stderr.as_str(),
                                ),
                            ),
                        ),
                    )
                }
            },
            (SandboxStage::Environment, Reply::Environment { home, entries }) => {
                match self.get_site_packages_path(
                    run.config.language.name.as_str(),
                    &home,
                    &entries,
                ) {
                    Ok(site_packages) => {
                        run.stage = SandboxStage::Run;
                        Step::Ask(
                            Request::Run(
                                self.run_in_sandbox_command(
                                    box_id,
                                    site_packages.as_str(),
                                    run.config.metadata_path.as_str(),
                                ),
                            ),
                        )
                    },
                    Err(e) => Step::Done(Err(e)),
                }
            },
            (SandboxStage::Run, Reply::Exited(out)) => {
                run.stdout = out.stdout;
                run.stderr = out.stderr;
                run.stage = SandboxStage::ReadMetadata;
                Step::Ask(Request::ReadFile(run.config.metadata_path.clone()))
            },
            (SandboxStage::ReadMetadata, Reply::Text(content)) => {
                run.metadata = parse_metadata(content.as_str());
                run.stage = SandboxStage::DeleteBinary;
                Step::Ask(Request::Run(self.delete_file_command(box_id, "bin")))
            },
            (SandboxStage::ReadMetadata, Reply::Failed(reason)) => {
                Step::Done(Err(self.file_system.read_failure(reason.as_str())))
            },
            (SandboxStage::DeleteBinary, Reply::Exited(_))
            | (SandboxStage::DeleteBinary, Reply::Failed(_)) => {
                run.stage = SandboxStage::DeleteRunner;
                Step::Ask(Request::Run(self.delete_file_command(box_id, "runner")))
            },
            (SandboxStage::DeleteRunner, Reply::Exited(_))
            | (SandboxStage::DeleteRunner, Reply::Failed(_)) => {
                let metadata = ExecutionMetadata {
                    time: run.metadata.time.clone(),
                    time_wall: run.metadata.time_wall.clone(),
                    memory: run.metadata.memory,
                    exit_code: run.metadata.exit_code,
                    status: run.metadata.status.clone(),
                };
                Step::Done(
                    Ok(
                        SandboxExecutionResult {
                            stdout: run.stdout.clone(),
                            stderr: run.stderr.clone(),
                            metadata,
                            box_id,
                        },
                    ),
                )
            },
            (SandboxStage::Init, Reply::Failed(reason))
            | (SandboxStage::CopyBinary, Reply::Failed(reason))
            | (SandboxStage::CopyRunner, Reply::Failed(reason))
            | (SandboxStage::Run, Reply::Failed(reason)) => {
                Step::Done(Err(self.process_executor.spawn_failure(reason.as_str())))
            },
            _ => Step::Done(Err(unexpected_reply())),
        }
    }

    fn acquire_box_id(&mut self) -> (r: Result<u32, DomainError>) {
        self.box_pool.acquire()
    }

    fn release_box_id(&mut self, box_id: u32) -> (r: Result<(), DomainError>) {
        self.box_pool.release(box_id)
    }

    fn list_files_command(&self, box_id: u32) -> (c: Command) {
        let mut args: Vec<String> = Vec::new();
        args.push(String::from_str("ls"));
        args.push(String::from_str("-1"));
        args.push(self.box_path(box_id));
        let c = Command { program: String::from_str("sudo"), args };
        assert(c@.args =~= list_command(box_id).args);
        c
    }

    fn list_files(&self, output: &ProcessOutput) -> (r: Result<Vec<String>, DomainError>) {
        if output.exit_code != 0 {
            return Err(
                DomainError::SandboxError(
                    String::from_str("Failed to list files in box: ").concat(
                        output.stderr.as_str(),
                    ),
                ),
            );
        }
        let files = split_lines(output.stdout.as_str());
        assert(texts(files@) =~= nonempty_lines(output.stdout@));
        Ok(files)
    }

    fn get_file_command(&self, box_id: u32, filename: &str) -> (c: Command) {
        let mut args: Vec<String> = Vec::new();
        args.push(String::from_str("cat"));
        args.push(self.file_path(box_id, filename));
        let c = Command { program: String::from_str("sudo"), args };
        assert(c@.args =~= read_command(box_id, filename@).args);
        c
    }

    fn get_file(&self, stdout: Vec<u8>, stderr: &str, exit_code: i32) -> (r: Result<
        Vec<u8>,
        DomainError,
    >) {
        if exit_code != 0 {
            return Err(
                DomainError::SandboxError(
                    String::from_str("Failed to read file from box: ").concat(stderr),
                ),
            );
        }
        Ok(stdout)
    }

    fn cleanup(&self, box_id: u32) -> (c: Command) {
        self.isolate(box_id, "--cleanup")
    }
}

} // verus!
