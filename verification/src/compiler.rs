//! The compiler driver: runs a language's compiler script over a source
//! file, hides the source path in its diagnostics, and locates the binary.

use crate::error::{DomainError, ErrorKind};
use crate::language::Language;
use crate::process::{Command, CommandView, ProcessExecutor, Reply, Request, Step};
use crate::process::{unexpected_reply, unexpected_reply_text};
use crate::text::{join_path, joined_path, lemma_replace_removes_pattern, occurs_at};
use crate::text::{replace_all, replace_text};
use vstd::prelude::*;
use vstd::string::StringExecFns;

verus! {

/// The extension of the file that a path names, as `std::path::Path`
/// reads it.
pub uninterp spec fn path_extension(path: Seq<char>) -> Option<Seq<char>>;

/// Calls `std::path::Path::extension`. The contract only names the result:
/// the same path always has the same extension.
#[verifier::external_body]
fn extension_of_path(path: &str) -> (ext: Option<String>)
    ensures
        match ext {
            Some(e) => path_extension(path@) == Some(e@),
            None => path_extension(path@) == None::<Seq<char>>,
        },
{
    match std::path::Path::new(path).extension() {
        Some(e) => Some(e.to_string_lossy().into_owned()),
        None => None,
    }
}

/// What stands in place of a source path in diagnostics: seven asterisks,
/// followed by a dot and the extension where the path has one.
pub open spec fn mask_for(extension: Option<Seq<char>>) -> Seq<char> {
    match extension {
        Some(e) => "*******."@ + e,
        None => "*******"@,
    }
}

/// Compiler diagnostics with every occurrence of the source path masked.
pub open spec fn sanitized(stderr: Seq<char>, source_path: Seq<char>, extension: Option<Seq<char>>)
    -> Seq<char> {
    replace_all(stderr, source_path, mask_for(extension))
}

/// Where a compilation stands.
#[derive(Clone, Copy, Debug, PartialEq, Eq, Structural)]
pub enum CompileStage {
    /// Waiting to learn whether the compiler script exists.
    CheckCompiler,
    /// Waiting for the compiler script to terminate.
    RunCompiler,
    /// Waiting to learn whether the binary was produced.
    CheckBinary,
    Finished,
}

/// One compilation in progress.
pub struct Compilation {
    pub stage: CompileStage,
    pub compiler_path: String,
    pub source_path: String,
    pub binary_path: String,
    pub stdout: String,
    pub stderr: String,
}

/// The command that compiles: the compiler script, with the source path as
/// its only argument.
pub open spec fn compile_command(compiler_path: Seq<char>, source_path: Seq<char>) -> CommandView {
    CommandView { program: compiler_path, args: seq![source_path] }
}

/// The detail of the error for a compiler that left no binary.
pub open spec fn missing_binary_text(
    binary_path: Seq<char>,
    stdout: Seq<char>,
    stderr: Seq<char>,
) -> Seq<char> {
    "Compiled binary not found at: "@ + binary_path + ". Stdout: "@ + stdout + ", Stderr: "@
        + stderr
}

/// What `resume` decides, for each stage and reply.
pub open spec fn compile_decision(
    before: Compilation,
    reply: Reply,
    after: Compilation,
    step: Step<String>,
) -> bool {
    &&& after.compiler_path@ == before.compiler_path@
    &&& after.source_path@ == before.source_path@
    &&& after.binary_path@ == before.binary_path@
    &&& match (before.stage, reply) {
        (CompileStage::CheckCompiler, Reply::Exists(present)) => if present {
            &&& after.stage == CompileStage::RunCompiler
            &&& step.asks_run(compile_command(before.compiler_path@, before.source_path@))
        } else {
            &&& after.stage == CompileStage::Finished
            &&& step.fails_with(
                ErrorKind::CompilationFailed,
                "compiler not found: "@ + before.compiler_path@,
            )
        },
        (CompileStage::RunCompiler, Reply::Exited(out)) => if out.exit_code == 0 {
            &&& after.stage == CompileStage::CheckBinary
            &&& after.stdout@ == out.stdout@
            &&& after.stderr@ == out.stderr@
            &&& step.asks_exists(before.binary_path@)
        } else {
            &&& after.stage == CompileStage::Finished
            &&& step.fails_with(
                ErrorKind::CompilationFailed,
                sanitized(out.stderr@, before.source_path@, path_extension(before.source_path@)),
            )
        },
        (CompileStage::RunCompiler, Reply::Failed(reason)) => {
            &&& after.stage == CompileStage::Finished
            &&& step.fails_with(ErrorKind::Internal, "Failed to execute command: "@ + reason@)
        },
        (CompileStage::CheckBinary, Reply::Exists(present)) => {
            &&& after.stage == CompileStage::Finished
            &&& if present {
                step matches Step::Done(Ok(path)) && path@ == before.binary_path@
            } else {
                step.fails_with(
                    ErrorKind::CompilationFailed,
                    missing_binary_text(before.binary_path@, before.stdout@, before.stderr@),
                )
            }
        },
        _ => {
            &&& after.stage == CompileStage::Finished
            &&& step.fails_with(ErrorKind::Internal, unexpected_reply_text())
        },
    }
}

/// The compiler driver.
pub struct CompilerServiceImpl {
    process_executor: ProcessExecutor,
}

impl CompilerServiceImpl {
    /// A compiler driver.
    pub fn new() -> (c: Self) {
        CompilerServiceImpl { process_executor: ProcessExecutor::new() }
    }

    /// Masks every occurrence of the source path in the diagnostics, given
    /// the extension of the source path.
    pub fn sanitize_with(&self, stderr: &str, source_path: &str, extension: Option<&str>) -> (out:
        String)
        ensures
            out@ == sanitized(
                stderr@,
                source_path@,
                match extension {
                    Some(e) => Some(e@),
                    None => None,
                },
            ),
    {
        match extension {
            Some(e) => {
                let mask = String::from_str("*******.").concat(e);
                replace_text(stderr, source_path, mask.as_str())
            },
            None => replace_text(stderr, source_path, "*******"),
        }
    }

    /// Masks every occurrence of the source path in the diagnostics: the
    /// path becomes seven asterisks, followed by its extension if it has
    /// one.
    pub fn sanitize_stderr(&self, stderr: &str, source_path: &str) -> (out: String)
        ensures
            out@ == sanitized(stderr@, source_path@, path_extension(source_path@)),
    {
        match extension_of_path(source_path) {
            Some(e) => self.sanitize_with(stderr, source_path, Some(e.as_str())),
            None => self.sanitize_with(stderr, source_path, None),
        }
    }
}

/// A compiler of source files, driven one decision at a time.
pub trait CompilerService {
    /// Begins the compilation of `source_path` for `language`: the binary
    /// is expected at `bin` in `output_dir`. The first question is whether
    /// the compiler script exists.
    fn compile(&self, language: &Language, source_path: &str, output_dir: &str) -> (r: (
        Compilation,
        Step<String>,
    ))
        ensures
            r.0.stage == CompileStage::CheckCompiler,
            r.0.compiler_path@ == joined_path(language.config_dir@, "compiler"@),
            r.0.source_path@ == source_path@,
            r.0.binary_path@ == joined_path(output_dir@, "bin"@),
            r.1.asks_exists(joined_path(language.config_dir@, "compiler"@)),
    ;

    /// Takes the compilation one decision further, given the answer to its
    /// last request.
    fn resume(&self, compilation: &mut Compilation, reply: Reply) -> (step: Step<String>)
        ensures
            compile_decision(*old(compilation), reply, *final(compilation), step),
    ;
}

impl CompilerService for CompilerServiceImpl {
    fn compile(&self, language: &Language, source_path: &str, output_dir: &str) -> (r: (
        Compilation,
        Step<String>,
    )) {
        let compiler_path = language.compiler_path();
        let question = compiler_path.clone();
        let compilation = Compilation {
            stage: CompileStage::CheckCompiler,
            compiler_path,
            source_path: String::from_str(source_path),
            binary_path: join_path(output_dir, "bin"),
            stdout: String::new(),
            stderr: String::new(),
        };
        (compilation, Step::Ask(Request::Exists(question)))
    }

    fn resume(&self, compilation: &mut Compilation, reply: Reply) -> (step: Step<String>) {
        let stage = compilation.stage;
        compilation.stage = CompileStage::Finished;
        match (stage, reply) {
            (CompileStage::CheckCompiler, Reply::Exists(present)) => {
                if present {
                    let mut args: Vec<String> = Vec::new();
                    args.push(compilation.source_path.clone());
                    let command = Command { program: compilation.compiler_path.clone(), args };
                    assert(command@.args =~= seq![compilation.source_path@]);
                    compilation.stage = CompileStage::RunCompiler;
                    Step::Ask(Request::Run(command))
                } else {
                    let detail = String::from_str("compiler not found: ").concat(
                        compilation.compiler_path.as_str(),
                    );
                    Step::Done(Err(DomainError::CompilationFailed(detail)))
                }
            },
            (CompileStage::RunCompiler, Reply::Exited(out)) => {
                if out.exit_code == 0 {
                    compilation.stdout = out.stdout;
                    compilation.stderr = out.stderr;
                    compilation.stage = CompileStage::CheckBinary;
                    Step::Ask(Request::Exists(compilation.binary_path.clone()))
                } else {
                    let detail = self.sanitize_stderr(
                        out.stderr.as_str(),
                        compilation.source_path.as_str(),
                    );
                    Step::Done(Err(DomainError::CompilationFailed(detail)))
                }
            },
            (CompileStage::RunCompiler, Reply::Failed(reason)) => {
                Step::Done(Err(self.process_executor.spawn_failure(reason.as_str())))
            },
            (CompileStage::CheckBinary, Reply::Exists(present)) => {
                if present {
                    Step::Done(Ok(compilation.binary_path.clone()))
                } else {
                    let detail = String::from_str("Compiled binary not found at: ").concat(
                        compilation.binary_path.as_str(),
                    ).concat(". Stdout: ").concat(compilation.stdout.as_str()).concat(
                        ", Stderr: ",
                    ).concat(compilation.stderr.as_str());
                    Step::Done(Err(DomainError::CompilationFailed(detail)))
                }
            },
            _ => Step::Done(Err(unexpected_reply())),
        }
    }
}

/// The number of requests that a compilation at the given stage can
/// still make.
pub open spec fn compile_stages_left(stage: CompileStage) -> nat {
    match stage {
        CompileStage::CheckCompiler => 3,
        CompileStage::RunCompiler => 2,
        CompileStage::CheckBinary => 1,
        CompileStage::Finished => 0,
    }
}

/// Every decision takes a compilation strictly nearer to its end, a
/// decision that ends it leaves it finished, and a finished compilation
/// stays finished.
pub proof fn lemma_compilation_advances(
    before: Compilation,
    reply: Reply,
    after: Compilation,
    step: Step<String>,
)
    requires
        compile_decision(before, reply, after, step),
    ensures
        before.stage != CompileStage::Finished ==> compile_stages_left(after.stage)
            < compile_stages_left(before.stage),
        before.stage == CompileStage::Finished ==> after.stage == CompileStage::Finished,
        step is Done ==> after.stage == CompileStage::Finished,
{
}

/// Where the source path is not empty, holds no asterisk, and begins with
/// a character that its mask does not hold (as every absolute path does
/// whose extension holds no `/`), the sanitized diagnostics hold the source
/// path nowhere.
pub proof fn lemma_sanitized_hides_source_path(
    stderr: Seq<char>,
    source_path: Seq<char>,
    extension: Option<Seq<char>>,
    k: int,
)
    requires
        source_path.len() > 0,
        !source_path.contains('*'),
        !mask_for(extension).contains(source_path[0]),
    ensures
        !occurs_at(sanitized(stderr, source_path, extension), source_path, k),
{
    reveal_strlit("*******.");
    reveal_strlit("*******");
    let mask = mask_for(extension);
    assert(mask.len() > 0);
    assert(mask[0] == '*');
    lemma_replace_removes_pattern(stderr, source_path, mask, k);
}

/// The sanitized diagnostics hold an absolute source path nowhere, where
/// the path holds no asterisk and its extension no `/`.
pub proof fn lemma_sanitized_hides_absolute_path(
    stderr: Seq<char>,
    source_path: Seq<char>,
    extension: Option<Seq<char>>,
    k: int,
)
    requires
        source_path.len() > 0,
        source_path[0] == '/',
        !source_path.contains('*'),
        extension matches Some(e) ==> !e.contains('/'),
    ensures
        !occurs_at(sanitized(stderr, source_path, extension), source_path, k),
{
    reveal_strlit("*******.");
    reveal_strlit("*******");
    let mask = mask_for(extension);
    if mask.contains('/') {
        let i = mask.index_of('/');
        match extension {
            Some(e) => {
                if i >= 8 {
                    assert(e[i - 8] == '/');
                }
            },
            None => {},
        }
    }
    lemma_sanitized_hides_source_path(stderr, source_path, extension, k);
}

} // verus!
