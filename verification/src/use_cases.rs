//! The operations the service offers: running code, listing languages,
//! and inspecting and releasing a held slot.

use crate::box_pool::{after_acquire, after_release, can_release, occurrences};
use crate::box_pool::{lemma_release_frees_exactly_once, release_refusal};
use crate::error::{DomainError, ErrorKind};
use crate::execution::{ExecutionRequest, ExecutionResult};
use crate::language::{language_views, lookup_answer, Language, LanguageRepository};
use crate::process::{unexpected_reply, unexpected_reply_text, Command, ProcessOutput, Reply};
use crate::process::texts;
use crate::sandbox::{isolate_command, list_command, read_command, SandboxExecutionConfig};
use crate::sandbox::{SandboxExecutionResult, SandboxService};
use crate::text::{append_decimal, decimal_text, join_path, joined_path, nonempty_lines};
use vstd::prelude::*;
use vstd::string::StringExecFns;

verus! {

/// Where the execution of a request stands.
#[derive(Clone, Copy, Debug, PartialEq, Eq, Structural)]
pub enum PipelineStage {
    CreateScratch,
    WriteSource,
    Compile,
    Execute,
    Finished,
}

/// What the pipeline needs from its caller before it can go on.
pub enum PipelineRequest {
    /// Create a fresh scratch directory. Answered by `Scratch`.
    CreateScratch,
    /// Write the code to the file. Answered by `Written`.
    WriteSource { path: String, code: String },
    /// Compile the source into the directory. Answered by `Compiled`.
    Compile { language: Language, source_path: String, output_dir: String },
    /// Run in the sandbox. Answered by `Executed`.
    Execute(SandboxExecutionConfig),
}

/// The caller's answer to a `PipelineRequest`.
pub enum PipelineReply {
    Scratch(String),
    Written,
    Compiled(Result<String, DomainError>),
    Executed(Result<SandboxExecutionResult, DomainError>),
    /// The scratch directory or the source file could not be made.
    Failed(String),
}

/// The outcome of one decision of the pipeline.
pub enum PipelineStep {
    Ask(PipelineRequest),
    Done(Result<ExecutionResult, DomainError>),
}

impl PipelineStep {
    /// The step ends in an error of this kind and detail.
    pub open spec fn fails_with(&self, kind: ErrorKind, detail: Seq<char>) -> bool {
        match self {
            PipelineStep::Done(Err(e)) => e.kind_of() == kind && e.detail() == detail,
            _ => false,
        }
    }
}

/// The execution of one request in progress.
pub struct Pipeline {
    pub stage: PipelineStage,
    pub language: Language,
    pub code: String,
    pub scratch: String,
    pub source_path: String,
}

/// The name of the source file of a language.
pub open spec fn source_name(extension: Seq<char>) -> Seq<char> {
    "source."@ + extension
}

/// The name of the metadata file of a slot.
pub open spec fn metadata_name(box_id: u32) -> Seq<char> {
    "meta-"@ + decimal_text(box_id as nat) + ".txt"@
}

/// What `resume` decides, for each stage and reply, and what it does to
/// the free queue of the pool.
pub open spec fn pipeline_decision(
    before: Pipeline,
    free_before: Seq<u32>,
    reply: PipelineReply,
    after: Pipeline,
    free_after: Seq<u32>,
    step: PipelineStep,
) -> bool {
    &&& after.language@ == before.language@
    &&& match (before.stage, reply) {
        (PipelineStage::CreateScratch, PipelineReply::Scratch(dir)) => {
            &&& free_after == free_before
            &&& after.stage == PipelineStage::WriteSource
            &&& after.scratch@ == dir@
            &&& after.source_path@ == joined_path(dir@, source_name(before.language.extension@))
            &&& step matches PipelineStep::Ask(PipelineRequest::WriteSource { path, code })
            &&& path@ == after.source_path@
            &&& code@ == before.code@
        },
        (PipelineStage::WriteSource, PipelineReply::Written) => {
            &&& free_after == free_before
            &&& after.stage == PipelineStage::Compile
            &&& after.scratch@ == before.scratch@
            &&& step matches PipelineStep::Ask(
                PipelineRequest::Compile { language, source_path, output_dir },
            )
            &&& language@ == before.language@
            &&& source_path@ == before.source_path@
            &&& output_dir@ == before.scratch@
        },
        (PipelineStage::CreateScratch, PipelineReply::Failed(reason))
        | (PipelineStage::WriteSource, PipelineReply::Failed(reason)) => {
            &&& free_after == free_before
            &&& after.stage == PipelineStage::Finished
            &&& step.fails_with(ErrorKind::IoError, reason@)
        },
        (PipelineStage::Compile, PipelineReply::Compiled(Ok(binary_path))) => {
            &&& free_after == after_acquire(free_before)
            &&& if free_before.len() > 0 {
                &&& after.stage == PipelineStage::Execute
                &&& step matches PipelineStep::Ask(PipelineRequest::Execute(config))
                &&& config.box_id == free_before[0]
                &&& config.binary_path@ == binary_path@
                &&& config.runner_path@ == joined_path(before.language.config_dir@, "runner"@)
                &&& config.language@ == before.language@
                &&& config.metadata_path@ == joined_path(
                    before.scratch@,
                    metadata_name(free_before[0]),
                )
            } else {
                &&& after.stage == PipelineStage::Finished
                &&& step.fails_with(ErrorKind::BoxPoolExhausted, Seq::empty())
            }
        },
        (PipelineStage::Compile, PipelineReply::Compiled(Err(e)))
        | (PipelineStage::Execute, PipelineReply::Executed(Err(e))) => {
            &&& free_after == free_before
            &&& after.stage == PipelineStage::Finished
            &&& step.fails_with(e.kind_of(), e.detail())
        },
        (PipelineStage::Execute, PipelineReply::Executed(Ok(outcome))) => {
            &&& free_after == free_before
            &&& after.stage == PipelineStage::Finished
            &&& step matches PipelineStep::Done(Ok(result))
            &&& result.stdout@ == outcome.stdout@
            &&& result.stderr@ == outcome.stderr@
            &&& result.metadata@ == outcome.metadata@
            &&& result.box_id == outcome.box_id
        },
        _ => {
            &&& free_after == free_before
            &&& after.stage == PipelineStage::Finished
            &&& step.fails_with(ErrorKind::Internal, unexpected_reply_text())
        },
    }
}

/// The number of requests that a pipeline at the given stage can still
/// make.
pub open spec fn pipeline_stages_left(stage: PipelineStage) -> nat {
    match stage {
        PipelineStage::CreateScratch => 4,
        PipelineStage::WriteSource => 3,
        PipelineStage::Compile => 2,
        PipelineStage::Execute => 1,
        PipelineStage::Finished => 0,
    }
}

/// The stages of a request follow one another in one order: every decision
/// takes the pipeline strictly nearer to its end. No decision gives a slot
/// back, and only the one that follows a successful compilation takes one.
pub proof fn lemma_pipeline_advances(
    before: Pipeline,
    free_before: Seq<u32>,
    reply: PipelineReply,
    after: Pipeline,
    free_after: Seq<u32>,
    step: PipelineStep,
)
    requires
        pipeline_decision(before, free_before, reply, after, free_after, step),
    ensures
        before.stage != PipelineStage::Finished ==> pipeline_stages_left(after.stage)
            < pipeline_stages_left(before.stage),
        before.stage == PipelineStage::Finished ==> after.stage == PipelineStage::Finished,
        step is Done ==> after.stage == PipelineStage::Finished,
        free_after.len() <= free_before.len(),
        free_after != free_before ==> before.stage == PipelineStage::Compile && after.stage
            == PipelineStage::Execute,
{
}

/// Runs code: resolves the language, has the source written and compiled,
/// takes a slot and has the program run in it. The slot is not released.
pub struct ExecuteCodeUseCase;

impl ExecuteCodeUseCase {
    /// The use case; it holds nothing.
    pub fn new() -> (u: Self) {
        ExecuteCodeUseCase
    }

    /// Begins the execution of a request. An unknown language fails it at
    /// once with `LanguageNotFound`; otherwise the first request is for a
    /// scratch directory.
    pub fn execute<R: LanguageRepository>(&self, registry: &R, request: ExecutionRequest) -> (r:
        Result<(Pipeline, PipelineRequest), DomainError>)
        ensures
            match r {
                Ok((pipeline, first)) => {
                    &&& registry.served().contains(pipeline.language@)
                    &&& pipeline.language@.name == request.language@
                    &&& pipeline.code@ == request.code@
                    &&& pipeline.stage == PipelineStage::CreateScratch
                    &&& first is CreateScratch
                },
                Err(e) => lookup_answer(registry.served(), request.language@, Err(e)),
            },
    {
        match registry.find_by_name(request.language.as_str()) {
            Ok(language) => {
                let pipeline = Pipeline {
                    stage: PipelineStage::CreateScratch,
                    language,
                    code: request.code,
                    scratch: String::new(),
                    source_path: String::new(),
                };
                Ok((pipeline, PipelineRequest::CreateScratch))
            },
            Err(e) => Err(e),
        }
    }

    /// Takes the execution one decision further, given the answer to its
    /// last request. A slot is taken from the pool when, and only when, the
    /// compilation has succeeded; no step gives one back.
    pub fn resume<S: SandboxService>(
        &self,
        sandbox: &mut S,
        pipeline: &mut Pipeline,
        reply: PipelineReply,
    ) -> (step: PipelineStep)
        ensures
            final(sandbox).capacity() == old(sandbox).capacity(),
            pipeline_decision(
                *old(pipeline),
                old(sandbox).free_queue(),
                reply,
                *final(pipeline),
                final(sandbox).free_queue(),
                step,
            ),
    {
        let stage = pipeline.stage;
        pipeline.stage = PipelineStage::Finished;
        match (stage, reply) {
            (PipelineStage::CreateScratch, PipelineReply::Scratch(dir)) => {
                let name = String::from_str("source.").concat(pipeline.language.extension.as_str());
                pipeline.source_path = join_path(dir.as_str(), name.as_str());
                pipeline.scratch = dir;
                pipeline.stage = PipelineStage::WriteSource;
                PipelineStep::Ask(
                    PipelineRequest::WriteSource {
                        path: pipeline.source_path.clone(),
                        code: pipeline.code.clone(),
                    },
                )
            },
            (PipelineStage::WriteSource, PipelineReply::Written) => {
                pipeline.stage = PipelineStage::Compile;
                PipelineStep::Ask(
                    PipelineRequest::Compile {
                        language: pipeline.language.duplicate(),
                        source_path: pipeline.source_path.clone(),
                        output_dir: pipeline.scratch.clone(),
                    },
                )
            },
            (PipelineStage::CreateScratch, PipelineReply::Failed(reason))
            | (PipelineStage::WriteSource, PipelineReply::Failed(reason)) => {
                PipelineStep::Done(Err(DomainError::IoError(reason)))
            },
            (PipelineStage::Compile, PipelineReply::Compiled(Ok(binary_path))) => {
                match sandbox.acquire_box_id() {
                    Ok(box_id) => {
                        let mut name = String::from_str("meta-");
                        append_decimal(&mut name, box_id as u64);
                        name.append(".txt");
                        let config = SandboxExecutionConfig {
                            box_id,
                            binary_path,
                            runner_path: pipeline.language.runner_path(),
                            language: pipeline.language.duplicate(),
                            metadata_path: join_path(pipeline.scratch.as_str(), name.as_str()),
                        };
                        pipeline.stage = PipelineStage::Execute;
                        PipelineStep::Ask(PipelineRequest::Execute(config))
                    },
                    Err(e) => PipelineStep::Done(Err(e)),
                }
            },
            (PipelineStage::Compile, PipelineReply::Compiled(Err(e)))
            | (PipelineStage::Execute, PipelineReply::Executed(Err(e))) => {
                PipelineStep::Done(Err(e))
            },
            (PipelineStage::Execute, PipelineReply::Executed(Ok(outcome))) => {
                PipelineStep::Done(
                    Ok(
                        ExecutionResult {
                            stdout: outcome.stdout,
                            stderr: outcome.stderr,
                            metadata: outcome.metadata,
                            box_id: outcome.box_id,
                        },
                    ),
                )
            },
            _ => PipelineStep::Done(Err(unexpected_reply())),
        }
    }
}

/// Tears a held slot down and gives it back to the pool.
pub struct CleanupBoxUseCase;

impl CleanupBoxUseCase {
    /// The use case; it holds nothing.
    pub fn new() -> (u: Self) {
        CleanupBoxUseCase
    }

    /// The command that tears the slot down.
    pub fn execute<S: SandboxService>(&self, sandbox: &S, box_id: u32) -> (c: Command)
        ensures
            c@ == isolate_command(box_id, "--cleanup"@),
    {
        sandbox.cleanup(box_id)
    }

    /// Gives the slot back to the pool, whatever became of the teardown:
    /// a teardown that exited with an error is no failure. A teardown
    /// that could not be spawned is reported, after the release; otherwise
    /// the result is that of the release.
    pub fn finish<S: SandboxService>(&self, sandbox: &mut S, box_id: u32, teardown: &Reply) -> (r:
        Result<(), DomainError>)
        ensures
            final(sandbox).capacity() == old(sandbox).capacity(),
            final(sandbox).free_queue() == after_release(
                old(sandbox).free_queue(),
                old(sandbox).capacity(),
                box_id,
            ),
            (box_id as nat) < old(sandbox).capacity() ==> occurrences(
                final(sandbox).free_queue(),
                box_id,
            ) == 1,
            match teardown {
                Reply::Failed(reason) => r matches Err(e) && e.kind_of() == ErrorKind::Internal
                    && e.detail() == "Failed to execute command: "@ + reason@,
                _ => {
                    &&& r is Ok <==> can_release(
                        old(sandbox).free_queue(),
                        old(sandbox).capacity(),
                        box_id,
                    )
                    &&& r matches Err(e) ==> e.kind_of() == ErrorKind::Internal && e.detail()
                        == release_refusal(old(sandbox).capacity(), box_id)
                },
            },
    {
        let released = sandbox.release_box_id(box_id);
        proof {
            if (box_id as nat) < old(sandbox).capacity() {
                lemma_release_frees_exactly_once(
                    old(sandbox).free_queue(),
                    old(sandbox).capacity(),
                    box_id,
                );
            }
        }
        match teardown {
            Reply::Failed(reason) => Err(
                DomainError::Internal(
                    String::from_str("Failed to execute command: ").concat(reason.as_str()),
                ),
            ),
            _ => released,
        }
    }
}

/// Lists the files of a held slot.
pub struct ListBoxFilesUseCase;

impl ListBoxFilesUseCase {
    /// The use case; it holds nothing.
    pub fn new() -> (u: Self) {
        ListBoxFilesUseCase
    }

    /// The command that lists the files of the slot.
    pub fn execute<S: SandboxService>(&self, sandbox: &S, box_id: u32) -> (c: Command)
        ensures
            c@ == list_command(box_id),
    {
        sandbox.list_files_command(box_id)
    }

    /// The file names, from the outcome of the listing command.
    pub fn finish<S: SandboxService>(&self, sandbox: &S, output: &ProcessOutput) -> (r: Result<
        Vec<String>,
        DomainError,
    >)
        ensures
            r is Ok <==> output.exit_code == 0,
            r matches Ok(files) ==> texts(files@) == nonempty_lines(output.stdout@),
            r matches Err(e) ==> e.kind_of() == ErrorKind::SandboxError && e.detail()
                == "Failed to list files in box: "@ + output.stderr@,
    {
        sandbox.list_files(output)
    }
}

/// Reads a file of a held slot.
pub struct GetBoxFileUseCase;

impl GetBoxFileUseCase {
    /// The use case; it holds nothing.
    pub fn new() -> (u: Self) {
        GetBoxFileUseCase
    }

    /// The command that writes the file to its output.
    pub fn execute<S: SandboxService>(&self, sandbox: &S, box_id: u32, filename: &str) -> (c:
        Command)
        ensures
            c@ == read_command(box_id, filename@),
    {
        sandbox.get_file_command(box_id, filename)
    }

    /// The bytes of the file, from the outcome of the reading command.
    pub fn finish<S: SandboxService>(
        &self,
        sandbox: &S,
        stdout: Vec<u8>,
        stderr: &str,
        exit_code: i32,
    ) -> (r: Result<Vec<u8>, DomainError>)
        ensures
            r is Ok <==> exit_code == 0,
            r matches Ok(bytes) ==> bytes@ == stdout@,
            r matches Err(e) ==> e.kind_of() == ErrorKind::SandboxError && e.detail()
                == "Failed to read file from box: "@ + stderr@,
    {
        sandbox.get_file(stdout, stderr, exit_code)
    }
}

/// Reports whether the service is alive.
pub struct HealthCheckUseCase;

impl HealthCheckUseCase {
    /// The use case; it holds nothing.
    pub fn new() -> (u: Self) {
        HealthCheckUseCase
    }

    /// The service is alive whenever it can answer.
    pub fn execute(&self) -> (healthy: bool)
        ensures
            healthy,
    {
        true
    }
}

/// Lists the languages of the registry.
pub struct ListLanguagesUseCase;

impl ListLanguagesUseCase {
    /// The use case; it holds nothing.
    pub fn new() -> (u: Self) {
        ListLanguagesUseCase
    }

    /// Every language of the registry.
    pub fn execute<R: LanguageRepository>(&self, registry: &R) -> (all: Vec<Language>)
        ensures
            language_views(all@) == registry.served(),
    {
        registry.list_all()
    }
}

} // verus!
