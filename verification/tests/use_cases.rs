use isolate_sandbox::error::{ApiError, DomainError, ErrorKind};
use isolate_sandbox::execution::{ExecutionMetadata, ExecutionRequest};
use isolate_sandbox::language::{FileSystemLanguageRepository, Language};
use isolate_sandbox::process::ProcessOutput;
use isolate_sandbox::sandbox::{IsolateSandboxService, SandboxExecutionResult, SandboxService};
use isolate_sandbox::use_cases::{ExecuteCodeUseCase, GetBoxFileUseCase, HealthCheckUseCase};
use isolate_sandbox::use_cases::{ListBoxFilesUseCase, ListLanguagesUseCase, Pipeline};
use isolate_sandbox::use_cases::{PipelineReply, PipelineRequest, PipelineStage, PipelineStep};

fn registry() -> FileSystemLanguageRepository {
    let mut r = FileSystemLanguageRepository::new("/cfg".to_string());
    r.insert(Language::new("python".to_string(), "py".to_string(), "/cfg/python".to_string()));
    r
}

fn request(language: &str, code: &str) -> ExecutionRequest {
    ExecutionRequest { language: language.to_string(), code: code.to_string() }
}

fn outcome(box_id: u32) -> SandboxExecutionResult {
    let mut metadata = ExecutionMetadata::new();
    metadata.time = "0.01".to_string();
    SandboxExecutionResult {
        stdout: "4\n".to_string(),
        stderr: String::new(),
        metadata,
        box_id,
    }
}

fn failure(step: PipelineStep) -> DomainError {
    match step {
        PipelineStep::Done(Err(e)) => e,
        _ => panic!("expected a failure"),
    }
}

fn compiled(use_case: &ExecuteCodeUseCase, sandbox: &mut IsolateSandboxService) -> (Pipeline, PipelineStep) {
    let (mut pipeline, _) = use_case.execute(&registry(), request("python", "print(2+2)\n")).ok().unwrap();
    use_case.resume(sandbox, &mut pipeline, PipelineReply::Scratch("/tmp/.tmpZ".to_string()));
    use_case.resume(sandbox, &mut pipeline, PipelineReply::Written);
    let step =
        use_case.resume(sandbox, &mut pipeline, PipelineReply::Compiled(Ok("/tmp/.tmpZ/bin".to_string())));
    (pipeline, step)
}

#[test]
fn unknown_language_fails_before_anything_is_asked() {
    let use_case = ExecuteCodeUseCase::new();
    let err = use_case.execute(&registry(), request("cobol", "")).err().unwrap();
    assert_eq!(err.kind(), ErrorKind::LanguageNotFound);
    let api = ApiError::new(err);
    assert_eq!(api.status_code(), 404);
    assert_eq!(api.body_message(), "Language not found: cobol");
}

#[test]
fn pipeline_runs_from_scratch_to_result() {
    let use_case = ExecuteCodeUseCase::new();
    let mut sandbox = IsolateSandboxService::new(2);
    let (mut pipeline, first) =
        use_case.execute(&registry(), request("python", "print(2+2)\n")).ok().unwrap();
    assert!(matches!(first, PipelineRequest::CreateScratch));
    assert_eq!(pipeline.stage, PipelineStage::CreateScratch);

    match use_case.resume(&mut sandbox, &mut pipeline, PipelineReply::Scratch("/tmp/.tmpZ".to_string())) {
        PipelineStep::Ask(PipelineRequest::WriteSource { path, code }) => {
            assert_eq!(path, "/tmp/.tmpZ/source.py");
            assert_eq!(code, "print(2+2)\n");
        }
        _ => panic!("expected the source to be written"),
    }
    match use_case.resume(&mut sandbox, &mut pipeline, PipelineReply::Written) {
        PipelineStep::Ask(PipelineRequest::Compile { language, source_path, output_dir }) => {
            assert_eq!(language.name, "python");
            assert_eq!(source_path, "/tmp/.tmpZ/source.py");
            assert_eq!(output_dir, "/tmp/.tmpZ");
        }
        _ => panic!("expected a compilation"),
    }
    assert_eq!(sandbox.free_slots(), 2);
    let reply = PipelineReply::Compiled(Ok("/tmp/.tmpZ/bin".to_string()));
    match use_case.resume(&mut sandbox, &mut pipeline, reply) {
        PipelineStep::Ask(PipelineRequest::Execute(config)) => {
            assert_eq!(config.box_id, 0);
            assert_eq!(config.binary_path, "/tmp/.tmpZ/bin");
            assert_eq!(config.runner_path, "/cfg/python/runner");
            assert_eq!(config.language.name, "python");
            assert_eq!(config.metadata_path, "/tmp/.tmpZ/meta-0.txt");
        }
        _ => panic!("expected a run in the sandbox"),
    }
    assert_eq!(sandbox.free_slots(), 1);
    match use_case.resume(&mut sandbox, &mut pipeline, PipelineReply::Executed(Ok(outcome(0)))) {
        PipelineStep::Done(Ok(result)) => {
            assert_eq!(result.stdout, "4\n");
            assert_eq!(result.stderr, "");
            assert_eq!(result.box_id, 0);
            assert_eq!(result.metadata.status, "OK");
            assert_eq!(result.metadata.exit_code, 0);
            assert_eq!(result.metadata.time, "0.01");
        }
        _ => panic!("expected a result"),
    }
    assert_eq!(pipeline.stage, PipelineStage::Finished);
    assert_eq!(sandbox.free_slots(), 1);
}

#[test]
fn second_execution_on_single_slot_is_exhausted_until_cleanup() {
    let use_case = ExecuteCodeUseCase::new();
    let mut sandbox = IsolateSandboxService::new(1);
    let (_, step) = compiled(&use_case, &mut sandbox);
    assert!(matches!(step, PipelineStep::Ask(PipelineRequest::Execute(_))));

    let (pipeline, step) = compiled(&use_case, &mut sandbox);
    let err = failure(step);
    assert!(matches!(err, DomainError::BoxPoolExhausted));
    assert_eq!(pipeline.stage, PipelineStage::Finished);
    let api = ApiError::new(err);
    assert_eq!(api.status_code(), 503);
    assert_eq!(api.body_message(), "Service is busy, please try again later");

    assert!(sandbox.release_box_id(0).is_ok());
    let (_, step) = compiled(&use_case, &mut sandbox);
    assert!(matches!(step, PipelineStep::Ask(PipelineRequest::Execute(_))));
}

#[test]
fn failed_compilation_takes_no_slot() {
    let use_case = ExecuteCodeUseCase::new();
    let mut sandbox = IsolateSandboxService::new(1);
    let (mut pipeline, _) = use_case.execute(&registry(), request("python", "x")).ok().unwrap();
    use_case.resume(&mut sandbox, &mut pipeline, PipelineReply::Scratch("/t".to_string()));
    use_case.resume(&mut sandbox, &mut pipeline, PipelineReply::Written);
    let reply = PipelineReply::Compiled(Err(DomainError::CompilationFailed("bad".to_string())));
    let err = failure(use_case.resume(&mut sandbox, &mut pipeline, reply));
    assert_eq!(err.message(), "Compilation failed: bad");
    assert_eq!(sandbox.free_slots(), 1);
}

#[test]
fn failed_run_keeps_the_slot_held() {
    let use_case = ExecuteCodeUseCase::new();
    let mut sandbox = IsolateSandboxService::new(1);
    let (mut pipeline, _) = compiled(&use_case, &mut sandbox);
    let reply = PipelineReply::Executed(Err(DomainError::SandboxError("init".to_string())));
    let err = failure(use_case.resume(&mut sandbox, &mut pipeline, reply));
    assert_eq!(err.message(), "Sandbox error: init");
    assert_eq!(sandbox.free_slots(), 0);
}

#[test]
fn scratch_failure_is_an_io_error() {
    let use_case = ExecuteCodeUseCase::new();
    let mut sandbox = IsolateSandboxService::new(1);
    let (mut pipeline, _) = use_case.execute(&registry(), request("python", "x")).ok().unwrap();
    let err =
        failure(use_case.resume(&mut sandbox, &mut pipeline, PipelineReply::Failed("disk full".to_string())));
    assert_eq!(err.kind(), ErrorKind::IoError);
    assert_eq!(err.message(), "IO error: disk full");
    assert_eq!(ApiError::new(err).status_code(), 500);
}

#[test]
fn pipeline_reply_out_of_turn_is_internal() {
    let use_case = ExecuteCodeUseCase::new();
    let mut sandbox = IsolateSandboxService::new(1);
    let (mut pipeline, _) = use_case.execute(&registry(), request("python", "x")).ok().unwrap();
    let err = failure(use_case.resume(&mut sandbox, &mut pipeline, PipelineReply::Written));
    assert_eq!(err.message(), "Internal error: Unexpected reply");
    assert_eq!(sandbox.free_slots(), 1);
}

#[test]
fn health_check_is_always_healthy() {
    assert!(HealthCheckUseCase::new().execute());
}

#[test]
fn list_languages_lists_the_registry() {
    let all = ListLanguagesUseCase::new().execute(&registry());
    assert_eq!(all.len(), 1);
    assert_eq!(all[0].name, "python");
}

#[test]
fn list_box_files_builds_command_and_reads_listing() {
    let sandbox = IsolateSandboxService::new(2);
    let use_case = ListBoxFilesUseCase::new();
    let first = use_case.execute(&sandbox, 1);
    let second = use_case.execute(&sandbox, 1);
    assert_eq!(first.args, vec!["ls", "-1", "/var/lib/isolate/1/box"]);
    assert_eq!(first.args, second.args);
    let out = ProcessOutput { stdout: "out.png\n".to_string(), stderr: String::new(), exit_code: 0 };
    let files = use_case.finish(&sandbox, &out).unwrap();
    assert_eq!(files, vec!["out.png"]);
    assert!(!files.contains(&"bin".to_string()));
    assert_eq!(sandbox.free_slots(), 2);
}

#[test]
fn get_box_file_builds_command_and_returns_bytes() {
    let sandbox = IsolateSandboxService::new(2);
    let use_case = GetBoxFileUseCase::new();
    let c = use_case.execute(&sandbox, 0, "out.png");
    assert_eq!(c.program, "sudo");
    assert_eq!(c.args, vec!["cat", "/var/lib/isolate/0/box/out.png"]);
    let bytes = vec![0x89u8, 0x50, 0x4e, 0x47];
    assert_eq!(use_case.finish(&sandbox, bytes.clone(), "", 0).unwrap(), bytes);
    let err = use_case.finish(&sandbox, Vec::new(), "cat: x", 1).unwrap_err();
    assert_eq!(err.kind(), ErrorKind::SandboxError);
}
