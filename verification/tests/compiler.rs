use isolate_sandbox::compiler::{CompileStage, CompilerService, CompilerServiceImpl};
use isolate_sandbox::error::{ApiError, DomainError, ErrorKind};
use isolate_sandbox::language::Language;
use isolate_sandbox::process::{ProcessOutput, Reply, Request, Step};

fn python() -> Language {
    Language::new("python".to_string(), "py".to_string(), "/cfg/python".to_string())
}

fn exited(stdout: &str, stderr: &str, exit_code: i32) -> Reply {
    Reply::Exited(ProcessOutput {
        stdout: stdout.to_string(),
        stderr: stderr.to_string(),
        exit_code,
    })
}

fn failure(step: Step<String>) -> DomainError {
    match step {
        Step::Done(Err(e)) => e,
        _ => panic!("the step is no failure"),
    }
}

#[test]
fn sanitize_masks_the_source_path_and_keeps_the_extension() {
    let compiler = CompilerServiceImpl::new();
    let stderr = "File \"/tmp/.tmpAb12/source.py\", line 1\n/tmp/.tmpAb12/source.py: bad";
    let out = compiler.sanitize_stderr(stderr, "/tmp/.tmpAb12/source.py");
    assert_eq!(out, "File \"*******.py\", line 1\n*******.py: bad");
    assert!(!out.contains("/tmp/.tmpAb12"));
}

#[test]
fn sanitize_without_extension_uses_bare_mask() {
    let compiler = CompilerServiceImpl::new();
    let out = compiler.sanitize_stderr("error in /tmp/x/source here", "/tmp/x/source");
    assert_eq!(out, "error in ******* here");
}

#[test]
fn sanitize_reads_the_extension_of_the_file_name_only() {
    let compiler = CompilerServiceImpl::new();
    assert_eq!(compiler.sanitize_stderr("a /t.d/src b", "/t.d/src"), "a ******* b");
    assert_eq!(compiler.sanitize_stderr("a /t/.hidden b", "/t/.hidden"), "a ******* b");
    assert_eq!(compiler.sanitize_stderr("a /t/x.tar.gz b", "/t/x.tar.gz"), "a *******.gz b");
}

#[test]
fn sanitize_leaves_other_text_alone() {
    let compiler = CompilerServiceImpl::new();
    assert_eq!(compiler.sanitize_stderr("nothing here", "/tmp/x/source.js"), "nothing here");
    assert_eq!(compiler.sanitize_stderr("", "/tmp/x/source.js"), "");
}

#[test]
fn sanitize_with_takes_the_extension_as_given() {
    let compiler = CompilerServiceImpl::new();
    assert_eq!(compiler.sanitize_with("see /s/a.py", "/s/a.py", Some("ts")), "see *******.ts");
    assert_eq!(compiler.sanitize_with("see /s/a.py", "/s/a.py", None), "see *******");
}

#[test]
fn compile_asks_for_the_compiler_first() {
    let compiler = CompilerServiceImpl::new();
    let (state, step) = compiler.compile(&python(), "/tmp/s/source.py", "/tmp/s");
    assert_eq!(state.stage, CompileStage::CheckCompiler);
    assert_eq!(state.binary_path, "/tmp/s/bin");
    match step {
        Step::Ask(Request::Exists(path)) => assert_eq!(path, "/cfg/python/compiler"),
        _ => panic!("expected a question about the compiler"),
    }
}

#[test]
fn missing_compiler_fails_the_compilation() {
    let compiler = CompilerServiceImpl::new();
    let (mut state, _) = compiler.compile(&python(), "/tmp/s/source.py", "/tmp/s");
    let err = failure(compiler.resume(&mut state, Reply::Exists(false)));
    assert_eq!(err.kind(), ErrorKind::CompilationFailed);
    assert_eq!(err.message(), "Compilation failed: compiler not found: /cfg/python/compiler");
    assert_eq!(state.stage, CompileStage::Finished);
}

#[test]
fn compile_success_returns_the_binary_path() {
    let compiler = CompilerServiceImpl::new();
    let (mut state, _) = compiler.compile(&python(), "/tmp/s/source.py", "/tmp/s");
    match compiler.resume(&mut state, Reply::Exists(true)) {
        Step::Ask(Request::Run(command)) => {
            assert_eq!(command.program, "/cfg/python/compiler");
            assert_eq!(command.args, vec!["/tmp/s/source.py"]);
        }
        _ => panic!("expected the compiler to be run"),
    }
    match compiler.resume(&mut state, exited("", "", 0)) {
        Step::Ask(Request::Exists(path)) => assert_eq!(path, "/tmp/s/bin"),
        _ => panic!("expected a question about the binary"),
    }
    match compiler.resume(&mut state, Reply::Exists(true)) {
        Step::Done(Ok(path)) => assert_eq!(path, "/tmp/s/bin"),
        _ => panic!("expected the binary path"),
    }
    assert_eq!(state.stage, CompileStage::Finished);
}

#[test]
fn compile_failure_is_sanitized() {
    let compiler = CompilerServiceImpl::new();
    let (mut state, _) = compiler.compile(&python(), "/tmp/.tmpQ/source.py", "/tmp/.tmpQ");
    compiler.resume(&mut state, Reply::Exists(true));
    let stderr = "  File \"/tmp/.tmpQ/source.py\", line 1\nSyntaxError";
    let err = failure(compiler.resume(&mut state, exited("", stderr, 1)));
    assert_eq!(err.kind(), ErrorKind::CompilationFailed);
    let api = ApiError::new(err);
    assert_eq!(api.status_code(), 400);
    let body = api.body_message();
    assert_eq!(body, "  File \"*******.py\", line 1\nSyntaxError");
    assert!(body.contains("*******.py"));
    assert!(!body.contains("/tmp/.tmpQ"));
    assert!(!body.contains("/source.py"));
}

#[test]
fn missing_binary_reports_both_streams() {
    let compiler = CompilerServiceImpl::new();
    let (mut state, _) = compiler.compile(&python(), "/tmp/s/source.py", "/tmp/s");
    compiler.resume(&mut state, Reply::Exists(true));
    compiler.resume(&mut state, exited("out text", "err text", 0));
    let err = failure(compiler.resume(&mut state, Reply::Exists(false)));
    assert_eq!(err.kind(), ErrorKind::CompilationFailed);
    assert_eq!(
        err.message(),
        "Compilation failed: Compiled binary not found at: /tmp/s/bin. Stdout: out text, Stderr: err text"
    );
}

#[test]
fn compiler_that_cannot_be_spawned_is_internal() {
    let compiler = CompilerServiceImpl::new();
    let (mut state, _) = compiler.compile(&python(), "/tmp/s/source.py", "/tmp/s");
    compiler.resume(&mut state, Reply::Exists(true));
    let err = failure(compiler.resume(&mut state, Reply::Failed("denied".to_string())));
    assert_eq!(err.message(), "Internal error: Failed to execute command: denied");
}

#[test]
fn reply_out_of_turn_ends_the_compilation() {
    let compiler = CompilerServiceImpl::new();
    let (mut state, _) = compiler.compile(&python(), "/tmp/s/source.py", "/tmp/s");
    let err = failure(compiler.resume(&mut state, Reply::Text("x".to_string())));
    assert_eq!(err.message(), "Internal error: Unexpected reply");
    let err = failure(compiler.resume(&mut state, Reply::Exists(true)));
    assert_eq!(err.message(), "Internal error: Unexpected reply");
}
