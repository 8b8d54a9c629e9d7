use base64::Engine;
use isolate_sandbox::api::{auth_middleware, box_file_response, box_files_response};
use isolate_sandbox::api::{cleanup_response, execute_response, health_response, into_response};
use isolate_sandbox::api::{languages_response, ApiKeyHeader, AuthOutcome, ExecuteRequest};
use isolate_sandbox::error::{ApiError, DomainError, ErrorKind};
use isolate_sandbox::execution::{parse_metadata, ExecutionResult};
use isolate_sandbox::language::Language;

fn header(value: &str) -> ApiKeyHeader {
    ApiKeyHeader::Value(value.to_string())
}

#[test]
fn no_key_configured_lets_everything_pass() {
    assert_eq!(auth_middleware(&None, &ApiKeyHeader::Missing), AuthOutcome::Proceed);
    assert_eq!(auth_middleware(&None, &ApiKeyHeader::Unreadable), AuthOutcome::Proceed);
    assert_eq!(auth_middleware(&None, &header("x")), AuthOutcome::Proceed);
}

#[test]
fn missing_header_is_forbidden() {
    let key = Some("secret".to_string());
    let outcome = auth_middleware(&key, &ApiKeyHeader::Missing);
    assert_eq!(outcome, AuthOutcome::Forbidden);
    assert_eq!(outcome.status_code(), 403);
    assert_eq!(outcome.error_response().error, "Missing X-API-Key header");
}

#[test]
fn wrong_key_is_unauthorized() {
    let key = Some("secret".to_string());
    let outcome = auth_middleware(&key, &header("wrong"));
    assert_eq!(outcome, AuthOutcome::Unauthorized);
    assert_eq!(outcome.status_code(), 401);
    assert_eq!(outcome.error_response().error, "Invalid API key");
    assert_eq!(auth_middleware(&key, &header("")), AuthOutcome::Unauthorized);
    assert_eq!(auth_middleware(&key, &header("secret ")), AuthOutcome::Unauthorized);
    assert_eq!(auth_middleware(&key, &ApiKeyHeader::Unreadable), AuthOutcome::Unauthorized);
}

#[test]
fn right_key_passes() {
    let key = Some("secret".to_string());
    let outcome = auth_middleware(&key, &header("secret"));
    assert_eq!(outcome, AuthOutcome::Proceed);
    assert_eq!(outcome.status_code(), 0);
    assert_eq!(outcome.error_response().error, "");
}

#[test]
fn file_content_is_base64_of_the_bytes() {
    let bytes = vec![0x89u8, 0x50, 0x4e, 0x47];
    let body = box_file_response("out.png".to_string(), &bytes);
    assert_eq!(body.filename, "out.png");
    assert_eq!(body.content, "iVBORw==");
    let decoded = base64::engine::general_purpose::STANDARD.decode(body.content).unwrap();
    assert_eq!(&decoded[..4], &[0x89u8, 0x50, 0x4e, 0x47]);
}

#[test]
fn file_content_of_other_lengths() {
    assert_eq!(box_file_response("e".to_string(), &Vec::new()).content, "");
    assert_eq!(box_file_response("a".to_string(), &vec![b'a']).content, "YQ==");
    assert_eq!(box_file_response("a".to_string(), &vec![b'a', b'b', b'c']).content, "YWJj");
    assert_eq!(box_file_response("a".to_string(), &vec![0xfb, 0xff]).content, "+/8=");
}

#[test]
fn health_body() {
    assert_eq!(health_response(true).status, "ok");
    assert_eq!(health_response(false).status, "error");
}

#[test]
fn languages_body_holds_the_names() {
    let languages = vec![
        Language::new("python".to_string(), "py".to_string(), "/c/python".to_string()),
        Language::new("cobol".to_string(), "txt".to_string(), "/c/cobol".to_string()),
    ];
    assert_eq!(languages_response(&languages).languages, vec!["python", "cobol"]);
    assert_eq!(languages_response(&Vec::new()).languages, Vec::<String>::new());
}

#[test]
fn execute_body_carries_the_result() {
    let result = ExecutionResult {
        stdout: "4\n".to_string(),
        stderr: String::new(),
        metadata: parse_metadata("time:0.5\ncg-mem:100\nstatus:OK\nexitcode:0\n"),
        box_id: 2,
    };
    let body = execute_response(result);
    assert_eq!(body.stdout, "4\n");
    assert_eq!(body.stderr, "");
    assert_eq!(body.box_id, 2);
    assert_eq!(body.metadata.time, "0.5");
    assert_eq!(body.metadata.time_wall, "0");
    assert_eq!(body.metadata.memory, 100);
    assert_eq!(body.metadata.exit_code, 0);
    assert_eq!(body.metadata.status, "OK");
}

#[test]
fn files_and_cleanup_bodies() {
    let body = box_files_response(vec!["a".to_string(), "b".to_string()]);
    assert_eq!(body.files, vec!["a", "b"]);
    assert_eq!(cleanup_response(5).message, "Box 5 cleaned up successfully");
    assert_eq!(cleanup_response(4294967295).message, "Box 4294967295 cleaned up successfully");
}

#[test]
fn errors_map_to_status_and_body() {
    let cases = vec![
        (DomainError::LanguageNotFound("cobol".to_string()), 404, "Language not found: cobol"),
        (DomainError::CompilationFailed("bad".to_string()), 400, "bad"),
        (DomainError::ExecutionFailed("worse".to_string()), 400, "worse"),
        (DomainError::BoxPoolExhausted, 503, "Service is busy, please try again later"),
        (DomainError::SandboxError("s".to_string()), 500, "s"),
        (DomainError::InvalidConfiguration("c".to_string()), 500, "c"),
        (DomainError::IoError("io".to_string()), 500, "io"),
        (DomainError::Internal("i".to_string()), 500, "i"),
    ];
    for (error, status, text) in cases {
        let (code, body) = into_response(&ApiError::new(error));
        assert_eq!(code, status);
        assert_eq!(body.error, text);
    }
}

#[test]
fn error_messages_and_kinds() {
    assert_eq!(DomainError::BoxPoolExhausted.message(), "Box pool exhausted");
    assert_eq!(DomainError::BoxPoolExhausted.kind(), ErrorKind::BoxPoolExhausted);
    assert_eq!(DomainError::ExecutionFailed("x".to_string()).message(), "Execution failed: x");
    assert_eq!(
        DomainError::InvalidConfiguration("x".to_string()).message(),
        "Invalid configuration: x"
    );
    assert_eq!(DomainError::SandboxError("x".to_string()).kind(), ErrorKind::SandboxError);
}

#[test]
fn execute_request_holds_language_and_code() {
    let r = ExecuteRequest { language: "python".to_string(), code: "print(1)".to_string() };
    assert_eq!(r.language, "python");
    assert_eq!(r.code, "print(1)");
}
