//! What the HTTP layer says: the bodies of its responses, the guard in
//! front of the protected routes, and the encoding of file contents.

use crate::error::{kind_status, ApiError};
use crate::execution::ExecutionResult;
use crate::language::Language;
use crate::process::texts;
use crate::text::{append_decimal, decimal_text};
use vstd::prelude::*;
use vstd::string::StringExecFns;

verus! {

/// The body of a request to run code.
#[derive(Debug)]
pub struct ExecuteRequest {
    /// The name of the language.
    pub language: String,
    /// The source code.
    pub code: String,
}

/// The metadata of a run, as reported to the client. The two times are
/// decimal texts, in seconds.
#[derive(Debug)]
pub struct MetadataResponse {
    pub time: String,
    pub time_wall: String,
    pub memory: u64,
    pub exit_code: i32,
    pub status: String,
}

/// The body of the answer to a run.
#[derive(Debug)]
pub struct ExecuteResponse {
    pub stdout: String,
    pub stderr: String,
    pub metadata: MetadataResponse,
    /// The slot that the run holds.
    pub box_id: u32,
}

/// The body of the answer to a health check.
#[derive(Debug)]
pub struct HealthResponse {
    /// `ok` or `error`.
    pub status: String,
}

/// The body of the answer to a listing of the languages.
#[derive(Debug)]
pub struct LanguagesResponse {
    pub languages: Vec<String>,
}

/// The body of the answer to a request that failed.
#[derive(Debug)]
pub struct ErrorResponse {
    pub error: String,
}

/// The body of the answer to a listing of the files of a slot.
#[derive(Debug)]
pub struct BoxFilesResponse {
    pub files: Vec<String>,
}

/// The body of the answer to the reading of a file of a slot.
#[derive(Debug)]
pub struct BoxFileResponse {
    /// The bytes of the file in base64.
    pub content: String,
    pub filename: String,
}

/// The body of the answer to a cleanup.
#[derive(Debug)]
pub struct CleanupResponse {
    pub message: String,
}

/// The standard base64 text, with padding, of a sequence of bytes.
pub uninterp spec fn base64_standard(bytes: Seq<u8>) -> Seq<char>;

/// Calls `base64::Engine::encode` on the engine
/// `base64::engine::general_purpose::STANDARD`. The contract only names
/// the result: the same bytes always give the same text. The call panics
/// only where the length of the text would not fit in `usize`, which no
/// `Vec` is long enough for.
#[verifier::external_body]
fn encode_base64(bytes: &Vec<u8>) -> (text: String)
    ensures
        text@ == base64_standard(bytes@),
{
    base64::Engine::encode(&base64::engine::general_purpose::STANDARD, bytes)
}

/// What the header `X-API-Key` of a request holds.
#[derive(Debug)]
pub enum ApiKeyHeader {
    /// The request has no such header.
    Missing,
    /// The header is there, and its value is not readable text.
    Unreadable,
    /// The header is there with this value.
    Value(String),
}

/// What the guard decides about a request.
#[derive(Clone, Copy, Debug, PartialEq, Eq, Structural)]
pub enum AuthOutcome {
    /// The request goes on to its handler.
    Proceed,
    /// Status 403: the key is missing.
    Forbidden,
    /// Status 401: the key is wrong.
    Unauthorized,
}

/// What the guard decides: every request passes where no key is
/// configured; otherwise a request without the header is forbidden, one
/// with another value than the key is unauthorized, and one with the key
/// passes.
pub open spec fn auth_outcome(expected: Option<Seq<char>>, header: ApiKeyHeader) -> AuthOutcome {
    match expected {
        None => AuthOutcome::Proceed,
        Some(key) => match header {
            ApiKeyHeader::Missing => AuthOutcome::Forbidden,
            ApiKeyHeader::Unreadable => AuthOutcome::Unauthorized,
            ApiKeyHeader::Value(v) => if v@ == key {
                AuthOutcome::Proceed
            } else {
                AuthOutcome::Unauthorized
            },
        },
    }
}

/// Decides whether a request to a protected route may go on.
pub fn auth_middleware(expected_api_key: &Option<String>, header: &ApiKeyHeader) -> (outcome:
    AuthOutcome)
    ensures
        outcome == auth_outcome(
            match expected_api_key {
                Some(k) => Some(k@),
                None => None,
            },
            *header,
        ),
{
    match expected_api_key {
        None => AuthOutcome::Proceed,
        Some(key) => match header {
            ApiKeyHeader::Missing => AuthOutcome::Forbidden,
            ApiKeyHeader::Unreadable => AuthOutcome::Unauthorized,
            ApiKeyHeader::Value(v) => if *v == *key {
                AuthOutcome::Proceed
            } else {
                AuthOutcome::Unauthorized
            },
        },
    }
}

impl AuthOutcome {
    /// The status of the refusal, and zero for a request that goes on.
    pub fn status_code(&self) -> (code: u16)
        ensures
            code == match self {
                AuthOutcome::Proceed => 0u16,
                AuthOutcome::Forbidden => 403u16,
                AuthOutcome::Unauthorized => 401u16,
            },
    {
        match self {
            AuthOutcome::Proceed => 0,
            AuthOutcome::Forbidden => 403,
            AuthOutcome::Unauthorized => 401,
        }
    }

    /// The body of the refusal; empty for a request that goes on.
    pub fn error_response(&self) -> (body: ErrorResponse)
        ensures
            body.error@ == match self {
                AuthOutcome::Proceed => Seq::<char>::empty(),
                AuthOutcome::Forbidden => "Missing X-API-Key header"@,
                AuthOutcome::Unauthorized => "Invalid API key"@,
            },
    {
        match self {
            AuthOutcome::Proceed => ErrorResponse { error: String::new() },
            AuthOutcome::Forbidden => ErrorResponse {
                error: String::from_str("Missing X-API-Key header"),
            },
            AuthOutcome::Unauthorized => ErrorResponse {
                error: String::from_str("Invalid API key"),
            },
        }
    }
}

/// The names of the languages, in order.
pub open spec fn language_names(languages: Seq<Language>) -> Seq<Seq<char>> {
    Seq::new(languages.len(), |i: int| languages[i].name@)
}

/// The text of the answer to a cleanup.
pub open spec fn cleanup_text(box_id: u32) -> Seq<char> {
    "Box "@ + decimal_text(box_id as nat) + " cleaned up successfully"@
}

/// The body of the answer to a health check.
pub fn health_response(is_healthy: bool) -> (body: HealthResponse)
    ensures
        body.status@ == if is_healthy {
            "ok"@
        } else {
            "error"@
        },
{
    if is_healthy {
        HealthResponse { status: String::from_str("ok") }
    } else {
        HealthResponse { status: String::from_str("error") }
    }
}

/// The body of the answer to a listing of the languages: their names.
pub fn languages_response(languages: &Vec<Language>) -> (body: LanguagesResponse)
    ensures
        texts(body.languages@) == language_names(languages@),
{
    let mut names: Vec<String> = Vec::new();
    let mut i: usize = 0;
    while i < languages.len()
        invariant
            i <= languages.len(),
            names@.len() == i,
            forall|k: int| 0 <= k < i ==> (#[trigger] names@[k])@ == languages@[k].name@,
        decreases languages.len() - i,
    {
        names.push(languages[i].name.clone());
        i = i + 1;
    }
    assert(texts(names@) =~= language_names(languages@));
    LanguagesResponse { languages: names }
}

/// The body of the answer to a run.
pub fn execute_response(result: ExecutionResult) -> (body: ExecuteResponse)
    ensures
        body.stdout@ == result.stdout@,
        body.stderr@ == result.stderr@,
        body.box_id == result.box_id,
        body.metadata.time@ == result.metadata.time@,
        body.metadata.time_wall@ == result.metadata.time_wall@,
        body.metadata.memory == result.metadata.memory,
        body.metadata.exit_code == result.metadata.exit_code,
        body.metadata.status@ == result.metadata.status@,
{
    ExecuteResponse {
        stdout: result.stdout,
        stderr: result.stderr,
        metadata: MetadataResponse {
            time: result.metadata.time,
            time_wall: result.metadata.time_wall,
            memory: result.metadata.memory,
            exit_code: result.metadata.exit_code,
            status: result.metadata.status,
        },
        box_id: result.box_id,
    }
}

/// The body of the answer to a listing of the files of a slot.
pub fn box_files_response(files: Vec<String>) -> (body: BoxFilesResponse)
    ensures
        body.files == files,
{
    BoxFilesResponse { files }
}

/// The body of the answer to the reading of a file, given its content in
/// base64.
pub fn box_file_body(filename: String, content: String) -> (body: BoxFileResponse)
    ensures
        body.filename == filename,
        body.content == content,
{
    BoxFileResponse { content, filename }
}

/// The body of the answer to the reading of a file: its bytes in base64.
pub fn box_file_response(filename: String, bytes: &Vec<u8>) -> (body: BoxFileResponse)
    ensures
        body.filename == filename,
        body.content@ == base64_standard(bytes@),
{
    box_file_body(filename, encode_base64(bytes))
}

/// The body of the answer to a cleanup.
pub fn cleanup_response(box_id: u32) -> (body: CleanupResponse)
    ensures
        body.message@ == cleanup_text(box_id),
{
    let mut message = String::from_str("Box ");
    append_decimal(&mut message, box_id as u64);
    message.append(" cleaned up successfully");
    CleanupResponse { message }
}

/// The status and body with which an error is answered.
pub fn into_response(error: &ApiError) -> (r: (u16, ErrorResponse))
    ensures
        r.0 == kind_status(error.0.kind_of()),
        r.1.error@ == error.body_text(),
{
    (error.status_code(), ErrorResponse { error: error.body_message() })
}

} // verus!
