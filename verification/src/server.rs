//! The answers of the small HTTP service that runs skaffold in the pod: status
//! codes and JSON bodies.

use vstd::prelude::*;
use vstd::string::*;
use crate::exec::{frame_command, framed, CommandResult};
use crate::outside::{json_quote, json_quoted};
use crate::text::{decimal, format_number, texts};

verus! {

/// An answer with a JSON body.
#[derive(Clone, Debug, PartialEq, Eq)]
pub struct HttpJsonResponse {
    pub status: u16,
    pub content_type: String,
    pub body: String,
}

/// `r` has this status and this body, and says that the body is JSON.
pub open spec fn is_response(r: HttpJsonResponse, status: u16, body: Seq<char>) -> bool {
    r.status == status && r.content_type@ == "application/json"@ && r.body@ == body
}

/// The body that reports an error: an object whose only member is the error.
pub open spec fn error_body(error: Seq<char>) -> Seq<char> {
    "{\"error\":"@ + error + "}"@
}

/// The body that reports what a command left behind.
pub open spec fn command_body(stdout: Seq<char>, stderr: Seq<char>, exit_status: int) -> Seq<char> {
    "{\"exit_status\":"@ + decimal(exit_status) + ",\"stderr\":"@ + json_quoted(stderr)
        + ",\"stdout\":"@ + json_quoted(stdout) + "}"@
}

fn respond(status: u16, body: String) -> (r: HttpJsonResponse)
    ensures
        is_response(r, status, body@),
{
    HttpJsonResponse { status, content_type: String::from_str("application/json"), body }
}

fn respond_error(status: u16, error: &str) -> (r: HttpJsonResponse)
    ensures
        is_response(r, status, error_body(error@)),
{
    respond(status, String::from_str("{\"error\":").concat(error).concat("}"))
}

impl HttpJsonResponse {
    /// The answer that all went well; `body` is JSON.
    pub fn ok(body: &str) -> (r: HttpJsonResponse)
        ensures
            is_response(r, 200, body@),
    {
        respond(200, String::from_str(body))
    }

    /// The answer that the request was wrong; `error` is JSON.
    pub fn bad_request(error: &str) -> (r: HttpJsonResponse)
        ensures
            is_response(r, 400, error_body(error@)),
    {
        respond_error(400, error)
    }

    /// The answer that the caller did not show who it is; `error` is JSON.
    pub fn invalid_token(error: &str) -> (r: HttpJsonResponse)
        ensures
            is_response(r, 401, error_body(error@)),
    {
        respond_error(401, error)
    }

    /// The answer that the service failed; `error` is JSON.
    pub fn internal_server_error(error: &str) -> (r: HttpJsonResponse)
        ensures
            is_response(r, 500, error_body(error@)),
    {
        respond_error(500, error)
    }
}

/// A text as a JSON string.
fn json_text(text: &str) -> (r: String)
    ensures
        r@ == json_quoted(text@),
{
    json_quote(text)
}

/// The JSON object that reports what a command left behind.
pub fn command_response(result: &CommandResult) -> (r: String)
    ensures
        r@ == command_body(result.stdout@, result.stderr@, result.exit_code as int),
{
    String::from_str("{\"exit_status\":").concat(format_number(result.exit_code).as_str()).concat(
        ",\"stderr\":",
    ).concat(json_text(result.stderr.as_str()).as_str()).concat(",\"stdout\":").concat(
        json_text(result.stdout.as_str()).as_str(),
    ).concat("}")
}

/// The answer to a request for the root of the service.
pub fn index() -> (r: HttpJsonResponse)
    ensures
        is_response(r, 200, json_quoted("Playground API"@)),
{
    HttpJsonResponse::ok(json_text("Playground API").as_str())
}

/// The command that runs skaffold with the arguments `param`.
pub fn skaffold(param: &str) -> (r: Vec<String>)
    ensures
        texts(r@) == framed("skaffold "@ + param@),
{
    frame_command(String::from_str("skaffold ").concat(param).as_str())
}

/// The answer to a request to run skaffold. `outcome` is what the command left
/// behind, or the reason why it could not be run.
pub fn skaffold_response(outcome: Result<CommandResult, String>) -> (r: HttpJsonResponse)
    ensures
        match outcome {
            Ok(c) => is_response(r, 200, command_body(c.stdout@, c.stderr@, c.exit_code as int)),
            Err(reason) => is_response(r, 500, error_body(json_quoted(reason@))),
        },
{
    match outcome {
        Ok(c) => HttpJsonResponse::ok(command_response(&c).as_str()),
        Err(reason) => HttpJsonResponse::internal_server_error(json_text(reason.as_str()).as_str()),
    }
}

} // verus!
