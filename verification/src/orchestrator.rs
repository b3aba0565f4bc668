//! Decisions of the prompt endpoint: gathering the generated text chunk by
//! chunk, finding the code it carries, and composing the reply.

use crate::channel::Delivery;
use crate::fence::{extract_code, fenced_block};
use crate::json::{json_strings, path_view, string_at, string_under, JsonStep, Step};
use crate::protocol::{
    error_text, text_reply, ArgumentsView, Body, BridgeError, BridgeErrorView, Reply, ReplyView,
    ToolArgumentValues, STATUS_INTERNAL_SERVER_ERROR, STATUS_OK,
};
use vstd::prelude::*;
use vstd::string::StringExecFns;

verus! {

/// One answer of the text-generation service: a fragment of text and, where
/// more is to come, the token to ask for it with.
#[derive(Clone, Debug, PartialEq, Eq)]
pub struct Chunk {
    pub text: String,
    pub cursor: Option<String>,
}

/// The view of an optional string.
pub open spec fn opt_view(s: Option<String>) -> Option<Seq<char>> {
    match s {
        Some(text) => Some(text@),
        None => None,
    }
}

/// Where an answer holds its text fragment.
pub open spec fn text_path() -> Seq<JsonStep> {
    seq![
        JsonStep::Key("candidates"@),
        JsonStep::Index(0),
        JsonStep::Key("content"@),
        JsonStep::Key("parts"@),
        JsonStep::Index(0),
        JsonStep::Key("text"@),
    ]
}

/// Where an answer holds its continuation token.
pub open spec fn cursor_path() -> Seq<JsonStep> {
    seq![JsonStep::Key("candidates"@), JsonStep::Index(0), JsonStep::Key("cursor"@)]
}

/// The text fragment of an answer: the string at `text_path`, or the empty
/// text where there is none.
pub open spec fn answer_text(doc: Map<Seq<JsonStep>, Seq<char>>) -> Seq<char> {
    match string_under(doc, text_path()) {
        Some(text) => text,
        None => Seq::empty(),
    }
}

/// Reads the text fragment and the continuation token out of an answer.
pub fn chunk_from_json(value: &serde_json::Value) -> (chunk: Chunk)
    ensures
        chunk.text@ == answer_text(json_strings(*value)),
        opt_view(chunk.cursor) == string_under(json_strings(*value), cursor_path()),
{
    let text_steps = vec![
        Step::Key("candidates"),
        Step::Index(0),
        Step::Key("content"),
        Step::Key("parts"),
        Step::Index(0),
        Step::Key("text"),
    ];
    let cursor_steps = vec![Step::Key("candidates"), Step::Index(0), Step::Key("cursor")];
    assert(path_view(text_steps@) =~= text_path());
    assert(path_view(cursor_steps@) =~= cursor_path());
    let text = match string_at(value, &text_steps) {
        Some(text) => text,
        None => String::new(),
    };
    let cursor = string_at(value, &cursor_steps);
    Chunk { text, cursor }
}

/// The text gathered so far and the token to ask for more with.
#[derive(Clone, Debug, PartialEq, Eq)]
pub struct Transcript {
    pub text: String,
    pub cursor: Option<String>,
}

impl Transcript {
    /// Nothing gathered yet: the first call carries no token.
    pub fn new() -> (t: Transcript)
        ensures
            t.text@ == Seq::<char>::empty(),
            t.cursor is None,
    {
        Transcript { text: String::new(), cursor: None }
    }
}

/// What the prompt endpoint does next.
#[derive(Clone, Debug, PartialEq, Eq)]
pub enum PromptStep {
    /// Ask the service again, with the token of the transcript.
    CallApi(Transcript),
    /// The text is complete and carries code: run it through the bridge.
    RunTool { text: String, args: ToolArgumentValues },
    /// The request ends with this reply.
    Respond(Reply),
}

/// Mathematical value of a `PromptStep`.
pub enum PromptStepView {
    CallApi { text: Seq<char>, cursor: Option<Seq<char>> },
    RunTool { text: Seq<char>, args: ArgumentsView },
    Respond(ReplyView),
}

impl View for PromptStep {
    type V = PromptStepView;

    open spec fn view(&self) -> PromptStepView {
        match self {
            PromptStep::CallApi(transcript) => PromptStepView::CallApi {
                text: transcript.text@,
                cursor: opt_view(transcript.cursor),
            },
            PromptStep::RunTool { text, args } => PromptStepView::RunTool {
                text: text@,
                args: args@,
            },
            PromptStep::Respond(reply) => PromptStepView::Respond(reply@),
        }
    }
}

/// What follows once the text gathered so far is `text` and the last chunk
/// came with `cursor`. With a token, another call follows. Without one the
/// text is complete: where it carries a fenced block, the block's contents
/// go to the worker; where it carries none, the text itself is the reply.
pub open spec fn plan(text: Seq<char>, cursor: Option<Seq<char>>) -> PromptStepView {
    match cursor {
        Some(token) => PromptStepView::CallApi { text, cursor: Some(token) },
        None => match fenced_block(text) {
            Some(command) => PromptStepView::RunTool {
                text,
                args: ArgumentsView::RunCode { command },
            },
            None => PromptStepView::Respond(text_reply(STATUS_OK, text)),
        },
    }
}

/// Takes one chunk into the transcript and decides what comes next.
pub fn absorb_chunk(transcript: Transcript, chunk: Chunk) -> (step: PromptStep)
    ensures
        step@ == plan(transcript.text@ + chunk.text@, opt_view(chunk.cursor)),
{
    let mut text = transcript.text;
    text.append(chunk.text.as_str());
    match chunk.cursor {
        Some(token) => PromptStep::CallApi(Transcript { text, cursor: Some(token) }),
        None => match extract_code(text.as_str()) {
            Some(command) => PromptStep::RunTool {
                text,
                args: ToolArgumentValues::RunCode { command },
            },
            None => PromptStep::Respond(Reply { status: STATUS_OK, body: Body::Text(text) }),
        },
    }
}

/// Takes one answer of the service into the transcript and decides what
/// comes next, as `absorb_chunk` does for the chunk that the answer holds.
pub fn absorb_answer(transcript: Transcript, answer: &serde_json::Value) -> (step: PromptStep)
    ensures
        step@ == plan(
            transcript.text@ + answer_text(json_strings(*answer)),
            string_under(json_strings(*answer), cursor_path()),
        ),
{
    absorb_chunk(transcript, chunk_from_json(answer))
}

/// How a call of the text-generation service failed.
#[derive(Clone, Debug, PartialEq, Eq)]
pub enum ApiFailure {
    /// The request did not get through, with the transport's own words.
    Transport(String),
    /// The answer was no JSON document, with the parser's own words.
    Malformed(String),
}

/// Text of the reply to a prompt whose call of the service failed.
pub open spec fn api_failure_text(failure: ApiFailure) -> Seq<char> {
    match failure {
        ApiFailure::Transport(detail) => "HTTP error: "@ + detail@,
        ApiFailure::Malformed(detail) => "JSON parse error: "@ + detail@,
    }
}

/// Turns a failed call of the service into the error of its request.
pub fn api_failure(failure: ApiFailure) -> (error: BridgeError)
    ensures
        error@ == (BridgeErrorView::ExternalApiFailure { detail: api_failure_text(failure) }),
{
    match failure {
        ApiFailure::Transport(detail) => {
            let mut text = "HTTP error: ".to_owned();
            text.append(detail.as_str());
            BridgeError::ExternalApiFailure { detail: text }
        },
        ApiFailure::Malformed(detail) => {
            let mut text = "JSON parse error: ".to_owned();
            text.append(detail.as_str());
            BridgeError::ExternalApiFailure { detail: text }
        },
    }
}

/// The reply that ends a prompt request with an error. Every failure of a
/// prompt request is reported with status 500 and the error's text.
pub fn error_reply(error: &BridgeError) -> (reply: Reply)
    ensures
        reply@ == text_reply(STATUS_INTERNAL_SERVER_ERROR, error_text(error@)),
{
    Reply { status: STATUS_INTERNAL_SERVER_ERROR, body: Body::Text(error.message()) }
}

/// One turn of a prompt request: takes what a call of the service brought.
/// A failed call ends the request with its error; nothing is tried again.
/// An answer goes into the transcript, as in `absorb_answer`.
pub fn absorb(transcript: Transcript, arrived: Result<serde_json::Value, ApiFailure>) -> (step:
    PromptStep)
    ensures
        match arrived {
            Ok(answer) => step@ == plan(
                transcript.text@ + answer_text(json_strings(answer)),
                string_under(json_strings(answer), cursor_path()),
            ),
            Err(failure) => step@ == PromptStepView::Respond(
                text_reply(STATUS_INTERNAL_SERVER_ERROR, api_failure_text(failure)),
            ),
        },
{
    match arrived {
        Ok(answer) => absorb_answer(transcript, &answer),
        Err(failure) => PromptStep::Respond(error_reply(&api_failure(failure))),
    }
}

/// Text of the reply to a prompt whose code was run.
pub open spec fn composite_text(generated: Seq<char>, output: Seq<char>) -> Seq<char> {
    "Gemini 2.5 says:\n"@ + generated + "\n\nRoblox Studio output:\n"@ + output
}

/// Text of the reply to a prompt whose code could not be run.
pub open spec fn run_failure_text(error: BridgeError) -> Seq<char> {
    "Failed to run code: "@ + error_text(error@)
}

/// The reply to a prompt whose text carried code, given what the bridge
/// returned for it.
pub open spec fn conclude_spec(generated: Seq<char>, result: Delivery) -> ReplyView {
    match result {
        Ok(output) => text_reply(STATUS_OK, composite_text(generated, output@)),
        Err(error) => text_reply(STATUS_INTERNAL_SERVER_ERROR, run_failure_text(error)),
    }
}

/// Composes the reply to a prompt whose text carried code: the generated
/// text followed by the worker's output, or the failure of the run.
pub fn conclude(generated: &str, result: Delivery) -> (reply: Reply)
    ensures
        reply@ == conclude_spec(generated@, result),
{
    match result {
        Ok(output) => {
            let mut text = "Gemini 2.5 says:\n".to_owned();
            text.append(generated);
            text.append("\n\nRoblox Studio output:\n");
            text.append(output.as_str());
            Reply { status: STATUS_OK, body: Body::Text(text) }
        },
        Err(error) => {
            let mut text = "Failed to run code: ".to_owned();
            text.append(error.message().as_str());
            Reply { status: STATUS_INTERNAL_SERVER_ERROR, body: Body::Text(text) }
        },
    }
}

/// Checks the credential that was read for this request. Its absence ends
/// the request, not the process.
pub fn credential(found: Option<String>) -> (key: Result<String, BridgeError>)
    ensures
        match found {
            Some(k) => key == Ok::<String, BridgeError>(k),
            None => key == Err::<String, BridgeError>(BridgeError::MissingCredential),
        },
{
    match found {
        Some(k) => Ok(k),
        None => Err(BridgeError::MissingCredential),
    }
}

} // verus!
