//! Wire-level data of the bridge: work items, result envelopes, errors and
//! the replies handed back to the HTTP layer.

use vstd::prelude::*;

verus! {

/// Port on which the worker plugin expects the server.
pub const STUDIO_PLUGIN_PORT: u16 = 44755;

/// Seconds a pickup request is held open before it reports "no work yet".
pub const LONG_POLL_SECONDS: u64 = 15;

/// Status of a reply that carries a result.
pub const STATUS_OK: u16 = 200;

/// Status of a pickup that found no work within the bound.
pub const STATUS_ACCEPTED: u16 = 202;

/// Status of a result submitted for an identifier nobody waits for.
pub const STATUS_NOT_FOUND: u16 = 404;

/// Status of a request that failed inside the server.
pub const STATUS_INTERNAL_SERVER_ERROR: u16 = 500;

/// The operation a work item asks the worker to perform.
#[derive(Clone, Debug, PartialEq, Eq)]
pub enum ToolArgumentValues {
    RunCode { command: String },
}

/// Mathematical value of a `ToolArgumentValues`.
pub enum ArgumentsView {
    RunCode { command: Seq<char> },
}

impl View for ToolArgumentValues {
    type V = ArgumentsView;

    open spec fn view(&self) -> ArgumentsView {
        match self {
            ToolArgumentValues::RunCode { command } => ArgumentsView::RunCode { command: command@ },
        }
    }
}

/// A unit of work for the worker. `id` is set once the item is queued.
#[derive(Clone, Debug, PartialEq, Eq)]
pub struct ToolCall {
    pub args: ToolArgumentValues,
    pub id: Option<u128>,
}

/// Mathematical value of a `ToolCall`.
pub struct ToolCallView {
    pub args: ArgumentsView,
    pub id: Option<u128>,
}

impl View for ToolCall {
    type V = ToolCallView;

    open spec fn view(&self) -> ToolCallView {
        ToolCallView { args: self.args@, id: self.id }
    }
}

/// The worker's result for the work item with identifier `id`.
#[derive(Clone, Debug, PartialEq, Eq)]
pub struct RunCommandResponse {
    pub response: String,
    pub id: u128,
}

/// Mathematical value of a `RunCommandResponse`.
pub struct RunCommandResponseView {
    pub response: Seq<char>,
    pub id: u128,
}

impl View for RunCommandResponse {
    type V = RunCommandResponseView;

    open spec fn view(&self) -> RunCommandResponseView {
        RunCommandResponseView { response: self.response@, id: self.id }
    }
}

/// What can go wrong with a single request. None of these outlives the
/// request that met it.
#[derive(Clone, Debug, PartialEq, Eq)]
pub enum BridgeError {
    /// The result channel of a bridge call closed before a result came.
    ChannelClosed,
    /// A result was submitted for an identifier without a live entry.
    UnknownIdentifier,
    /// The text-generation service could not be reached or answered badly.
    ExternalApiFailure { detail: String },
    /// The credential for the text-generation service is not configured.
    MissingCredential,
}

/// Mathematical value of a `BridgeError`.
pub enum BridgeErrorView {
    ChannelClosed,
    UnknownIdentifier,
    ExternalApiFailure { detail: Seq<char> },
    MissingCredential,
}

impl View for BridgeError {
    type V = BridgeErrorView;

    open spec fn view(&self) -> BridgeErrorView {
        match self {
            BridgeError::ChannelClosed => BridgeErrorView::ChannelClosed,
            BridgeError::UnknownIdentifier => BridgeErrorView::UnknownIdentifier,
            BridgeError::ExternalApiFailure { detail } => BridgeErrorView::ExternalApiFailure {
                detail: detail@,
            },
            BridgeError::MissingCredential => BridgeErrorView::MissingCredential,
        }
    }
}

/// Text shown for each error.
pub open spec fn error_text(e: BridgeErrorView) -> Seq<char> {
    match e {
        BridgeErrorView::ChannelClosed => "Channel closed unexpectedly"@,
        BridgeErrorView::UnknownIdentifier => "Unknown ID"@,
        BridgeErrorView::ExternalApiFailure { detail } => detail,
        BridgeErrorView::MissingCredential => "Missing GEMINI_API_KEY"@,
    }
}

impl BridgeError {
    /// The text shown for this error.
    pub fn message(&self) -> (text: String)
        ensures
            text@ == error_text(self@),
    {
        match self {
            BridgeError::ChannelClosed => "Channel closed unexpectedly".to_owned(),
            BridgeError::UnknownIdentifier => "Unknown ID".to_owned(),
            BridgeError::ExternalApiFailure { detail } => detail.clone(),
            BridgeError::MissingCredential => "Missing GEMINI_API_KEY".to_owned(),
        }
    }
}

/// What a reply carries besides its status.
#[derive(Clone, Debug, PartialEq, Eq)]
pub enum Body {
    Empty,
    Text(String),
    Task(ToolCall),
}

/// Mathematical value of a `Body`.
pub enum BodyView {
    Empty,
    Text(Seq<char>),
    Task(ToolCallView),
}

impl View for Body {
    type V = BodyView;

    open spec fn view(&self) -> BodyView {
        match self {
            Body::Empty => BodyView::Empty,
            Body::Text(text) => BodyView::Text(text@),
            Body::Task(task) => BodyView::Task(task@),
        }
    }
}

/// Answer to one HTTP request: a status code and a body.
#[derive(Clone, Debug, PartialEq, Eq)]
pub struct Reply {
    pub status: u16,
    pub body: Body,
}

/// Mathematical value of a `Reply`.
pub struct ReplyView {
    pub status: u16,
    pub body: BodyView,
}

impl View for Reply {
    type V = ReplyView;

    open spec fn view(&self) -> ReplyView {
        ReplyView { status: self.status, body: self.body@ }
    }
}

/// A reply with a text body.
pub open spec fn text_reply(status: u16, text: Seq<char>) -> ReplyView {
    ReplyView { status, body: BodyView::Text(text) }
}

} // verus!
