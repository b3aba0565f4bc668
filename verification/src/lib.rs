//! Dispatcher core of a bridge between synchronous callers and a polling
//! worker: a FIFO work queue, a correlation table and the decisions of the
//! endpoints around them.
//!
//! A caller enqueues a work item and waits on a channel of its own. The
//! worker picks items up with a bounded long poll and submits each result
//! under the identifier of its item; the dispatcher hands the result to the
//! caller that waits for it. The waiting itself, the lock around the
//! dispatcher and the HTTP layer belong to the program that uses this
//! library: every function here returns at once.

pub mod channel;
pub mod dispatcher;
pub mod fence;
pub mod install;
pub mod json;
pub mod laws;
pub mod longpoll;
pub mod orchestrator;
pub mod protocol;
pub mod submission;
pub mod text;

pub use dispatcher::AppState;
pub use fence::extract_code;
pub use install::get_message;
pub use longpoll::request_handler;
pub use protocol::{RunCommandResponse, ToolArgumentValues, ToolCall, STUDIO_PLUGIN_PORT};
pub use submission::response_handler;
