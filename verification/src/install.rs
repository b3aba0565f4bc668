//! Texts and decisions of the plugin installer. The installer itself works
//! on the file system; what it says and how it judges an error is decided
//! here.

use vstd::prelude::*;
use vstd::string::StringExecFns;

verus! {

/// Name of the plugin file inside the plugins directory.
pub const PLUGIN_FILE_NAME: &'static str = "MCPStudioPlugin.rbxm";

/// Title of the window that reports how the installation went.
pub const NOTICE_TITLE: &'static str = "Roblox Studio Gemini Connector";

/// What the installer tells the user after a successful installation.
pub const INSTALL_MESSAGE: &'static str = "Roblox Studio Gemini Connector is installed!

Next Steps:
1. Get a Gemini API Key from Google AI Studio.
2. Set the environment variable 'GEMINI_API_KEY' to your key.
3. Run this application again with the '--serve' flag:
   cargo run -- --serve
4. Open Roblox Studio and enable the 'MCPStudioPlugin' in the Plugins tab.
5. Send prompts to the server using a tool like Postman or curl, for example:

   curl -X POST http://127.0.0.1:44755/prompt \\
     -H \"Content-Type: application/json\" \\
     -d '{\"prompt\": \"insert a red car\"}'

To uninstall, delete 'MCPStudioPlugin.rbxm' from your Roblox plugins directory.";

/// The message shown after a successful installation.
pub fn get_message() -> (message: String)
    ensures
        message@ == INSTALL_MESSAGE@,
{
    INSTALL_MESSAGE.to_owned()
}

/// Whether a failure to create the plugins directory ends the installation.
/// A directory that is there already is no failure.
pub fn directory_error_is_fatal(already_exists: bool) -> (fatal: bool)
    ensures
        fatal == !already_exists,
{
    !already_exists
}

/// Text of the error for a plugin file that could not be written at `path`.
pub open spec fn write_failure_text(path: Seq<char>) -> Seq<char> {
    "Could not write Roblox Plugin file at "@ + path
}

/// Builds the error text for a plugin file that could not be written.
pub fn write_failure(path: &str) -> (text: String)
    ensures
        text@ == write_failure_text(path@),
{
    "Could not write Roblox Plugin file at ".to_owned().concat(path)
}

/// Text of the line that names the place of the installed plugin file.
pub open spec fn installed_text(path: Seq<char>) -> Seq<char> {
    "Installed Roblox Studio plugin to "@ + path
}

/// Builds the line that names the place of the installed plugin file.
pub fn installed_notice(path: &str) -> (text: String)
    ensures
        text@ == installed_text(path@),
{
    "Installed Roblox Studio plugin to ".to_owned().concat(path)
}

/// How serious a notice is.
#[derive(Clone, Copy, Debug, PartialEq, Eq)]
pub enum NoticeLevel {
    Info,
    Error,
}

/// What the installer shows the user at its end.
#[derive(Clone, Debug, PartialEq, Eq)]
pub struct Notice {
    pub level: NoticeLevel,
    pub title: String,
    pub text: String,
}

/// Text of the notice for an installation that failed with `error`.
pub open spec fn failure_text(error: Seq<char>) -> Seq<char> {
    "Errors occurred: "@ + error
}

/// The notice for the end of an installation: the success message as
/// information, or the error as an error.
pub fn install_notice(outcome: Result<String, String>) -> (notice: Notice)
    ensures
        notice.title@ == NOTICE_TITLE@,
        match outcome {
            Ok(message) => notice.level == NoticeLevel::Info && notice.text@ == message@,
            Err(error) => notice.level == NoticeLevel::Error && notice.text@ == failure_text(
                error@,
            ),
        },
{
    match outcome {
        Ok(message) => Notice {
            level: NoticeLevel::Info,
            title: NOTICE_TITLE.to_owned(),
            text: message,
        },
        Err(error) => Notice {
            level: NoticeLevel::Error,
            title: NOTICE_TITLE.to_owned(),
            text: "Errors occurred: ".to_owned().concat(error.as_str()),
        },
    }
}

/// Text of the log line for an installation that failed with `error`.
pub open spec fn failure_log_text(error: Seq<char>) -> Seq<char> {
    "Failed to install Roblox Gemini Connector: "@ + error
}

/// Builds the log line for an installation that failed.
pub fn failure_log(error: &str) -> (text: String)
    ensures
        text@ == failure_log_text(error@),
{
    "Failed to install Roblox Gemini Connector: ".to_owned().concat(error)
}

} // verus!
