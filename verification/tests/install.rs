use studio_bridge::install::{
    directory_error_is_fatal, failure_log, get_message, install_notice, installed_notice,
    write_failure, Notice, NoticeLevel, INSTALL_MESSAGE, NOTICE_TITLE, PLUGIN_FILE_NAME,
};

#[test]
fn message_text() {
    let lines = [
        "Roblox Studio Gemini Connector is installed!",
        "",
        "Next Steps:",
        "1. Get a Gemini API Key from Google AI Studio.",
        "2. Set the environment variable 'GEMINI_API_KEY' to your key.",
        "3. Run this application again with the '--serve' flag:",
        "   cargo run -- --serve",
        "4. Open Roblox Studio and enable the 'MCPStudioPlugin' in the Plugins tab.",
        "5. Send prompts to the server using a tool like Postman or curl, for example:",
        "",
        "   curl -X POST http://127.0.0.1:44755/prompt \\",
        "     -H \"Content-Type: application/json\" \\",
        "     -d '{\"prompt\": \"insert a red car\"}'",
        "",
        "To uninstall, delete 'MCPStudioPlugin.rbxm' from your Roblox plugins directory.",
    ];
    assert_eq!(get_message(), lines.join("\n"));
    assert_eq!(get_message(), INSTALL_MESSAGE);
}

#[test]
fn message_names_the_port_and_the_plugin_file() {
    let message = get_message();
    assert!(message.contains(&format!(":{}/prompt", studio_bridge::protocol::STUDIO_PLUGIN_PORT)));
    assert!(message.contains(PLUGIN_FILE_NAME));
}

#[test]
fn names() {
    assert_eq!(PLUGIN_FILE_NAME, "MCPStudioPlugin.rbxm");
    assert_eq!(NOTICE_TITLE, "Roblox Studio Gemini Connector");
}

#[test]
fn existing_directory_is_no_failure() {
    assert!(!directory_error_is_fatal(true));
    assert!(directory_error_is_fatal(false));
}

#[test]
fn texts_name_the_path() {
    assert_eq!(write_failure("/plugins/MCPStudioPlugin.rbxm"),
        "Could not write Roblox Plugin file at /plugins/MCPStudioPlugin.rbxm");
    assert_eq!(installed_notice("C:\\Plugins\\MCPStudioPlugin.rbxm"),
        "Installed Roblox Studio plugin to C:\\Plugins\\MCPStudioPlugin.rbxm");
    assert_eq!(write_failure(""), "Could not write Roblox Plugin file at ");
}

#[test]
fn notice_for_success_and_failure() {
    assert_eq!(install_notice(Ok("All good".to_string())), Notice {
        level: NoticeLevel::Info,
        title: "Roblox Studio Gemini Connector".to_string(),
        text: "All good".to_string(),
    });
    assert_eq!(install_notice(Err("disk full".to_string())), Notice {
        level: NoticeLevel::Error,
        title: "Roblox Studio Gemini Connector".to_string(),
        text: "Errors occurred: disk full".to_string(),
    });
}

#[test]
fn log_line_for_a_failure() {
    assert_eq!(failure_log("no studio"), "Failed to install Roblox Gemini Connector: no studio");
}
