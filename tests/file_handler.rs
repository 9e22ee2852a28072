use hello_tui::file_handler::IOCraftFileHandler;
use hello_tui::messages::{
    browser_header_message, error_message, file_info_message, loading_message, recent_files_header_message, resolve_message,
    status_message, success_message, welcome_message,
};

#[test]
fn test_iocraft_file_handler_creation() {
    let handler = IOCraftFileHandler::new();
    assert!(handler.get_current_file().is_none());
    assert_eq!(handler.get_last_operation(), "Ready");
    assert!(handler.is_last_operation_successful());
}

#[test]
fn test_error_handling() {
    let mut handler = IOCraftFileHandler::new();
    let outcome = Err(String::from("No such file or directory (os error 2)"));
    let result = handler.load_file("/non/existent/file.txt", outcome);
    assert!(result.is_err());
    assert!(!handler.is_last_operation_successful());
    assert!(handler.get_last_operation().contains("Error"));
}

#[test]
fn successful_load_and_save_are_recorded() {
    let mut handler = IOCraftFileHandler::new();
    let content = vec!["Hello".to_string(), "World".to_string()];
    let loaded = handler.load_file("notes.txt", Ok(content.clone())).unwrap();
    assert_eq!(loaded, content);
    assert_eq!(handler.get_current_file().unwrap(), "notes.txt");
    assert_eq!(handler.get_last_operation(), "Loaded: notes.txt");
    assert!(handler.save_file("other.txt", Err(String::from("denied"))).is_err());
    assert_eq!(handler.get_last_operation(), "Error saving other.txt: denied");
    assert_eq!(handler.get_current_file().unwrap(), "notes.txt");
    assert!(handler.create_new_file("new.txt", Ok(())).is_ok());
    assert_eq!(handler.get_current_file().unwrap(), "new.txt");
    assert_eq!(handler.get_last_operation(), "Saved: new.txt");
    assert!(handler.is_last_operation_successful());
    assert_eq!(IOCraftFileHandler::new_file_content(), vec![String::new()]);
}

#[test]
fn failed_load_keeps_current_file() {
    let mut handler = IOCraftFileHandler::new();
    handler.save_file("a.txt", Ok(())).unwrap();
    assert!(handler.load_file("b.txt", Err(String::from("gone"))).is_err());
    assert_eq!(handler.get_current_file().unwrap(), "a.txt");
    assert_eq!(handler.get_last_operation(), "Error loading b.txt: gone");
}

#[test]
fn message_formats() {
    assert_eq!(status_message("saved"), "📋 saved");
    assert_eq!(loading_message("Loading file", "a.rs"), "⏳ Loading file \"a.rs\"...");
    assert_eq!(success_message("Done", "a.rs", 120), "✅ Done: \"a.rs\" (120 lines)");
    assert_eq!(success_message("Done", "a.rs", 0), "✅ Done: \"a.rs\" (0 lines)");
    assert_eq!(error_message("Failed", "a.rs", "denied"), "❌ Failed: \"a.rs\" - Error: denied");
    assert_eq!(file_info_message("a.rs", "rs", 7, "OK"), "📁 a.rs | 📄 rs | 📊 7 lines | 🔍 OK");
    assert_eq!(welcome_message(), "🦀 Welcome to TUI Editor with Enhanced JavaScript Linting! 🦀");
    assert_eq!(browser_header_message("/tmp"), "📁 File Browser: /tmp");
    assert_eq!(recent_files_header_message(), "🕐 Recent Files");
}

#[test]
fn message_lookup_falls_back_to_bracketed_key() {
    assert_eq!(resolve_message(Some("Hola".to_string()), Some("Hello".to_string()), "greet"), "Hola");
    assert_eq!(resolve_message(None, Some("Hello".to_string()), "greet"), "Hello");
    assert_eq!(resolve_message(None, None, "greet"), "[greet]");
}
