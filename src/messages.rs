use vstd::prelude::*;
use vstd::string::*;
use crate::text::{decimal_digits, push_decimal};

verus! {

/// A status line: `📋 <message>`.
pub fn status_message(message: &str) -> (r: String)
    ensures
        r@ == "📋 "@ + message@,
{
    let mut r = String::from_str("📋 ");
    r.append(message);
    r
}

/// An operation in progress: `⏳ <operation> "<filename>"...`.
pub fn loading_message(operation: &str, filename: &str) -> (r: String)
    ensures
        r@ == "⏳ "@ + operation@ + " \""@ + filename@ + "\"..."@,
{
    let mut r = String::from_str("⏳ ");
    r.append(operation);
    r.append(" \"");
    r.append(filename);
    r.append("\"...");
    r
}

/// A finished operation: `✅ <message>: "<filename>" (<n> lines)`.
pub fn success_message(message: &str, filename: &str, line_count: usize) -> (r: String)
    ensures
        r@ == "✅ "@ + message@ + ": \""@ + filename@ + "\" ("@ + decimal_digits(line_count as nat) + " lines)"@,
{
    let mut r = String::from_str("✅ ");
    r.append(message);
    r.append(": \"");
    r.append(filename);
    r.append("\" (");
    push_decimal(&mut r, line_count as u128);
    r.append(" lines)");
    r
}

/// A failed operation: `❌ <message>: "<filename>" - Error: <error>`.
pub fn error_message(message: &str, filename: &str, error: &str) -> (r: String)
    ensures
        r@ == "❌ "@ + message@ + ": \""@ + filename@ + "\" - Error: "@ + error@,
{
    let mut r = String::from_str("❌ ");
    r.append(message);
    r.append(": \"");
    r.append(filename);
    r.append("\" - Error: ");
    r.append(error);
    r
}

/// A one-line summary of a file.
pub fn file_info_message(filename: &str, file_type: &str, line_count: usize, lint_status: &str) -> (r: String)
    ensures
        r@ == "📁 "@ + filename@ + " | 📄 "@ + file_type@ + " | 📊 "@ + decimal_digits(line_count as nat) + " lines | 🔍 "@
            + lint_status@,
{
    let mut r = String::from_str("📁 ");
    r.append(filename);
    r.append(" | 📄 ");
    r.append(file_type);
    r.append(" | 📊 ");
    push_decimal(&mut r, line_count as u128);
    r.append(" lines | 🔍 ");
    r.append(lint_status);
    r
}

pub fn welcome_message() -> (r: String)
    ensures
        r@ == "🦀 Welcome to TUI Editor with Enhanced JavaScript Linting! 🦀"@,
{
    String::from_str("🦀 Welcome to TUI Editor with Enhanced JavaScript Linting! 🦀")
}

/// The title of a directory listing.
pub fn browser_header_message(directory: &str) -> (r: String)
    ensures
        r@ == "📁 File Browser: "@ + directory@,
{
    let mut r = String::from_str("📁 File Browser: ");
    r.append(directory);
    r
}

pub fn recent_files_header_message() -> (r: String)
    ensures
        r@ == "🕐 Recent Files"@,
{
    String::from_str("🕐 Recent Files")
}

/// The text shown for message `key`: its translation in the current
/// language, else in the fallback language, else the key in brackets.
pub fn resolve_message(current: Option<String>, fallback: Option<String>, key: &str) -> (r: String)
    ensures
        current is Some ==> r == current->0,
        current is None && fallback is Some ==> r == fallback->0,
        current is None && fallback is None ==> r@ == "["@ + key@ + "]"@,
{
    match current {
        Some(text) => text,
        None => match fallback {
            Some(text) => text,
            None => {
                let mut r = String::from_str("[");
                r.append(key);
                r.append("]");
                r
            },
        },
    }
}

} // verus!
