pub mod cursor;
pub mod cursor_utils;
pub mod editor;
pub mod file_handler;
pub mod keys;
pub mod language;
pub mod lint;
pub mod linter;
pub mod messages;
pub mod mouse;
pub mod render;
pub mod text;
