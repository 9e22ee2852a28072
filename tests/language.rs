use hello_tui::language::{detect_syntax_from_filename, get_syntax_name};

#[test]
fn test_syntax_detection() {
    assert_eq!(detect_syntax_from_filename("test.rs"), Some("Rust"));
    assert_eq!(detect_syntax_from_filename("test.py"), Some("Python"));
    assert_eq!(detect_syntax_from_filename("test.js"), Some("JavaScript"));
    assert_eq!(detect_syntax_from_filename("test.unknown"), None);
}

#[test]
fn syntax_detection_edge_cases() {
    assert_eq!(detect_syntax_from_filename("src/app.tsx"), Some("TypeScript"));
    assert_eq!(detect_syntax_from_filename("notes.txt"), Some("Plain Text"));
    assert_eq!(detect_syntax_from_filename("Makefile"), None);
    assert_eq!(detect_syntax_from_filename(".rs"), None);
    assert_eq!(detect_syntax_from_filename("archive.tar.yml"), Some("YAML"));
}

#[test]
fn syntax_name_defaults_to_plain_text() {
    assert_eq!(get_syntax_name(Some("main.rs")), "Rust");
    assert_eq!(get_syntax_name(Some("README")), "Plain Text");
    assert_eq!(get_syntax_name(None), "Plain Text");
}

