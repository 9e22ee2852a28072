use vstd::prelude::*;
use vstd::string::*;

verus! {

/// The extension of a path: the part of its file name after the last dot.
pub uninterp spec fn path_extension(path: Seq<char>) -> Option<Seq<char>>;

/// Relies on `Path::extension`, whose result depends on the path alone.
#[verifier::external_body]
fn file_extension(filename: &str) -> (r: Option<String>)
    ensures
        path_extension(filename@) == match r {
            Some(e) => Some(e@),
            None => None::<Seq<char>>,
        },
{
    std::path::Path::new(filename).extension().and_then(|e| e.to_str()).map(|e| e.to_string())
}

/// The language whose files carry extension `ext`.
pub open spec fn language_for_extension(ext: Seq<char>) -> Option<Seq<char>> {
    if ext == "rs"@ {
        Some("Rust"@)
    } else if ext == "py"@ {
        Some("Python"@)
    } else if ext == "js"@ || ext == "jsx"@ {
        Some("JavaScript"@)
    } else if ext == "ts"@ || ext == "tsx"@ {
        Some("TypeScript"@)
    } else if ext == "html"@ {
        Some("HTML"@)
    } else if ext == "css"@ {
        Some("CSS"@)
    } else if ext == "json"@ {
        Some("JSON"@)
    } else if ext == "xml"@ {
        Some("XML"@)
    } else if ext == "yaml"@ || ext == "yml"@ {
        Some("YAML"@)
    } else if ext == "toml"@ {
        Some("TOML"@)
    } else if ext == "md"@ {
        Some("Markdown"@)
    } else if ext == "txt"@ {
        Some("Plain Text"@)
    } else {
        None
    }
}

/// The language of a file, by the extension of its name.
pub open spec fn language_for_file(filename: Seq<char>) -> Option<Seq<char>> {
    match path_extension(filename) {
        Some(ext) => language_for_extension(ext),
        None => None,
    }
}

pub open spec fn str_option_view(o: Option<&str>) -> Option<Seq<char>> {
    match o {
        Some(s) => Some(s@),
        None => None,
    }
}

fn is_extension(ext: &String, candidate: &str) -> (r: bool)
    ensures
        r == (ext@ == candidate@),
{
    *ext == String::from_str(candidate)
}

/// The language of a file, by the extension of its name.
pub fn detect_syntax_from_filename(filename: &str) -> (r: Option<&'static str>)
    ensures
        str_option_view(r) == language_for_file(filename@),
{
    let ext = match file_extension(filename) {
        Some(e) => e,
        None => return None,
    };
    if is_extension(&ext, "rs") {
        Some("Rust")
    } else if is_extension(&ext, "py") {
        Some("Python")
    } else if is_extension(&ext, "js") || is_extension(&ext, "jsx") {
        Some("JavaScript")
    } else if is_extension(&ext, "ts") || is_extension(&ext, "tsx") {
        Some("TypeScript")
    } else if is_extension(&ext, "html") {
        Some("HTML")
    } else if is_extension(&ext, "css") {
        Some("CSS")
    } else if is_extension(&ext, "json") {
        Some("JSON")
    } else if is_extension(&ext, "xml") {
        Some("XML")
    } else if is_extension(&ext, "yaml") || is_extension(&ext, "yml") {
        Some("YAML")
    } else if is_extension(&ext, "toml") {
        Some("TOML")
    } else if is_extension(&ext, "md") {
        Some("Markdown")
    } else if is_extension(&ext, "txt") {
        Some("Plain Text")
    } else {
        None
    }
}

/// The language name shown for a file: the detected one, else plain text.
pub fn get_syntax_name(filename: Option<&str>) -> (r: String)
    ensures
        r@ == match filename {
            Some(f) => match language_for_file(f@) {
                Some(name) => name,
                None => "Plain Text"@,
            },
            None => "Plain Text"@,
        },
{
    match filename {
        Some(f) => match detect_syntax_from_filename(f) {
            Some(name) => String::from_str(name),
            None => String::from_str("Plain Text"),
        },
        None => String::from_str("Plain Text"),
    }
}

} // verus!
