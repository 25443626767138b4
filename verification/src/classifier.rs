use vstd::prelude::*;
use vstd::string::StringExecFns;

use crate::strutil::str_eq;

verus! {

/// The fixed extension table: which language label, if any, a file-name
/// extension is classified to. An extension outside the table classifies to
/// nothing, and such files are excluded from the statistics entirely.
pub open spec fn spec_language_for(ext: Seq<char>) -> Option<Seq<char>> {
    if ext == "rs"@ {
        Some("Rust"@)
    } else if ext == "r"@ {
        Some("R"@)
    } else if ext == "c"@ {
        Some("C"@)
    } else if ext == "cs"@ {
        Some("C#"@)
    } else if ext == "cpp"@ {
        Some("C++"@)
    } else if ext == "java"@ {
        Some("Java"@)
    } else if ext == "scala"@ {
        Some("Scala"@)
    } else if ext == "erl"@ {
        Some("Erlang"@)
    } else if ext == "html"@ {
        Some("HTML"@)
    } else if ext == "css"@ {
        Some("CSS"@)
    } else if ext == "ejs"@ {
        Some("EJS"@)
    } else if ext == "rb"@ {
        Some("Ruby"@)
    } else if ext == "php"@ {
        Some("PHP"@)
    } else if ext == "js"@ {
        Some("JavaScript"@)
    } else if ext == "ts"@ {
        Some("TypeScript"@)
    } else if ext == "py"@ {
        Some("Python"@)
    } else if ext == "go"@ {
        Some("Go"@)
    } else if ext == "bash"@ {
        Some("Bash"@)
    } else {
        None
    }
}

/// Exact lookup in the extension table: the language label for a recognized
/// extension, `None` for any other.
pub fn language_for_extension(ext: &str) -> (r: Option<String>)
    ensures
        match r {
            Some(label) => spec_language_for(ext@) == Some(label@),
            None => spec_language_for(ext@) is None,
        },
{
    if str_eq(ext, "rs") {
        Some(String::from_str("Rust"))
    } else if str_eq(ext, "r") {
        Some(String::from_str("R"))
    } else if str_eq(ext, "c") {
        Some(String::from_str("C"))
    } else if str_eq(ext, "cs") {
        Some(String::from_str("C#"))
    } else if str_eq(ext, "cpp") {
        Some(String::from_str("C++"))
    } else if str_eq(ext, "java") {
        Some(String::from_str("Java"))
    } else if str_eq(ext, "scala") {
        Some(String::from_str("Scala"))
    } else if str_eq(ext, "erl") {
        Some(String::from_str("Erlang"))
    } else if str_eq(ext, "html") {
        Some(String::from_str("HTML"))
    } else if str_eq(ext, "css") {
        Some(String::from_str("CSS"))
    } else if str_eq(ext, "ejs") {
        Some(String::from_str("EJS"))
    } else if str_eq(ext, "rb") {
        Some(String::from_str("Ruby"))
    } else if str_eq(ext, "php") {
        Some(String::from_str("PHP"))
    } else if str_eq(ext, "js") {
        Some(String::from_str("JavaScript"))
    } else if str_eq(ext, "ts") {
        Some(String::from_str("TypeScript"))
    } else if str_eq(ext, "py") {
        Some(String::from_str("Python"))
    } else if str_eq(ext, "go") {
        Some(String::from_str("Go"))
    } else if str_eq(ext, "bash") {
        Some(String::from_str("Bash"))
    } else {
        None
    }
}

} // verus!
