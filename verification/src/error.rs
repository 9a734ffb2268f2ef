//! Why a test suite could not be generated.
use crate::outside::{display_path, path_text};
use std::path::PathBuf;
use vstd::prelude::*;
use vstd::string::to_string_from_display_ensures;

verus! {

/// A failure to generate the test files.
#[derive(Debug)]
pub enum GenerationError {
    /// The crate at this path could not be expanded, with the reason.
    MacroExpansion(PathBuf, String),
    /// This expanded source is not valid Rust, with the reason.
    RustSyntax(String, String),
    /// The template of this name could not be rendered, with the reason.
    TemplateRender(String, String),
    /// A test file could not be created or written.
    OsError(std::io::Error),
    /// An identifier or type could not be mapped.
    ItemMap,
}

impl GenerationError {
    /// The message shown for the error.
    pub fn message(&self) -> (r: String)
        ensures
            (match self {
                GenerationError::MacroExpansion(path, reason) => r@ == "unable to expand crate "@
                    + path_text(*path) + ": "@ + reason@,
                GenerationError::RustSyntax(source, reason) => r@
                    == "unable to parse expanded crate "@ + source@ + ": "@ + reason@,
                GenerationError::TemplateRender(template, reason) => r@ == "unable to render "@
                    + template@ + " template: "@ + reason@,
                GenerationError::OsError(error) => exists|text: String| #[trigger]
                    to_string_from_display_ensures(error, text) && r@
                        == "unable to create or write template file: "@ + text@,
                GenerationError::ItemMap => r@ == "unable to map Rust identifier or type"@,
            }),
    {
        match self {
            GenerationError::MacroExpansion(path, reason) => {
                "unable to expand crate ".to_string().concat(display_path(path).as_str()).concat(
                    ": ",
                ).concat(reason.as_str())
            },
            GenerationError::RustSyntax(source, reason) => {
                "unable to parse expanded crate ".to_string().concat(source.as_str()).concat(
                    ": ",
                ).concat(reason.as_str())
            },
            GenerationError::TemplateRender(template, reason) => {
                "unable to render ".to_string().concat(template.as_str()).concat(
                    " template: ",
                ).concat(reason.as_str())
            },
            GenerationError::OsError(error) => {
                let text = error.to_string();
                "unable to create or write template file: ".to_string().concat(text.as_str())
            },
            GenerationError::ItemMap => "unable to map Rust identifier or type".to_string(),
        }
    }
}

} // verus!
