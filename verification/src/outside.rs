//! Types and functions of std and of the `syn` crate that the library builds on.
use std::path::PathBuf;
use vstd::prelude::*;

verus! {

/// `std::path::PathBuf`, carried through unread.
#[verifier::external_type_specification]
#[verifier::external_body]
pub struct ExPathBuf(std::path::PathBuf);

/// `std::io::Error`, carried through unread.
#[verifier::external_type_specification]
#[verifier::external_body]
pub struct ExIoError(std::io::Error);

/// `syn::File`, the syntax tree of a source file, carried through unread.
#[verifier::external_type_specification]
#[verifier::external_body]
pub struct ExFile(syn::File);

/// What `syn::parse_file` makes of a source text: the tree, or the text of the error.
pub uninterp spec fn syntax_tree(source: Seq<char>) -> Result<syn::File, Seq<char>>;

/// The text that `std::path::Path::display` prints for a path.
pub uninterp spec fn path_text(path: PathBuf) -> Seq<char>;

/// The path that `std::path::Path::join` makes of a base and a path.
pub uninterp spec fn joined_path(base: PathBuf, path: PathBuf) -> PathBuf;

/// The path that `std::path::Path::with_extension` makes of a path and an extension.
pub uninterp spec fn path_with_extension(path: PathBuf, extension: Seq<char>) -> PathBuf;

/// No character of the text separates the parts of a path, on any platform.
pub open spec fn separator_free(text: Seq<char>) -> bool {
    forall|i: int| 0 <= i < text.len() ==> text[i] != '/' && text[i] != '\\'
}

/// `PathBuf::clone` gives back an equal path.
pub assume_specification[ <PathBuf as Clone>::clone ](path: &PathBuf) -> (r: PathBuf)
    ensures
        r == *path,
;

/// Calls `syn::parse_file`. Its answer depends on the source text alone: the syntax tree, or an
/// error, of which only the printed message is kept. Outside procedural macros, and without the
/// span locations of `proc_macro2`, no tree tells where or when its text was parsed. What the
/// tree holds is left unsaid.
#[verifier::external_body]
pub(crate) fn parse_file(source: &str) -> (r: Result<syn::File, String>)
    ensures
        (match r {
            Ok(file) => syntax_tree(source@) == Ok::<syn::File, Seq<char>>(file),
            Err(message) => syntax_tree(source@) == Err::<syn::File, Seq<char>>(message@),
        }),
{
    match syn::parse_file(source) {
        Ok(file) => Ok(file),
        Err(error) => Err(error.to_string()),
    }
}

/// Prints a path by `std::path::Path::display`. The text depends on the path alone.
#[verifier::external_body]
pub(crate) fn display_path(path: &PathBuf) -> (r: String)
    ensures
        r@ == path_text(*path),
{
    path.display().to_string()
}

/// Joins two paths by `std::path::Path::join`. The outcome depends on the two paths alone: `path`
/// below `base`, or `path` itself where it is absolute. How the parts are separated is left open.
#[verifier::external_body]
pub(crate) fn join_path(base: &PathBuf, path: &PathBuf) -> (r: PathBuf)
    ensures
        r == joined_path(*base, *path),
{
    base.join(path)
}

/// Replaces or adds an extension by `std::path::Path::with_extension`, which does not accept a
/// path separator in the extension. The outcome depends on the path and the extension alone.
#[verifier::external_body]
pub(crate) fn with_extension(path: &PathBuf, extension: &str) -> (r: PathBuf)
    requires
        separator_free(extension@),
    ensures
        r == path_with_extension(*path, extension@),
{
    path.with_extension(extension)
}

} // verus!
