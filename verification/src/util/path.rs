//! Paths as text.

use std::path::{Path, PathBuf};

use vstd::prelude::*;

verus! {

/// `std::path::Path` travels through the library unopened.
#[verifier::external_type_specification]
#[verifier::external_body]
pub struct ExPath(Path);

/// `PathBuf::as_path`: the borrowed form of an owned path. Nothing is stated of it.
pub assume_specification[ PathBuf::as_path ](p: &PathBuf) -> &Path;

/// The path as UTF-8 text; bytes that are not UTF-8 become U+FFFD
/// (`Path::to_string_lossy`). Nothing is stated of the text.
#[verifier::external_body]
pub fn path_to_string(path: &Path) -> String {
    path.to_string_lossy().into_owned()
}

/// `Path::display` of a path, as text. Nothing is stated of the text.
#[verifier::external_body]
pub(crate) fn display_path(path: &PathBuf) -> String {
    path.display().to_string()
}

/// The last component of the path written `path`, where it has one that is
/// a name (`Path::file_name`): none for a root, for a path that ends in `..`,
/// or for an empty path. It depends on the text alone.
pub uninterp spec fn path_file_name(path: Seq<char>) -> Option<Seq<char>>;

/// `Path::file_name` of the path written `path`, as text.
#[verifier::external_body]
fn file_name_of(path: &str) -> (r: Option<String>)
    ensures
        match r {
            Some(n) => path_file_name(path@) == Some(n@),
            None => path_file_name(path@) is None,
        },
{
    Path::new(path).file_name().and_then(|n| n.to_str()).map(String::from)
}

/// A hidden file's name starts with a dot.
pub open spec fn spec_is_hidden(path: Seq<char>) -> bool {
    match path_file_name(path) {
        Some(n) => n.len() > 0 && n[0] == '.',
        None => false,
    }
}

/// Whether the path written `path` names a hidden file: one whose last
/// component starts with a dot.
pub fn is_hidden(path: &str) -> (r: bool)
    ensures
        r == spec_is_hidden(path@),
{
    match file_name_of(path) {
        Some(name) => {
            let chars = crate::util::text::chars_of(name.as_str());
            chars.len() > 0 && chars[0] == '.'
        },
        None => false,
    }
}

} // verus!
