//! Path and text operations of std that the library relies on.
//!
//! Paths are held as their text. Each function below makes one call into
//! std and names its result: the result is a fixed function of the
//! argument texts, which the contracts of the library refer to by name.

use vstd::prelude::*;

verus! {

/// The text of `Path::new(base).join(rel)`.
pub uninterp spec fn joined_path(base: Seq<char>, rel: Seq<char>) -> Seq<char>;

/// The text of `Path::new(path).file_stem()`, when it has one.
pub uninterp spec fn path_file_stem(path: Seq<char>) -> Option<Seq<char>>;

/// The text of `Path::new(path).extension()`, when it has one.
pub uninterp spec fn path_extension(path: Seq<char>) -> Option<Seq<char>>;

/// The text of `Path::new(path).file_name()`, when it has one.
pub uninterp spec fn path_file_name(path: Seq<char>) -> Option<Seq<char>>;

/// The text of `Path::new(path).parent()`, when it has one.
pub uninterp spec fn path_parent(path: Seq<char>) -> Option<Seq<char>>;

/// The text of `str::to_lowercase` on the argument.
pub uninterp spec fn lowercase(s: Seq<char>) -> Seq<char>;

/// The text of `str::trim` on the argument.
pub uninterp spec fn trimmed(s: Seq<char>) -> Seq<char>;

/// Joins `rel` onto `base` with `std::path::Path::join`.
///
/// Trusted: the result is claimed to be the fixed function `joined_path`
/// of the two texts; how std joins them is not restated.
#[verifier::external_body]
pub(crate) fn path_join(base: &str, rel: &str) -> (r: String)
    ensures
        r@ == joined_path(base@, rel@),
{
    std::path::Path::new(base).join(rel).to_string_lossy().into_owned()
}

/// The file stem of `path` by `std::path::Path::file_stem`.
///
/// Trusted: the result is claimed to be `path_file_stem` of the text.
#[verifier::external_body]
pub(crate) fn file_stem_of(path: &str) -> (r: Option<String>)
    ensures
        r matches Some(s) ==> path_file_stem(path@) == Some(s@),
        r is None ==> path_file_stem(path@) is None,
{
    match std::path::Path::new(path).file_stem() {
        Some(s) => Some(s.to_string_lossy().into_owned()),
        None => None,
    }
}

/// The extension of `path` by `std::path::Path::extension`.
///
/// Trusted: the result is claimed to be `path_extension` of the text.
#[verifier::external_body]
pub(crate) fn extension_of(path: &str) -> (r: Option<String>)
    ensures
        r matches Some(s) ==> path_extension(path@) == Some(s@),
        r is None ==> path_extension(path@) is None,
{
    match std::path::Path::new(path).extension() {
        Some(s) => Some(s.to_string_lossy().into_owned()),
        None => None,
    }
}

/// The final component of `path` by `std::path::Path::file_name`.
///
/// Trusted: the result is claimed to be `path_file_name` of the text.
#[verifier::external_body]
pub(crate) fn file_name_of(path: &str) -> (r: Option<String>)
    ensures
        r matches Some(s) ==> path_file_name(path@) == Some(s@),
        r is None ==> path_file_name(path@) is None,
{
    match std::path::Path::new(path).file_name() {
        Some(s) => Some(s.to_string_lossy().into_owned()),
        None => None,
    }
}

/// The parent of `path` by `std::path::Path::parent`.
///
/// Trusted: the result is claimed to be `path_parent` of the text.
#[verifier::external_body]
pub(crate) fn parent_of(path: &str) -> (r: Option<String>)
    ensures
        r matches Some(s) ==> path_parent(path@) == Some(s@),
        r is None ==> path_parent(path@) is None,
{
    match std::path::Path::new(path).parent() {
        Some(s) => Some(s.to_string_lossy().into_owned()),
        None => None,
    }
}

/// `s` in lower case by `str::to_lowercase`.
///
/// Trusted: the result is claimed to be `lowercase` of the text.
#[verifier::external_body]
pub(crate) fn to_lower(s: &str) -> (r: String)
    ensures
        r@ == lowercase(s@),
{
    s.to_lowercase()
}

/// `s` without leading and trailing whitespace by `str::trim`.
///
/// Trusted: the result is claimed to be `trimmed` of the text; std
/// documents that it removes leading and trailing Unicode `White_Space`.
#[verifier::external_body]
pub(crate) fn trim_text(s: &str) -> (r: String)
    ensures
        r@ == trimmed(s@),
{
    s.trim().to_string()
}

} // verus!
