//! File-name handling. Splitting a path into directory, stem and extension,
//! and joining a directory and a name, is left to the standard library, which
//! knows the path syntax of the platform the library is built for. This
//! module gives its answers names and builds on them.

use vstd::prelude::*;
use vstd::string::*;
use crate::process::opt_view;
use crate::text::concat3;

verus! {

/// The stem that `std::path::Path::file_stem` finds in `path`: the final
/// component without its extension, or `None` where the path has no final
/// component.
pub uninterp spec fn path_file_stem(path: Seq<char>) -> Option<Seq<char>>;

/// The extension that `std::path::Path::extension` finds in `path`: what
/// follows the last dot of the final component, or `None` where the path
/// has no final component, or that component has no dot but a leading one.
pub uninterp spec fn path_extension(path: Seq<char>) -> Option<Seq<char>>;

/// The directory part that `std::path::Path::parent` finds in `path`, or
/// `None` where the path is a root or empty.
pub uninterp spec fn path_parent(path: Seq<char>) -> Option<Seq<char>>;

/// The path that `std::path::Path::join` makes of a directory and a name.
pub uninterp spec fn path_join(dir: Seq<char>, name: Seq<char>) -> Seq<char>;

/// Trusted: calls `std::path::Path::file_stem` and returns its answer as a
/// string. The contract only gives that answer its name, [`path_file_stem`].
#[verifier::external_body]
pub(crate) fn file_stem(path: &str) -> (r: Option<String>)
    ensures
        opt_view(r) == path_file_stem(path@),
{
    match std::path::Path::new(path).file_stem() {
        Some(stem) => Some(stem.to_string_lossy().into_owned()),
        None => None,
    }
}

/// Trusted: calls `std::path::Path::extension` and returns its answer as a
/// string. The contract only gives that answer its name, [`path_extension`].
#[verifier::external_body]
pub(crate) fn extension(path: &str) -> (r: Option<String>)
    ensures
        opt_view(r) == path_extension(path@),
{
    match std::path::Path::new(path).extension() {
        Some(extension) => Some(extension.to_string_lossy().into_owned()),
        None => None,
    }
}

/// Trusted: calls `std::path::Path::parent` and returns its answer as a
/// string. The contract only gives that answer its name, [`path_parent`].
#[verifier::external_body]
pub(crate) fn parent(path: &str) -> (r: Option<String>)
    ensures
        opt_view(r) == path_parent(path@),
{
    match std::path::Path::new(path).parent() {
        Some(parent) => Some(parent.to_string_lossy().into_owned()),
        None => None,
    }
}

/// Trusted: calls `std::path::Path::join` and returns its answer as a
/// string. The contract only gives that answer its name, [`path_join`].
#[verifier::external_body]
pub(crate) fn join(dir: &str, name: &str) -> (r: String)
    ensures
        r@ == path_join(dir@, name@),
{
    std::path::Path::new(dir).join(name).to_string_lossy().into_owned()
}

/// The stem to build names from: the path's own, or the empty text where it
/// has none.
pub open spec fn stem_or_empty(stem: Option<Seq<char>>) -> Seq<char> {
    match stem {
        Some(s) => s,
        None => Seq::empty(),
    }
}

/// The directory to put derived files in: the path's own, or `.` where it
/// has none.
pub open spec fn parent_or_current(parent: Option<Seq<char>>) -> Seq<char> {
    match parent {
        Some(p) => p,
        None => "."@,
    }
}

/// The stem of `path`, empty where it has none.
pub fn stem_of(path: &str) -> (s: String)
    ensures
        s@ == stem_or_empty(path_file_stem(path@)),
{
    match file_stem(path) {
        Some(s) => s,
        None => String::new(),
    }
}

/// The directory that must be there before a file can be written to a
/// path with the directory part `parent`: that part, unless it is missing
/// or empty.
pub open spec fn needed_directory(parent: Option<Seq<char>>) -> Option<Seq<char>> {
    match parent {
        Some(dir) => if dir.len() > 0 {
            Some(dir)
        } else {
            None
        },
        None => None,
    }
}

/// The directory that must be there before a file can be written to
/// `path`, if the path names one.
pub fn required_directory(path: &str) -> (r: Option<String>)
    ensures
        opt_view(r) == needed_directory(path_parent(path@)),
{
    match parent(path) {
        Some(dir) => {
            if dir.as_str().unicode_len() > 0 {
                Some(dir)
            } else {
                None
            }
        },
        None => None,
    }
}

/// The name of a derived PDF: stem, suffix, and the extension `.pdf`.
pub open spec fn derived_name(stem: Seq<char>, suffix: Seq<char>) -> Seq<char> {
    stem + suffix + ".pdf"@
}

/// Builds the name of a derived PDF from a stem and a suffix.
pub fn derived_file_name(stem: &str, suffix: &str) -> (name: String)
    ensures
        name@ == derived_name(stem@, suffix@),
{
    concat3(stem, suffix, ".pdf")
}

} // verus!
