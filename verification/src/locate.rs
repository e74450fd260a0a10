//! Resolving the path of the source file to read.
//!
//! A path that is written relative is taken relative to the directory of the file that asks
//! for the extraction. Paths are taken apart and joined by `std::path`, under the rules of the
//! platform that the crate is built for.

use crate::model::{PathToken, ResolvedPath};
use vstd::prelude::*;

verus! {

/// Whether `std::path::Path::is_relative` holds of a path.
pub uninterp spec fn path_is_relative(path: Seq<char>) -> bool;

/// What `std::path::Path::parent` gives for a path: the path without its last component,
/// `None` where there is none to take away.
pub uninterp spec fn path_parent(path: Seq<char>) -> Option<Seq<char>>;

/// What `std::path::Path::join` gives for a directory and a path to adjoin to it.
pub uninterp spec fn path_join(dir: Seq<char>, path: Seq<char>) -> Seq<char>;

/// Asks `std::path::Path::is_relative` whether a path is relative.
#[verifier::external_body]
fn is_relative(path: &str) -> (relative: bool)
    ensures
        relative == path_is_relative(path@),
{
    std::path::Path::new(path).is_relative()
}

/// Takes the directory of a path with `std::path::Path::parent`.
#[verifier::external_body]
fn parent(path: &str) -> (dir: Option<String>)
    ensures
        dir.deep_view() == path_parent(path@),
{
    std::path::Path::new(path).parent().map(|dir| dir.to_string_lossy().into_owned())
}

/// Adjoins a path to a directory with `std::path::Path::join`.
#[verifier::external_body]
fn join(dir: &str, path: &str) -> (joined: String)
    ensures
        joined@ == path_join(dir@, path@),
{
    std::path::Path::new(dir).join(path).to_string_lossy().into_owned()
}

/// The directory that a path is resolved against: the directory of the invoking file where
/// the path is relative and that directory is known, none otherwise.
pub open spec fn base_directory_of(relative: bool, invoking_dir: Option<Seq<char>>) -> Option<
    Seq<char>,
> {
    if relative {
        invoking_dir
    } else {
        None
    }
}

/// The path that a token resolves to, seen from the invoking file.
///
/// An absolute path stays as it is. A relative one is adjoined to the directory of the
/// invoking file; where that file or its directory is not known, the path stays as it is.
pub open spec fn resolved_path(path: Seq<char>, invoking_file: Option<Seq<char>>) -> Seq<char> {
    let invoking_dir = match invoking_file {
        Some(file) => path_parent(file),
        None => None,
    };
    match base_directory_of(path_is_relative(path), invoking_dir) {
        Some(dir) => path_join(dir, path),
        None => path,
    }
}

/// Decides which directory a path is resolved against, given whether the path is relative
/// and the directory of the invoking file, if that is known.
pub fn base_directory(relative: bool, invoking_dir: Option<String>) -> (dir: Option<String>)
    ensures
        dir == (if relative {
            invoking_dir
        } else {
            None
        }),
        dir.deep_view() == base_directory_of(relative, invoking_dir.deep_view()),
{
    if relative {
        invoking_dir
    } else {
        None
    }
}

/// Resolves the path of a token, seen from the file that asks for the extraction.
///
/// `invoking_file` is the path of that file, `None` where it is not known.
pub fn resolve_path(file_name: &PathToken, invoking_file: Option<&str>) -> (resolved: ResolvedPath)
    ensures
        resolved@ == resolved_path(file_name@.value, invoking_file.deep_view()),
{
    let invoking_dir = match invoking_file {
        Some(file) => parent(file),
        None => None,
    };
    match base_directory(is_relative(file_name.value.as_str()), invoking_dir) {
        Some(dir) => ResolvedPath { path: join(dir.as_str(), file_name.value.as_str()) },
        None => ResolvedPath { path: file_name.value.clone() },
    }
}

} // verus!
