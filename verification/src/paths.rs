//! Paths of the file system, as far as the library computes with them.
//!
//! A path is carried as it is. What separates its parts is the platform's matter, so the
//! contracts speak of paths that every platform reads alike: with `/` between the parts.

use std::path::{Path, PathBuf};

use vstd::prelude::*;

use crate::text::{text_model, trim, trimmed};

verus! {

/// A path of the file system, carried as it is.
#[verifier::external_type_specification]
#[verifier::external_body]
pub struct ExPathBuf(std::path::PathBuf);

/// `PathBuf::clone` gives an equal path.
pub assume_specification[ <PathBuf as Clone>::clone ](path: &PathBuf) -> (copy: PathBuf)
    ensures
        copy == *path,
;

/// The path that a text stands for.
pub uninterp spec fn path_of(text: Seq<char>) -> PathBuf;

/// Calls `PathBuf::from` on a text, which takes the text as the path without changing it.
#[verifier::external_body]
pub(crate) fn path_from(text: &str) -> (path: PathBuf)
    ensures
        path == path_of(text@),
{
    PathBuf::from(text)
}

/// Whether every platform reads `path` alike: no other separator than `/`, no drive in front, and
/// no server name.
pub open spec fn is_plain(path: Seq<char>) -> bool {
    &&& !path.contains('\\')
    &&& !(path.len() >= 2 && path[1] == ':')
    &&& !(path.len() >= 2 && path[0] == '/' && path[1] == '/')
}

/// Where the last part of `path` begins.
pub open spec fn last_part_start(path: Seq<char>) -> int
    decreases path.len(),
{
    if path.len() == 0 || path.last() == '/' {
        path.len() as int
    } else {
        last_part_start(path.drop_last())
    }
}

/// Whether a part of a path names something: it is not empty, and neither `.` nor `..`.
pub open spec fn is_name(part: Seq<char>) -> bool {
    &&& part.len() > 0
    &&& !part.contains('/')
    &&& part != seq!['.']
    &&& part != seq!['.', '.']
}

/// The name that a path ends in, if it ends in one. Separators at the end count for nothing, nor
/// does a `.` behind a separator.
pub open spec fn final_name(path: Seq<char>) -> Option<Seq<char>>
    decreases path.len(),
{
    let start = last_part_start(path);
    let part = path.skip(start);
    if is_name(part) {
        Some(part)
    } else if 0 < start <= path.len() && part != seq!['.', '.'] {
        final_name(path.take(start - 1))
    } else {
        None
    }
}

/// Calls `Path::file_name`, and hands its answer on as text where it is text: the final name of
/// the path. Of a path that platforms read differently nothing is said.
#[verifier::external_body]
fn file_name(path: &str) -> (name: Option<String>)
    ensures
        is_plain(path@) ==> match final_name(path@) {
            Some(text) => name matches Some(found) && found@ == text,
            None => name is None,
        },
{
    Path::new(path).file_name().and_then(|name| name.to_str()).map(|name| name.to_owned())
}

/// The path of `name` within `dir`.
pub open spec fn in_dir(dir: Seq<char>, name: Seq<char>) -> Seq<char> {
    dir + seq!['/'] + name
}

/// Whether a directory is what is left, as it is, of a path within it without its final name: it
/// ends in a name or in `..`, or it is the `.` that the path begins with.
pub open spec fn stays_as_parent(dir: Seq<char>) -> bool {
    let part = dir.skip(last_part_start(dir));
    is_name(part) || part == seq!['.', '.'] || dir == seq!['.']
}

/// Whether `parent` may be what is left of `path` without its final name. Of a path that platforms
/// read differently, or in which an empty part or a `.` within the path stands before the final
/// name, nothing is said.
pub open spec fn is_parent(path: Seq<char>, parent: Option<Seq<char>>) -> bool {
    &&& path.len() == 0 ==> parent is None
    &&& is_plain(path) && is_name(path) ==> parent == Some(Seq::<char>::empty())
    &&& is_plain(path) && path.len() > 0 && path[0] == '/' && is_name(path.skip(1)) ==> parent
        == Some(seq!['/'])
    &&& forall|dir: Seq<char>, name: Seq<char>|
        is_plain(path) && path == #[trigger] in_dir(dir, name) && is_name(name) && stays_as_parent(
            dir,
        ) ==> parent == Some(dir)
}

/// Calls `Path::parent`, and gives the answer as text (`Path::to_string_lossy`): the path without
/// its final name, as far as `is_parent` says it.
#[verifier::external_body]
pub(crate) fn parent_dir(path: &str) -> (parent: Option<String>)
    ensures
        is_parent(path@, text_model(parent)),
{
    Path::new(path).parent().map(|dir| dir.to_string_lossy().into_owned())
}

/// `name`, unless it is blank: then `fallback`.
pub open spec fn name_or(name: Option<Seq<char>>, fallback: Seq<char>) -> Seq<char> {
    match name {
        Some(text) => if trimmed(text).len() == 0 {
            fallback
        } else {
            text
        },
        None => fallback,
    }
}

/// Takes `name`, unless there is none or it is blank: then `fallback`.
pub fn dir_name_or(name: Option<String>, fallback: &str) -> (chosen: String)
    ensures
        chosen@ == name_or(text_model(name), fallback@),
{
    match name {
        Some(text) => {
            if trim(text.as_str()).as_str().is_empty() {
                fallback.to_owned()
            } else {
                text
            }
        },
        None => fallback.to_owned(),
    }
}

/// The name of the directory at `path`, or `fallback` where the path ends in no name.
pub fn resolve_dir_name(path: &str, fallback: &str) -> (name: String)
    ensures
        is_plain(path@) ==> name@ == name_or(final_name(path@), fallback@),
{
    dir_name_or(file_name(path), fallback)
}

} // verus!
