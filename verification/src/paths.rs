use vstd::prelude::*;
use vstd::string::{StrSliceExecFns, StringExecFns};
use std::path::Path;
use crate::error::{Error, ErrorView};
use crate::strings::option_view;

verus! {

/// What `std::path::Path::join` gives for a base path and a path to adjoin.
pub uninterp spec fn joined_path(base: Seq<char>, rel: Seq<char>) -> Seq<char>;

/// What `std::path::Path::file_name` gives for a path.
pub uninterp spec fn file_name_of(path: Seq<char>) -> Option<Seq<char>>;

/// The place of the last `.` of a file name, if it has one.
pub open spec fn last_dot(name: Seq<char>) -> Option<int>
    decreases name.len(),
{
    if name.len() == 0 {
        None
    } else if name.last() == '.' {
        Some(name.len() - 1)
    } else {
        last_dot(name.drop_last())
    }
}

/// The extension of a file name: what follows its last `.`, unless it has
/// none or its only `.` is its first character.
pub open spec fn extension_in(name: Seq<char>) -> Option<Seq<char>> {
    match last_dot(name) {
        Some(dot) => if dot == 0 {
            None
        } else {
            Some(name.subrange(dot + 1, name.len() as int))
        },
        None => None,
    }
}

/// The stem of a file name: what precedes its last `.`, or all of it where
/// it has no `.` or its only `.` is its first character.
pub open spec fn stem_in(name: Seq<char>) -> Seq<char> {
    match last_dot(name) {
        Some(dot) => if dot == 0 {
            name
        } else {
            name.subrange(0, dot)
        },
        None => name,
    }
}

/// The stem of a path's file name, if the path has a file name.
pub open spec fn file_stem_of(path: Seq<char>) -> Option<Seq<char>> {
    match file_name_of(path) {
        Some(name) => Some(stem_in(name)),
        None => None,
    }
}

/// The extension of a path's file name, if the path has a file name and the
/// file name an extension.
pub open spec fn extension_of(path: Seq<char>) -> Option<Seq<char>> {
    match file_name_of(path) {
        Some(name) => extension_in(name),
        None => None,
    }
}

/// What `pathdiff::diff_paths` gives for a path and the base to take it
/// relative to.
pub uninterp spec fn diff_of(path: Seq<char>, base: Seq<char>) -> Option<Seq<char>>;

/// `std::path::Path::join`: the result is a function of the two paths alone,
/// known here only by its name [`joined_path`].
#[verifier::external_body]
pub(crate) fn join(base: &str, rel: &str) -> (joined: String)
    ensures
        joined@ == joined_path(base@, rel@),
{
    Path::new(base).join(rel).to_string_lossy().into_owned()
}

/// `std::path::Path::file_name`: the last component of the path, if it has
/// one; a function of the path alone, known here by its name [`file_name_of`].
#[verifier::external_body]
pub(crate) fn file_name(path: &str) -> (name: Option<String>)
    ensures
        option_view(name) == file_name_of(path@),
{
    Path::new(path).file_name().map(|name| name.to_string_lossy().into_owned())
}

/// `std::path::Path::file_stem`: nothing for a path without a file name;
/// else the part of the file name before its last `.`, or the whole file name
/// where it holds no `.` or begins with its only `.`.
#[verifier::external_body]
pub(crate) fn file_stem(path: &str) -> (stem: Option<String>)
    ensures
        option_view(stem) == file_stem_of(path@),
{
    Path::new(path).file_stem().map(|stem| stem.to_string_lossy().into_owned())
}

/// `std::path::Path::extension`: nothing for a path without a file name, for
/// a file name that holds no `.` and for one that begins with its only `.`;
/// else the part of the file name after its last `.`.
#[verifier::external_body]
pub(crate) fn extension(path: &str) -> (ext: Option<String>)
    ensures
        option_view(ext) == extension_of(path@),
{
    Path::new(path).extension().map(|ext| ext.to_string_lossy().into_owned())
}

/// `pathdiff::diff_paths`: the relative path that leads from `base` to
/// `path`, or nothing where the crate finds none; a function of the two paths
/// alone, known here by its name [`diff_of`].
#[verifier::external_body]
pub(crate) fn diff_paths(path: &str, base: &str) -> (rel: Option<String>)
    ensures
        option_view(rel) == diff_of(path@, base@),
{
    pathdiff::diff_paths(path, base).map(|rel| rel.to_string_lossy().into_owned())
}

/// Whether the two characters at `i` form a component `..` of `rel`, with
/// `/` as the separator.
pub open spec fn parent_at(rel: Seq<char>, i: int) -> bool {
    &&& 0 <= i && i + 2 <= rel.len()
    &&& rel[i] == '.' && rel[i + 1] == '.'
    &&& (i == 0 || rel[i - 1] == '/')
    &&& (i + 2 == rel.len() || rel[i + 2] == '/')
}

/// Whether a relative path leaves the directory it starts from: it is
/// absolute, or one of its components is `..`.
pub open spec fn leaves_root(rel: Seq<char>) -> bool {
    (rel.len() > 0 && rel[0] == '/') || exists|i: int| parent_at(rel, i)
}

/// The suffix that leads from `root` to `path`, where `path` lies below
/// `root` (or is `root` itself, with an empty suffix).
pub open spec fn relative_path(root: Seq<char>, path: Seq<char>) -> Option<Seq<char>> {
    match diff_of(path, root) {
        Some(rel) => if leaves_root(rel) {
            None
        } else {
            Some(rel)
        },
        None => None,
    }
}

/// Whether `path` lies below `root` (or is `root` itself).
pub open spec fn lies_below(root: Seq<char>, path: Seq<char>) -> bool {
    relative_path(root, path).is_some()
}

/// Decides [`leaves_root`] by one pass over the characters.
pub fn climbs(rel: &str) -> (out: bool)
    ensures
        out == leaves_root(rel@),
{
    let n: usize = rel.unicode_len();
    if n > 0 && rel.get_char(0) == '/' {
        return true;
    }
    if n < 2 {
        return false;
    }
    let mut i: usize = 0;
    while i < n - 1
        invariant
            n == rel@.len(),
            n >= 2,
            i <= n - 1,
            forall|k: int| 0 <= k < i ==> !parent_at(rel@, k),
        decreases n - i,
    {
        if rel.get_char(i) == '.' && rel.get_char(i + 1) == '.' {
            let starts: bool = i == 0 || rel.get_char(i - 1) == '/';
            let ends: bool = i + 2 == n || rel.get_char(i + 2) == '/';
            if starts && ends {
                assert(parent_at(rel@, i as int));
                return true;
            }
        }
        i = i + 1;
    }
    assert forall|k: int| !parent_at(rel@, k) by {
        if parent_at(rel@, k) {
            assert(k < i);
        }
    }
    false
}

/// The path differ: for a `path` below `root`, the suffix that leads from
/// `root` to it. A path that is not below `root` gives `NotADescendant` with
/// that path.
pub fn differ(root: &str, path: &str) -> (suffix: Result<String, Error>)
    ensures
        match relative_path(root@, path@) {
            Some(rel) => suffix matches Ok(s) && s@ == rel,
            None => suffix matches Err(e) && e@ == ErrorView::NotADescendant(path@),
        },
{
    match diff_paths(path, root) {
        Some(rel) => {
            if climbs(rel.as_str()) {
                Err(Error::NotADescendant(String::from_str(path)))
            } else {
                Ok(rel)
            }
        },
        None => Err(Error::NotADescendant(String::from_str(path))),
    }
}

} // verus!
