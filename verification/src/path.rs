//! Resolving a path that the user typed against the current directory.
//!
//! Paths are texts with `/` between their components. A path that starts
//! with `/` is absolute and stands for itself; any other path is taken
//! relative to the current directory.

use vstd::prelude::*;
use vstd::string::*;

verus! {

/// Whether `path` starts at the root of the file system.
pub open spec fn is_absolute(path: Seq<char>) -> bool {
    path.len() > 0 && path[0] == '/'
}

/// Whether a separator has to be written after `base` before a relative
/// path can follow.
pub open spec fn needs_separator(base: Seq<char>) -> bool {
    base.len() > 0 && base.last() != '/'
}

/// The path that `path` stands for when the current directory is
/// `current`: `path` itself if it is absolute, else `current` followed by
/// `path`, with one `/` between the two unless `current` is empty or
/// already ends with one.
pub open spec fn resolved(current: Seq<char>, path: Seq<char>) -> Seq<char> {
    if is_absolute(path) {
        path
    } else if needs_separator(current) {
        current + seq!['/'] + path
    } else {
        current + path
    }
}

/// Whether `path` is absolute.
pub fn starts_at_root(path: &str) -> (absolute: bool)
    ensures
        absolute == is_absolute(path@),
{
    path.unicode_len() > 0 && path.get_char(0) == '/'
}

/// Resolves `path` against the directory `current`.
pub fn resolve(current: &str, path: &str) -> (target: String)
    ensures
        target@ == resolved(current@, path@),
{
    if starts_at_root(path) {
        return String::from_str(path);
    }
    let mut target = String::from_str(current);
    let length = current.unicode_len();
    if length > 0 && current.get_char(length - 1) != '/' {
        proof {
            reveal_strlit("/");
            assert("/"@ == seq!['/']);
        }
        target.append("/");
    }
    target.append(path);
    target
}

/// A relative path resolves to a path below the current directory, and an
/// absolute one to itself: the result is absolute as soon as the current
/// directory or the path is.
pub proof fn law_resolved_is_absolute(current: Seq<char>, path: Seq<char>)
    requires
        is_absolute(current) || is_absolute(path),
    ensures
        is_absolute(resolved(current, path)),
{
}

/// The resolved path always ends with the path that was given.
pub proof fn law_resolved_ends_with_path(current: Seq<char>, path: Seq<char>)
    ensures
        path.is_suffix_of(resolved(current, path)),
{
    let whole = resolved(current, path);
    assert(whole.skip(whole.len() - path.len()) == path);
}

} // verus!
