//! What is read of a path: the extension of its file name, and whether it is
//! the same as another.
//!
//! Which characters part the names of a path is a matter of the platform. What
//! is said here holds on each.

use vstd::prelude::*;

use crate::text::{ascii_lower, optional_text, stands_at};

verus! {

/// Whether a character is a slash or a backslash.
pub open spec fn is_slash(c: char) -> bool {
    c == '/' || c == '\\'
}

/// Whether a character parts the names of a path on some platform.
pub open spec fn parts_names(c: char) -> bool {
    is_slash(c) || c == ':'
}

/// Whether the characters of a path between two places are a name.
pub open spec fn is_name(path: Seq<char>, from: int, to: int) -> bool {
    from < to && forall|i: int| from <= i < to ==> !parts_names(#[trigger] path[i])
}

/// Whether a path begins in a way that has a meaning of its own on some
/// platforms, such as the name of a server.
pub open spec fn has_special_start(path: Seq<char>) -> bool {
    path.len() > 1 && parts_names(path[0]) && parts_names(path[1])
}

/// Whether the names of a server and of a share stand in a path from a place on,
/// up to a place before the dot.
pub open spec fn holds_share(
    path: Seq<char>,
    from: int,
    server_end: int,
    share_end: int,
    dot: int,
) -> bool {
    &&& is_name(path, from, server_end)
    &&& is_name(path, server_end + 1, share_end)
    &&& share_end < dot
}

/// Whether a path begins with two slashes or backslashes, a server and a share,
/// all before the dot.
pub open spec fn starts_with_share(path: Seq<char>, dot: int) -> bool {
    &&& is_slash(path[0])
    &&& is_slash(path[1])
    &&& path[2] != '?'
    &&& path[2] != '.'
    &&& exists|server_end: int, share_end: int| #[trigger]
        holds_share(path, 2, server_end, share_end, dot) && is_slash(path[server_end])
            && is_slash(path[share_end])
}

/// Whether a path begins with `\\?\UNC\`, a server and a share, all before the
/// dot.
pub open spec fn starts_with_verbatim_share(path: Seq<char>, dot: int) -> bool {
    &&& seq!['\\', '\\', '?', '\\', 'U', 'N', 'C', '\\'].is_prefix_of(path)
    &&& exists|server_end: int, share_end: int| #[trigger]
        holds_share(path, 8, server_end, share_end, dot) && path[server_end] == '\\'
            && path[share_end] == '\\'
}

/// Whether a path begins with `\\?\`, a drive and a backslash, all before the
/// dot.
pub open spec fn starts_with_verbatim_drive(path: Seq<char>, dot: int) -> bool {
    &&& seq!['\\', '\\', '?', '\\'].is_prefix_of(path)
    &&& dot > 6
    &&& !parts_names(path[4])
    &&& path[5] == ':'
    &&& path[6] == '\\'
}

/// Whether a dot stands behind everything that a path can begin with in a
/// special way.
pub open spec fn is_past_start(path: Seq<char>, dot: int) -> bool {
    ||| !has_special_start(path)
    ||| starts_with_share(path, dot)
    ||| starts_with_verbatim_share(path, dot)
    ||| starts_with_verbatim_drive(path, dot)
}

/// A path without the slashes at its end.
pub open spec fn without_end_slashes(path: Seq<char>) -> Seq<char>
    decreases path.len(),
{
    if path.len() > 0 && path.last() == '/' {
        without_end_slashes(path.drop_last())
    } else {
        path
    }
}

/// A path without the slashes at its end, where they have no meaning of their
/// own.
pub open spec fn bare(path: Seq<char>) -> Seq<char> {
    if has_special_start(path) {
        path
    } else {
        without_end_slashes(path)
    }
}

/// Whether a path ends in some name, a dot and an extension.
pub open spec fn has_end(path: Seq<char>, extension: Seq<char>) -> bool {
    let dot = path.len() - extension.len() - 1;
    &&& dot > 0
    &&& path[dot] == '.'
    &&& path.subrange(dot + 1, path.len() as int) == extension
    &&& !parts_names(path[dot - 1])
    &&& path[dot - 1] == '.' ==> extension.len() > 0
    &&& is_past_start(path, dot)
    &&& forall|i: int|
        0 <= i < extension.len() ==> extension[i] != '.' && !parts_names(#[trigger] extension[i])
}

/// Whether the last name of a path ends in a dot and an extension on each
/// platform.
pub open spec fn ends_in(path: Seq<char>, extension: Seq<char>) -> bool {
    has_end(bare(path), extension)
}

/// Whether the last name of a path begins at a place and has no dot, or none but
/// at its beginning.
pub open spec fn is_undotted_from(path: Seq<char>, start: int) -> bool {
    &&& 0 <= start
    &&& is_name(path, start, path.len() as int)
    &&& start == 0 || path[start - 1] == '/'
    &&& path[start] == '.' ==> start + 1 < path.len()
    &&& forall|i: int| start < i < path.len() ==> #[trigger] path[i] != '.'
}

/// Whether the last name of a path has no extension on each platform.
pub open spec fn ends_undotted(path: Seq<char>) -> bool {
    !path.contains('.') || (!has_special_start(path) && exists|start: int| #[trigger]
        is_undotted_from(bare(path), start))
}

/// Whether a dot and an extension end at a place in a path, behind which there
/// are only slashes, backslashes and dots.
pub open spec fn stands_last(path: Seq<char>, extension: Seq<char>, end: int) -> bool {
    &&& stands_at(path, seq!['.'] + extension, end - extension.len() - 1)
    &&& forall|i: int|
        end <= i < path.len() ==> is_slash(#[trigger] path[i]) || path[i] == '.'
}

/// Whether a path can have an extension: one that it ends in on each platform,
/// none where it has none on each, and elsewhere one that holds no dot, follows
/// one, and stands last in the path.
pub open spec fn is_extension(path: Seq<char>, extension: Option<Seq<char>>) -> bool {
    &&& forall|plain: Seq<char>| #[trigger] ends_in(path, plain) ==> extension == Some(plain)
    &&& ends_undotted(path) ==> extension is None
    &&& extension matches Some(extension) ==> !extension.contains('.') && exists|end: int|
        #[trigger] stands_last(path, extension, end)
}

/// Calls `std::path::Path::extension`. The contract says that an extension is
/// what follows the last dot of the last name in a path, unless the name has no
/// other character before that dot. It depends on the platform whether a
/// backslash or a colon parts names, and so which name is the last one. Where
/// that decides, no more is said than that an extension stands last in the path.
#[verifier::external_body]
pub(crate) fn path_extension(path: &str) -> (extension: Option<String>)
    ensures
        is_extension(path@, optional_text(extension)),
{
    std::path::Path::new(path)
        .extension()
        .map(|extension| extension.to_string_lossy().into_owned())
}

/// A name, unless it is empty or a single dot.
pub open spec fn kept_name(name: Seq<char>) -> Seq<Seq<char>> {
    if name.len() == 0 || name == seq!['.'] {
        Seq::empty()
    } else {
        seq![name]
    }
}

/// The names between the slashes and backslashes of a path, the first of which
/// began with `start`, without empty ones and single dots.
pub open spec fn names_from(start: Seq<char>, path: Seq<char>) -> Seq<Seq<char>>
    decreases path.len(),
{
    if path.len() == 0 {
        kept_name(start)
    } else if is_slash(path[0]) {
        kept_name(start) + names_from(Seq::empty(), path.drop_first())
    } else {
        names_from(start.push(path[0]), path.drop_first())
    }
}

/// The names between the slashes and backslashes of a path, without empty ones
/// and single dots.
pub open spec fn exact_names(path: Seq<char>) -> Seq<Seq<char>> {
    names_from(Seq::empty(), path)
}

/// A path with a small letter for each drive: each character directly before a
/// colon.
pub open spec fn with_small_drives(path: Seq<char>) -> Seq<char> {
    Seq::new(
        path.len(),
        |i: int|
            if i + 1 < path.len() && path[i + 1] == ':' {
                ascii_lower(path[i])
            } else {
                path[i]
            },
    )
}

/// The names of a path, in which the case of a drive's letter makes no
/// difference.
pub open spec fn names_of(path: Seq<char>) -> Seq<Seq<char>> {
    exact_names(with_small_drives(path))
}

/// Whether a path begins with a slash or a backslash.
pub open spec fn starts_with_slash(path: Seq<char>) -> bool {
    path.len() > 0 && is_slash(path[0])
}

/// Whether the first name of a path is a single dot.
pub open spec fn starts_with_dot(path: Seq<char>) -> bool {
    path.len() > 0 && path[0] == '.' && (path.len() == 1 || is_slash(path[1]))
}

/// Whether two paths are both empty, both begin at the root, or both begin with
/// a single dot, if one of them does.
pub open spec fn begin_alike(a: Seq<char>, b: Seq<char>) -> bool {
    &&& (a.len() == 0) == (b.len() == 0)
    &&& starts_with_slash(a) == starts_with_slash(b)
    &&& starts_with_dot(a) == starts_with_dot(b)
}

/// Whether a path is made of names and slashes on each platform.
pub open spec fn is_plain_path(path: Seq<char>) -> bool {
    !has_special_start(path) && !path.contains('\\')
}

/// Whether two paths are the same on each platform: equal ones, and plain ones
/// that begin alike and have the same names. A path that may be nothing but a
/// drive is left out.
pub open spec fn are_surely_same(a: Seq<char>, b: Seq<char>) -> bool {
    ||| a == b
    ||| {
        &&& is_plain_path(a)
        &&& is_plain_path(b)
        &&& begin_alike(a, b)
        &&& exact_names(a) == exact_names(b)
        &&& exact_names(a).len() > 1 || (!a.contains(':') && !b.contains(':'))
    }
}

/// Whether two paths are the same on some platform: they begin alike, and their
/// names differ at most in the case of a drive's letter.
pub open spec fn may_be_same(a: Seq<char>, b: Seq<char>) -> bool {
    begin_alike(a, b) && names_of(a) == names_of(b)
}

/// Whether two paths can be called the same, or not: they are where they are on
/// each platform, and they are not where they are on none.
pub open spec fn can_be_called(a: Seq<char>, b: Seq<char>, same: bool) -> bool {
    &&& are_surely_same(a, b) ==> same
    &&& same ==> may_be_same(a, b)
}

/// Compares two paths with `std::path::Path`'s `==`. The contract says that
/// equal paths are the same; that repeated slashes, slashes at the end and
/// single dots behind the first name make no difference in plain paths; and that
/// paths are not the same that begin differently, or whose names differ in more
/// than the case of a drive's letter. Whether a backslash parts names and
/// whether there are drives depends on the platform and is left unsaid.
#[verifier::external_body]
pub(crate) fn same_path(a: &str, b: &str) -> (same: bool)
    ensures
        can_be_called(a@, b@, same),
{
    std::path::Path::new(a) == std::path::Path::new(b)
}

} // verus!
