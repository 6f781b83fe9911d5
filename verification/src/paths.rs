//! The two path facts that the library needs from the platform.

use vstd::prelude::*;

verus! {

/// A text that some platform may read as an absolute path: it starts with `/` or `\`, or
/// holds a `:` (as a drive or a verbatim prefix does). Every other text is relative on
/// every platform.
pub open spec fn may_be_absolute(path: Seq<char>) -> bool {
    ||| (path.len() > 0 && (path[0] == '/' || path[0] == '\\'))
    ||| path.contains(':')
}

/// A base path with a Windows verbatim prefix, under which joining normalizes `.` and `..`.
pub open spec fn is_verbatim(base: Seq<char>) -> bool {
    crate::text::has_prefix(base, seq!['\\', '\\', '?', '\\'])
}

/// The path that joining a relative `name` to a base gives: the two texts, with a
/// separator between them unless none is needed.
pub open spec fn is_joined(r: Seq<char>, base: Seq<char>, name: Seq<char>) -> bool {
    ||| r == base + name
    ||| r == base.push('/') + name
    ||| r == base.push('\\') + name
}

/// Wraps `std::path::Path::is_absolute`.
/// Which texts are absolute depends on the target platform (on Unix, exactly those that
/// start with `/`); the contract states what holds on every platform: an absolute path
/// starts with a separator or carries a prefix, and every prefix holds `:` or starts with `\`.
#[verifier::external_body]
pub(crate) fn path_is_absolute(path: &str) -> (r: bool)
    ensures
        r ==> may_be_absolute(path@),
{
    std::path::Path::new(path).is_absolute()
}

/// A base that no platform reads as carrying a prefix: it neither holds `:` as its second
/// character (a drive, as in `C:`) nor starts with two separators (a UNC, device or
/// verbatim prefix, as in `\\server\share` or `\\?\`).
pub open spec fn has_no_prefix(base: Seq<char>) -> bool {
    &&& !(base.len() >= 2 && base[1] == ':')
    &&& !(base.len() >= 2 && (base[0] == '/' || base[0] == '\\') && (base[1] == '/' || base[1] == '\\'))
}

/// Wraps `std::path::Path::join` followed by `display`.
/// The contract states what the documentation of `PathBuf::push` promises on every
/// platform for a name that no platform reads as absolute or rooted, joined to a base
/// without a verbatim prefix: the base, a separator where one is needed, then the name.
/// A name that starts with `/` replaces a base without a prefix, on every platform: on
/// Unix it is absolute, and on Windows it has a root, which replaces everything but the
/// base's prefix. For other names the platform decides whether they replace `base`, and
/// under a verbatim base the result is normalized; nothing is stated there.
#[verifier::external_body]
pub(crate) fn path_join(base: &str, name: &str) -> (r: String)
    ensures
        !may_be_absolute(name@) && !is_verbatim(base@) ==> is_joined(r@, base@, name@),
        name@.len() > 0 && name@[0] == '/' && has_no_prefix(base@) ==> r@ == name@,
{
    std::path::Path::new(base).join(name).display().to_string()
}

} // verus!
