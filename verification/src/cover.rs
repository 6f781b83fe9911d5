//! Which image a cover reference designates, as a URI that the image loaders understand.

use vstd::prelude::*;
use vstd::string::*;
use crate::paths::{has_no_prefix, is_joined, is_verbatim, may_be_absolute, path_is_absolute, path_join};
use crate::text::{has_prefix, starts_with, trim, trimmed};

verus! {

/// A relative cover path cannot be resolved without the current directory.
#[derive(Debug, Clone, Copy, PartialEq, Eq, Structural)]
pub enum CoverError {
    CurrentDirectoryUnavailable,
}

impl CoverError {
    pub fn message(&self) -> (s: String)
        ensures
            s@ == "répertoire courant inaccessible"@,
    {
        String::from_str("répertoire courant inaccessible")
    }
}

/// The reference is already a URI that the loaders read.
pub open spec fn is_uri(value: Seq<char>) -> bool {
    has_prefix(value, "http://"@) || has_prefix(value, "https://"@) || has_prefix(value, "file://"@)
}

/// What a non-blank cover path that is no URI gives, the platform reading it as absolute or
/// not: an absolute path is kept as a `file://` URI; a relative one is joined to the current
/// directory, and refused when that is unknown. The join is stated for a path that no
/// platform reads as rooted, under a directory without a verbatim prefix; a path that
/// starts with `/` replaces a directory without a prefix, so it is kept as it is.
pub open spec fn local_cover_result(
    path: Seq<char>,
    current_directory: Option<&str>,
    absolute: bool,
    r: Result<Option<String>, CoverError>,
) -> bool {
    &&& (!may_be_absolute(path) ==> !absolute)
    &&& (absolute ==> (r matches Ok(Some(u)) && u@ == "file://"@ + path))
    &&& (!absolute ==> match current_directory {
        None => r == Err::<Option<String>, CoverError>(CoverError::CurrentDirectoryUnavailable),
        Some(d) => r matches Ok(Some(u)) && has_prefix(u@, "file://"@) && (!is_verbatim(d@) && !may_be_absolute(path) ==> is_joined(
            u@.skip(7),
            d@,
            path,
        )) && (path.len() > 0 && path[0] == '/' && has_no_prefix(d@) ==> u@ == "file://"@ + path),
    })
}

/// What `cover_uri` answers for a cover reference and the current directory.
pub open spec fn cover_outcome(
    value: Seq<char>,
    current_directory: Option<&str>,
    r: Result<Option<String>, CoverError>,
) -> bool {
    &&& trimmed(value).len() == 0 ==> r == Ok::<Option<String>, CoverError>(None)
    &&& trimmed(value).len() > 0 && is_uri(trimmed(value)) ==> (r matches Ok(Some(u)) && u@ == trimmed(value))
    &&& trimmed(value).len() > 0 && !is_uri(trimmed(value)) ==> exists|absolute: bool|
        #[trigger] local_cover_result(trimmed(value), current_directory, absolute, r)
}

/// A cover path that starts with `/` is used as it is: whether or not the platform reads
/// it as absolute, and under any current directory that carries no prefix, its URI is
/// `file://` followed by the path itself, never by the directory.
pub proof fn lemma_rooted_cover_path_is_kept(
    value: Seq<char>,
    current_directory: Option<&str>,
    r: Result<Option<String>, CoverError>,
)
    requires
        cover_outcome(value, current_directory, r),
        trimmed(value).len() > 0,
        trimmed(value)[0] == '/',
        current_directory matches Some(d) && has_no_prefix(d@),
    ensures
        r matches Ok(Some(u)) && u@ == "file://"@ + trimmed(value),
{
    reveal_strlit("http://");
    reveal_strlit("https://");
    reveal_strlit("file://");
    let t = trimmed(value);
    assert(t.subrange(0, 1)[0] == '/');
    assert(!is_uri(t)) by {
        if has_prefix(t, "http://"@) {
            assert(t.subrange(0, 7)[0] == t[0]);
        }
        if has_prefix(t, "https://"@) {
            assert(t.subrange(0, 8)[0] == t[0]);
        }
        if has_prefix(t, "file://"@) {
            assert(t.subrange(0, 7)[0] == t[0]);
        }
    }
    let absolute = choose|absolute: bool| #[trigger] local_cover_result(t, current_directory, absolute, r);
    assert(local_cover_result(t, current_directory, absolute, r));
}

/// The URI of a cover reference: none for a blank one; a web or file URI as it is; a path
/// as a `file://` URI, relative paths being resolved against `current_directory`.
pub fn cover_uri(value: &str, current_directory: Option<&str>) -> (r: Result<Option<String>, CoverError>)
    ensures
        cover_outcome(value@, current_directory, r),
{
    let value = trim(value);
    if value.unicode_len() == 0 {
        return Ok(None);
    }
    if starts_with(value, "http://") || starts_with(value, "https://") || starts_with(value, "file://") {
        return Ok(Some(String::from_str(value)));
    }
    let is_absolute = path_is_absolute(value);
    let absolute = if is_absolute {
        String::from_str(value)
    } else {
        match current_directory {
            None => {
                let r = Err(CoverError::CurrentDirectoryUnavailable);
                assert(local_cover_result(value@, current_directory, false, r));
                return r;
            },
            Some(directory) => path_join(directory, value),
        }
    };
    let mut uri = String::from_str("file://");
    proof {
        reveal_strlit("file://");
    }
    let ghost scheme = uri@;
    uri.append(absolute.as_str());
    assert(uri@.subrange(0, scheme.len() as int) =~= scheme);
    assert(uri@.skip(7) =~= absolute@);
    assert(uri@ =~= "file://"@ + absolute@);
    proof {
        if is_absolute {
            assert(absolute@ == value@);
        } else {
            assert(current_directory is Some);
        }
    }
    let r = Ok(Some(uri));
    assert(local_cover_result(value@, current_directory, is_absolute, r));
    r
}

} // verus!
