//! Path arithmetic on strings.

use crate::device::text_of;
use vstd::prelude::*;
use vstd::string::*;

verus! {

/// `part` adjoined to `base`: an absolute `part` replaces `base`; otherwise
/// the two are joined, with a `/` between them unless `base` is empty or
/// already ends in one.
pub open spec fn join_spec(base: Seq<char>, part: Seq<char>) -> Seq<char> {
    if part.len() > 0 && part[0] == '/' {
        part
    } else if base.len() == 0 || base.last() == '/' {
        base + part
    } else {
        base + "/"@ + part
    }
}

/// Adjoins `part` to `base`.
pub fn join(base: &str, part: &str) -> (path: String)
    ensures
        path@ == join_spec(base@, part@),
{
    proof {
        reveal_strlit("/");
    }
    let part_len = part.unicode_len();
    if part_len > 0 && part.get_char(0) == '/' {
        return String::from_str(part);
    }
    let base_len = base.unicode_len();
    let mut path = String::from_str(base);
    if base_len > 0 && base.get_char(base_len - 1) != '/' {
        path.append("/");
    }
    path.append(part);
    path
}

/// The final component of a path, as the standard library's
/// `Path::file_name` determines it; nothing where the path has none.
pub uninterp spec fn path_file_name(path: Seq<char>) -> Option<Seq<char>>;

/// The path without its final component, as the standard library's
/// `Path::parent` determines it; nothing where the path ends in a root or
/// is empty.
pub uninterp spec fn path_parent(path: Seq<char>) -> Option<Seq<char>>;

/// Calls `std::path::Path::file_name`. Trusted: the result is the final
/// component that the standard library finds in `path`, which depends on
/// the text of the path alone.
#[verifier::external_body]
pub(crate) fn file_name(path: &str) -> (name: Option<String>)
    ensures
        text_of(name) == path_file_name(path@),
{
    let name = std::path::Path::new(path).file_name()?;
    Some(name.to_string_lossy().into_owned())
}

/// Calls `std::path::Path::parent`. Trusted: the result is the parent that
/// the standard library finds for `path`, which depends on the text of the
/// path alone.
#[verifier::external_body]
pub(crate) fn parent(path: &str) -> (up: Option<String>)
    ensures
        text_of(up) == path_parent(path@),
{
    let up = std::path::Path::new(path).parent()?;
    Some(up.to_string_lossy().into_owned())
}

} // verus!
