//! File system paths as text, on Unix conventions.

use vstd::prelude::*;
use crate::text::{cat2, cat3, owned};

verus! {

/// A directory path joined with a file path, as `Path::join` does on Unix:
/// an absolute name, no directory or an empty one gives the name; a
/// separator is added unless the directory ends with one.
pub open spec fn joined_path(dir: Option<Seq<char>>, name: Seq<char>) -> Seq<char> {
    match dir {
        None => name,
        Some(d) => if d.len() == 0 || (name.len() > 0 && name[0] == '/') {
            name
        } else if d.last() == '/' {
            d + name
        } else {
            d + "/"@ + name
        },
    }
}

/// `dir` joined with `name`.
pub fn join_path(dir: &Option<String>, name: &str) -> (r: String)
    ensures
        r@ == joined_path(
            match dir {
                Some(d) => Some(d@),
                None => None,
            },
            name@,
        ),
{
    match dir {
        None => owned(name),
        Some(d) => {
            let n = d.as_str().unicode_len();
            if n == 0 || (name.unicode_len() > 0 && name.get_char(0) == '/') {
                owned(name)
            } else if d.as_str().get_char(n - 1) == '/' {
                cat2(d.as_str(), name)
            } else {
                proof {
                    reveal_strlit("/");
                }
                cat3(d.as_str(), "/", name)
            }
        },
    }
}

/// `dir` joined with `name`.
pub fn join(dir: &str, name: &str) -> (r: String)
    ensures
        r@ == joined_path(Some(dir@), name@),
{
    join_path(&Some(owned(dir)), name)
}

/// The named result of `Path::parent`, as text.
pub uninterp spec fn path_parent(p: Seq<char>) -> Option<Seq<char>>;

/// `Path::parent`; its result is `path_parent(p)`, which follows the
/// component rules of `Path` (not restated here): `None` for a root or an
/// empty path.
#[verifier::external_body]
pub(crate) fn parent_path(p: &str) -> (r: Option<String>)
    ensures
        match r {
            Some(s) => path_parent(p@) == Some(s@),
            None => path_parent(p@) is None,
        },
{
    std::path::Path::new(p).parent().map(|q| q.to_string_lossy().into_owned())
}

/// The named result of `Path::extension`, as text.
pub uninterp spec fn path_extension(p: Seq<char>) -> Option<Seq<char>>;

/// `Path::extension`; its result is `path_extension(p)`: the part of the
/// file name after its last `.`, by the rules of `Path` (not restated here).
#[verifier::external_body]
pub(crate) fn extension_of(p: &str) -> (r: Option<String>)
    ensures
        match r {
            Some(s) => path_extension(p@) == Some(s@),
            None => path_extension(p@) is None,
        },
{
    std::path::Path::new(p).extension().map(|e| e.to_string_lossy().into_owned())
}

/// The named result of `Path::file_name`, as text.
pub uninterp spec fn path_file_name(p: Seq<char>) -> Option<Seq<char>>;

/// `Path::file_name`; its result is `path_file_name(p)`: the last component
/// of the path, by the rules of `Path` (not restated here).
#[verifier::external_body]
pub(crate) fn file_name_of(p: &str) -> (r: Option<String>)
    ensures
        match r {
            Some(s) => path_file_name(p@) == Some(s@),
            None => path_file_name(p@) is None,
        },
{
    std::path::Path::new(p).file_name().map(|e| e.to_string_lossy().into_owned())
}

} // verus!
