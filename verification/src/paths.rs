//! Paths of the host's file system, held as text.

use std::path::Path;
use vstd::prelude::*;
use vstd::string::{StrSliceExecFns, StringExecFns};

verus! {

/// A base path with a further part joined to it, as paths are joined on
/// a Unix system: a part that begins at the root stands for itself;
/// otherwise the part follows the base, behind a `/` unless the base is
/// empty or ends with one.
pub open spec fn joined(base: Seq<char>, part: Seq<char>) -> Seq<char> {
    if part.len() > 0 && part[0] == '/' {
        part
    } else if base.len() == 0 || base.last() == '/' {
        base + part
    } else {
        base + seq!['/'] + part
    }
}

/// What `Path::file_name` finds as the last part of a path, as text; or
/// nothing, where the path ends in `..` or has no parts.
pub uninterp spec fn last_part(path: Seq<char>) -> Option<Seq<char>>;

/// Joins a further part to a base path.
pub fn join_path(base: &str, part: &str) -> (r: String)
    ensures
        r@ == joined(base@, part@),
{
    let part_len: usize = part.unicode_len();
    if part_len > 0 && part.get_char(0) == '/' {
        return part.to_owned();
    }
    let base_len: usize = base.unicode_len();
    if base_len == 0 || base.get_char(base_len - 1) == '/' {
        base.to_owned().concat(part)
    } else {
        proof {
            reveal_strlit("/");
        }
        let r = base.to_owned().concat("/").concat(part);
        assert(r@ =~= base@ + seq!['/'] + part@);
        r
    }
}

/// Calls `Path::file_name`. The path is text, so its last part is text as
/// well.
#[verifier::external_body]
pub(crate) fn file_name_of(path: &str) -> (r: Option<String>)
    ensures
        match last_part(path@) {
            Some(name) => r matches Some(n) && n@ == name,
            None => r is None,
        },
{
    Path::new(path).file_name().map(|n| n.to_string_lossy().into_owned())
}

} // verus!
