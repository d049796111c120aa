//! Reading the database location out of its URL.

use vstd::prelude::*;
use crate::text::str_eq;
use crate::laws::law_sqlite_file_path_is_the_rest;

verus! {

/// The file path that a `sqlite://` URL names: what follows the scheme.
/// Other URLs (such as `sqlite::memory:`) name no file.
pub open spec fn spec_sqlite_file_path(url: Seq<char>) -> Option<Seq<char>> {
    let scheme = "sqlite://"@;
    if scheme.len() <= url.len() && url.subrange(0, scheme.len() as int) == scheme {
        Some(url.subrange(scheme.len() as int, url.len() as int))
    } else {
        None
    }
}

/// Returns the file path of a `sqlite://` database URL, or `None` when the
/// URL does not start with `sqlite://`; the caller makes sure the file's
/// directory exists before connecting.
pub fn sqlite_file_path(url: &str) -> (r: Option<String>)
    ensures
        match r {
            Some(p) => spec_sqlite_file_path(url@) == Some(p@),
            None => spec_sqlite_file_path(url@) is None,
        },
        r matches Some(p) ==> url@ == "sqlite://"@ + p@,
        r is None ==> forall|p: Seq<char>| url@ != "sqlite://"@ + p,
{
    let scheme = "sqlite://";
    let n = url.unicode_len();
    let k = scheme.unicode_len();
    proof {
        law_sqlite_file_path_is_the_rest(url@, Seq::empty());
    }
    if k > n {
        return None;
    }
    let head = url.substring_char(0, k);
    if str_eq(head, scheme) {
        let rest = String::from_str(url.substring_char(k, n));
        proof {
            law_sqlite_file_path_is_the_rest(url@, rest@);
        }
        Some(rest)
    } else {
        None
    }
}

} // verus!
