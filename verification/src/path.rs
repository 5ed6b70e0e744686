//! Path-scheme recognition: a remote-style URL scheme selects the remote or
//! replicated backend, anything else is treated as a local filesystem path.

use vstd::prelude::*;

verus! {

/// `p` is a prefix of `s`.
pub open spec fn spec_starts_with(s: Seq<char>, p: Seq<char>) -> bool {
    p.len() <= s.len() && s.subrange(0, p.len() as int) == p
}

/// A path selects the remote backend iff it carries one of the recognized
/// remote URL schemes.
pub open spec fn spec_is_remote_path(s: Seq<char>) -> bool {
    spec_starts_with(s, "libsql://"@) || spec_starts_with(s, "http://"@) || spec_starts_with(
        s,
        "https://"@,
    )
}

/// Does `s` start with `p`?
fn starts_with(s: &str, p: &str) -> (r: bool)
    ensures
        r == spec_starts_with(s@, p@),
{
    let p_len = p.unicode_len();
    if s.unicode_len() < p_len {
        false
    } else {
        let head = s.substring_char(0, p_len);
        head.to_owned() == p.to_owned()
    }
}

/// Backend selection by path scheme: remote-style URL schemes open a remote
/// database, everything else is a local file path.
pub fn is_remote_path(path: &str) -> (r: bool)
    ensures
        r == spec_is_remote_path(path@),
{
    starts_with(path, "libsql://") || starts_with(path, "http://") || starts_with(path, "https://")
}

} // verus!
