//! Which tool results may be served again.
use vstd::prelude::*;

use crate::text::{contains, has_substring, same};

verus! {

/// Whether a tool's results are worthless once they are old: live activity, and anything that
/// warns.
pub open spec fn never_cached(name: Seq<char>) -> bool {
    name == "media_now_playing"@ || has_substring(name, "alert"@) || has_substring(name, "severe"@)
        || has_substring(name, "warning"@)
}

/// Whether a tool's results must never be served from a cache, as [`never_cached`] says.
pub fn is_never_cached(name: &str) -> (r: bool)
    ensures
        r == never_cached(name@),
{
    same(name, "media_now_playing") || contains(name, "alert") || contains(name, "severe")
        || contains(name, "warning")
}

} // verus!
