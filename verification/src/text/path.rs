//! Paths, as texts with `/` between their segments.
use vstd::prelude::*;

use crate::text::search;
use crate::text::search::{ends_with, lists, split};

verus! {

/// A path below a directory.
pub open spec fn joined_path(dir: Seq<char>, path: Seq<char>) -> Seq<char> {
    if dir.len() == 0 || search::has_suffix(dir, "/"@) {
        dir + path
    } else {
        dir + "/"@ + path
    }
}

/// A path that steps up somewhere.
pub open spec fn steps_up(path: Seq<char>) -> bool {
    search::split_text(path, "/"@).contains(".."@)
}

pub fn join_path(dir: &str, path: &str) -> (r: String)
    ensures
        r@ == joined_path(dir@, path@),
{
    let mut s = dir.to_string();
    if !(dir.is_empty() || ends_with(dir, "/")) {
        s.push_str("/");
    }
    s.push_str(path);
    s
}

/// Whether a path steps up somewhere.
pub fn has_parent_step(path: &str) -> (r: bool)
    ensures
        r == steps_up(path@),
{
    proof {
        reveal_strlit("/");
    }
    let parts = split(path, "/");
    lists(&parts, "..")
}

} // verus!
