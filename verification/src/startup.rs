//! Where the engine finds its directories.
use vstd::prelude::*;

use crate::text::path;
use crate::text::path::join_path;

verus! {

/// What the environment says, or else an argument.
pub fn env_or_arg(env_val: Option<&str>, arg: Option<&String>) -> (r: Option<String>)
    ensures
        match env_val {
            Some(s) => r is Some && r->0@ == s@,
            None => match arg {
                Some(a) => r is Some && r->0@ == a@,
                None => r is None,
            },
        },
{
    match env_val {
        Some(s) => Some(s.to_string()),
        None => match arg {
            Some(a) => Some(a.clone()),
            None => None,
        },
    }
}

/// A directory: what the environment says, or else an argument, or else a place below
/// the base directory.
pub fn resolve_dir(env_val: Option<&str>, arg: Option<&String>, base_dir: &str, default: &str) -> (r: String)
    ensures
        r@ == (match env_val {
            Some(s) => s@,
            None => match arg {
                Some(a) => a@,
                None => path::joined_path(base_dir@, default@),
            },
        }),
{
    match env_or_arg(env_val, arg) {
        Some(s) => s,
        None => join_path(base_dir, default),
    }
}

} // verus!
