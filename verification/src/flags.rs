//! Reading settings given as text (environment values).
use vstd::prelude::*;
use crate::num::{parse_i64, parse_u16, parse_usize, spec_parse_i64, spec_parse_unsigned};
use crate::text::{opt_view, spec_to_lowercase, str_eq, to_lowercase};

verus! {

/// A switch is on when its lowercased text is `1`, `true`, `yes` or `on`.
pub open spec fn spec_is_truthy(v: Seq<char>) -> bool {
    let l = spec_to_lowercase(v);
    l == "1"@ || l == "true"@ || l == "yes"@ || l == "on"@
}

/// Whether a switch's text turns it on (`1`, `true`, `yes` or `on`, in any case).
pub fn is_truthy(v: &str) -> (r: bool)
    ensures
        r == spec_is_truthy(v@),
{
    let l = to_lowercase(v);
    str_eq(l.as_str(), "1") || str_eq(l.as_str(), "true") || str_eq(l.as_str(), "yes") || str_eq(
        l.as_str(),
        "on",
    )
}

/// A value that is set and not empty.
pub open spec fn spec_nonempty(v: Option<Seq<char>>) -> Option<Seq<char>> {
    match v {
        Some(s) => if s.len() > 0 {
            Some(s)
        } else {
            None
        },
        None => None,
    }
}

/// The value where it is set and not empty (`env_nonempty`).
pub fn env_nonempty(v: &Option<String>) -> (r: Option<String>)
    ensures
        opt_view(r) == spec_nonempty(opt_view(*v)),
{
    match v {
        Some(s) => if s.as_str().is_empty() {
            None
        } else {
            Some(s.clone())
        },
        None => None,
    }
}

/// A switch: its truth where set, else `default`.
pub open spec fn spec_env_bool(v: Option<Seq<char>>, default: bool) -> bool {
    match v {
        Some(s) => spec_is_truthy(s),
        None => default,
    }
}

/// A switch: on for `1`, `true`, `yes`, `on` (any case) where set, else `default`.
pub fn env_bool(v: &Option<String>, default: bool) -> (r: bool)
    ensures
        r == spec_env_bool(opt_view(*v), default),
{
    match v {
        Some(s) => is_truthy(s.as_str()),
        None => default,
    }
}

/// A number: the value where it reads as an `i64`, else `default`.
pub open spec fn spec_env_i64(v: Option<Seq<char>>, default: i64) -> i64 {
    match v {
        Some(s) => match spec_parse_i64(s) {
            Some(x) => x,
            None => default,
        },
        None => default,
    }
}

/// An `i64` setting, `default` where unset or unreadable.
pub fn env_i64(v: &Option<String>, default: i64) -> (r: i64)
    ensures
        r == spec_env_i64(opt_view(*v), default),
{
    match v {
        Some(s) => match parse_i64(s.as_str()) {
            Some(x) => x,
            None => default,
        },
        None => default,
    }
}

/// An unsigned setting with largest value `max`, `default` where unset or unreadable.
pub open spec fn spec_env_unsigned(v: Option<Seq<char>>, max: nat, default: nat) -> nat {
    match v {
        Some(s) => match spec_parse_unsigned(s, max) {
            Some(x) => x,
            None => default,
        },
        None => default,
    }
}

/// A `u16` setting, `default` where unset or unreadable.
pub fn env_u16(v: &Option<String>, default: u16) -> (r: u16)
    ensures
        r as nat == spec_env_unsigned(opt_view(*v), u16::MAX as nat, default as nat),
{
    match v {
        Some(s) => match parse_u16(s.as_str()) {
            Some(x) => x,
            None => default,
        },
        None => default,
    }
}

/// A `usize` setting, `default` where unset or unreadable.
pub fn env_usize(v: &Option<String>, default: usize) -> (r: usize)
    ensures
        r as nat == spec_env_unsigned(opt_view(*v), usize::MAX as nat, default as nat),
{
    match v {
        Some(s) => match parse_usize(s.as_str()) {
            Some(x) => x,
            None => default,
        },
        None => default,
    }
}

} // verus!
