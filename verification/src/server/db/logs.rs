//! Log queries: how the query parameters of a listing are read.
use vstd::prelude::*;
use crate::clock::{rfc3339_millis, spec_rfc3339_millis};
use crate::error::{AppError, is_bad_request};
use crate::num::{parse_i64, spec_parse_i64};
use crate::text::{concat, opt_view, spec_to_lowercase, to_lowercase};

verus! {

/// What a time bound denotes: integer milliseconds, else RFC 3339.
pub open spec fn spec_parse_bound(raw: Seq<char>) -> Option<i64> {
    match spec_parse_i64(raw) {
        Some(ms) => Some(ms),
        None => spec_rfc3339_millis(raw),
    }
}

/// Reads a `from`/`to` bound; the error is `invalid time bound: <raw>`.
pub fn parse_bound(raw: &str) -> (r: Result<i64, AppError>)
    ensures
        match spec_parse_bound(raw@) {
            Some(ms) => r == Ok::<i64, AppError>(ms),
            None => r matches Err(e) && is_bad_request(e, "invalid time bound: "@ + raw@),
        },
{
    if let Some(ms) = parse_i64(raw) {
        return Ok(ms);
    }
    match rfc3339_millis(raw) {
        Some(ms) => Ok(ms),
        None => Err(AppError::BadRequest(concat("invalid time bound: ", raw))),
    }
}

/// What `serde_json` reports for a text that is not JSON: its error
/// message; `None` for valid JSON.
pub uninterp spec fn spec_json_error(raw: Seq<char>) -> Option<Seq<char>>;

/// `serde_json::from_str::<serde_json::Value>`: `None` where the text is
/// JSON, else the error's `Display` text. The result is named.
#[verifier::external_body]
fn json_error(raw: &str) -> (r: Option<String>)
    ensures
        opt_view(r) == spec_json_error(raw@),
{
    match serde_json::from_str::<serde_json::Value>(raw) {
        Ok(_) => None,
        Err(e) => Some(e.to_string()),
    }
}

/// What the stored metadata of a row reads as: none where absent or empty;
/// the JSON text where it parses; an internal error otherwise.
pub open spec fn stored_meta_matches(r: Result<Option<String>, AppError>, meta_json: Option<Seq<char>>) -> bool {
    match meta_json {
        Some(raw) if raw.len() > 0 => match spec_json_error(raw) {
            None => r matches Ok(Some(m)) && m@ == raw,
            Some(e) => r matches Err(AppError::Internal(m)) && m@ == "corrupt meta_json: "@ + e,
        },
        _ => r == Ok::<Option<String>, AppError>(None),
    }
}

/// Checks the metadata stored with a log or a service check before it is
/// returned.
pub fn stored_meta(meta_json: &Option<String>) -> (r: Result<Option<String>, AppError>)
    ensures
        stored_meta_matches(r, opt_view(*meta_json)),
{
    match meta_json {
        Some(raw) => {
            if raw.unicode_len() == 0 {
                return Ok(None);
            }
            match json_error(raw.as_str()) {
                None => Ok(Some(raw.clone())),
                Some(e) => {
                    let m = concat("corrupt meta_json: ", e.as_str());
                    Err(AppError::internal(m.as_str()))
                },
            }
        },
        None => Ok(None),
    }
}

/// Query parameters of a log listing.
#[derive(Debug, Clone)]
pub struct LogQuery {
    pub app: Option<String>,
    pub level: Option<String>,
    pub source: Option<String>,
    pub search: Option<String>,
    pub from: Option<String>,
    pub to: Option<String>,
    pub limit: Option<i64>,
    pub offset: Option<i64>,
}

/// The conditions of a log listing, ready for the database: filters that
/// were given non-empty, the level lowercased, the search as a `LIKE`
/// pattern, the bounds in milliseconds, newest first from `offset`.
#[derive(Debug, Clone, PartialEq, Eq)]
pub struct LogFilter {
    pub app: Option<String>,
    pub level: Option<String>,
    pub source: Option<String>,
    pub search_pattern: Option<String>,
    pub from_ms: Option<i64>,
    pub to_ms: Option<i64>,
    pub limit: i64,
    pub offset: i64,
}

/// A filter given and not empty.
pub open spec fn nonempty_filter(o: Option<Seq<char>>) -> Option<Seq<char>> {
    match o {
        Some(s) => if s.len() > 0 {
            Some(s)
        } else {
            None
        },
        None => None,
    }
}

/// `limit` clamped to `1..=500`, 100 when absent.
pub open spec fn spec_page_limit(limit: Option<i64>) -> i64 {
    match limit {
        Some(l) => if l < 1 {
            1
        } else if l > 500 {
            500
        } else {
            l
        },
        None => 100,
    }
}

/// The clamped page size (`limit.unwrap_or(100).clamp(1, 500)`).
pub fn page_limit(limit: Option<i64>) -> (r: i64)
    ensures
        r == spec_page_limit(limit),
        1 <= r <= 500,
{
    let l = match limit {
        Some(l) => l,
        None => 100,
    };
    if l < 1 {
        1
    } else if l > 500 {
        500
    } else {
        l
    }
}

/// An optional bound read with `parse_bound`.
pub open spec fn spec_opt_bound(o: Option<Seq<char>>) -> Option<Option<i64>> {
    match o {
        Some(s) => match spec_parse_bound(s) {
            Some(ms) => Some(Some(ms)),
            None => None,
        },
        None => Some(None),
    }
}

fn opt_bound(o: &Option<String>) -> (r: Result<Option<i64>, AppError>)
    ensures
        match spec_opt_bound(opt_view(*o)) {
            Some(b) => r == Ok::<Option<i64>, AppError>(b),
            None => r matches Err(e) && is_bad_request(e, "invalid time bound: "@ + o->0@),
        },
{
    match o {
        Some(s) => match parse_bound(s.as_str()) {
            Ok(ms) => Ok(Some(ms)),
            Err(e) => Err(e),
        },
        None => Ok(None),
    }
}

fn nonempty(o: &Option<String>) -> (r: Option<String>)
    ensures
        opt_view(r) == nonempty_filter(opt_view(*o)),
{
    match o {
        Some(s) => if s.as_str().is_empty() {
            None
        } else {
            Some(s.clone())
        },
        None => None,
    }
}

impl LogQuery {
    /// The conditions of the listing, or the error of the first bound that
    /// cannot be read (`from` before `to`).
    pub fn to_filter(&self) -> (r: Result<LogFilter, AppError>)
        ensures
            match (spec_opt_bound(opt_view(self.from)), spec_opt_bound(opt_view(self.to))) {
                (Some(f), Some(t)) => r matches Ok(lf) && {
                    &&& opt_view(lf.app) == nonempty_filter(opt_view(self.app))
                    &&& opt_view(lf.level) == (match nonempty_filter(opt_view(self.level)) {
                        Some(l) => Some(spec_to_lowercase(l)),
                        None => None,
                    })
                    &&& opt_view(lf.source) == nonempty_filter(opt_view(self.source))
                    &&& opt_view(lf.search_pattern) == (match nonempty_filter(opt_view(self.search)) {
                        Some(s) => Some(seq!['%'] + s + seq!['%']),
                        None => None,
                    })
                    &&& lf.from_ms == f
                    &&& lf.to_ms == t
                    &&& lf.limit == spec_page_limit(self.limit)
                    &&& lf.offset == (match self.offset {
                        Some(o) => if o < 0 {
                            0
                        } else {
                            o
                        },
                        None => 0,
                    })
                },
                (None, _) => r matches Err(e) && is_bad_request(e, "invalid time bound: "@ + self.from->0@),
                (Some(_), None) => r matches Err(e) && is_bad_request(e, "invalid time bound: "@ + self.to->0@),
            },
    {
        let limit = page_limit(self.limit);
        let offset = match self.offset {
            Some(o) => if o < 0 {
                0
            } else {
                o
            },
            None => 0,
        };
        let app = nonempty(&self.app);
        let level = match nonempty(&self.level) {
            Some(l) => Some(to_lowercase(l.as_str())),
            None => None,
        };
        let source = nonempty(&self.source);
        let search_pattern = match nonempty(&self.search) {
            Some(s) => {
                let a = concat("%", s.as_str());
                let b = concat(a.as_str(), "%");
                proof {
                    reveal_strlit("%");
                }
                Some(b)
            },
            None => None,
        };
        let from_ms = match opt_bound(&self.from) {
            Ok(b) => b,
            Err(e) => return Err(e),
        };
        let to_ms = match opt_bound(&self.to) {
            Ok(b) => b,
            Err(e) => return Err(e),
        };
        Ok(LogFilter { app, level, source, search_pattern, from_ms, to_ms, limit, offset })
    }
}

} // verus!
