//! Bearer tokens, constant-time comparison, and the client address a
//! request is counted against.
use vstd::prelude::*;
use crate::error::AppError;
use crate::text::{chars_of, has_prefix, opt_view, owned, str_eq, strip_prefix, string_from_range, trim, trim_seq};

verus! {

/// The token of an `Authorization` value `Bearer <token>`, where the token
/// is not empty. The scheme is matched exactly, case included.
pub open spec fn spec_bearer(value: Seq<char>) -> Option<Seq<char>> {
    if has_prefix(value, "Bearer "@) && value.len() > 7 {
        Some(value.skip(7))
    } else {
        None
    }
}

/// The view of an optional string slice.
pub open spec fn opt_str_view(o: Option<&str>) -> Option<Seq<char>> {
    match o {
        Some(s) => Some(s@),
        None => None,
    }
}

/// Reads the bearer token of a request from its `Authorization` header
/// value (`None` where the header is absent or not visible ASCII).
pub fn extract_bearer(authorization: Option<&str>) -> (r: Option<String>)
    ensures
        opt_view(r) == match opt_str_view(authorization) {
            Some(v) => spec_bearer(v),
            None => None,
        },
{
    proof {
        reveal_strlit("Bearer ");
    }
    match authorization {
        Some(v) => match strip_prefix(v, "Bearer ") {
            Some(t) => {
                if t.unicode_len() == 0 {
                    None
                } else {
                    Some(t)
                }
            },
            None => None,
        },
        None => None,
    }
}

/// Whether a request presents the configured token: one must be configured,
/// and the bearer token must equal it.
pub open spec fn spec_token_accepted(configured: Option<Seq<char>>, authorization: Option<Seq<char>>) -> bool {
    match (configured, authorization) {
        (Some(c), Some(a)) => spec_bearer(a) == Some(c),
        _ => false,
    }
}

/// Requires the configured token as the bearer token; otherwise the request
/// is unauthorized (also where no token is configured).
pub fn require_token(configured: &Option<String>, authorization: Option<&str>) -> (r: Result<(), AppError>)
    ensures
        r is Ok <==> spec_token_accepted(opt_view(*configured), opt_str_view(authorization)),
        r is Err ==> r == Err::<(), AppError>(AppError::Unauthorized),
{
    let c = match configured {
        Some(c) => c,
        None => return Err(AppError::Unauthorized),
    };
    let provided = match extract_bearer(authorization) {
        Some(p) => p,
        None => return Err(AppError::Unauthorized),
    };
    if !str_eq(provided.as_str(), c.as_str()) {
        return Err(AppError::Unauthorized);
    }
    Ok(())
}

/// Compares two byte strings in time that depends only on their lengths.
pub fn constant_time_eq(a: &[u8], b: &[u8]) -> (r: bool)
    ensures
        r == (a@ == b@),
{
    if a.len() != b.len() {
        return false;
    }
    let mut diff: u8 = 0;
    let mut i: usize = 0;
    while i < a.len()
        invariant
            a@.len() == b@.len(),
            i <= a@.len(),
            (diff == 0) <==> (forall|j: int| 0 <= j < i ==> a@[j] == b@[j]),
        decreases a@.len() - i,
    {
        let x = a[i];
        let y = b[i];
        let d = diff | (x ^ y);
        assert((d == 0) <==> (diff == 0 && x == y)) by (bit_vector)
            requires
                d == diff | (x ^ y),
        ;
        diff = d;
        i = i + 1;
    }
    if diff == 0 {
        assert(a@ =~= b@);
        true
    } else {
        false
    }
}

/// The part of `s` before its first comma (all of it if it has none).
pub open spec fn before_comma(s: Seq<char>) -> Seq<char>
    decreases s.len(),
{
    if s.len() == 0 || s[0] == ',' {
        Seq::empty()
    } else {
        seq![s[0]] + before_comma(s.drop_first())
    }
}

/// The address a request is counted against: the first entry of
/// `X-Forwarded-For`, trimmed, where it is not empty; else the peer's
/// address.
pub open spec fn spec_client_ip(forwarded: Option<Seq<char>>, peer: Seq<char>) -> Seq<char> {
    match forwarded {
        Some(f) => {
            let first = trim_seq(before_comma(f));
            if first.len() > 0 {
                first
            } else {
                peer
            }
        },
        None => peer,
    }
}

proof fn lemma_before_comma(s: Seq<char>, i: int)
    requires
        0 <= i <= s.len(),
        forall|j: int| 0 <= j < i ==> s[j] != ',',
        i == s.len() || s[i] == ',',
    ensures
        before_comma(s) == s.take(i),
    decreases s.len(),
{
    if s.len() == 0 || s[0] == ',' {
        assert(s.take(i) =~= Seq::<char>::empty());
    } else {
        lemma_before_comma(s.drop_first(), i - 1);
        assert(seq![s[0]] + s.drop_first().take(i - 1) =~= s.take(i));
    }
}

/// The client address of a request from its `X-Forwarded-For` value (where
/// present and visible ASCII) and the peer address.
pub fn client_ip(forwarded: Option<&str>, peer: &str) -> (r: String)
    ensures
        r@ == spec_client_ip(opt_str_view(forwarded), peer@),
{
    match forwarded {
        Some(f) => {
            let v = chars_of(f);
            let mut i: usize = 0;
            while i < v.len() && v[i] != ','
                invariant
                    v@ == f@,
                    i <= v@.len(),
                    forall|j: int| 0 <= j < i ==> v@[j] != ',',
                decreases v@.len() - i,
            {
                i = i + 1;
            }
            proof {
                lemma_before_comma(f@, i as int);
            }
            let head = string_from_range(&v, 0, i);
            assert(v@.subrange(0, i as int) =~= f@.take(i as int));
            let first = trim(head.as_str());
            if first.unicode_len() > 0 {
                first
            } else {
                owned(peer)
            }
        },
        None => owned(peer),
    }
}

} // verus!
