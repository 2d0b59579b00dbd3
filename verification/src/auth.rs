//! Bearer-token checks for the write and admin endpoints.

use vstd::prelude::*;
use crate::error::AppError;
use crate::text::{chars_of, has_prefix, slice_chars, starts_with, to_owned_string};

verus! {

/// The token a request supplies: what follows `Bearer ` in its
/// `Authorization` header, or nothing.
pub open spec fn supplied_token(authorization: Option<Seq<char>>) -> Seq<char> {
    match authorization {
        Some(h) => if has_prefix(h, "Bearer "@) {
            h.subrange(7, h.len() as int)
        } else {
            Seq::empty()
        },
        None => Seq::empty(),
    }
}

/// The message of a request to an endpoint whose token is not configured.
pub open spec fn disabled_message() -> Seq<char> {
    "This endpoint is disabled until its server token is configured"@
}

/// Whether two character sequences are equal, comparing every position
/// whatever the outcome so that the time taken does not reveal where they
/// differ.
fn constant_time_eq(a: &[char], b: &[char]) -> (r: bool)
    ensures
        r == (a@ == b@),
{
    let n = if a.len() < b.len() {
        a.len()
    } else {
        b.len()
    };
    let mut diff: u32 = 0;
    let mut i: usize = 0;
    while i < n
        invariant
            n <= a@.len(),
            n <= b@.len(),
            0 <= i <= n,
            (diff == 0) == (forall|k: int| 0 <= k < i ==> a@[k] == b@[k]),
        decreases n - i,
    {
        let d: u32 = if a[i] == b[i] {
            0
        } else {
            1
        };
        assert(((diff | d) == 0) == (diff == 0 && d == 0)) by (bit_vector);
        diff = diff | d;
        i = i + 1;
    }
    let r = a.len() == b.len() && diff == 0;
    proof {
        if a.len() == b.len() && diff == 0 {
            assert(a@ =~= b@);
        }
    }
    r
}

/// Admits a request when the endpoint's token is configured and the request
/// supplies exactly that token: `ProviderUnavailable` when no token is
/// configured, `Unauthorized` when the supplied token differs.
pub fn require_token(authorization: Option<&str>, configured: Option<&str>) -> (r: Result<
    (),
    AppError,
>)
    ensures
        match configured {
            None => r matches Err(AppError::ProviderUnavailable(m)) && m@ == disabled_message(),
            Some(expected) => if supplied_token(
                match authorization {
                    Some(h) => Some(h@),
                    None => None,
                },
            ) == expected@ {
                r is Ok
            } else {
                r == Err::<(), AppError>(AppError::Unauthorized)
            },
        },
{
    let expected = match configured {
        Some(e) => e,
        None => {
            return Err(
                AppError::ProviderUnavailable(
                    to_owned_string(
                        "This endpoint is disabled until its server token is configured",
                    ),
                ),
            );
        },
    };
    let supplied: Vec<char> = match authorization {
        Some(h) => {
            let hc = chars_of(h);
            if starts_with(hc.as_slice(), "Bearer ") {
                proof {
                    reveal_strlit("Bearer ");
                }
                slice_chars(hc.as_slice(), 7, hc.len())
            } else {
                Vec::new()
            }
        },
        None => Vec::new(),
    };
    let ec = chars_of(expected);
    if !constant_time_eq(supplied.as_slice(), ec.as_slice()) {
        return Err(AppError::Unauthorized);
    }
    Ok(())
}

} // verus!
