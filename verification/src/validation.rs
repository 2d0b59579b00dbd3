//! Validation of identifiers that are embedded into storage keys.

use vstd::prelude::*;
use vstd::utf8::encode_utf8;
use crate::error::AppError;
use crate::text::{chars_of, to_owned_string};

verus! {

/// Whether `c` may appear in an identifier: an ASCII letter or digit, `-`, `_` or `.`.
pub open spec fn identifier_char(c: char) -> bool {
    ||| ('a' <= c && c <= 'z')
    ||| ('A' <= c && c <= 'Z')
    ||| ('0' <= c && c <= '9')
    ||| c == '-'
    ||| c == '_'
    ||| c == '.'
}

/// An identifier is non-empty, at most 128 bytes long in UTF-8, and made
/// only of identifier characters.
pub open spec fn valid_identifier(s: Seq<char>) -> bool {
    &&& s.len() > 0
    &&& encode_utf8(s).len() <= 128
    &&& forall|i: int| 0 <= i < s.len() ==> identifier_char(#[trigger] s[i])
}

/// Accepts the identifiers that are safe to embed in a storage key.
pub fn identifier(id: &str) -> (ok: bool)
    ensures
        ok == valid_identifier(id@),
{
    let cs = chars_of(id);
    let mut i: usize = 0;
    while i < cs.len()
        invariant
            cs@ == id@,
            0 <= i <= cs.len(),
            forall|j: int| 0 <= j < i ==> identifier_char(#[trigger] cs@[j]),
        decreases cs.len() - i,
    {
        let c = cs[i];
        let ok = ('a' <= c && c <= 'z') || ('A' <= c && c <= 'Z') || ('0' <= c && c <= '9')
            || c == '-' || c == '_' || c == '.';
        if !ok {
            return false;
        }
        i = i + 1;
    }
    proof {
        assert forall|j: int| 0 <= j < id@.len() implies '\0' <= #[trigger] id@[j] <= '\u{7f}' by {
            assert(identifier_char(cs@[j]));
        }
        vstd::utf8::is_ascii_chars_encode_utf8(id@);
    }
    cs.len() > 0 && cs.len() <= 128
}

/// Refuses an enrichment query longer than 500 bytes.
pub fn check_query_length(query: &str) -> (r: Result<(), AppError>)
    ensures
        encode_utf8(query@).len() > 500 ==> (r matches Err(AppError::BadRequest(m)) && m@
            == "Query is too long"@),
        encode_utf8(query@).len() <= 500 ==> r is Ok,
{
    let q = chars_of(query);
    if crate::context::utf8_len_exceeds(q.as_slice(), 500) {
        Err(AppError::BadRequest(to_owned_string("Query is too long")))
    } else {
        Ok(())
    }
}

/// Refuses a request once the day's count passes the daily limit.
pub fn within_daily_quota(count: i64, max_per_day: u32) -> (r: Result<(), AppError>)
    ensures
        count > max_per_day ==> r == Err::<(), AppError>(AppError::RateLimited),
        count <= max_per_day ==> r is Ok,
{
    if count > max_per_day as i64 {
        Err(AppError::RateLimited)
    } else {
        Ok(())
    }
}

} // verus!
