//! The social-media ingest: its quota switch and how provider errors are read.

use vstd::prelude::*;
use crate::text::{chars_of, contains, has_substring};

verus! {

/// Whether the social-media provider reported its quota as exhausted.
pub struct SocialQuota {
    pub exhausted: bool,
}

impl SocialQuota {
    /// The quota starts available.
    pub fn new() -> (q: Self)
        ensures
            !q.exhausted,
    {
        SocialQuota { exhausted: false }
    }
}

/// Whether the quota was reported exhausted.
pub fn is_twitter_quota_exhausted(quota: &SocialQuota) -> (r: bool)
    ensures
        r == quota.exhausted,
{
    quota.exhausted
}

/// Records whether the quota is exhausted.
pub fn set_twitter_quota_exhausted(quota: &mut SocialQuota, exhausted: bool)
    ensures
        final(quota).exhausted == exhausted,
{
    quota.exhausted = exhausted;
}

/// What a failed social-media search means for the ingest loop.
#[derive(Debug, Clone, Copy, PartialEq, Eq, Structural)]
pub enum SocialErrorKind {
    /// Credits depleted: stop polling until the quota recovers.
    QuotaExhausted,
    /// The bearer token was rejected.
    AuthFailed,
    /// Any other failure.
    Other,
}

/// How an error message is read: `402`, `CreditsDepleted` or `quota` mean an
/// exhausted quota; otherwise `401` means rejected credentials.
pub open spec fn social_error_kind(msg: Seq<char>) -> SocialErrorKind {
    if has_substring(msg, "402"@) || has_substring(msg, "CreditsDepleted"@) || has_substring(
        msg,
        "quota"@,
    ) {
        SocialErrorKind::QuotaExhausted
    } else if has_substring(msg, "401"@) {
        SocialErrorKind::AuthFailed
    } else {
        SocialErrorKind::Other
    }
}

/// Classifies the text of a failed social-media search.
pub fn classify_social_error(msg: &str) -> (k: SocialErrorKind)
    ensures
        k == social_error_kind(msg@),
{
    let m = chars_of(msg);
    if contains(m.as_slice(), "402") || contains(m.as_slice(), "CreditsDepleted") || contains(
        m.as_slice(),
        "quota",
    ) {
        SocialErrorKind::QuotaExhausted
    } else if contains(m.as_slice(), "401") {
        SocialErrorKind::AuthFailed
    } else {
        SocialErrorKind::Other
    }
}

/// The quota switch after a search: cleared by a success, set by an
/// exhausted-quota error, unchanged by any other error.
pub open spec fn quota_after(exhausted: bool, outcome: Option<SocialErrorKind>) -> bool {
    match outcome {
        None => false,
        Some(SocialErrorKind::QuotaExhausted) => true,
        Some(_) => exhausted,
    }
}

/// Records the outcome of a search in the quota switch.
pub fn record_social_outcome(quota: &mut SocialQuota, outcome: Option<SocialErrorKind>)
    ensures
        final(quota).exhausted == quota_after(old(quota).exhausted, outcome),
{
    match outcome {
        None => {
            if is_twitter_quota_exhausted(quota) {
                set_twitter_quota_exhausted(quota, false);
            }
        },
        Some(SocialErrorKind::QuotaExhausted) => set_twitter_quota_exhausted(quota, true),
        Some(_) => {},
    }
}

} // verus!
