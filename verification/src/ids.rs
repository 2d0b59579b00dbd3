//! Random identifiers of events and assessments.

use vstd::prelude::*;
use crate::text::prefixed;

verus! {

/// A lowercase hexadecimal digit.
pub open spec fn lower_hex_digit(c: char) -> bool {
    ('0' <= c && c <= '9') || ('a' <= c && c <= 'f')
}

/// The hyphenated text form of a UUID: 36 characters, hyphens at positions
/// 8, 13, 18 and 23, lowercase hexadecimal digits elsewhere.
pub open spec fn uuid_text(s: Seq<char>) -> bool {
    &&& s.len() == 36
    &&& forall|i: int|
        0 <= i < 36 ==> if i == 8 || i == 13 || i == 18 || i == 23 {
            s[i] == '-'
        } else {
            lower_hex_digit(#[trigger] s[i])
        }
}

/// The text form of a random (version 4) UUID: the version digit is `4` and
/// the variant digit one of `8`, `9`, `a` and `b`.
pub open spec fn v4_uuid_text(s: Seq<char>) -> bool {
    &&& uuid_text(s)
    &&& s[14] == '4'
    &&& (s[19] == '8' || s[19] == '9' || s[19] == 'a' || s[19] == 'b')
}

/// Calls `uuid::Uuid::new_v4` and formats it with `to_string`. The value is
/// random; the contract claims its hyphenated lowercase text form, which the
/// crate's `Hyphenated` formatting writes, and the version and variant bits
/// that `new_v4` always sets (version 4, variant `10`).
#[verifier::external_body]
pub(crate) fn new_uuid() -> (res: String)
    ensures
        v4_uuid_text(res@),
{
    uuid::Uuid::new_v4().to_string()
}

/// A fresh anomaly identifier: `anom_` and a random version-4 UUID.
pub fn anomaly_id() -> (r: String)
    ensures
        r@.len() == 41,
        r@.subrange(0, 5) == "anom_"@,
        v4_uuid_text(r@.subrange(5, 41)),
{
    let u = new_uuid();
    let r = prefixed("anom_", u.as_str());
    proof {
        reveal_strlit("anom_");
        assert(r@.subrange(0, 5) =~= "anom_"@);
        assert(r@.subrange(5, 41) =~= u@);
    }
    r
}

} // verus!
