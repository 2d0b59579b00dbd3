//! The keys under which tracks, anomalies and allowlist entries are stored,
//! and the validation of allowlist entries.

use vstd::prelude::*;
use crate::error::AppError;
use crate::models::{AllowlistEntry, EntityKind, kind_name};
use crate::text::{chars_of, equals, push_chars, push_str, slice_chars, string_from_chars, to_owned_string};
use crate::validation::{identifier, identifier_char, valid_identifier};

verus! {

/// `a`, a colon, then `b`.
pub open spec fn colon_joined(a: Seq<char>, b: Seq<char>) -> Seq<char> {
    a + seq![':'] + b
}

/// The key of an allowlist entry: `allowlist:{kind}:{id}`.
pub open spec fn allowlist_key_of(kind: Seq<char>, id: Seq<char>) -> Seq<char> {
    colon_joined(colon_joined("allowlist"@, kind), id)
}

/// The key of a tracked entity: `entity:{kind}:{id}`.
pub open spec fn entity_key_of(kind: EntityKind, id: Seq<char>) -> Seq<char> {
    colon_joined(colon_joined("entity"@, kind_name(kind)), id)
}

/// The key that marks an entity as already reported in a corridor:
/// `dedupe:{kind}:{id}:{zone}`.
pub open spec fn dedupe_key_of(kind: EntityKind, id: Seq<char>, zone: Seq<char>) -> Seq<char> {
    colon_joined(colon_joined(colon_joined("dedupe"@, kind_name(kind)), id), zone)
}

/// The key of an anomaly record: `anomaly:{id}`.
pub open spec fn anomaly_key_of(id: Seq<char>) -> Seq<char> {
    colon_joined("anomaly"@, id)
}

fn join_colon(out: &mut Vec<char>, s: &str)
    ensures
        final(out)@ == old(out)@ + seq![':'] + s@,
{
    out.push(':');
    push_str(out, s);
}

/// The key of an allowlist entry.
pub fn allowlist_key(kind: &str, id: &str) -> (k: String)
    ensures
        k@ == allowlist_key_of(kind@, id@),
{
    let mut out = chars_of("allowlist");
    join_colon(&mut out, kind);
    join_colon(&mut out, id);
    string_from_chars(out.as_slice())
}

/// The key of a tracked entity.
pub fn entity_key(kind: EntityKind, id: &str) -> (k: String)
    ensures
        k@ == entity_key_of(kind, id@),
{
    let mut out = chars_of("entity");
    join_colon(&mut out, kind.as_str());
    join_colon(&mut out, id);
    string_from_chars(out.as_slice())
}

/// The key that marks an entity as reported in a corridor.
pub fn dedupe_key(kind: EntityKind, id: &str, zone_id: &str) -> (k: String)
    ensures
        k@ == dedupe_key_of(kind, id@, zone_id@),
{
    let mut out = chars_of("dedupe");
    join_colon(&mut out, kind.as_str());
    join_colon(&mut out, id);
    join_colon(&mut out, zone_id);
    string_from_chars(out.as_slice())
}

/// The key of an anomaly record.
pub fn anomaly_key(anomaly_id: &str) -> (k: String)
    ensures
        k@ == anomaly_key_of(anomaly_id@),
{
    let mut out = chars_of("anomaly");
    join_colon(&mut out, anomaly_id);
    string_from_chars(out.as_slice())
}

/// The kinds of entity an allowlist entry can name.
pub open spec fn allowlist_kind(kind: Seq<char>) -> bool {
    kind == "flight"@ || kind == "vessel"@ || kind == "vehicle"@
}

/// The message of an allowlist entry that is refused.
pub open spec fn invalid_entry_message() -> Seq<char> {
    "Invalid entity kind or id"@
}

/// Checks an allowlist entry and gives the key to store it under: the kind
/// must be `flight`, `vessel` or `vehicle` and the id a valid identifier,
/// else the entry is refused with `BadRequest`.
pub fn validate_allowlist_entry(entry: &AllowlistEntry) -> (r: Result<String, AppError>)
    ensures
        allowlist_kind(entry.kind@) && valid_identifier(entry.id@) ==> (r matches Ok(k)
            && k@ == allowlist_key_of(entry.kind@, entry.id@)),
        !(allowlist_kind(entry.kind@) && valid_identifier(entry.id@)) ==> (r matches Err(
            AppError::BadRequest(m),
        ) && m@ == invalid_entry_message()),
{
    let kc = chars_of(entry.kind.as_str());
    let kind_ok = equals(kc.as_slice(), "flight") || equals(kc.as_slice(), "vessel") || equals(
        kc.as_slice(),
        "vehicle",
    );
    if !kind_ok || !identifier(entry.id.as_str()) {
        return Err(AppError::BadRequest(to_owned_string("Invalid entity kind or id")));
    }
    Ok(allowlist_key(entry.kind.as_str(), entry.id.as_str()))
}

/// The label stored for an allowlist entry: its label, or its id.
pub fn allowlist_label(entry: &AllowlistEntry) -> (l: String)
    ensures
        l@ == match entry.label {
            Some(label) => label@,
            None => entry.id@,
        },
{
    match &entry.label {
        Some(label) => label.clone(),
        None => entry.id.clone(),
    }
}

/// The first position at or after `from` holding a colon, or the length of
/// `s` when there is none.
pub open spec fn colon_from(s: Seq<char>, from: int) -> int
    decreases s.len() - from,
{
    if from < 0 || from >= s.len() {
        s.len() as int
    } else if s[from] == ':' {
        from
    } else {
        colon_from(s, from + 1)
    }
}

/// The kind and id of an allowlist key, as `splitn(3, ':')` separates them:
/// the text between the first and second colon, and everything after the
/// second colon; none when the key has fewer than two colons.
pub open spec fn allowlist_key_parts(key: Seq<char>) -> Option<(Seq<char>, Seq<char>)> {
    let p1 = colon_from(key, 0);
    let p2 = colon_from(key, p1 + 1);
    if p1 >= key.len() || p2 >= key.len() {
        None
    } else {
        Some((key.subrange(p1 + 1, p2), key.subrange(p2 + 1, key.len() as int)))
    }
}

proof fn lemma_colon_from_bounds(s: Seq<char>, from: int)
    requires
        0 <= from,
    ensures
        from <= colon_from(s, from) <= s.len() || (from > s.len() && colon_from(s, from) == s.len()),
        colon_from(s, from) < s.len() ==> s[colon_from(s, from)] == ':',
        forall|k: int| from <= k < colon_from(s, from) && k < s.len() ==> s[k] != ':',
    decreases s.len() - from,
{
    if from < s.len() && s[from] != ':' {
        lemma_colon_from_bounds(s, from + 1);
    }
}

fn find_colon(s: &[char], from: usize) -> (r: usize)
    requires
        from <= s@.len(),
    ensures
        r == colon_from(s@, from as int),
{
    let mut i = from;
    while i < s.len() && s[i] != ':'
        invariant
            from <= i <= s@.len(),
            colon_from(s@, from as int) == colon_from(s@, i as int),
        decreases s@.len() - i,
    {
        i = i + 1;
    }
    i
}

/// Reads the kind and id back from an allowlist key.
pub fn parse_allowlist_key(key: &str) -> (r: Option<(String, String)>)
    ensures
        match r {
            Some((kind, id)) => allowlist_key_parts(key@) == Some((kind@, id@)),
            None => allowlist_key_parts(key@) is None,
        },
{
    let s = chars_of(key);
    let p1 = find_colon(s.as_slice(), 0);
    if p1 >= s.len() {
        return None;
    }
    let p2 = find_colon(s.as_slice(), p1 + 1);
    if p2 >= s.len() {
        return None;
    }
    proof {
        lemma_colon_from_bounds(s@, p1 + 1);
    }
    let kind = slice_chars(s.as_slice(), p1 + 1, p2);
    let id = slice_chars(s.as_slice(), p2 + 1, s.len());
    Some((string_from_chars(kind.as_slice()), string_from_chars(id.as_slice())))
}

proof fn lemma_colon_after_prefix(prefix: Seq<char>, rest: Seq<char>)
    requires
        forall|k: int| 0 <= k < prefix.len() ==> prefix[k] != ':',
    ensures
        colon_from(prefix + seq![':'] + rest, 0) == prefix.len(),
{
    let s = prefix + seq![':'] + rest;
    lemma_colon_from_bounds(s, 0);
    let c = colon_from(s, 0);
    if c < prefix.len() {
        assert(s[c] == prefix[c]);
    } else if c > prefix.len() {
        assert(s[prefix.len() as int] == ':');
    }
}

proof fn lemma_colon_in_suffix(s: Seq<char>, start: int, seg: Seq<char>, rest: Seq<char>)
    requires
        0 <= start,
        s == s.subrange(0, start) + seg + seq![':'] + rest,
        start <= s.len(),
        forall|k: int| 0 <= k < seg.len() ==> seg[k] != ':',
    ensures
        colon_from(s, start) == start + seg.len(),
{
    lemma_colon_from_bounds(s, start);
    let c = colon_from(s, start);
    if c < start + seg.len() {
        assert(s[c] == seg[c - start]);
    } else if c > start + seg.len() {
        assert(s[start + seg.len()] == ':');
    }
}

/// Listing the allowlist gives back what was stored: for every entry that
/// validation accepts, its key reads back as its kind and id.
pub proof fn law_allowlist_key_roundtrip(kind: Seq<char>, id: Seq<char>)
    requires
        allowlist_kind(kind),
        forall|i: int| 0 <= i < id.len() ==> identifier_char(#[trigger] id[i]),
    ensures
        allowlist_key_parts(allowlist_key_of(kind, id)) == Some((kind, id)),
{
    reveal_strlit("allowlist");
    reveal_strlit("flight");
    reveal_strlit("vessel");
    reveal_strlit("vehicle");
    let key = allowlist_key_of(kind, id);
    let pre = "allowlist"@;
    assert(forall|k: int| 0 <= k < kind.len() ==> kind[k] != ':');
    assert(forall|k: int| 0 <= k < id.len() ==> id[k] != ':') by {
        assert forall|k: int| 0 <= k < id.len() implies id[k] != ':' by {
            assert(identifier_char(id[k]));
        }
    }
    assert(key =~= pre + seq![':'] + (kind + seq![':'] + id));
    lemma_colon_after_prefix(pre, kind + seq![':'] + id);
    let p1 = pre.len() as int;
    assert(key.subrange(0, p1 + 1) + kind + seq![':'] + id =~= key);
    lemma_colon_in_suffix(key, p1 + 1, kind, id);
    let p2 = p1 + 1 + kind.len();
    assert(key.subrange(p1 + 1, p2) =~= kind);
    assert(key.subrange(p2 + 1, key.len() as int) =~= id);
}

} // verus!
