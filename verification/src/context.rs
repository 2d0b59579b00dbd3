//! What a query says about itself: the places it names, its keywords, its
//! kind and its priority.

use vstd::prelude::*;
use vstd::utf8::encode_utf8;
use crate::priority::{classify_priority, priority_of_lowered, Priority};
use crate::query_router::{classify_query, query_type_of, QueryType};
use crate::text::{
    chars_of, chars_eq, prefixed, contains, has_substring, lowercase_of, split_whitespace,
    string_from_chars, string_views, to_lowercase, to_owned_string, trim_non_alphanumeric,
    trimmed_to_alphanumeric, words,
};

verus! {

/// The places a query may name: the lowercase form searched for and the
/// name reported, in a fixed order.
pub open spec fn known_places() -> Seq<(&'static str, &'static str)> {
    seq![
        ("ladakh", "Ladakh"), ("kargil", "Kargil"), ("siachen", "Siachen"),
        ("karachi", "Karachi"), ("lahore", "Lahore"), ("islamabad", "Islamabad"),
        ("beijing", "Beijing"), ("taiwan", "Taiwan"), ("taipei", "Taipei"),
        ("mumbai", "Mumbai"), ("delhi", "Delhi"), ("srinagar", "Srinagar"),
        ("leh", "Leh"), ("gilgit", "Gilgit"), ("skardu", "Skardu"),
    ]
}

/// The names of the known places among `places` whose lowercase form occurs
/// in the lowercased query, in list order.
pub open spec fn places_named(lower: Seq<char>, places: Seq<(&'static str, &'static str)>) -> Seq<
    Seq<char>,
>
    decreases places.len(),
{
    if places.len() == 0 {
        Seq::empty()
    } else {
        let rest = places_named(lower, places.drop_last());
        if has_substring(lower, places.last().0@) {
            rest.push(places.last().1@)
        } else {
            rest
        }
    }
}

/// The known places a query names, ignoring case.
pub fn extract_location_keywords(query: &str) -> (res: Vec<String>)
    ensures
        string_views(res@) == places_named(lowercase_of(query@), known_places()),
{
    let places: [(&str, &str); 15] = [
        ("ladakh", "Ladakh"), ("kargil", "Kargil"), ("siachen", "Siachen"),
        ("karachi", "Karachi"), ("lahore", "Lahore"), ("islamabad", "Islamabad"),
        ("beijing", "Beijing"), ("taiwan", "Taiwan"), ("taipei", "Taipei"),
        ("mumbai", "Mumbai"), ("delhi", "Delhi"), ("srinagar", "Srinagar"),
        ("leh", "Leh"), ("gilgit", "Gilgit"), ("skardu", "Skardu"),
    ];
    assert(places@ =~= known_places());
    let lower = to_lowercase(query);
    let l = chars_of(lower.as_str());
    let mut found: Vec<String> = Vec::new();
    let mut i: usize = 0;
    while i < 15
        invariant
            0 <= i <= 15,
            places@ == known_places(),
            l@ == lowercase_of(query@),
            string_views(found@) == places_named(l@, places@.take(i as int)),
        decreases 15 - i,
    {
        assert(places@.take(i + 1).drop_last() =~= places@.take(i as int));
        let (key, name) = places[i];
        let ghost before = string_views(found@);
        if contains(l.as_slice(), key) {
            found.push(to_owned_string(name));
            assert(string_views(found@) =~= before.push(name@));
        }
        i = i + 1;
    }
    assert(places@.take(15) =~= places@);
    found
}

/// The number of bytes of a character in UTF-8.
pub open spec fn utf8_width(c: char) -> nat {
    if (c as u32) <= 0x7f {
        1
    } else if (c as u32) <= 0x7ff {
        2
    } else if (c as u32) <= 0xffff {
        3
    } else {
        4
    }
}

/// The number of bytes of a text in UTF-8, character by character.
pub open spec fn utf8_len(s: Seq<char>) -> nat
    decreases s.len(),
{
    if s.len() == 0 {
        0
    } else {
        utf8_width(s[0]) + utf8_len(s.drop_first())
    }
}

/// `utf8_len` is the length of vstd's UTF-8 encoding.
pub proof fn lemma_utf8_len(s: Seq<char>)
    ensures
        encode_utf8(s).len() == utf8_len(s),
    decreases s.len(),
{
    if s.len() > 0 {
        lemma_utf8_len(s.drop_first());
        vstd::utf8::char_is_scalar(s[0]);
    }
}

/// Appending a character adds its width.
proof fn lemma_utf8_len_push(s: Seq<char>, c: char)
    ensures
        utf8_len(s.push(c)) == utf8_len(s) + utf8_width(c),
    decreases s.len(),
{
    if s.len() == 0 {
        assert(s.push(c).drop_first() =~= Seq::<char>::empty());
        assert(utf8_len(s.push(c).drop_first()) == 0);
        assert(utf8_len(s) == 0);
    } else {
        assert(s.push(c).drop_first() =~= s.drop_first().push(c));
        assert(s.push(c)[0] == s[0]);
        lemma_utf8_len_push(s.drop_first(), c);
        assert(utf8_len(s.push(c)) == utf8_width(s[0]) + utf8_len(s.push(c).drop_first()));
        assert(utf8_len(s) == utf8_width(s[0]) + utf8_len(s.drop_first()));
    }
}

/// Whether a text is longer than `limit` bytes in UTF-8.
pub fn utf8_len_exceeds(w: &[char], limit: usize) -> (r: bool)
    requires
        limit <= usize::MAX - 4,
    ensures
        r == (encode_utf8(w@).len() > limit),
{
    let mut total: usize = 0;
    let mut i: usize = 0;
    while i < w.len() && total <= limit
        invariant
            0 <= i <= w@.len(),
            limit <= usize::MAX - 4,
            total == utf8_len(w@.take(i as int)),
            total <= limit + 4,
        decreases w.len() - i,
    {
        let c = w[i];
        let code = c as u32;
        let width: usize = if code <= 0x7f {
            1
        } else if code <= 0x7ff {
            2
        } else if code <= 0xffff {
            3
        } else {
            4
        };
        proof {
            assert(w@.take(i + 1) =~= w@.take(i as int).push(c));
            lemma_utf8_len_push(w@.take(i as int), c);
        }
        total = total + width;
        i = i + 1;
    }
    proof {
        lemma_utf8_len(w@);
        lemma_utf8_len_prefix(w@, i as int);
    }
    total > limit
}

/// Whether a word is longer than two bytes in UTF-8.
fn longer_than_two_bytes(w: &[char]) -> (r: bool)
    ensures
        r == (encode_utf8(w@).len() > 2),
{
    utf8_len_exceeds(w, 2)
}

/// A prefix is never longer in UTF-8 than its text.
proof fn lemma_utf8_len_prefix(s: Seq<char>, i: int)
    requires
        0 <= i <= s.len(),
    ensures
        utf8_len(s.take(i)) <= utf8_len(s),
        i == s.len() ==> utf8_len(s.take(i)) == utf8_len(s),
    decreases s.len() - i,
{
    if i < s.len() {
        lemma_utf8_len_prefix(s, i + 1);
        assert(s.take(i + 1) =~= s.take(i).push(s[i]));
        lemma_utf8_len_push(s.take(i), s[i]);
    } else {
        assert(s.take(i) =~= s);
    }
}

/// Words too common to be keywords.
pub open spec fn stop_words() -> Seq<Seq<char>> {
    seq![
        "the"@, "a"@, "an"@, "in"@, "on"@, "at"@, "to"@, "for"@, "of"@, "and"@, "or"@, "is"@,
        "are"@,
    ]
}

/// Whether a word is a stop word.
fn is_stop_word(w: &[char]) -> (r: bool)
    ensures
        r == stop_words().contains(w@),
{
    let stops: [&str; 13] = ["the", "a", "an", "in", "on", "at", "to", "for", "of", "and", "or", "is", "are"];
    assert(stops@.map_values(|s: &str| s@) =~= stop_words());
    let mut i: usize = 0;
    while i < 13
        invariant
            0 <= i <= 13,
            stops@.map_values(|s: &str| s@) == stop_words(),
            forall|k: int| 0 <= k < i ==> stop_words()[k] != w@,
        decreases 13 - i,
    {
        if crate::text::equals(w, stops[i]) {
            assert(stop_words()[i as int] == w@);
            return true;
        }
        i = i + 1;
    }
    false
}

/// A word of the query as a keyword: lowercased, with the characters that
/// are not alphanumeric trimmed from both ends.
pub open spec fn cleaned_word(w: Seq<char>) -> Seq<char> {
    trimmed_to_alphanumeric(lowercase_of(w))
}

/// Whether a cleaned word counts as a keyword: not empty, not a stop word,
/// and longer than two bytes.
pub open spec fn is_keyword(w: Seq<char>) -> bool {
    w.len() > 0 && !stop_words().contains(w) && encode_utf8(w).len() > 2
}

/// At most the first ten of `s`.
pub open spec fn first_ten(s: Seq<Seq<char>>) -> Seq<Seq<char>> {
    if s.len() > 10 {
        s.take(10)
    } else {
        s
    }
}

/// The keywords of a query: its cleaned words that count, at most ten, in order.
pub open spec fn query_keywords(query: Seq<char>) -> Seq<Seq<char>> {
    first_ten(words(query).map_values(|w: Seq<char>| cleaned_word(w)).filter(|w: Seq<char>| is_keyword(w)))
}

/// The keywords of a query.
pub fn extract_keywords(query: &str) -> (res: Vec<String>)
    ensures
        string_views(res@) == query_keywords(query@),
{
    let q = chars_of(query);
    let ws = split_whitespace(q.as_slice());
    let ghost cleaned = words(query@).map_values(|w: Seq<char>| cleaned_word(w));
    let ghost pred = |w: Seq<char>| is_keyword(w);
    let mut out: Vec<String> = Vec::new();
    let mut i: usize = 0;
    while i < ws.len()
        invariant
            0 <= i <= ws@.len(),
            ws@.len() == words(query@).len(),
            forall|k: int| 0 <= k < ws@.len() ==> (#[trigger] ws@[k])@ == words(query@)[k],
            cleaned == words(query@).map_values(|w: Seq<char>| cleaned_word(w)),
            pred == (|w: Seq<char>| is_keyword(w)),
            string_views(out@) == first_ten(cleaned.take(i as int).filter(pred)),
        decreases ws.len() - i,
    {
        let ghost before = cleaned.take(i as int).filter(pred);
        proof {
            reveal(Seq::filter);
            assert(cleaned.take(i + 1).drop_last() =~= cleaned.take(i as int));
        }
        let word = string_from_chars(ws[i].as_slice());
        let lower = to_lowercase(word.as_str());
        let lc = chars_of(lower.as_str());
        let t = trim_non_alphanumeric(lc.as_slice());
        assert(t@ == cleaned[i as int]);
        let keep = t.len() > 0 && !is_stop_word(t.as_slice()) && longer_than_two_bytes(t.as_slice());
        if keep {
            assert(cleaned.take(i + 1).filter(pred) == before.push(t@));
            if out.len() < 10 {
                let ghost ov = string_views(out@);
                out.push(string_from_chars(t.as_slice()));
                assert(string_views(out@) =~= ov.push(t@));
            } else {
                assert(before.push(t@).take(10) =~= before.take(10));
            }
        } else {
            assert(cleaned.take(i + 1).filter(pred) == before);
        }
        i = i + 1;
    }
    assert(cleaned.take(ws@.len() as int) =~= cleaned);
    out
}

/// What a query says about itself, apart from where it points.
pub struct QueryProfile {
    /// The name of the query's kind.
    pub intent: String,
    pub priority: Priority,
    pub query_type: QueryType,
    pub keywords: Vec<String>,
}

/// The name of a query kind (its `Debug` form).
pub open spec fn query_type_name(t: QueryType) -> Seq<char> {
    match t {
        QueryType::Maritime => "Maritime"@,
        QueryType::Weather => "Weather"@,
        QueryType::Satellite => "Satellite"@,
        QueryType::News => "News"@,
        QueryType::Crypto => "Crypto"@,
        QueryType::General => "General"@,
    }
}

/// The name of a query kind.
pub fn query_type_label(t: QueryType) -> (r: String)
    ensures
        r@ == query_type_name(t),
{
    to_owned_string(
        match t {
            QueryType::Maritime => "Maritime",
            QueryType::Weather => "Weather",
            QueryType::Satellite => "Satellite",
            QueryType::News => "News",
            QueryType::Crypto => "Crypto",
            QueryType::General => "General",
        },
    )
}

/// The kind, intent, priority and keywords of a query.
pub fn profile_query(query: &str) -> (r: QueryProfile)
    ensures
        r.query_type == query_type_of(lowercase_of(query@)),
        r.intent@ == query_type_name(r.query_type),
        r.priority == priority_of_lowered(lowercase_of(query@)),
        string_views(r.keywords@) == query_keywords(query@),
{
    let query_type = classify_query(query);
    QueryProfile {
        intent: query_type_label(query_type),
        priority: classify_priority(query),
        query_type,
        keywords: extract_keywords(query),
    }
}

/// Whether a query that resolved to no place falls back to the default
/// zone: only when it is not a coordinate pair (it holds no comma).
pub fn uses_default_zone(query: &str, located: bool) -> (r: bool)
    ensures
        r == (!located && !has_substring(query@, ","@)),
{
    let q = chars_of(query);
    !located && !contains(q.as_slice(), ",")
}

/// The intent recorded when the place comes from background data.
pub fn background_intent(intent: &str) -> (r: String)
    ensures
        r@ == intent@ + " (from background)"@,
{
    prefixed(intent, " (from background)")
}

/// The priority after background data: raised to high when the background
/// reports a high risk, else unchanged.
pub fn merged_priority(priority: Priority, high_risk: bool) -> (r: Priority)
    ensures
        r == (if high_risk {
            Priority::High
        } else {
            priority
        }),
{
    if high_risk {
        Priority::High
    } else {
        priority
    }
}


/// The keywords of a query are at most ten, and each is a non-empty word
/// of more than two bytes that is not a stop word.
pub proof fn law_query_keywords_are_clean(query: Seq<char>)
    ensures
        query_keywords(query).len() <= 10,
        forall|i: int|
            0 <= i < query_keywords(query).len() ==> is_keyword(#[trigger] query_keywords(query)[i]),
{
    let cleaned = words(query).map_values(|w: Seq<char>| cleaned_word(w));
    let pred = |w: Seq<char>| is_keyword(w);
    let kept = cleaned.filter(pred);
    assert forall|i: int| 0 <= i < query_keywords(query).len() implies is_keyword(
        #[trigger] query_keywords(query)[i],
    ) by {
        cleaned.lemma_filter_pred(pred, i);
        assert(query_keywords(query)[i] == kept[i]);
    }
}

} // verus!
