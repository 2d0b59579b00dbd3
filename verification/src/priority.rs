//! Keyword-based priority of analyst queries and what each priority triggers.

use vstd::prelude::*;
use crate::text::{chars_of, contains_any, lemma_mentions_any_texts, lowercase_of, mentions_any, mentions_word, to_lowercase};

verus! {

/// How urgently a query or event is handled.
#[derive(Debug, Clone, Copy, PartialEq, Eq, Structural, PartialOrd, Ord, Hash)]
pub enum Priority {
    Low,
    Medium,
    High,
}

/// The name of a priority.
pub open spec fn priority_name(p: Priority) -> Seq<char> {
    match p {
        Priority::High => "high"@,
        Priority::Medium => "medium"@,
        Priority::Low => "low"@,
    }
}

impl Priority {
    /// The lowercase name of the priority.
    pub fn as_str(&self) -> (r: &'static str)
        ensures
            r@ == priority_name(*self),
    {
        match self {
            Priority::High => "high",
            Priority::Medium => "medium",
            Priority::Low => "low",
        }
    }

    /// The priority's name as an owned string (what `Display` writes).
    pub fn to_string(&self) -> (r: String)
        ensures
            r@ == priority_name(*self),
    {
        crate::text::to_owned_string(self.as_str())
    }
}

impl Default for Priority {
    fn default() -> (r: Self)
        ensures
            r == Priority::Low,
    {
        Priority::Low
    }
}

/// Keywords that make a query high priority.
pub open spec fn high_keywords() -> Seq<&'static str> {
    seq![
        "military", "attack", "incursion", "invasion", "war", "conflict",
        "terror", "terrorist", "terrorism", "bomb", "explosion", "casualty",
        "casualties", "killed", "dead", "hostage", "kidnap", "abduction",
        "missile", "rocket", "artillery", "artillery fire", "gunfire",
        "nuclear", "chemical", "biological", "weapon", "weapons",
        "anomaly", "suspicious", "unidentified", "unknown",
        "emergency", "urgent", "critical", "alert",
    ]
}

/// Keywords that make a query medium priority.
pub open spec fn medium_keywords() -> Seq<&'static str> {
    seq![
        "border", "patrol", "deployment", "mobilization", "exercise",
        "drill", "surveillance", "reconnaissance", "intelligence",
        "economic", "trade", "sanction", "embargo",
        "weather", "storm", "cyclone", "flood",
    ]
}

/// The priority of an already lowercased query: high when it mentions a
/// high-priority keyword, else medium when it mentions a medium-priority
/// keyword, else low.
pub open spec fn priority_of_lowered(lower: Seq<char>) -> Priority {
    if mentions_any(lower, high_keywords()) {
        Priority::High
    } else if mentions_any(lower, medium_keywords()) {
        Priority::Medium
    } else {
        Priority::Low
    }
}

/// Classifies a query that has already been lowercased.
pub fn classify_lowercase_priority(lower: &str) -> (p: Priority)
    ensures
        p == priority_of_lowered(lower@),
{
    let l = chars_of(lower);
    let high: [&str; 36] = [
        "military", "attack", "incursion", "invasion", "war", "conflict",
        "terror", "terrorist", "terrorism", "bomb", "explosion", "casualty",
        "casualties", "killed", "dead", "hostage", "kidnap", "abduction",
        "missile", "rocket", "artillery", "artillery fire", "gunfire",
        "nuclear", "chemical", "biological", "weapon", "weapons",
        "anomaly", "suspicious", "unidentified", "unknown",
        "emergency", "urgent", "critical", "alert",
    ];
    assert(high@ =~= high_keywords());
    if contains_any(l.as_slice(), &high) {
        return Priority::High;
    }
    let medium: [&str; 17] = [
        "border", "patrol", "deployment", "mobilization", "exercise",
        "drill", "surveillance", "reconnaissance", "intelligence",
        "economic", "trade", "sanction", "embargo",
        "weather", "storm", "cyclone", "flood",
    ];
    assert(medium@ =~= medium_keywords());
    if contains_any(l.as_slice(), &medium) {
        return Priority::Medium;
    }
    Priority::Low
}

/// Classifies a query's priority by its keywords, ignoring case.
pub fn classify_priority(query: &str) -> (p: Priority)
    ensures
        p == priority_of_lowered(lowercase_of(query@)),
{
    let lower = to_lowercase(query);
    classify_lowercase_priority(lower.as_str())
}

/// Whether an event of priority `priority` is sent to the language model:
/// always when high, only when new when medium, never when low.
pub fn should_trigger_llm(priority: Priority, is_new: bool) -> (r: bool)
    ensures
        r == match priority {
            Priority::High => true,
            Priority::Medium => is_new,
            Priority::Low => false,
        },
{
    match priority {
        Priority::High => true,
        Priority::Medium => is_new,
        Priority::Low => false,
    }
}

/// The interface color of a priority.
pub open spec fn color_of(p: Priority) -> Seq<char> {
    match p {
        Priority::High => "#DC2626"@,
        Priority::Medium => "#F59E0B"@,
        Priority::Low => "#10B981"@,
    }
}

/// The interface color of a priority: red, amber or green.
pub fn priority_color(priority: Priority) -> (r: &'static str)
    ensures
        r@ == color_of(priority),
{
    match priority {
        Priority::High => "#DC2626",
        Priority::Medium => "#F59E0B",
        Priority::Low => "#10B981",
    }
}

/// The words that make a query urgent: violence, weapons, casualties,
/// unidentified activity and emergencies.
pub open spec fn urgent_words() -> Seq<Seq<char>> {
    seq![
        "military"@, "attack"@, "incursion"@, "invasion"@, "war"@, "conflict"@,
        "terror"@, "terrorist"@, "terrorism"@, "bomb"@, "explosion"@, "casualty"@,
        "casualties"@, "killed"@, "dead"@, "hostage"@, "kidnap"@, "abduction"@,
        "missile"@, "rocket"@, "artillery"@, "artillery fire"@, "gunfire"@,
        "nuclear"@, "chemical"@, "biological"@, "weapon"@, "weapons"@,
        "anomaly"@, "suspicious"@, "unidentified"@, "unknown"@,
        "emergency"@, "urgent"@, "critical"@, "alert"@,
    ]
}

/// The words of routine security, economic and weather topics.
pub open spec fn routine_words() -> Seq<Seq<char>> {
    seq![
        "border"@, "patrol"@, "deployment"@, "mobilization"@, "exercise"@,
        "drill"@, "surveillance"@, "reconnaissance"@, "intelligence"@,
        "economic"@, "trade"@, "sanction"@, "embargo"@,
        "weather"@, "storm"@, "cyclone"@, "flood"@,
    ]
}

/// An urgent word makes a query high priority whatever routine words it also
/// mentions; a routine word without an urgent one makes it medium priority;
/// a query with neither is low priority. (`lower` is the lowercased query.)
pub proof fn law_urgent_words_take_precedence(lower: Seq<char>)
    ensures
        mentions_word(lower, urgent_words()) ==> priority_of_lowered(lower) == Priority::High,
        !mentions_word(lower, urgent_words()) && mentions_word(lower, routine_words())
            ==> priority_of_lowered(lower) == Priority::Medium,
        !mentions_word(lower, urgent_words()) && !mentions_word(lower, routine_words())
            ==> priority_of_lowered(lower) == Priority::Low,
{
    assert(high_keywords().map_values(|k: &str| k@) =~= urgent_words());
    assert(medium_keywords().map_values(|k: &str| k@) =~= routine_words());
    assert forall|i: int| 0 <= i < high_keywords().len() implies #[trigger] high_keywords()[i]@
        == urgent_words()[i] by {
        assert(high_keywords().map_values(|k: &str| k@)[i] == high_keywords()[i]@);
    }
    assert forall|i: int| 0 <= i < medium_keywords().len() implies #[trigger] medium_keywords()[i]@
        == routine_words()[i] by {
        assert(medium_keywords().map_values(|k: &str| k@)[i] == medium_keywords()[i]@);
    }
    lemma_mentions_any_texts(lower, high_keywords(), urgent_words());
    lemma_mentions_any_texts(lower, medium_keywords(), routine_words());
}

/// The same for a whole query, compared without regard to case: what
/// `classify_priority` returns.
pub proof fn law_query_priority_by_words(query: Seq<char>)
    ensures
        mentions_word(lowercase_of(query), urgent_words()) ==> priority_of_lowered(lowercase_of(query))
            == Priority::High,
        !mentions_word(lowercase_of(query), urgent_words()) && mentions_word(
            lowercase_of(query),
            routine_words(),
        ) ==> priority_of_lowered(lowercase_of(query)) == Priority::Medium,
{
    law_urgent_words_take_precedence(lowercase_of(query));
}

} // verus!
