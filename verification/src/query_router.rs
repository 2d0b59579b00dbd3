//! Routing of analyst queries to the providers that can answer them.

use vstd::prelude::*;
use crate::settings::{EnvSnapshot, env_value, value_or};
use crate::text::{
    chars_of, contains, contains_any, ends_with, equals, has_prefix, has_substring, has_suffix,
    lemma_mentions_any_texts, lowercase_of, mentions_any, mentions_word, starts_with, to_lowercase,
};

verus! {

/// The kind of intelligence a query asks for.
#[derive(Debug, Clone, Copy, PartialEq, Eq, Structural, Hash)]
pub enum QueryType {
    Maritime,
    Weather,
    Satellite,
    News,
    Crypto,
    General,
}

/// Words that mark a maritime query.
pub open spec fn maritime_words() -> Seq<&'static str> {
    seq![
        "vessel", "ship", "navy", "carrier", "submarine", "fleet", "maritime", "ais", "port",
        "harbor", "sea", "ocean",
    ]
}

/// Words that mark a weather query (besides the words "rain" and "wind").
pub open spec fn weather_words() -> Seq<&'static str> {
    seq!["weather", "storm", "cyclone", "typhoon", "flood", "temperature", "climate", "visibility"]
}

/// Words that mark a satellite query.
pub open spec fn satellite_words() -> Seq<&'static str> {
    seq![
        "satellite", "imagery", "copernicus", "sentinel", "radar", "reconnaissance",
        "surveillance", "thermal", "infrared",
    ]
}

/// Words that mark a financial query.
pub open spec fn crypto_words() -> Seq<&'static str> {
    seq![
        "crypto", "wallet", "bitcoin", "sanction", "ofac", "blockchain", "transaction",
        "terror financing",
    ]
}

/// Words that mark a news query.
pub open spec fn news_words() -> Seq<&'static str> {
    seq![
        "border", "incursion", "attack", "conflict", "war", "military", "army", "terror",
        "threat", "news", "latest",
    ]
}

/// `w` stands as a word of its own in `l`: between spaces, at the start
/// followed by a space, at the end after a space, or as the whole text.
pub open spec fn standalone_word(l: Seq<char>, w: Seq<char>) -> bool {
    ||| has_substring(l, seq![' '] + w + seq![' '])
    ||| has_prefix(l, w + seq![' '])
    ||| has_suffix(l, seq![' '] + w)
    ||| l == w
}

/// The query type of an already lowercased query; the first matching group
/// wins, in the order maritime, weather, satellite, crypto, news.
pub open spec fn query_type_of(l: Seq<char>) -> QueryType {
    if mentions_any(l, maritime_words()) {
        QueryType::Maritime
    } else if mentions_any(l, weather_words()) || standalone_word(l, "rain"@) || standalone_word(
        l,
        "wind"@,
    ) {
        QueryType::Weather
    } else if mentions_any(l, satellite_words()) {
        QueryType::Satellite
    } else if mentions_any(l, crypto_words()) {
        QueryType::Crypto
    } else if mentions_any(l, news_words()) {
        QueryType::News
    } else {
        QueryType::General
    }
}

fn standalone(l: &[char], spaced: &str, leading: &str, trailing: &str, word: &str) -> (r: bool)
    requires
        exists|w: Seq<char>|
            spaced@ == seq![' '] + w + seq![' '] && leading@ == w + seq![' '] && trailing@ == seq![
                ' ',
            ] + w && word@ == w,
    ensures
        r == standalone_word(l@, word@),
{
    let r = contains(l, spaced) || starts_with(l, leading) || ends_with(l, trailing) || equals(
        l,
        word,
    );
    r
}

/// Classifies a query that has already been lowercased.
pub fn classify_lowercase_query(lower: &str) -> (t: QueryType)
    ensures
        t == query_type_of(lower@),
{
    let l = chars_of(lower);
    let maritime: [&str; 12] = [
        "vessel", "ship", "navy", "carrier", "submarine", "fleet", "maritime", "ais", "port",
        "harbor", "sea", "ocean",
    ];
    assert(maritime@ =~= maritime_words());
    if contains_any(l.as_slice(), &maritime) {
        return QueryType::Maritime;
    }
    let weather: [&str; 8] = [
        "weather", "storm", "cyclone", "typhoon", "flood", "temperature", "climate", "visibility",
    ];
    assert(weather@ =~= weather_words());
    proof {
        reveal_strlit(" rain ");
        reveal_strlit("rain ");
        reveal_strlit(" rain");
        reveal_strlit("rain");
        reveal_strlit(" wind ");
        reveal_strlit("wind ");
        reveal_strlit(" wind");
        reveal_strlit("wind");
        assert(" rain "@ =~= seq![' '] + "rain"@ + seq![' ']);
        assert("rain "@ =~= "rain"@ + seq![' ']);
        assert(" rain"@ =~= seq![' '] + "rain"@);
        assert(" wind "@ =~= seq![' '] + "wind"@ + seq![' ']);
        assert("wind "@ =~= "wind"@ + seq![' ']);
        assert(" wind"@ =~= seq![' '] + "wind"@);
    }
    if contains_any(l.as_slice(), &weather) || standalone(l.as_slice(), " rain ", "rain ", " rain", "rain")
        || standalone(l.as_slice(), " wind ", "wind ", " wind", "wind") {
        return QueryType::Weather;
    }
    let satellite: [&str; 9] = [
        "satellite", "imagery", "copernicus", "sentinel", "radar", "reconnaissance",
        "surveillance", "thermal", "infrared",
    ];
    assert(satellite@ =~= satellite_words());
    if contains_any(l.as_slice(), &satellite) {
        return QueryType::Satellite;
    }
    let crypto: [&str; 8] = [
        "crypto", "wallet", "bitcoin", "sanction", "ofac", "blockchain", "transaction",
        "terror financing",
    ];
    assert(crypto@ =~= crypto_words());
    if contains_any(l.as_slice(), &crypto) {
        return QueryType::Crypto;
    }
    let news: [&str; 11] = [
        "border", "incursion", "attack", "conflict", "war", "military", "army", "terror",
        "threat", "news", "latest",
    ];
    assert(news@ =~= news_words());
    if contains_any(l.as_slice(), &news) {
        return QueryType::News;
    }
    QueryType::General
}

/// Classifies a query's intent by its keywords, ignoring case.
pub fn classify_query(q: &str) -> (t: QueryType)
    ensures
        t == query_type_of(lowercase_of(q@)),
{
    let lower = to_lowercase(q);
    classify_lowercase_query(lower.as_str())
}

/// Whether query routing is on: `QUERY_ROUTING_ENABLED` is `true`, or unset.
pub fn routing_enabled(env: &EnvSnapshot) -> (r: bool)
    ensures
        r == (value_or(env_value(env, "QUERY_ROUTING_ENABLED"@), "true"@) == "true"@),
{
    env.value_is("QUERY_ROUTING_ENABLED", "true", "true")
}

/// The providers that serve each query type.
pub open spec fn providers_for(t: QueryType) -> Seq<&'static str> {
    match t {
        QueryType::Maritime => seq!["aisstream", "maritime"],
        QueryType::Weather => seq!["openweather", "weather"],
        QueryType::Satellite => seq!["sentinel", "satellite"],
        QueryType::News => seq!["newsapi", "tavily", "osint"],
        QueryType::Crypto => seq!["ofac", "misttrack", "crypto"],
        QueryType::General => seq!["newsapi", "tavily", "openweather"],
    }
}

/// The providers to consult for a query type.
pub fn get_providers_for_query(query_type: QueryType) -> (r: Vec<&'static str>)
    ensures
        r@ == providers_for(query_type),
{
    let r = match query_type {
        QueryType::Maritime => vec!["aisstream", "maritime"],
        QueryType::Weather => vec!["openweather", "weather"],
        QueryType::Satellite => vec!["sentinel", "satellite"],
        QueryType::News => vec!["newsapi", "tavily", "osint"],
        QueryType::Crypto => vec!["ofac", "misttrack", "crypto"],
        QueryType::General => vec!["newsapi", "tavily", "openweather"],
    };
    assert(r@ =~= providers_for(query_type));
    r
}

/// Words of ships and the sea.
pub open spec fn naval_terms() -> Seq<Seq<char>> {
    seq![
        "vessel"@, "ship"@, "navy"@, "carrier"@, "submarine"@, "fleet"@, "maritime"@, "ais"@,
        "port"@, "harbor"@, "sea"@, "ocean"@,
    ]
}

/// Words of the weather.
pub open spec fn weather_terms() -> Seq<Seq<char>> {
    seq![
        "weather"@, "storm"@, "cyclone"@, "typhoon"@, "flood"@, "temperature"@, "climate"@,
        "visibility"@,
    ]
}

/// Words of imagery from orbit or the air.
pub open spec fn imagery_terms() -> Seq<Seq<char>> {
    seq![
        "satellite"@, "imagery"@, "copernicus"@, "sentinel"@, "radar"@, "reconnaissance"@,
        "surveillance"@, "thermal"@, "infrared"@,
    ]
}

/// Words of money flows and sanctions.
pub open spec fn finance_terms() -> Seq<Seq<char>> {
    seq![
        "crypto"@, "wallet"@, "bitcoin"@, "sanction"@, "ofac"@, "blockchain"@, "transaction"@,
        "terror financing"@,
    ]
}

/// Words of conflict and current events.
pub open spec fn conflict_terms() -> Seq<Seq<char>> {
    seq![
        "border"@, "incursion"@, "attack"@, "conflict"@, "war"@, "military"@, "army"@, "terror"@,
        "threat"@, "news"@, "latest"@,
    ]
}

/// `w` occurs in `l` delimited by spaces or the ends of the text.
pub open spec fn spaced_word(l: Seq<char>, w: Seq<char>) -> bool {
    has_substring(l, seq![' '] + w + seq![' ']) || has_prefix(l, w + seq![' ']) || has_suffix(
        l,
        seq![' '] + w,
    ) || l == w
}

/// The query talks about the weather: a weather word, or "rain" or "wind"
/// as words of their own.
pub open spec fn weather_mentioned(l: Seq<char>) -> bool {
    mentions_word(l, weather_terms()) || spaced_word(l, "rain"@) || spaced_word(l, "wind"@)
}

proof fn lemma_word_lists(l: Seq<char>)
    ensures
        mentions_any(l, maritime_words()) == mentions_word(l, naval_terms()),
        mentions_any(l, weather_words()) == mentions_word(l, weather_terms()),
        mentions_any(l, satellite_words()) == mentions_word(l, imagery_terms()),
        mentions_any(l, crypto_words()) == mentions_word(l, finance_terms()),
        mentions_any(l, news_words()) == mentions_word(l, conflict_terms()),
{
    assert(maritime_words().map_values(|k: &str| k@) =~= naval_terms());
    assert(weather_words().map_values(|k: &str| k@) =~= weather_terms());
    assert(satellite_words().map_values(|k: &str| k@) =~= imagery_terms());
    assert(crypto_words().map_values(|k: &str| k@) =~= finance_terms());
    assert(news_words().map_values(|k: &str| k@) =~= conflict_terms());
    assert forall|i: int| 0 <= i < maritime_words().len() implies #[trigger] maritime_words()[i]@
        == naval_terms()[i] by {
        assert(maritime_words().map_values(|k: &str| k@)[i] == maritime_words()[i]@);
    }
    assert forall|i: int| 0 <= i < weather_words().len() implies #[trigger] weather_words()[i]@
        == weather_terms()[i] by {
        assert(weather_words().map_values(|k: &str| k@)[i] == weather_words()[i]@);
    }
    assert forall|i: int| 0 <= i < satellite_words().len() implies #[trigger] satellite_words()[i]@
        == imagery_terms()[i] by {
        assert(satellite_words().map_values(|k: &str| k@)[i] == satellite_words()[i]@);
    }
    assert forall|i: int| 0 <= i < crypto_words().len() implies #[trigger] crypto_words()[i]@
        == finance_terms()[i] by {
        assert(crypto_words().map_values(|k: &str| k@)[i] == crypto_words()[i]@);
    }
    assert forall|i: int| 0 <= i < news_words().len() implies #[trigger] news_words()[i]@
        == conflict_terms()[i] by {
        assert(news_words().map_values(|k: &str| k@)[i] == news_words()[i]@);
    }
    lemma_mentions_any_texts(l, maritime_words(), naval_terms());
    lemma_mentions_any_texts(l, weather_words(), weather_terms());
    lemma_mentions_any_texts(l, satellite_words(), imagery_terms());
    lemma_mentions_any_texts(l, crypto_words(), finance_terms());
    lemma_mentions_any_texts(l, news_words(), conflict_terms());
}

/// The topics of a (lowercased) query are weighed in a fixed order: ships
/// first, then weather, imagery, money and conflict; the first topic the
/// query mentions decides its type, and a query that mentions none is
/// general. Imagery queries go to the satellite providers and conflict
/// queries to the news providers.
pub proof fn law_topic_precedence(l: Seq<char>)
    ensures
        mentions_word(l, naval_terms()) ==> query_type_of(l) == QueryType::Maritime,
        !mentions_word(l, naval_terms()) && weather_mentioned(l) ==> query_type_of(l)
            == QueryType::Weather,
        !mentions_word(l, naval_terms()) && !weather_mentioned(l) && mentions_word(l, imagery_terms())
            ==> query_type_of(l) == QueryType::Satellite,
        !mentions_word(l, naval_terms()) && !weather_mentioned(l) && !mentions_word(l, imagery_terms())
            && mentions_word(l, finance_terms()) ==> query_type_of(l) == QueryType::Crypto,
        !mentions_word(l, naval_terms()) && !weather_mentioned(l) && !mentions_word(l, imagery_terms())
            && !mentions_word(l, finance_terms()) && mentions_word(l, conflict_terms())
            ==> query_type_of(l) == QueryType::News,
        !mentions_word(l, naval_terms()) && !weather_mentioned(l) && !mentions_word(l, imagery_terms())
            && !mentions_word(l, finance_terms()) && !mentions_word(l, conflict_terms())
            ==> query_type_of(l) == QueryType::General,
        query_type_of(l) == QueryType::Satellite ==> providers_for(query_type_of(l)).map_values(
            |p: &str| p@,
        ) == seq!["sentinel"@, "satellite"@],
        query_type_of(l) == QueryType::News ==> providers_for(query_type_of(l)).map_values(
            |p: &str| p@,
        ) == seq!["newsapi"@, "tavily"@, "osint"@],
{
    lemma_word_lists(l);
    assert(providers_for(QueryType::Satellite).map_values(|p: &str| p@) =~= seq!["sentinel"@, "satellite"@]);
    assert(providers_for(QueryType::News).map_values(|p: &str| p@) =~= seq!["newsapi"@, "tavily"@, "osint"@]);
}

/// The same for a whole query, compared without regard to case: what
/// `classify_query` returns.
pub proof fn law_query_topic_precedence(q: Seq<char>)
    ensures
        !mentions_word(lowercase_of(q), naval_terms()) && !weather_mentioned(lowercase_of(q))
            && mentions_word(lowercase_of(q), imagery_terms()) ==> query_type_of(lowercase_of(q))
            == QueryType::Satellite,
        !mentions_word(lowercase_of(q), naval_terms()) && !weather_mentioned(lowercase_of(q))
            && !mentions_word(lowercase_of(q), imagery_terms()) && !mentions_word(
            lowercase_of(q),
            finance_terms(),
        ) && mentions_word(lowercase_of(q), conflict_terms()) ==> query_type_of(lowercase_of(q))
            == QueryType::News,
{
    law_topic_precedence(lowercase_of(q));
}

} // verus!
