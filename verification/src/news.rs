//! Threat headlines: the watched keywords, how a headline is matched and
//! graded, and the reply of the news provider.

use vstd::prelude::*;
use crate::feeds::{feed_titles, item_titles, xml_events_of};
use crate::reports::GenericFallbackResponse;
use crate::settings::{env_value, value_or, EnvSnapshot};
use crate::text::{
    chars_of, prefixed, contains, contains_any, has_substring, join, joined, lowercase_of,
    mentions_any, split_chars, split_on, string_from_chars, string_views, to_lowercase, to_owned_string,
    trim, trimmed,
};

verus! {

broadcast use vstd::seq_lib::group_seq_properties;

/// A headline that mentions watched keywords.
pub struct NewsThreat {
    pub title: String,
    pub source: String,
    /// `high`, `medium` or `low`.
    pub severity: String,
    /// The watched keywords that the title mentions, in watch-list order.
    pub keywords: Vec<String>,
    pub timestamp: String,
}

impl View for NewsThreat {
    type V = (Seq<char>, Seq<char>, Seq<char>, Seq<Seq<char>>, Seq<char>);

    open spec fn view(&self) -> Self::V {
        (self.title@, self.source@, self.severity@, string_views(self.keywords@), self.timestamp@)
    }
}

/// The keyword list used when `THREAT_KEYWORDS` is not set.
pub open spec fn default_keywords() -> Seq<char> {
    "border,incursion,terror,weapon,vessel"@
}

/// A comma-separated keyword list: each piece trimmed and lowercased.
pub open spec fn keyword_list(raw: Seq<char>) -> Seq<Seq<char>> {
    split_on(raw, ',').map_values(|p: Seq<char>| lowercase_of(trimmed(p)))
}

/// Splits a comma-separated keyword list, trimming and lowercasing each piece.
pub fn parse_keyword_list(raw: &str) -> (res: Vec<String>)
    ensures
        string_views(res@) == keyword_list(raw@),
{
    let cs = chars_of(raw);
    let pieces = split_chars(cs.as_slice(), ',');
    let ghost want = keyword_list(raw@);
    let mut out: Vec<String> = Vec::new();
    let mut i: usize = 0;
    while i < pieces.len()
        invariant
            0 <= i <= pieces@.len(),
            pieces@.len() == split_on(raw@, ',').len(),
            forall|k: int| 0 <= k < pieces@.len() ==> (#[trigger] pieces@[k])@ == split_on(raw@, ',')[k],
            want == keyword_list(raw@),
            string_views(out@) == want.take(i as int),
        decreases pieces.len() - i,
    {
        let t = trim(pieces[i].as_slice());
        let s = string_from_chars(t.as_slice());
        let lower = to_lowercase(s.as_str());
        let ghost before = string_views(out@);
        assert(want[i as int] == lowercase_of(trimmed(split_on(raw@, ',')[i as int])));
        assert(lower@ == want[i as int]);
        out.push(lower);
        assert(string_views(out@) =~= before.push(want[i as int]));
        assert(want.take(i + 1) =~= want.take(i as int).push(want[i as int]));
        i = i + 1;
    }
    assert(want.take(pieces@.len() as int) =~= want);
    out
}

/// The watched keywords: `THREAT_KEYWORDS` when set, else the default list.
pub open spec fn watched_keywords(env: &EnvSnapshot) -> Seq<Seq<char>> {
    keyword_list(value_or(env_value(env, "THREAT_KEYWORDS"@), default_keywords()))
}

/// The watched keywords of the environment.
pub fn keywords(env: &EnvSnapshot) -> (res: Vec<String>)
    ensures
        string_views(res@) == watched_keywords(env),
{
    let raw = match env.get("THREAT_KEYWORDS") {
        Some(v) => to_owned_string(v),
        None => to_owned_string("border,incursion,terror,weapon,vessel"),
    };
    proof {
        reveal_strlit("border,incursion,terror,weapon,vessel");
    }
    parse_keyword_list(raw.as_str())
}

/// The feeds polled for headlines: `RSS_FEEDS` (by default the Dawn and
/// Global Times feeds) split on commas, each trimmed, blank entries dropped.
pub open spec fn feed_list(env: &EnvSnapshot) -> Seq<Seq<char>> {
    split_on(
        value_or(
            env_value(env, "RSS_FEEDS"@),
            "https://www.dawn.com/rss/latest,https://www.globaltimes.cn/rss"@,
        ),
        ',',
    ).map_values(|p: Seq<char>| trimmed(p)).filter(|p: Seq<char>| p.len() > 0)
}

/// Reads the list of feeds to poll.
pub fn rss_feeds(env: &EnvSnapshot) -> (res: Vec<String>)
    ensures
        string_views(res@) == feed_list(env),
{
    let raw = match env.get("RSS_FEEDS") {
        Some(v) => to_owned_string(v),
        None => to_owned_string("https://www.dawn.com/rss/latest,https://www.globaltimes.cn/rss"),
    };
    let cs = chars_of(raw.as_str());
    let pieces = split_chars(cs.as_slice(), ',');
    let ghost all = split_on(raw@, ',').map_values(|p: Seq<char>| trimmed(p));
    let ghost pred = |p: Seq<char>| p.len() > 0;
    let mut out: Vec<String> = Vec::new();
    let mut i: usize = 0;
    while i < pieces.len()
        invariant
            0 <= i <= pieces@.len(),
            pieces@.len() == split_on(raw@, ',').len(),
            forall|k: int| 0 <= k < pieces@.len() ==> (#[trigger] pieces@[k])@ == split_on(raw@, ',')[k],
            all == split_on(raw@, ',').map_values(|p: Seq<char>| trimmed(p)),
            pred == (|p: Seq<char>| p.len() > 0),
            string_views(out@) == all.take(i as int).filter(pred),
        decreases pieces.len() - i,
    {
        let ghost before = string_views(out@);
        assert(all.take(i + 1).drop_last() =~= all.take(i as int));
        assert(all.take(i + 1).last() == trimmed(pieces@[i as int]@));
        proof {
            reveal(Seq::filter);
        }
        let t = trim(pieces[i].as_slice());
        if t.len() > 0 {
            out.push(string_from_chars(t.as_slice()));
            assert(string_views(out@) =~= before.push(t@));
        } else {
            assert(string_views(out@) =~= before);
        }
        i = i + 1;
    }
    assert(all.take(pieces@.len() as int) =~= all);
    out
}

/// The severity of a lowercased headline: `high` when it mentions an attack
/// or terror, else `medium` when it mentions an incursion or conflict, else
/// `low`.
pub open spec fn severity_of_lowered(lower: Seq<char>) -> Seq<char> {
    if has_substring(lower, "attack"@) || has_substring(lower, "terror"@) {
        "high"@
    } else if has_substring(lower, "incursion"@) || has_substring(lower, "conflict"@) {
        "medium"@
    } else {
        "low"@
    }
}

/// The severity of a headline, ignoring case.
pub open spec fn title_severity(title: Seq<char>) -> Seq<char> {
    severity_of_lowered(lowercase_of(title))
}

/// Grades a headline by its wording.
pub fn severity_from_title(title: &str) -> (res: String)
    ensures
        res@ == title_severity(title@),
{
    let lower = to_lowercase(title);
    let l = chars_of(lower.as_str());
    if contains(l.as_slice(), "attack") || contains(l.as_slice(), "terror") {
        to_owned_string("high")
    } else if contains(l.as_slice(), "incursion") || contains(l.as_slice(), "conflict") {
        to_owned_string("medium")
    } else {
        to_owned_string("low")
    }
}

/// The keywords of `keys` that occur in the lowercased headline, in the
/// order of `keys`.
pub open spec fn title_hits(title: Seq<char>, keys: Seq<Seq<char>>) -> Seq<Seq<char>> {
    keys.filter(|k: Seq<char>| has_substring(lowercase_of(title), k))
}

/// The keywords of `keys` that the headline mentions, ignoring the case of
/// the headline.
pub fn extract_keywords(title: &str, keys: &Vec<String>) -> (res: Vec<String>)
    ensures
        string_views(res@) == title_hits(title@, string_views(keys@)),
{
    let lower = to_lowercase(title);
    let l = chars_of(lower.as_str());
    let ghost kv = string_views(keys@);
    let ghost pred = |k: Seq<char>| has_substring(lowercase_of(title@), k);
    let mut out: Vec<String> = Vec::new();
    let mut i: usize = 0;
    while i < keys.len()
        invariant
            0 <= i <= keys@.len(),
            kv == string_views(keys@),
            l@ == lowercase_of(title@),
            pred == (|k: Seq<char>| has_substring(lowercase_of(title@), k)),
            string_views(out@) == kv.take(i as int).filter(pred),
        decreases keys.len() - i,
    {
        let ghost before = string_views(out@);
        assert(kv.take(i + 1).drop_last() =~= kv.take(i as int));
        assert(kv.take(i + 1).last() == keys@[i as int]@);
        proof {
            reveal(Seq::filter);
        }
        let k = chars_of(keys[i].as_str());
        if crate::text::contains_chars(l.as_slice(), k.as_slice()) {
            out.push(keys[i].clone());
            assert(string_views(out@) =~= before.push(keys@[i as int]@));
        } else {
            assert(string_views(out@) =~= before);
        }
        i = i + 1;
    }
    assert(kv.take(keys@.len() as int) =~= kv);
    out
}

/// What a headline becomes: a threat carrying the headline, `source`, its
/// severity, its keyword hits and `timestamp` when it mentions at least one
/// watched keyword, else nothing.
pub open spec fn headline_threat_of(
    title: Seq<char>,
    source: Seq<char>,
    keys: Seq<Seq<char>>,
    timestamp: Seq<char>,
) -> Option<(Seq<char>, Seq<char>, Seq<char>, Seq<Seq<char>>, Seq<char>)> {
    let hits = title_hits(title, keys);
    if hits.len() > 0 {
        Some((title, source, title_severity(title), hits, timestamp))
    } else {
        None
    }
}

/// The threat a headline reports, if it mentions a watched keyword.
pub fn headline_threat(title: &str, source: &str, keys: &Vec<String>, timestamp: &str) -> (r: Option<
    NewsThreat,
>)
    ensures
        match r {
            Some(t) => headline_threat_of(title@, source@, string_views(keys@), timestamp@) == Some(t@),
            None => headline_threat_of(title@, source@, string_views(keys@), timestamp@) is None,
        },
{
    let hits = extract_keywords(title, keys);
    if hits.len() == 0 {
        return None;
    }
    Some(
        NewsThreat {
            title: to_owned_string(title),
            source: to_owned_string(source),
            severity: severity_from_title(title),
            keywords: hits,
            timestamp: to_owned_string(timestamp),
        },
    )
}

/// The threats reported by a list of headlines from one source, in order.
pub open spec fn headline_threats(
    titles: Seq<Seq<char>>,
    source: Seq<char>,
    keys: Seq<Seq<char>>,
    timestamp: Seq<char>,
) -> Seq<(Seq<char>, Seq<char>, Seq<char>, Seq<Seq<char>>, Seq<char>)>
    decreases titles.len(),
{
    if titles.len() == 0 {
        Seq::empty()
    } else {
        let rest = headline_threats(titles.drop_last(), source, keys, timestamp);
        match headline_threat_of(titles.last(), source, keys, timestamp) {
            Some(t) => rest.push(t),
            None => rest,
        }
    }
}

/// The views of a list of threats.
pub open spec fn threat_views(v: Seq<NewsThreat>) -> Seq<
    (Seq<char>, Seq<char>, Seq<char>, Seq<Seq<char>>, Seq<char>),
> {
    v.map_values(|t: NewsThreat| t@)
}

/// The threats reported by the headlines `titles`, all from `source`.
pub fn threats_from_titles(titles: &Vec<String>, source: &str, keys: &Vec<String>, timestamp: &str) -> (res:
    Vec<NewsThreat>)
    ensures
        threat_views(res@) == headline_threats(
            string_views(titles@),
            source@,
            string_views(keys@),
            timestamp@,
        ),
{
    let ghost tv = string_views(titles@);
    let mut out: Vec<NewsThreat> = Vec::new();
    let mut i: usize = 0;
    while i < titles.len()
        invariant
            0 <= i <= titles@.len(),
            tv == string_views(titles@),
            threat_views(out@) == headline_threats(
                tv.take(i as int),
                source@,
                string_views(keys@),
                timestamp@,
            ),
        decreases titles.len() - i,
    {
        let ghost before = threat_views(out@);
        assert(tv.take(i + 1).drop_last() =~= tv.take(i as int));
        assert(tv.take(i + 1).last() == titles@[i as int]@);
        match headline_threat(titles[i].as_str(), source, keys, timestamp) {
            Some(t) => {
                out.push(t);
                assert(threat_views(out@) =~= before.push(out@.last()@));
            },
            None => {
                assert(threat_views(out@) =~= before);
            },
        }
        i = i + 1;
    }
    assert(tv.take(titles@.len() as int) =~= tv);
    out
}

/// The source label of a feed's headlines.
pub open spec fn feed_source(feed: Seq<char>) -> Seq<char> {
    "RSS: "@ + feed
}

/// The threats reported by the item titles of the RSS document `body`,
/// fetched from `feed`.
pub fn feed_threats(body: &str, feed: &str, keys: &Vec<String>, timestamp: &str) -> (res: Vec<
    NewsThreat,
>)
    ensures
        threat_views(res@) == headline_threats(
            item_titles(xml_events_of(body@)),
            feed_source(feed@),
            string_views(keys@),
            timestamp@,
        ),
{
    let titles = feed_titles(body);
    let source = prefixed("RSS: ", feed);
    threats_from_titles(&titles, source.as_str(), keys, timestamp)
}

/// The search query sent to the news API: the keywords joined by ` OR `.
pub fn news_query(keys: &Vec<String>) -> (res: String)
    ensures
        res@ == joined(string_views(keys@), " OR "@),
{
    join(keys, " OR ")
}

/// The reply of the news provider after a fetch: `ok` with the threats when
/// there are any, else `provider_missing` with the errors joined by `; `.
pub fn news_response(output: Vec<NewsThreat>, errors: &Vec<String>) -> (r: GenericFallbackResponse<
    NewsThreat,
>)
    ensures
        r.provider_path matches Some(p) && p@ == "newsapi+rss"@,
        output@.len() > 0 ==> r.status@ == "ok"@ && r.error is None && r.results@ == output@,
        output@.len() == 0 ==> {
            &&& r.status@ == "provider_missing"@
            &&& r.error matches Some(e) && e@ == joined(string_views(errors@), "; "@)
            &&& r.results@.len() == 0
        },
{
    crate::reports::fetched_reply("newsapi+rss", output, errors)
}

/// The reply of the news provider when the last fetch is still cached.
pub fn cached_news_response(rows: Vec<NewsThreat>) -> (r: GenericFallbackResponse<NewsThreat>)
    ensures
        r.status@ == "ok"@,
        r.provider_path matches Some(p) && p@ == "redis_cache"@,
        r.error is None,
        r.results@ == rows@,
{
    crate::reports::cached_reply(rows)
}

/// The headlines of `titles` that mention one of `words`, matched with case.
pub open spec fn watched_titles(titles: Seq<Seq<char>>, words: Seq<&str>) -> Seq<Seq<char>> {
    titles.filter(|t: Seq<char>| mentions_any(t, words))
}

/// The headlines of `titles` that mention one of `words`, matched with case.
pub fn titles_mentioning(titles: &Vec<String>, words: &[&str]) -> (res: Vec<String>)
    ensures
        string_views(res@) == watched_titles(string_views(titles@), words@),
{
    let ghost tv = string_views(titles@);
    let ghost pred = |t: Seq<char>| mentions_any(t, words@);
    let mut out: Vec<String> = Vec::new();
    let mut i: usize = 0;
    while i < titles.len()
        invariant
            0 <= i <= titles@.len(),
            tv == string_views(titles@),
            pred == (|t: Seq<char>| mentions_any(t, words@)),
            string_views(out@) == tv.take(i as int).filter(pred),
        decreases titles.len() - i,
    {
        let ghost before = string_views(out@);
        assert(tv.take(i + 1).drop_last() =~= tv.take(i as int));
        assert(tv.take(i + 1).last() == titles@[i as int]@);
        proof {
            reveal(Seq::filter);
        }
        let t = chars_of(titles[i].as_str());
        if contains_any(t.as_slice(), words) {
            out.push(titles[i].clone());
            assert(string_views(out@) =~= before.push(titles@[i as int]@));
        } else {
            assert(string_views(out@) =~= before);
        }
        i = i + 1;
    }
    assert(tv.take(titles@.len() as int) =~= tv);
    out
}

/// The words that mark a Pakistan headline as a threat.
pub open spec fn pakistan_watch_words() -> Seq<&'static str> {
    seq!["Saeed", "JeM", "LeT"]
}

/// The words that mark a China headline as a threat.
pub open spec fn china_watch_words() -> Seq<&'static str> {
    seq!["PLA", "Ladakh", "Xinjiang"]
}

/// The item titles of a Pakistan RSS document that name a watched group.
pub fn pakistan_feed_hits(body: &str) -> (res: Vec<String>)
    ensures
        string_views(res@) == watched_titles(item_titles(xml_events_of(body@)), pakistan_watch_words()),
{
    let titles = feed_titles(body);
    let words: [&str; 3] = ["Saeed", "JeM", "LeT"];
    assert(words@ =~= pakistan_watch_words());
    titles_mentioning(&titles, &words)
}

/// The item titles of a China RSS document that name a watched region or force.
pub fn china_feed_hits(body: &str) -> (res: Vec<String>)
    ensures
        string_views(res@) == watched_titles(item_titles(xml_events_of(body@)), china_watch_words()),
{
    let titles = feed_titles(body);
    let words: [&str; 3] = ["PLA", "Ladakh", "Xinjiang"];
    assert(words@ =~= china_watch_words());
    titles_mentioning(&titles, &words)
}


/// The keywords reported for a headline are exactly the watched keywords
/// that the lowercased headline contains: each reported one is watched and
/// contained, and each watched one that is contained is reported.
pub proof fn law_hits_are_the_mentioned_keywords(title: Seq<char>, keys: Seq<Seq<char>>)
    ensures
        forall|i: int|
            0 <= i < title_hits(title, keys).len() ==> keys.contains(#[trigger] title_hits(title, keys)[i])
                && has_substring(lowercase_of(title), title_hits(title, keys)[i]),
        forall|j: int|
            0 <= j < keys.len() && has_substring(lowercase_of(title), keys[j]) ==> title_hits(
                title,
                keys,
            ).contains(#[trigger] keys[j]),
{
    let pred = |k: Seq<char>| has_substring(lowercase_of(title), k);
    assert forall|i: int| 0 <= i < title_hits(title, keys).len() implies keys.contains(
        #[trigger] title_hits(title, keys)[i],
    ) && has_substring(lowercase_of(title), title_hits(title, keys)[i]) by {
        keys.lemma_filter_pred(pred, i);
        assert(title_hits(title, keys).contains(title_hits(title, keys)[i]));
        keys.lemma_filter_contains_rev(pred, title_hits(title, keys)[i]);
    }
    assert forall|j: int| 0 <= j < keys.len() && has_substring(lowercase_of(title), keys[j]) implies title_hits(
        title,
        keys,
    ).contains(#[trigger] keys[j]) by {
        keys.lemma_filter_contains(pred, j);
    }
}

} // verus!
