//! Open-source search: how a query is widened, how its results are cached
//! and how the results of several searches are merged.

use vstd::prelude::*;
use crate::text::{
    chars_of, prefixed, contains, has_substring, join, joined, lowercase_of, replace, replaced,
    string_from_chars, string_views, to_lowercase, to_owned_string,
};

verus! {

/// The two queries added for a topic.
pub open spec fn topic_pair(query: Seq<char>, applies: bool, a: Seq<char>, b: Seq<char>) -> Seq<Seq<char>> {
    if applies {
        seq![query + a, query + b]
    } else {
        Seq::empty()
    }
}

/// Every query a search is widened to, before the limit: the query itself;
/// for borders, the military and conflict angles; for ships, the naval and
/// shipping angles; for imagery, the satellite and infrastructure angles;
/// and always the security and intelligence angles. Topics are recognised
/// in the lowercased query.
pub open spec fn all_expansions(query: Seq<char>) -> Seq<Seq<char>> {
    let lower = lowercase_of(query);
    seq![query] + topic_pair(
        query,
        has_substring(lower, "border"@) || has_substring(lower, "ladakh"@) || has_substring(
            lower,
            "kargil"@,
        ),
        " military activity"@,
        " conflict"@,
    ) + topic_pair(
        query,
        has_substring(lower, "vessel"@) || has_substring(lower, "ship"@) || has_substring(
            lower,
            "maritime"@,
        ),
        " naval exercise"@,
        " shipping route"@,
    ) + topic_pair(
        query,
        has_substring(lower, "satellite"@) || has_substring(lower, "imagery"@),
        " satellite activity"@,
        " infrastructure changes"@,
    ) + seq![query + " security threat"@, query + " intelligence report"@]
}

/// The queries a search is widened to: the first five of `all_expansions`.
pub open spec fn expansions(query: Seq<char>) -> Seq<Seq<char>> {
    let all = all_expansions(query);
    if all.len() > 5 {
        all.take(5)
    } else {
        all
    }
}

/// Appends the two queries of a topic when it applies.
fn push_pair(out: &mut Vec<String>, query: &str, applies: bool, a: &str, b: &str)
    ensures
        string_views(final(out)@) == string_views(old(out)@) + topic_pair(query@, applies, a@, b@),
{
    if applies {
        let ghost before = string_views(out@);
        out.push(prefixed(query, a));
        out.push(prefixed(query, b));
        assert(string_views(out@) =~= before + topic_pair(query@, applies, a@, b@));
    } else {
        assert(string_views(out@) =~= string_views(out@) + Seq::<Seq<char>>::empty());
    }
}

/// Widens a search query with military and intelligence angles, at most five.
pub fn expand_query(query: &str) -> (res: Vec<String>)
    ensures
        string_views(res@) == expansions(query@),
{
    let lower_s = to_lowercase(query);
    let l = chars_of(lower_s.as_str());
    let mut all: Vec<String> = Vec::new();
    all.push(to_owned_string(query));
    assert(string_views(all@) =~= seq![query@]);
    let border = contains(l.as_slice(), "border") || contains(l.as_slice(), "ladakh") || contains(
        l.as_slice(),
        "kargil",
    );
    push_pair(&mut all, query, border, " military activity", " conflict");
    let ships = contains(l.as_slice(), "vessel") || contains(l.as_slice(), "ship") || contains(
        l.as_slice(),
        "maritime",
    );
    push_pair(&mut all, query, ships, " naval exercise", " shipping route");
    let imagery = contains(l.as_slice(), "satellite") || contains(l.as_slice(), "imagery");
    push_pair(&mut all, query, imagery, " satellite activity", " infrastructure changes");
    push_pair(&mut all, query, true, " security threat", " intelligence report");
    assert(string_views(all@) =~= all_expansions(query@));
    if all.len() > 5 {
        all.truncate(5);
        assert(string_views(all@) =~= all_expansions(query@).take(5));
    }
    all
}

/// The cache name of a search: the lowercased query with spaces as underscores.
pub open spec fn search_cache_name(query: Seq<char>) -> Seq<char> {
    replaced(lowercase_of(query), " "@, "_"@)
}

/// The cache name of a search.
pub fn search_cache_key(query: &str) -> (res: String)
    ensures
        res@ == search_cache_name(query@),
{
    let lower = to_lowercase(query);
    let l = chars_of(lower.as_str());
    proof {
        reveal_strlit(" ");
    }
    let r = replace(l.as_slice(), " ", "_");
    string_from_chars(r.as_slice())
}

/// The cache entry of a search.
pub fn search_cache_entry(query: &str) -> (res: String)
    ensures
        res@ == "cache:tavily:"@ + search_cache_name(query@),
{
    let name = search_cache_key(query);
    prefixed("cache:tavily:", name.as_str())
}

/// The positions of the first result for each URL, in order.
pub open spec fn first_positions(urls: Seq<Seq<char>>) -> Seq<int>
    decreases urls.len(),
{
    if urls.len() == 0 {
        Seq::empty()
    } else {
        let rest = first_positions(urls.drop_last());
        if urls.drop_last().contains(urls.last()) {
            rest
        } else {
            rest.push(urls.len() - 1)
        }
    }
}

/// Whether `urls[..n]` holds `u`.
fn seen_before(urls: &Vec<String>, n: usize, u: &str) -> (r: bool)
    requires
        n <= urls@.len(),
    ensures
        r == string_views(urls@).take(n as int).contains(u@),
{
    let uc = chars_of(u);
    let mut j: usize = 0;
    while j < n
        invariant
            0 <= j <= n <= urls@.len(),
            uc@ == u@,
            forall|k: int| 0 <= k < j ==> urls@[k]@ != u@,
        decreases n - j,
    {
        let c = chars_of(urls[j].as_str());
        if crate::text::chars_eq(c.as_slice(), uc.as_slice()) {
            assert(string_views(urls@).take(n as int)[j as int] == u@);
            return true;
        }
        j = j + 1;
    }
    assert forall|k: int| 0 <= k < n implies string_views(urls@).take(n as int)[k] != u@ by {}
    false
}

/// Which results survive merging: the first of each URL, in order (the
/// positions into `urls`).
pub fn first_of_each_url(urls: &Vec<String>) -> (res: Vec<usize>)
    ensures
        res@.len() == first_positions(string_views(urls@)).len(),
        forall|k: int| 0 <= k < res@.len() ==> res@[k] as int == #[trigger] first_positions(string_views(urls@))[k],
{
    let ghost uv = string_views(urls@);
    let mut out: Vec<usize> = Vec::new();
    let mut i: usize = 0;
    while i < urls.len()
        invariant
            0 <= i <= urls@.len(),
            uv == string_views(urls@),
            out@.len() == first_positions(uv.take(i as int)).len(),
            forall|k: int| 0 <= k < out@.len() ==> out@[k] as int == #[trigger] first_positions(uv.take(i as int))[k],
        decreases urls.len() - i,
    {
        assert(uv.take(i + 1).drop_last() =~= uv.take(i as int));
        assert(uv.take(i + 1).last() == urls@[i as int]@);
        if !seen_before(urls, i, urls[i].as_str()) {
            out.push(i);
        }
        i = i + 1;
    }
    assert(uv.take(urls@.len() as int) =~= uv);
    out
}

/// The merged answer of several searches: the answers joined by spaces, or
/// none when no search answered.
pub fn merged_answer(answers: &Vec<String>) -> (r: Option<String>)
    ensures
        answers@.len() == 0 ==> r is None,
        answers@.len() > 0 ==> (r matches Some(a) && a@ == joined(string_views(answers@), " "@)),
{
    if answers.len() == 0 {
        None
    } else {
        Some(join(answers, " "))
    }
}


/// A search is widened to between three and five queries: the query itself
/// first, and each of the others the query followed by an angle.
pub proof fn law_expansions_start_with_query(query: Seq<char>)
    ensures
        3 <= expansions(query).len() <= 5,
        expansions(query)[0] == query,
        forall|i: int|
            0 <= i < expansions(query).len() ==> crate::text::has_prefix(#[trigger] expansions(query)[i], query),
{
    let all = all_expansions(query);
    assert(all[0] == query);
    assert forall|i: int| 0 <= i < all.len() implies crate::text::has_prefix(#[trigger] all[i], query) by {
        assert(all[i].subrange(0, query.len() as int) =~= query);
    }
}

/// Whether the URL `u` is the URL of a kept position.
pub open spec fn url_kept(urls: Seq<Seq<char>>, u: Seq<char>) -> bool {
    exists|k: int| 0 <= k < first_positions(urls).len() && urls[#[trigger] first_positions(urls)[k]] == u
}

/// Merging keeps exactly one result per URL: the kept positions are
/// increasing, their URLs are all different, and every URL of the results
/// is among them.
pub proof fn law_merge_keeps_one_per_url(urls: Seq<Seq<char>>)
    ensures
        forall|a: int, b: int|
            0 <= a < b < first_positions(urls).len() ==> #[trigger] first_positions(urls)[a] < #[trigger] first_positions(urls)[b]
                && urls[first_positions(urls)[a]] != urls[first_positions(urls)[b]],
        forall|k: int| 0 <= k < first_positions(urls).len() ==> 0 <= #[trigger] first_positions(urls)[k] < urls.len(),
        forall|j: int| 0 <= j < urls.len() ==> url_kept(urls, #[trigger] urls[j]),
    decreases urls.len(),
{
    if urls.len() > 0 {
        let init = urls.drop_last();
        law_merge_keeps_one_per_url(init);
        let rest = first_positions(init);
        assert forall|k: int| 0 <= k < rest.len() implies urls[#[trigger] rest[k]] == init[rest[k]] by {}
        if !init.contains(urls.last()) {
            let fp = rest.push(urls.len() - 1);
            assert(first_positions(urls) == fp);
            assert forall|a: int, b: int| 0 <= a < b < fp.len() implies #[trigger] fp[a] < #[trigger] fp[b] && urls[fp[a]] != urls[fp[b]] by {
                if b == fp.len() - 1 {
                    assert(init[rest[a]] == urls[fp[a]]);
                    assert(init.contains(init[rest[a]]));
                } else {
                    assert(rest[a] < rest[b]);
                }
            }
            assert forall|j: int| 0 <= j < urls.len() implies url_kept(urls, #[trigger] urls[j]) by {
                if j == urls.len() - 1 {
                    assert(urls[fp[fp.len() - 1]] == urls[j]);
                } else {
                    assert(init[j] == urls[j]);
                    assert(url_kept(init, init[j]));
                    let k = choose|k: int| 0 <= k < rest.len() && init[#[trigger] rest[k]] == init[j];
                    assert(urls[fp[k]] == urls[j]);
                }
            }
        } else {
            assert(first_positions(urls) == rest);
            assert forall|j: int| 0 <= j < urls.len() implies url_kept(urls, #[trigger] urls[j]) by {
                if j == urls.len() - 1 {
                    let t = choose|t: int| 0 <= t < init.len() && init[t] == urls.last();
                    assert(url_kept(init, init[t]));
                    let k = choose|k: int| 0 <= k < rest.len() && init[#[trigger] rest[k]] == init[t];
                    assert(urls[rest[k]] == urls[j]);
                } else {
                    assert(init[j] == urls[j]);
                    assert(url_kept(init, init[j]));
                    let k = choose|k: int| 0 <= k < rest.len() && init[#[trigger] rest[k]] == init[j];
                    assert(urls[rest[k]] == urls[j]);
                }
            }
        }
    }
}

} // verus!
