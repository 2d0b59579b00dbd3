//! The intelligence graph: which nodes and relationships an assessment
//! writes, and how the exported graph names and deduplicates its nodes.

use vstd::prelude::*;
use crate::text::{chars_of, chars_eq, prefixed, push_str, string_from_chars, string_views, to_lowercase, lowercase_of, to_owned_string, trim, trimmed};

verus! {

broadcast use vstd::seq_lib::group_seq_properties;

/// The texts of `names` that are not blank, in order.
pub open spec fn non_blank_names(names: Seq<Seq<char>>) -> Seq<Seq<char>> {
    names.filter(|n: Seq<char>| trimmed(n).len() > 0)
}

/// Every pair of an actor and a place, actors outermost.
pub open spec fn actor_place_pairs(actors: Seq<Seq<char>>, places: Seq<Seq<char>>) -> Seq<(Seq<char>, Seq<char>)>
    decreases actors.len(),
{
    if actors.len() == 0 {
        Seq::empty()
    } else {
        actor_place_pairs(actors.drop_last(), places) + places.map_values(|p: Seq<char>| (actors.last(), p))
    }
}

/// The providers that contributed to an assessment, in order.
pub open spec fn contributing(providers: Seq<(Seq<char>, bool)>) -> Seq<Seq<char>>
    decreases providers.len(),
{
    if providers.len() == 0 {
        Seq::empty()
    } else {
        contributing(providers.drop_last()) + if providers.last().1 {
            seq![providers.last().0]
        } else {
            Seq::empty()
        }
    }
}

/// The writes of one assessment to the graph, besides its event node.
pub struct SynthesisPlan {
    /// Zones the event is located in.
    pub zones: Vec<String>,
    /// Actors the event involves.
    pub actors: Vec<String>,
    /// Providers the event used.
    pub providers: Vec<String>,
    /// Actor and zone pairs linked as operating there.
    pub links: Vec<(String, String)>,
}

/// Keeps the names that are not blank.
fn keep_non_blank(names: &Vec<String>) -> (r: Vec<String>)
    ensures
        string_views(r@) == non_blank_names(string_views(names@)),
{
    let ghost nv = string_views(names@);
    let ghost pred = |n: Seq<char>| trimmed(n).len() > 0;
    let mut out: Vec<String> = Vec::new();
    let mut i: usize = 0;
    while i < names.len()
        invariant
            0 <= i <= names@.len(),
            nv == string_views(names@),
            pred == (|n: Seq<char>| trimmed(n).len() > 0),
            string_views(out@) == nv.take(i as int).filter(pred),
        decreases names.len() - i,
    {
        let ghost before = string_views(out@);
        assert(nv.take(i + 1).drop_last() =~= nv.take(i as int));
        assert(nv.take(i + 1).last() == names@[i as int]@);
        proof {
            reveal(Seq::filter);
        }
        let c = chars_of(names[i].as_str());
        let t = trim(c.as_slice());
        if t.len() > 0 {
            out.push(names[i].clone());
            assert(string_views(out@) =~= before.push(names@[i as int]@));
        } else {
            assert(string_views(out@) =~= before);
        }
        i = i + 1;
    }
    assert(nv.take(names@.len() as int) =~= nv);
    out
}

/// The views of a list of string pairs.
pub open spec fn pair_views(v: Seq<(String, String)>) -> Seq<(Seq<char>, Seq<char>)> {
    v.map_values(|p: (String, String)| (p.0@, p.1@))
}

/// Plans the graph writes of an assessment: the places and actors that are
/// not blank, the providers that contributed, and a link from every actor
/// to every place named (blank ones included) when both lists are non-empty.
pub fn synthesis_plan(actors: &Vec<String>, places: &Vec<String>, providers: &Vec<(String, bool)>) -> (r:
    SynthesisPlan)
    ensures
        string_views(r.zones@) == non_blank_names(string_views(places@)),
        string_views(r.actors@) == non_blank_names(string_views(actors@)),
        string_views(r.providers@) == contributing(providers@.map_values(|p: (String, bool)| (p.0@, p.1))),
        pair_views(r.links@) == actor_place_pairs(string_views(actors@), string_views(places@)),
{
    let zones = keep_non_blank(places);
    let kept_actors = keep_non_blank(actors);
    let ghost pv = providers@.map_values(|p: (String, bool)| (p.0@, p.1));
    let mut used: Vec<String> = Vec::new();
    let mut i: usize = 0;
    while i < providers.len()
        invariant
            0 <= i <= providers@.len(),
            pv == providers@.map_values(|p: (String, bool)| (p.0@, p.1)),
            string_views(used@) == contributing(pv.take(i as int)),
        decreases providers.len() - i,
    {
        assert(pv.take(i + 1).drop_last() =~= pv.take(i as int));
        let ghost before = string_views(used@);
        if providers[i].1 {
            used.push(providers[i].0.clone());
            assert(string_views(used@) =~= before.push(providers@[i as int].0@));
        }
        assert(string_views(used@) =~= contributing(pv.take(i + 1)));
        i = i + 1;
    }
    assert(pv.take(providers@.len() as int) =~= pv);
    let ghost av = string_views(actors@);
    let ghost lv = string_views(places@);
    let mut links: Vec<(String, String)> = Vec::new();
    let mut a: usize = 0;
    while a < actors.len()
        invariant
            0 <= a <= actors@.len(),
            av == string_views(actors@),
            lv == string_views(places@),
            pair_views(links@) == actor_place_pairs(av.take(a as int), lv),
        decreases actors.len() - a,
    {
        assert(av.take(a + 1).drop_last() =~= av.take(a as int));
        assert(av.take(a + 1).last() == actors@[a as int]@);
        let ghost before = pair_views(links@);
        let mut p: usize = 0;
        while p < places.len()
            invariant
                0 <= p <= places@.len(),
                0 <= a < actors@.len(),
                lv == string_views(places@),
                pair_views(links@) == before + lv.take(p as int).map_values(|q: Seq<char>| (actors@[a as int]@, q)),
            decreases places.len() - p,
        {
            let ghost mid = pair_views(links@);
            links.push((actors[a].clone(), places[p].clone()));
            assert(pair_views(links@) =~= mid.push((actors@[a as int]@, places@[p as int]@)));
            assert(lv.take(p + 1).map_values(|q: Seq<char>| (actors@[a as int]@, q)) =~= lv.take(p as int).map_values(
                |q: Seq<char>| (actors@[a as int]@, q),
            ).push((actors@[a as int]@, places@[p as int]@)));
            p = p + 1;
        }
        assert(lv.take(places@.len() as int) =~= lv);
        a = a + 1;
    }
    assert(av.take(actors@.len() as int) =~= av);
    SynthesisPlan { zones, actors: kept_actors, providers: used, links }
}

/// The identifiers already placed in an exported graph.
pub struct SeenIds {
    pub ids: Vec<String>,
}

impl SeenIds {
    /// No identifier seen yet.
    pub fn new() -> (r: Self)
        ensures
            r.ids@.len() == 0,
    {
        SeenIds { ids: Vec::new() }
    }

    /// The identifiers seen, as texts.
    pub open spec fn seen(&self) -> Seq<Seq<char>> {
        string_views(self.ids@)
    }

    /// Records an identifier; says whether it was new.
    pub fn insert(&mut self, id: &str) -> (fresh: bool)
        ensures
            fresh == !old(self).seen().contains(id@),
            fresh ==> final(self).seen() == old(self).seen().push(id@),
            !fresh ==> final(self).seen() == old(self).seen(),
            final(self).seen().contains(id@),
    {
        let want = chars_of(id);
        let mut j: usize = 0;
        while j < self.ids.len()
            invariant
                0 <= j <= self.ids@.len(),
                want@ == id@,
                forall|t: int| 0 <= t < j ==> self.ids@[t]@ != id@,
            decreases self.ids.len() - j,
        {
            let c = chars_of(self.ids[j].as_str());
            if chars_eq(c.as_slice(), want.as_slice()) {
                assert(self.seen()[j as int] == id@);
                return false;
            }
            j = j + 1;
        }
        assert(!self.seen().contains(id@)) by {
            if self.seen().contains(id@) {
                let t = choose|t: int| 0 <= t < self.seen().len() && self.seen()[t] == id@;
                assert(self.ids@[t]@ == id@);
            }
        }
        let ghost before = self.seen();
        self.ids.push(to_owned_string(id));
        assert(self.seen() =~= before.push(id@));
        assert(self.seen()[before.len() as int] == id@);
        true
    }
}

/// How a related node of the exported graph is named: its first label (or
/// `Unknown`), its name, else its MMSI, else `Unknown`, and the identifier
/// `label:name`.
pub open spec fn target_naming(labels: Seq<Seq<char>>, name: Option<Seq<char>>, mmsi: Option<Seq<char>>) -> (
    Seq<char>,
    Seq<char>,
    Seq<char>,
) {
    let label = if labels.len() > 0 {
        labels[0]
    } else {
        "Unknown"@
    };
    let n = match name {
        Some(v) => v,
        None => match mmsi {
            Some(m) => m,
            None => "Unknown"@,
        },
    };
    (label, n, label + ":"@ + n)
}

/// Names a related node of the exported graph: label, name and identifier.
pub fn target_node(labels: &Vec<String>, name: Option<String>, mmsi: Option<String>) -> (r: (String, String, String))
    ensures
        (r.0@, r.1@, r.2@) == target_naming(
            string_views(labels@),
            match name {
                Some(v) => Some(v@),
                None => None,
            },
            match mmsi {
                Some(v) => Some(v@),
                None => None,
            },
        ),
{
    let label = if labels.len() > 0 {
        labels[0].clone()
    } else {
        to_owned_string("Unknown")
    };
    let n = match name {
        Some(v) => v,
        None => match mmsi {
            Some(m) => m,
            None => to_owned_string("Unknown"),
        },
    };
    let mut id: Vec<char> = Vec::new();
    push_str(&mut id, label.as_str());
    push_str(&mut id, ":");
    push_str(&mut id, n.as_str());
    (label, n, string_from_chars(id.as_slice()))
}

/// The kind of a node in the exported graph: its label lowercased.
pub fn node_type(label: &str) -> (r: String)
    ensures
        r@ == lowercase_of(label@),
{
    to_lowercase(label)
}

} // verus!
