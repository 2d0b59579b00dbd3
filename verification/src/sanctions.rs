//! Sanctioned digital-currency addresses: reading them out of the OFAC
//! sanctions list, storing them as set members, and screening a wallet
//! against the stored members.

use vstd::prelude::*;
use crate::reports::GenericFallbackResponse;
use crate::settings::{env_value, EnvSnapshot};
use crate::text::{
    opt_view,
    chars_eq, chars_of, contains, equals, has_substring, join, joined, lowercase_of, push_str,
    split_chars, split_on, string_from_chars, string_views, strings_of, to_lowercase, to_owned_string,
    trim, trimmed,
};

verus! {

broadcast use vstd::seq_lib::group_seq_properties;

/// A grandchild of a document node: its local name (empty unless it is an
/// element) and its text.
pub struct XmlLeaf {
    pub name: String,
    pub text: Option<String>,
}

/// A child of a document node: its local name and its own children.
pub struct XmlChild {
    pub name: String,
    pub leaves: Vec<XmlLeaf>,
}

/// A node of a parsed document: its local name, its text, its
/// `featureType` attribute and its children.
pub struct XmlNodeInfo {
    pub name: String,
    pub text: Option<String>,
    pub feature_type: Option<String>,
    pub children: Vec<XmlChild>,
}

impl View for XmlLeaf {
    type V = (Seq<char>, Option<Seq<char>>);

    open spec fn view(&self) -> Self::V {
        (self.name@, opt_view(self.text))
    }
}

impl View for XmlChild {
    type V = (Seq<char>, Seq<(Seq<char>, Option<Seq<char>>)>);

    open spec fn view(&self) -> Self::V {
        (self.name@, self.leaves@.map_values(|l: XmlLeaf| l@))
    }
}

impl View for XmlNodeInfo {
    type V = (
        Seq<char>,
        Option<Seq<char>>,
        Option<Seq<char>>,
        Seq<(Seq<char>, Seq<(Seq<char>, Option<Seq<char>>)>)>,
    );

    open spec fn view(&self) -> Self::V {
        (
            self.name@,
            opt_view(self.text),
            opt_view(self.feature_type),
            self.children@.map_values(|c: XmlChild| c@),
        )
    }
}

/// The nodes of a document, as `roxmltree::Document::parse` reads it and
/// `descendants` walks it (document order), or nothing when it does not parse.
pub uninterp spec fn xml_nodes_of(xml: Seq<char>) -> Option<
    Seq<
        (
            Seq<char>,
            Option<Seq<char>>,
            Option<Seq<char>>,
            Seq<(Seq<char>, Seq<(Seq<char>, Option<Seq<char>>)>)>,
        ),
    >,
>;

/// Parses a document with `roxmltree::Document::parse` and records each of
/// its `descendants` by local name (`tag_name().name()`), `text()`,
/// `attribute("featureType")` and its children and grandchildren likewise.
/// The contract claims only that the result is `xml_nodes_of` the text.
#[verifier::external_body]
fn xml_nodes(xml: &str) -> (res: Option<Vec<XmlNodeInfo>>)
    ensures
        match res {
            Some(v) => xml_nodes_of(xml@) == Some(v@.map_values(|n: XmlNodeInfo| n@)),
            None => xml_nodes_of(xml@) is None,
        },
{
    let mut out = Vec::new();
    for n in roxmltree::Document::parse(xml).ok()?.descendants() {
        let mut children = Vec::new();
        for c in n.children() {
            let mut leaves = Vec::new();
            for g in c.children() {
                leaves.push(XmlLeaf { name: g.tag_name().name().into(), text: g.text().map(Into::into) });
            }
            children.push(XmlChild { name: c.tag_name().name().into(), leaves });
        }
        let text = n.text().map(Into::into);
        out.push(XmlNodeInfo { name: n.tag_name().name().into(), text, feature_type: n.attribute("featureType").map(Into::into), children });
    }
    Some(out)
}

/// The addresses under the `versionLocation` leaves among `leaves`, trimmed.
pub open spec fn leaf_addresses(leaves: Seq<(Seq<char>, Option<Seq<char>>)>) -> Seq<Seq<char>>
    decreases leaves.len(),
{
    if leaves.len() == 0 {
        Seq::empty()
    } else {
        let l = leaves.last();
        leaf_addresses(leaves.drop_last()) + if l.0 == "versionLocation"@ && l.1 is Some {
            seq![trimmed(l.1->0)]
        } else {
            Seq::empty()
        }
    }
}

/// The addresses under the `featureVersion` children among `children`.
pub open spec fn feature_addresses(children: Seq<(Seq<char>, Seq<(Seq<char>, Option<Seq<char>>)>)>) -> Seq<
    Seq<char>,
>
    decreases children.len(),
{
    if children.len() == 0 {
        Seq::empty()
    } else {
        let c = children.last();
        feature_addresses(children.drop_last()) + if c.0 == "featureVersion"@ {
            leaf_addresses(c.1)
        } else {
            Seq::empty()
        }
    }
}

/// Each address paired with the name of the sanctioned party.
pub open spec fn with_name(addresses: Seq<Seq<char>>, name: Seq<char>) -> Seq<(Seq<char>, Seq<char>)> {
    addresses.map_values(|a: Seq<char>| (a, name))
}

/// The sanctioned addresses found by scanning `nodes` from the state
/// (`in_publish`, `in_id`, `name`): the publish information opens the list,
/// an `id` with text inside it opens the entries, a `lastName` with text
/// then names the party, and a `feature` whose type mentions a Digital
/// Currency Address contributes its addresses under the current name.
pub open spec fn ofac_scan(
    nodes: Seq<
        (
            Seq<char>,
            Option<Seq<char>>,
            Option<Seq<char>>,
            Seq<(Seq<char>, Seq<(Seq<char>, Option<Seq<char>>)>)>,
        ),
    >,
    in_publish: bool,
    in_id: bool,
    name: Seq<char>,
) -> Seq<(Seq<char>, Seq<char>)>
    decreases nodes.len(),
{
    if nodes.len() == 0 {
        Seq::empty()
    } else {
        let n = nodes[0];
        let rest = nodes.drop_first();
        if n.0 == "publishInformation"@ {
            ofac_scan(rest, true, in_id, name)
        } else if in_publish && n.0 == "id"@ && n.1 is Some {
            ofac_scan(rest, in_publish, true, name)
        } else if in_id && n.0 == "lastName"@ && n.1 is Some {
            ofac_scan(rest, in_publish, in_id, n.1->0)
        } else if n.0 == "feature"@ && (n.2 matches Some(t) && has_substring(t, "Digital Currency Address"@)) {
            with_name(feature_addresses(n.3), name) + ofac_scan(rest, in_publish, in_id, name)
        } else {
            ofac_scan(rest, in_publish, in_id, name)
        }
    }
}

/// The sanctioned addresses of an OFAC list, with their party names; none
/// when the list does not parse.
pub open spec fn ofac_addresses(xml: Seq<char>) -> Seq<(Seq<char>, Seq<char>)> {
    match xml_nodes_of(xml) {
        Some(nodes) => ofac_scan(nodes, false, false, Seq::empty()),
        None => Seq::empty(),
    }
}

/// A sanctioned address read from the list.
pub struct OfacEntry {
    pub address: String,
    pub name: String,
    pub programs: Vec<String>,
    pub last_updated: String,
}

/// The addresses of one feature node, in document order.
fn addresses_of_feature(children: &Vec<XmlChild>) -> (r: Vec<String>)
    ensures
        string_views(r@) == feature_addresses(children@.map_values(|c: XmlChild| c@)),
{
    let ghost cv = children@.map_values(|c: XmlChild| c@);
    let mut out: Vec<String> = Vec::new();
    let mut i: usize = 0;
    while i < children.len()
        invariant
            0 <= i <= children@.len(),
            cv == children@.map_values(|c: XmlChild| c@),
            string_views(out@) == feature_addresses(cv.take(i as int)),
        decreases children.len() - i,
    {
        assert(cv.take(i + 1).drop_last() =~= cv.take(i as int));
        let child = &children[i];
        let ghost before = string_views(out@);
        let cname = chars_of(child.name.as_str());
        if equals(cname.as_slice(), "featureVersion") {
            let ghost lv = child.leaves@.map_values(|l: XmlLeaf| l@);
            let mut j: usize = 0;
            while j < child.leaves.len()
                invariant
                    0 <= j <= child.leaves@.len(),
                    lv == child.leaves@.map_values(|l: XmlLeaf| l@),
                    string_views(out@) == before + leaf_addresses(lv.take(j as int)),
                decreases child.leaves.len() - j,
            {
                assert(lv.take(j + 1).drop_last() =~= lv.take(j as int));
                let leaf = &child.leaves[j];
                let lname = chars_of(leaf.name.as_str());
                let ghost mid = string_views(out@);
                if equals(lname.as_slice(), "versionLocation") {
                    match &leaf.text {
                        Some(t) => {
                            let tc = chars_of(t.as_str());
                            let tt = trim(tc.as_slice());
                            out.push(string_from_chars(tt.as_slice()));
                            assert(string_views(out@) =~= mid.push(trimmed(t@)));
                        },
                        None => {},
                    }
                }
                assert(string_views(out@) =~= before + leaf_addresses(lv.take(j + 1)));
                j = j + 1;
            }
            assert(lv.take(child.leaves@.len() as int) =~= lv);
        }
        assert(string_views(out@) =~= feature_addresses(cv.take(i + 1)));
        i = i + 1;
    }
    assert(cv.take(children@.len() as int) =~= cv);
    out
}

/// The views of a list of entries: address and party name.
pub open spec fn entry_views(v: Seq<OfacEntry>) -> Seq<(Seq<char>, Seq<char>)> {
    v.map_values(|e: OfacEntry| (e.address@, e.name@))
}

/// Reads the sanctioned digital-currency addresses out of an OFAC sanctions
/// list; each entry is under the `OFAC_SDN` program, stamped `now`.
pub fn parse_ofac_xml(xml: &str, now: &str) -> (r: Vec<OfacEntry>)
    ensures
        entry_views(r@) == ofac_addresses(xml@),
        forall|k: int|
            0 <= k < r@.len() ==> string_views((#[trigger] r@[k]).programs@) == seq!["OFAC_SDN"@]
                && r@[k].last_updated@ == now@,
{
    let mut entries: Vec<OfacEntry> = Vec::new();
    let nodes = match xml_nodes(xml) {
        Some(n) => n,
        None => {
            return entries;
        },
    };
    let ghost all = nodes@.map_values(|n: XmlNodeInfo| n@);
    let mut in_publish = false;
    let mut in_id = false;
    let mut current_name: String = String::new();
    let mut i: usize = 0;
    assert(all.subrange(0, all.len() as int) =~= all);
    assert(current_name@ =~= Seq::<char>::empty());
    while i < nodes.len()
        invariant
            0 <= i <= nodes@.len(),
            all == nodes@.map_values(|n: XmlNodeInfo| n@),
            xml_nodes_of(xml@) == Some(all),
            ofac_scan(all, false, false, Seq::empty()) == entry_views(entries@) + ofac_scan(
                all.subrange(i as int, all.len() as int),
                in_publish,
                in_id,
                current_name@,
            ),
            forall|k: int|
                0 <= k < entries@.len() ==> string_views((#[trigger] entries@[k]).programs@) == seq![
                    "OFAC_SDN"@,
                ] && entries@[k].last_updated@ == now@,
        decreases nodes.len() - i,
    {
        let ghost suffix = all.subrange(i as int, all.len() as int);
        assert(suffix[0] == nodes@[i as int]@);
        assert(suffix.drop_first() =~= all.subrange(i + 1, all.len() as int));
        let node = &nodes[i];
        let name = chars_of(node.name.as_str());
        if equals(name.as_slice(), "publishInformation") {
            in_publish = true;
        } else if in_publish && equals(name.as_slice(), "id") && node.text.is_some() {
            in_id = true;
        } else if in_id && equals(name.as_slice(), "lastName") && node.text.is_some() {
            match &node.text {
                Some(t) => {
                    current_name = t.clone();
                },
                None => {},
            }
        } else {
            let digital = match &node.feature_type {
                Some(t) => {
                    let tc = chars_of(t.as_str());
                    contains(tc.as_slice(), "Digital Currency Address")
                },
                None => false,
            };
            if equals(name.as_slice(), "feature") && digital {
                let addrs = addresses_of_feature(&node.children);
                let ghost before = entry_views(entries@);
                let mut j: usize = 0;
                while j < addrs.len()
                    invariant
                        0 <= j <= addrs@.len(),
                        entry_views(entries@) == before + with_name(
                            string_views(addrs@).take(j as int),
                            current_name@,
                        ),
                        forall|k: int|
                            0 <= k < entries@.len() ==> string_views((#[trigger] entries@[k]).programs@)
                                == seq!["OFAC_SDN"@] && entries@[k].last_updated@ == now@,
                    decreases addrs.len() - j,
                {
                    let mut programs: Vec<String> = Vec::new();
                    programs.push(to_owned_string("OFAC_SDN"));
                    assert(string_views(programs@) =~= seq!["OFAC_SDN"@]);
                    let ghost mid = entry_views(entries@);
                    entries.push(
                        OfacEntry {
                            address: addrs[j].clone(),
                            name: current_name.clone(),
                            programs,
                            last_updated: to_owned_string(now),
                        },
                    );
                    assert(entry_views(entries@) =~= mid.push((addrs@[j as int]@, current_name@)));
                    assert(with_name(string_views(addrs@).take(j + 1), current_name@) =~= with_name(
                        string_views(addrs@).take(j as int),
                        current_name@,
                    ).push((addrs@[j as int]@, current_name@)));
                    j = j + 1;
                }
                assert(string_views(addrs@).take(addrs@.len() as int) =~= string_views(addrs@));
                assert(entry_views(entries@) =~= before + with_name(
                    feature_addresses(node.children@.map_values(|c: XmlChild| c@)),
                    current_name@,
                ));
            }
        }
        i = i + 1;
    }
    assert(entry_views(entries@) + Seq::<(Seq<char>, Seq<char>)>::empty() =~= entry_views(entries@));
    entries
}


/// The set member stored for an entry: address, party name and programs
/// (joined by `,`), separated by `|`.
pub open spec fn member_text(address: Seq<char>, name: Seq<char>, programs: Seq<Seq<char>>) -> Seq<char> {
    address + "|"@ + name + "|"@ + joined(programs, ","@)
}

/// The set member stored for an entry.
pub fn ofac_member(entry: &OfacEntry) -> (r: String)
    ensures
        r@ == member_text(entry.address@, entry.name@, string_views(entry.programs@)),
{
    let programs = join(&entry.programs, ",");
    let mut out: Vec<char> = Vec::new();
    push_str(&mut out, entry.address.as_str());
    push_str(&mut out, "|");
    push_str(&mut out, entry.name.as_str());
    push_str(&mut out, "|");
    push_str(&mut out, programs.as_str());
    string_from_chars(out.as_slice())
}

/// The outcome of screening a wallet against the stored sanctions.
pub struct OfacResult {
    pub is_sanctioned: bool,
    pub entity_name: String,
    pub programs: Vec<String>,
}

/// The party name and programs of the first member, in the order given,
/// that has at least three `|`-separated parts and whose first part equals
/// the address ignoring case.
pub open spec fn first_sanction(members: Seq<Seq<char>>, address: Seq<char>) -> Option<
    (Seq<char>, Seq<Seq<char>>),
>
    decreases members.len(),
{
    if members.len() == 0 {
        None
    } else {
        let parts = split_on(members[0], '|');
        if parts.len() >= 3 && lowercase_of(parts[0]) == lowercase_of(address) {
            Some((parts[1], split_on(parts[2], ',')))
        } else {
            first_sanction(members.drop_first(), address)
        }
    }
}

/// Screens a wallet address against the stored members.
pub fn screen_members(members: &Vec<String>, address: &str) -> (r: OfacResult)
    ensures
        match first_sanction(string_views(members@), address@) {
            Some((name, programs)) => r.is_sanctioned && r.entity_name@ == name && string_views(
                r.programs@,
            ) == programs,
            None => !r.is_sanctioned && r.entity_name@.len() == 0 && r.programs@.len() == 0,
        },
{
    let ghost mv = string_views(members@);
    let wanted_s = to_lowercase(address);
    let wanted = chars_of(wanted_s.as_str());
    let mut i: usize = 0;
    while i < members.len()
        invariant
            0 <= i <= members@.len(),
            mv == string_views(members@),
            wanted@ == lowercase_of(address@),
            first_sanction(mv, address@) == first_sanction(mv.subrange(i as int, mv.len() as int), address@),
        decreases members.len() - i,
    {
        let ghost suffix = mv.subrange(i as int, mv.len() as int);
        assert(suffix[0] == members@[i as int]@);
        assert(suffix.drop_first() =~= mv.subrange(i + 1, mv.len() as int));
        let m = chars_of(members[i].as_str());
        let parts = split_chars(m.as_slice(), '|');
        if parts.len() >= 3 {
            let p0 = string_from_chars(parts[0].as_slice());
            let lower0 = to_lowercase(p0.as_str());
            let l0 = chars_of(lower0.as_str());
            if chars_eq(l0.as_slice(), wanted.as_slice()) {
                let pieces = split_chars(parts[2].as_slice(), ',');
                let programs = strings_of(&pieces);
                assert(string_views(programs@) =~= split_on(parts@[2]@, ','));
                return OfacResult {
                    is_sanctioned: true,
                    entity_name: string_from_chars(parts[1].as_slice()),
                    programs,
                };
            }
        }
        i = i + 1;
    }
    assert(mv.subrange(mv.len() as int, mv.len() as int) =~= Seq::<Seq<char>>::empty());
    OfacResult { is_sanctioned: false, entity_name: String::new(), programs: Vec::new() }
}

/// Splitting a text without the separator yields the text alone.
proof fn lemma_split_without_sep(s: Seq<char>, sep: char)
    requires
        !s.contains(sep),
    ensures
        split_on(s, sep) == seq![s],
    decreases s.len(),
{
    if s.len() > 0 {
        assert(!s.drop_first().contains(sep)) by {
            if s.drop_first().contains(sep) {
                let k = choose|k: int| 0 <= k < s.drop_first().len() && s.drop_first()[k] == sep;
                assert(s[k + 1] == sep);
            }
        }
        lemma_split_without_sep(s.drop_first(), sep);
        assert(s[0] != sep);
        assert(seq![s[0]] + s.drop_first() =~= s);
    } else {
        assert(s =~= Seq::<char>::empty());
    }
}

/// Splitting at a separator that ends a first piece without it.
proof fn lemma_split_after(a: Seq<char>, sep: char, rest: Seq<char>)
    requires
        !a.contains(sep),
    ensures
        split_on(a + seq![sep] + rest, sep) == seq![a] + split_on(rest, sep),
    decreases a.len(),
{
    if a.len() == 0 {
        assert(a + seq![sep] + rest =~= seq![sep] + rest);
        assert((seq![sep] + rest).drop_first() =~= rest);
        assert(a =~= Seq::<char>::empty());
    } else {
        let s = a + seq![sep] + rest;
        assert(!a.drop_first().contains(sep)) by {
            if a.drop_first().contains(sep) {
                let k = choose|k: int| 0 <= k < a.drop_first().len() && a.drop_first()[k] == sep;
                assert(a[k + 1] == sep);
            }
        }
        lemma_split_after(a.drop_first(), sep, rest);
        assert(s.drop_first() =~= a.drop_first() + seq![sep] + rest);
        assert(s[0] == a[0]);
        assert(a[0] != sep);
        assert(seq![a[0]] + a.drop_first() =~= a);
    }
}

/// Splitting a joined list at its separator gives the list back, when no
/// piece holds the separator.
proof fn lemma_split_joined(parts: Seq<Seq<char>>, sep: char)
    requires
        parts.len() > 0,
        forall|k: int| 0 <= k < parts.len() ==> !(#[trigger] parts[k]).contains(sep),
    ensures
        split_on(joined(parts, seq![sep]), sep) == parts,
    decreases parts.len(),
{
    if parts.len() == 1 {
        lemma_split_without_sep(parts[0], sep);
        assert(seq![parts[0]] =~= parts);
    } else {
        let init = parts.drop_last();
        lemma_split_joined_last(init, parts.last(), sep);
        assert(init.push(parts.last()) =~= parts);
    }
}

/// Joining one more piece adds one more split piece.
proof fn lemma_split_joined_last(init: Seq<Seq<char>>, last: Seq<char>, sep: char)
    requires
        init.len() > 0,
        forall|k: int| 0 <= k < init.len() ==> !(#[trigger] init[k]).contains(sep),
        !last.contains(sep),
    ensures
        split_on(joined(init.push(last), seq![sep]), sep) == init.push(last),
    decreases init.len(),
{
    let parts = init.push(last);
    assert(parts.drop_last() =~= init);
    if init.len() == 1 {
        assert(joined(init, seq![sep]) == init[0]);
        assert(joined(parts, seq![sep]) == init[0] + seq![sep] + last);
        lemma_split_after(init[0], sep, last);
        lemma_split_without_sep(last, sep);
        assert(seq![init[0]] + seq![last] =~= parts);
    } else {
        // joined(parts) = joined(init) + sep + last, and the first piece of
        // init comes first.
        let first = init[0];
        let tail = init.drop_first();
        assert(forall|k: int| 0 <= k < tail.len() ==> !(#[trigger] tail[k]).contains(sep)) by {
            assert forall|k: int| 0 <= k < tail.len() implies !(#[trigger] tail[k]).contains(sep) by {
                assert(tail[k] == init[k + 1]);
            }
        }
        lemma_joined_front(init, seq![sep]);
        lemma_joined_front(parts, seq![sep]);
        assert(parts.drop_first() =~= tail.push(last));
        lemma_split_joined_last(tail, last, sep);
        lemma_split_after(first, sep, joined(tail.push(last), seq![sep]));
        assert(seq![first] + tail.push(last) =~= parts);
    }
}

/// A joined list of two or more pieces starts with its first piece and the
/// separator.
proof fn lemma_joined_front(parts: Seq<Seq<char>>, sep: Seq<char>)
    requires
        parts.len() >= 2,
    ensures
        joined(parts, sep) == parts[0] + sep + joined(parts.drop_first(), sep),
    decreases parts.len(),
{
    if parts.len() == 2 {
        assert(parts.drop_last() =~= seq![parts[0]]);
        assert(parts.drop_first() =~= seq![parts[1]]);
        assert(joined(parts.drop_last(), sep) == parts[0]);
        assert(joined(parts.drop_first(), sep) == parts[1]);
    } else {
        let init = parts.drop_last();
        lemma_joined_front(init, sep);
        assert(init.drop_first() =~= parts.drop_first().drop_last());
        assert(parts.drop_first().last() == parts.last());
        assert(parts.drop_first().len() >= 2);
        assert(joined(parts.drop_first(), sep) == joined(parts.drop_first().drop_last(), sep) + sep
            + parts.drop_first().last());
    }
}

/// What screening reads back of a stored member: screening the address of
/// a member alone finds the party name and programs it was stored with,
/// when no field holds a `|`, no program holds a `,`, and there is at least
/// one program.
pub proof fn law_member_roundtrip(address: Seq<char>, name: Seq<char>, programs: Seq<Seq<char>>)
    requires
        !address.contains('|'),
        !name.contains('|'),
        programs.len() > 0,
        forall|k: int| 0 <= k < programs.len() ==> !(#[trigger] programs[k]).contains('|')
            && !programs[k].contains(','),
    ensures
        first_sanction(seq![member_text(address, name, programs)], address) == Some((name, programs)),
{
    let j = joined(programs, ","@);
    assert(","@ =~= seq![',']) by {
        reveal_strlit(",");
    }
    assert("|"@ =~= seq!['|']) by {
        reveal_strlit("|");
    }
    lemma_split_joined(programs, ',');
    assert(!j.contains('|')) by {
        lemma_joined_avoids(programs, ","@, '|');
    }
    let m = member_text(address, name, programs);
    assert(m =~= address + seq!['|'] + (name + seq!['|'] + j));
    lemma_split_after(address, '|', name + seq!['|'] + j);
    lemma_split_after(name, '|', j);
    lemma_split_without_sep(j, '|');
    assert(split_on(m, '|') =~= seq![address, name, j]);
    let ms = seq![m];
    assert(ms[0] == m);
}

/// A joined list holds a character only if a piece or the separator does.
proof fn lemma_joined_avoids(parts: Seq<Seq<char>>, sep: Seq<char>, c: char)
    requires
        !sep.contains(c),
        forall|k: int| 0 <= k < parts.len() ==> !(#[trigger] parts[k]).contains(c),
    ensures
        !joined(parts, sep).contains(c),
    decreases parts.len(),
{
    if parts.len() > 1 {
        lemma_joined_avoids(parts.drop_last(), sep, c);
        let a = joined(parts.drop_last(), sep);
        let l = parts.last();
        assert(!l.contains(c));
        let s = a + sep + l;
        if s.contains(c) {
            let k = choose|k: int| 0 <= k < s.len() && s[k] == c;
            if k < a.len() {
                assert(a[k] == c);
            } else if k < a.len() + sep.len() {
                assert(sep[k - a.len()] == c);
            } else {
                assert(l[k - a.len() - sep.len()] == c);
            }
        }
    } else if parts.len() == 1 {
        assert(!parts[0].contains(c));
    }
}

/// The API key of the risk-scoring service: set and not empty, else the
/// error that it is not configured.
pub fn misttrack_key(env: &EnvSnapshot) -> (r: Result<String, String>)
    ensures
        match env_value(env, "MISTTRACK_API_KEY"@) {
            Some(k) if k.len() > 0 => r matches Ok(v) && v@ == k,
            _ => r matches Err(e) && e@ == "MISTTRACK_API_KEY not configured"@,
        },
{
    match env.get("MISTTRACK_API_KEY") {
        Some(k) => {
            let c = chars_of(k);
            if c.len() > 0 {
                return Ok(to_owned_string(k));
            }
        },
        None => {},
    }
    Err(to_owned_string("MISTTRACK_API_KEY not configured"))
}

/// The reply of the wallet screening: the screened wallet when screening
/// succeeded, else the screening error.
pub fn screening_response<T>(screened: Result<T, String>) -> (r: GenericFallbackResponse<T>)
    ensures
        r.provider_path matches Some(p) && p@ == "OFAC_MISTTRACK"@,
        match screened {
            Ok(t) => r.status@ == "ok"@ && r.error is None && r.results@ == seq![t],
            Err(e) => r.status@ == "screening_error"@ && (r.error matches Some(m) && m@ == e@)
                && r.results@.len() == 0,
        },
{
    match screened {
        Ok(t) => {
            let mut results = Vec::new();
            results.push(t);
            GenericFallbackResponse {
                status: to_owned_string("ok"),
                provider_path: Some(to_owned_string("OFAC_MISTTRACK")),
                error: None,
                results,
            }
        },
        Err(e) => GenericFallbackResponse {
            status: to_owned_string("screening_error"),
            provider_path: Some(to_owned_string("OFAC_MISTTRACK")),
            error: Some(e),
            results: Vec::new(),
        },
    }
}


/// A screening hit comes from a stored member: one whose address equals the
/// screened address ignoring case, with the party name and programs it holds.
pub proof fn law_hit_comes_from_a_member(members: Seq<Seq<char>>, address: Seq<char>)
    ensures
        first_sanction(members, address) matches Some((name, programs)) ==> exists|i: int|
            0 <= i < members.len() && {
                let parts = split_on(#[trigger] members[i], '|');
                &&& parts.len() >= 3
                &&& lowercase_of(parts[0]) == lowercase_of(address)
                &&& parts[1] == name
                &&& split_on(parts[2], ',') == programs
            },
    decreases members.len(),
{
    if members.len() > 0 {
        let parts = split_on(members[0], '|');
        if !(parts.len() >= 3 && lowercase_of(parts[0]) == lowercase_of(address)) {
            law_hit_comes_from_a_member(members.drop_first(), address);
            if first_sanction(members, address) is Some {
                let hit = first_sanction(members, address)->0;
                let i = choose|i: int|
                    0 <= i < members.drop_first().len() && {
                        let p = split_on(#[trigger] members.drop_first()[i], '|');
                        &&& p.len() >= 3
                        &&& lowercase_of(p[0]) == lowercase_of(address)
                        &&& p[1] == hit.0
                        &&& split_on(p[2], ',') == hit.1
                    };
                assert(members[i + 1] == members.drop_first()[i]);
            }
        }
    }
}

} // verus!
