//! Headline extraction from RSS documents: the titles of the items of a feed.

use vstd::prelude::*;
use crate::text::{chars_of, equals, string_views};
use xml::reader::{EventReader, XmlEvent};

verus! {

/// The kind of a parse event of an XML document.
#[derive(Debug, Clone, Copy, PartialEq, Eq, Structural)]
pub enum XmlKind {
    /// An element opens; the text is its local name.
    Start,
    /// An element closes; the text is its local name.
    End,
    /// Character data; the text is the data.
    Text,
    /// Any other event, or the parse error that ends the document.
    Other,
}

/// One parse event: its kind and its text.
pub struct XmlItem {
    pub kind: XmlKind,
    pub text: String,
}

impl View for XmlItem {
    type V = (XmlKind, Seq<char>);

    open spec fn view(&self) -> (XmlKind, Seq<char>) {
        (self.kind, self.text@)
    }
}

/// The views of a list of parse events.
pub open spec fn item_views(v: Seq<XmlItem>) -> Seq<(XmlKind, Seq<char>)> {
    v.map_values(|e: XmlItem| e@)
}

/// The events that `xml::reader::EventReader` yields for a document, in order,
/// ending with the end of the document or the first parse error.
pub uninterp spec fn xml_events_of(body: Seq<char>) -> Seq<(XmlKind, Seq<char>)>;

/// Runs `xml::reader::EventReader` over the document and records each event
/// by kind and text. The contract claims only that the result is the
/// function `xml_events_of` of the document's characters.
#[verifier::external_body]
fn xml_events(body: &str) -> (res: Vec<XmlItem>)
    ensures
        item_views(res@) == xml_events_of(body@),
{
    let mut out = Vec::new();
    for event in EventReader::new(body.as_bytes()) {
        out.push(match event {
            Ok(XmlEvent::StartElement { name, .. }) => XmlItem { kind: XmlKind::Start, text: name.local_name },
            Ok(XmlEvent::EndElement { name }) => XmlItem { kind: XmlKind::End, text: name.local_name },
            Ok(XmlEvent::Characters(text)) => XmlItem { kind: XmlKind::Text, text },
            _ => XmlItem { kind: XmlKind::Other, text: String::new() },
        });
    }
    out
}

/// The titles found by scanning `events` from the state (`in_item`,
/// `in_title`): an `item` element opens an item, a `title` element opened
/// inside an item opens a title, closing either leaves it, and the character
/// data met while a title is open is a title.
pub open spec fn titles_scan(events: Seq<(XmlKind, Seq<char>)>, in_item: bool, in_title: bool) -> Seq<
    Seq<char>,
>
    decreases events.len(),
{
    if events.len() == 0 {
        Seq::empty()
    } else {
        let e = events[0];
        let rest = events.drop_first();
        match e.0 {
            XmlKind::Start => titles_scan(
                rest,
                in_item || e.1 == "item"@,
                in_title || (in_item && e.1 == "title"@),
            ),
            XmlKind::End => titles_scan(rest, in_item && e.1 != "item"@, in_title && e.1 != "title"@),
            XmlKind::Text => if in_title {
                seq![e.1] + titles_scan(rest, in_item, in_title)
            } else {
                titles_scan(rest, in_item, in_title)
            },
            XmlKind::Other => titles_scan(rest, in_item, in_title),
        }
    }
}

/// The item titles of a document's parse events, in document order.
pub open spec fn item_titles(events: Seq<(XmlKind, Seq<char>)>) -> Seq<Seq<char>> {
    titles_scan(events, false, false)
}

/// The item titles of a list of parse events.
pub fn titles_of_events(events: &Vec<XmlItem>) -> (res: Vec<String>)
    ensures
        string_views(res@) == item_titles(item_views(events@)),
{
    let ghost all = item_views(events@);
    let mut out: Vec<String> = Vec::new();
    let mut in_item = false;
    let mut in_title = false;
    let mut i: usize = 0;
    assert(all.subrange(0, all.len() as int) =~= all);
    while i < events.len()
        invariant
            0 <= i <= events@.len(),
            all == item_views(events@),
            item_titles(all) == string_views(out@) + titles_scan(
                all.subrange(i as int, all.len() as int),
                in_item,
                in_title,
            ),
        decreases events.len() - i,
    {
        let ghost suffix = all.subrange(i as int, all.len() as int);
        assert(suffix[0] == events@[i as int]@);
        assert(suffix.drop_first() =~= all.subrange(i + 1, all.len() as int));
        let e = &events[i];
        let name = chars_of(e.text.as_str());
        match e.kind {
            XmlKind::Start => {
                let opens_title = in_item && equals(name.as_slice(), "title");
                if equals(name.as_slice(), "item") {
                    in_item = true;
                }
                if opens_title {
                    in_title = true;
                }
            },
            XmlKind::End => {
                if equals(name.as_slice(), "item") {
                    in_item = false;
                }
                if equals(name.as_slice(), "title") {
                    in_title = false;
                }
            },
            XmlKind::Text => {
                if in_title {
                    let ghost before = string_views(out@);
                    out.push(e.text.clone());
                    assert(string_views(out@) =~= before.push(e.text@));
                    assert(before.push(e.text@) + titles_scan(suffix.drop_first(), in_item, in_title)
                        =~= before + (seq![e.text@] + titles_scan(suffix.drop_first(), in_item, in_title)));
                }
            },
            XmlKind::Other => {},
        }
        i = i + 1;
    }
    assert(string_views(out@) + Seq::<Seq<char>>::empty() =~= string_views(out@));
    out
}

/// The item titles of an RSS document.
pub fn feed_titles(body: &str) -> (res: Vec<String>)
    ensures
        string_views(res@) == item_titles(xml_events_of(body@)),
{
    let events = xml_events(body);
    titles_of_events(&events)
}


/// Every title found is the text of a character-data event of the document.
pub proof fn law_titles_are_character_data(events: Seq<(XmlKind, Seq<char>)>, in_item: bool, in_title: bool)
    ensures
        forall|i: int|
            0 <= i < titles_scan(events, in_item, in_title).len() ==> events.contains(
                (XmlKind::Text, #[trigger] titles_scan(events, in_item, in_title)[i]),
            ),
    decreases events.len(),
{
    if events.len() > 0 {
        let e = events[0];
        let rest = events.drop_first();
        let ni = match e.0 {
            XmlKind::Start => in_item || e.1 == "item"@,
            XmlKind::End => in_item && e.1 != "item"@,
            _ => in_item,
        };
        let nt = match e.0 {
            XmlKind::Start => in_title || (in_item && e.1 == "title"@),
            XmlKind::End => in_title && e.1 != "title"@,
            _ => in_title,
        };
        law_titles_are_character_data(rest, ni, nt);
        let r = titles_scan(rest, ni, nt);
        assert forall|i: int| 0 <= i < titles_scan(events, in_item, in_title).len() implies events.contains(
            (XmlKind::Text, #[trigger] titles_scan(events, in_item, in_title)[i]),
        ) by {
            let t = titles_scan(events, in_item, in_title);
            if e.0 == XmlKind::Text && in_title {
                if i == 0 {
                    assert(events[0] == (XmlKind::Text, t[0]));
                } else {
                    assert(t[i] == r[i - 1]);
                    let k = choose|k: int| 0 <= k < rest.len() && rest[k] == (XmlKind::Text, r[i - 1]);
                    assert(events[k + 1] == rest[k]);
                }
            } else {
                assert(t[i] == r[i]);
                let k = choose|k: int| 0 <= k < rest.len() && rest[k] == (XmlKind::Text, r[i]);
                assert(events[k + 1] == rest[k]);
            }
        }
    }
}

} // verus!
