//! Place lookup: the geocoding request, the short name of a place, and the
//! textual forms of coordinates and default zones.

use vstd::prelude::*;
use vstd::utf8::encode_utf8;
use crate::settings::{env_value, value_or, EnvSnapshot};
use crate::text::{
    chars_of, prefixed, push_str, split_chars, split_on, string_from_chars, to_owned_string, trim,
    trimmed,
};

verus! {

/// The uppercase hexadecimal digit of a value below 16.
pub open spec fn hex_upper(d: u8) -> char {
    if d < 10 {
        (48 + d) as char
    } else {
        (55 + d) as char
    }
}

/// A byte that URL encoding keeps: an ASCII letter or digit, `-`, `.`, `_` or `~`.
pub open spec fn unreserved(b: u8) -> bool {
    (48 <= b <= 57) || (65 <= b <= 90) || (97 <= b <= 122) || b == 45 || b == 46 || b == 95 || b == 126
}

/// The URL encoding of some bytes: each kept byte as its character, every
/// other as `%` and two uppercase hexadecimal digits.
pub open spec fn percent_encoded(bytes: Seq<u8>) -> Seq<char>
    decreases bytes.len(),
{
    if bytes.len() == 0 {
        Seq::empty()
    } else {
        let b = bytes[0];
        (if unreserved(b) {
            seq![b as char]
        } else {
            seq!['%', hex_upper(b / 16), hex_upper(b % 16)]
        }) + percent_encoded(bytes.drop_first())
    }
}

/// Calls `urlencoding::encode`. The contract states what its source does:
/// the UTF-8 bytes of the text, each kept when unreserved and else written
/// as `%` and two uppercase hexadecimal digits.
#[verifier::external_body]
fn url_encode(s: &str) -> (res: String)
    ensures
        res@ == percent_encoded(encode_utf8(s@)),
{
    urlencoding::encode(s).into_owned()
}

/// The geocoding request for a place query: none for a blank query, else
/// the search URL with the query URL-encoded.
pub open spec fn geocode_url(query: Seq<char>) -> Option<Seq<char>> {
    if trimmed(query).len() == 0 {
        None
    } else {
        Some(
            "https://nominatim.openstreetmap.org/search?q="@ + percent_encoded(encode_utf8(query))
                + "&format=json&limit=1"@,
        )
    }
}

/// The geocoding request for a place query.
pub fn nominatim_url(query: &str) -> (r: Option<String>)
    ensures
        match r {
            Some(u) => geocode_url(query@) == Some(u@),
            None => geocode_url(query@) is None,
        },
{
    let q = chars_of(query);
    let t = trim(q.as_slice());
    if t.len() == 0 {
        return None;
    }
    let encoded = url_encode(query);
    let mut out: Vec<char> = Vec::new();
    push_str(&mut out, "https://nominatim.openstreetmap.org/search?q=");
    push_str(&mut out, encoded.as_str());
    push_str(&mut out, "&format=json&limit=1");
    Some(string_from_chars(out.as_slice()))
}

/// The short name of a geocoded place: the part of its display name before
/// the first comma, trimmed.
pub fn place_name(display_name: &str) -> (r: String)
    ensures
        r@ == trimmed(split_on(display_name@, ',')[0]),
{
    let d = chars_of(display_name);
    let parts = split_chars(d.as_slice(), ',');
    proof {
        crate::text::lemma_split_on_nonempty(display_name@, ',');
    }
    let t = trim(parts[0].as_slice());
    string_from_chars(t.as_slice())
}

/// The latitude and longitude texts of a `lat,lon` query: the two trimmed
/// pieces when the query has exactly one comma.
pub open spec fn coordinate_texts(query: Seq<char>) -> Option<(Seq<char>, Seq<char>)> {
    let parts = split_on(query, ',');
    if parts.len() == 2 {
        Some((trimmed(parts[0]), trimmed(parts[1])))
    } else {
        None
    }
}

/// Splits a `lat,lon` query into its two trimmed numbers' texts.
pub fn coordinate_parts(query: &str) -> (r: Option<(String, String)>)
    ensures
        match r {
            Some((a, b)) => coordinate_texts(query@) == Some((a@, b@)),
            None => coordinate_texts(query@) is None,
        },
{
    let q = chars_of(query);
    let parts = split_chars(q.as_slice(), ',');
    if parts.len() != 2 {
        return None;
    }
    let a = trim(parts[0].as_slice());
    let b = trim(parts[1].as_slice());
    Some((string_from_chars(a.as_slice()), string_from_chars(b.as_slice())))
}

/// The zones used when none is given.
pub open spec fn default_zone_list() -> Seq<char> {
    "34.1526,77.5770|Ladakh;34.5553,76.1340|KargilSector"@
}

/// The configured zone list: `WEATHER_ZONES`, else `ELEVATION_LOCATIONS`,
/// else the default list.
pub open spec fn zone_list(env: &EnvSnapshot) -> Seq<char> {
    match env_value(env, "WEATHER_ZONES"@) {
        Some(v) => v,
        None => value_or(env_value(env, "ELEVATION_LOCATIONS"@), default_zone_list()),
    }
}

/// The zone entries of a list: for each `;`-separated entry with exactly
/// one `|`, its coordinate text and its trimmed name.
pub open spec fn zone_entries(pieces: Seq<Seq<char>>) -> Seq<(Seq<char>, Seq<char>)>
    decreases pieces.len(),
{
    if pieces.len() == 0 {
        Seq::empty()
    } else {
        let rest = zone_entries(pieces.drop_last());
        let parts = split_on(pieces.last(), '|');
        if parts.len() == 2 {
            rest.push((parts[0], trimmed(parts[1])))
        } else {
            rest
        }
    }
}

/// The default zones: coordinate text and name of each well-formed entry.
pub fn zone_specs(env: &EnvSnapshot) -> (r: Vec<(String, String)>)
    ensures
        r@.map_values(|z: (String, String)| (z.0@, z.1@)) == zone_entries(split_on(zone_list(env), ';')),
{
    let raw = match env.get("WEATHER_ZONES") {
        Some(v) => to_owned_string(v),
        None => match env.get("ELEVATION_LOCATIONS") {
            Some(v) => to_owned_string(v),
            None => to_owned_string("34.1526,77.5770|Ladakh;34.5553,76.1340|KargilSector"),
        },
    };
    let rc = chars_of(raw.as_str());
    let pieces = split_chars(rc.as_slice(), ';');
    let ghost pv = split_on(zone_list(env), ';');
    let mut out: Vec<(String, String)> = Vec::new();
    let mut i: usize = 0;
    while i < pieces.len()
        invariant
            0 <= i <= pieces@.len(),
            pv == split_on(zone_list(env), ';'),
            pieces@.len() == pv.len(),
            forall|k: int| 0 <= k < pieces@.len() ==> (#[trigger] pieces@[k])@ == pv[k],
            out@.map_values(|z: (String, String)| (z.0@, z.1@)) == zone_entries(pv.take(i as int)),
        decreases pieces.len() - i,
    {
        assert(pv.take(i + 1).drop_last() =~= pv.take(i as int));
        assert(pv.take(i + 1).last() == pieces@[i as int]@);
        let parts = split_chars(pieces[i].as_slice(), '|');
        if parts.len() == 2 {
            let name = trim(parts[1].as_slice());
            let ghost before = out@.map_values(|z: (String, String)| (z.0@, z.1@));
            out.push((string_from_chars(parts[0].as_slice()), string_from_chars(name.as_slice())));
            assert(out@.map_values(|z: (String, String)| (z.0@, z.1@)) =~= before.push(
                (parts@[0]@, trimmed(parts@[1]@)),
            ));
        }
        i = i + 1;
    }
    assert(pv.take(pieces@.len() as int) =~= pv);
    out
}


/// The zone list of the weather provider: `WEATHER_ZONES`, else its default.
pub open spec fn weather_zone_list(env: &EnvSnapshot) -> Seq<char> {
    value_or(env_value(env, "WEATHER_ZONES"@), "34.1526,77.5770|Ladakh;27.1767,78.0081|Agra"@)
}

/// The zone list of the terrain provider: `ELEVATION_LOCATIONS`, else its default.
pub open spec fn elevation_zone_list(env: &EnvSnapshot) -> Seq<char> {
    value_or(env_value(env, "ELEVATION_LOCATIONS"@), default_zone_list())
}

/// Trims `s` when `on` holds.
pub open spec fn trimmed_if(on: bool, s: Seq<char>) -> Seq<char> {
    if on {
        trimmed(s)
    } else {
        s
    }
}

/// The zones of a list whose entry is `lat,lon|name`: the latitude and
/// longitude texts (trimmed when `trim_coords` holds) and the trimmed name
/// of each entry with exactly one `|` and exactly one comma before it.
pub open spec fn coordinate_zones_of(pieces: Seq<Seq<char>>, trim_coords: bool) -> Seq<
    (Seq<char>, Seq<char>, Seq<char>),
>
    decreases pieces.len(),
{
    if pieces.len() == 0 {
        Seq::empty()
    } else {
        let rest = coordinate_zones_of(pieces.drop_last(), trim_coords);
        let parts = split_on(pieces.last(), '|');
        if parts.len() == 2 && split_on(parts[0], ',').len() == 2 {
            let c = split_on(parts[0], ',');
            rest.push((trimmed_if(trim_coords, c[0]), trimmed_if(trim_coords, c[1]), trimmed(parts[1])))
        } else {
            rest
        }
    }
}

/// Trims when asked.
fn trim_if(on: bool, s: &[char]) -> (r: Vec<char>)
    ensures
        r@ == trimmed_if(on, s@),
{
    if on {
        trim(s)
    } else {
        crate::text::slice_chars(s, 0, s.len())
    }
}

/// The zones of a `;`-separated list of `lat,lon|name` entries, with the
/// coordinate texts still to be read as numbers.
pub fn coordinate_zones(list: &str, trim_coords: bool) -> (r: Vec<(String, String, String)>)
    ensures
        r@.map_values(|z: (String, String, String)| (z.0@, z.1@, z.2@)) == coordinate_zones_of(
            split_on(list@, ';'),
            trim_coords,
        ),
{
    let lc = chars_of(list);
    let pieces = split_chars(lc.as_slice(), ';');
    let ghost pv = split_on(list@, ';');
    let mut out: Vec<(String, String, String)> = Vec::new();
    let mut i: usize = 0;
    while i < pieces.len()
        invariant
            0 <= i <= pieces@.len(),
            pv == split_on(list@, ';'),
            pieces@.len() == pv.len(),
            forall|k: int| 0 <= k < pieces@.len() ==> (#[trigger] pieces@[k])@ == pv[k],
            out@.map_values(|z: (String, String, String)| (z.0@, z.1@, z.2@)) == coordinate_zones_of(
                pv.take(i as int),
                trim_coords,
            ),
        decreases pieces.len() - i,
    {
        assert(pv.take(i + 1).drop_last() =~= pv.take(i as int));
        assert(pv.take(i + 1).last() == pieces@[i as int]@);
        let parts = split_chars(pieces[i].as_slice(), '|');
        if parts.len() == 2 {
            let coords = split_chars(parts[0].as_slice(), ',');
            if coords.len() == 2 {
                let lat = trim_if(trim_coords, coords[0].as_slice());
                let lon = trim_if(trim_coords, coords[1].as_slice());
                let name = trim(parts[1].as_slice());
                let ghost before = out@.map_values(|z: (String, String, String)| (z.0@, z.1@, z.2@));
                out.push(
                    (
                        string_from_chars(lat.as_slice()),
                        string_from_chars(lon.as_slice()),
                        string_from_chars(name.as_slice()),
                    ),
                );
                assert(out@.map_values(|z: (String, String, String)| (z.0@, z.1@, z.2@)) =~= before.push(
                    (lat@, lon@, name@),
                ));
            }
        }
        i = i + 1;
    }
    assert(pv.take(pieces@.len() as int) =~= pv);
    out
}

/// The zones of the weather provider, coordinates trimmed.
pub fn weather_zones(env: &EnvSnapshot) -> (r: Vec<(String, String, String)>)
    ensures
        r@.map_values(|z: (String, String, String)| (z.0@, z.1@, z.2@)) == coordinate_zones_of(
            split_on(weather_zone_list(env), ';'),
            true,
        ),
{
    let list = match env.get("WEATHER_ZONES") {
        Some(v) => to_owned_string(v),
        None => to_owned_string("34.1526,77.5770|Ladakh;27.1767,78.0081|Agra"),
    };
    coordinate_zones(list.as_str(), true)
}

/// The zones of the terrain provider, coordinates as written.
pub fn elevation_zones(env: &EnvSnapshot) -> (r: Vec<(String, String, String)>)
    ensures
        r@.map_values(|z: (String, String, String)| (z.0@, z.1@, z.2@)) == coordinate_zones_of(
            split_on(elevation_zone_list(env), ';'),
            false,
        ),
{
    let list = match env.get("ELEVATION_LOCATIONS") {
        Some(v) => to_owned_string(v),
        None => to_owned_string("34.1526,77.5770|Ladakh;34.5553,76.1340|KargilSector"),
    };
    coordinate_zones(list.as_str(), false)
}

} // verus!
