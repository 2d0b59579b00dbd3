//! The border geometry served to the map, framed as one GeoJSON feature
//! collection.

use vstd::prelude::*;
use crate::text::{join, joined, prefixed, string_views};

verus! {

/// The border geometry as the map receives it.
pub struct BorderStore {
    /// A GeoJSON `FeatureCollection` of the land and maritime features.
    pub geojson_str: String,
}

/// The feature collection of the given features, each a JSON text, in order.
pub open spec fn feature_collection_text(features: Seq<Seq<char>>) -> Seq<char> {
    "{\"features\":["@ + joined(features, ","@) + "],\"type\":\"FeatureCollection\"}"@
}

impl BorderStore {
    /// Frames the serialized features, land first and maritime after, into
    /// one feature collection.
    pub fn from_features(features: &Vec<String>) -> (s: Self)
        ensures
            s.geojson_str@ == feature_collection_text(string_views(features@)),
    {
        let body = join(features, ",");
        let head = prefixed("{\"features\":[", body.as_str());
        BorderStore { geojson_str: prefixed(head.as_str(), "],\"type\":\"FeatureCollection\"}") }
    }
}

} // verus!
