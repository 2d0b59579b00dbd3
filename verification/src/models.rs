//! The records of the live tracking map: anomaly kinds, corridor hits and
//! allowlist entries.

use vstd::prelude::*;

verus! {

/// How serious an anomaly is.
#[derive(Debug, Clone, Copy, PartialEq, Eq, Structural, Hash)]
pub enum AnomalySeverity {
    Critical,
    High,
    Elevated,
    Info,
}

/// Why an entity was flagged.
#[derive(Debug, Clone, Copy, PartialEq, Eq, Structural, Hash)]
pub enum AnomalyReason {
    MissingIdentity,
    NotOnAllowlist,
    CorridorCrossing,
    AisDark,
}

/// The kind of tracked entity.
#[derive(Debug, Clone, Copy, PartialEq, Eq, Structural, Hash)]
pub enum EntityKind {
    Flight,
    Vessel,
    Vehicle,
}

/// The storage name of an entity kind.
pub open spec fn kind_name(k: EntityKind) -> Seq<char> {
    match k {
        EntityKind::Flight => "flight"@,
        EntityKind::Vessel => "vessel"@,
        EntityKind::Vehicle => "vehicle"@,
    }
}

impl EntityKind {
    /// The storage name of the kind (its serialized form).
    pub fn as_str(&self) -> (r: &'static str)
        ensures
            r@ == kind_name(*self),
    {
        match self {
            EntityKind::Flight => "flight",
            EntityKind::Vessel => "vessel",
            EntityKind::Vehicle => "vehicle",
        }
    }
}

/// A research corridor that a position falls into.
#[derive(Debug, Clone, PartialEq, Eq)]
pub struct ZoneHit {
    pub zone_id: String,
    pub is_hotspot: bool,
}

/// An entry of the allowlist of known entities.
#[derive(Debug, Clone, PartialEq, Eq)]
pub struct AllowlistEntry {
    /// `flight`, `vessel` or `vehicle`.
    pub kind: String,
    pub id: String,
    pub label: Option<String>,
}

} // verus!
