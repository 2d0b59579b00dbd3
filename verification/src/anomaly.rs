//! When a tracked entity inside a research corridor becomes an anomaly, and
//! how serious it is.

use vstd::prelude::*;
use crate::models::{AnomalyReason, AnomalySeverity};
use crate::text::{chars_of, trim, trimmed};

verus! {

/// An identity is missing when it is absent or blank.
pub open spec fn identity_missing(identity: Option<Seq<char>>) -> bool {
    match identity {
        Some(s) => trimmed(s).len() == 0,
        None => true,
    }
}

/// Whether an identity (a callsign or a vessel number) is missing: absent,
/// or nothing but white space.
pub fn is_identity_missing(identity: Option<&str>) -> (r: bool)
    ensures
        r == identity_missing(
            match identity {
                Some(s) => Some(s@),
                None => None,
            },
        ),
{
    match identity {
        Some(s) => {
            let cs = chars_of(s);
            let t = trim(cs.as_slice());
            t.len() == 0
        },
        None => true,
    }
}

/// Why a flight or vessel in a corridor is flagged: a missing identity, or,
/// for an identified entity, its absence from the allowlist.
pub open spec fn reasons_for(missing_identity: bool, allowlisted: bool) -> Seq<AnomalyReason> {
    if missing_identity {
        seq![AnomalyReason::MissingIdentity]
    } else if !allowlisted {
        seq![AnomalyReason::NotOnAllowlist]
    } else {
        Seq::empty()
    }
}

/// The reasons to flag a flight or vessel found in a corridor; no reasons
/// means no anomaly.
pub fn anomaly_reasons(missing_identity: bool, allowlisted: bool) -> (r: Vec<AnomalyReason>)
    ensures
        r@ == reasons_for(missing_identity, allowlisted),
{
    let mut reasons: Vec<AnomalyReason> = Vec::new();
    if missing_identity {
        reasons.push(AnomalyReason::MissingIdentity);
    }
    if !allowlisted && !missing_identity {
        reasons.push(AnomalyReason::NotOnAllowlist);
    }
    assert(reasons@ =~= reasons_for(missing_identity, allowlisted));
    reasons
}

/// The severity of a flight or vessel anomaly.
pub open spec fn severity_for(is_hotspot: bool, missing_identity: bool, allowlisted: bool) -> AnomalySeverity {
    if is_hotspot && missing_identity {
        AnomalySeverity::Critical
    } else if !allowlisted {
        AnomalySeverity::High
    } else {
        AnomalySeverity::Elevated
    }
}

/// How serious a flight or vessel anomaly is: critical for an unidentified
/// entity in a hotspot, high for one not on the allowlist, else elevated.
pub fn anomaly_severity(is_hotspot: bool, missing_identity: bool, allowlisted: bool) -> (s: AnomalySeverity)
    ensures
        s == severity_for(is_hotspot, missing_identity, allowlisted),
{
    if is_hotspot && missing_identity {
        AnomalySeverity::Critical
    } else if !allowlisted {
        AnomalySeverity::High
    } else {
        AnomalySeverity::Elevated
    }
}

/// The reasons to flag a ground vehicle found in a corridor: only its
/// absence from the allowlist counts.
pub fn vehicle_anomaly_reasons(allowlisted: bool) -> (r: Vec<AnomalyReason>)
    ensures
        r@ == if allowlisted {
            Seq::<AnomalyReason>::empty()
        } else {
            seq![AnomalyReason::NotOnAllowlist]
        },
{
    let mut reasons: Vec<AnomalyReason> = Vec::new();
    if !allowlisted {
        reasons.push(AnomalyReason::NotOnAllowlist);
    }
    assert(reasons@ =~= if allowlisted {
        Seq::<AnomalyReason>::empty()
    } else {
        seq![AnomalyReason::NotOnAllowlist]
    });
    reasons
}

/// How serious a vehicle anomaly is: high in a hotspot, else elevated.
pub fn vehicle_anomaly_severity(is_hotspot: bool) -> (s: AnomalySeverity)
    ensures
        s == if is_hotspot {
            AnomalySeverity::High
        } else {
            AnomalySeverity::Elevated
        },
{
    if is_hotspot {
        AnomalySeverity::High
    } else {
        AnomalySeverity::Elevated
    }
}

/// The corridors that count as hotspots.
pub open spec fn hotspot_ids() -> Seq<&'static str> {
    seq![
        "india_china_lac",
        "india_pakistan_loc",
        "india_pakistan_sir_creek",
        "india_maritime_andaman",
        "india_maritime_gujarat",
    ]
}

/// Whether a corridor is one of the hotspots.
pub fn is_hotspot_zone(zone_id: &str) -> (r: bool)
    ensures
        r == exists|i: int| 0 <= i < hotspot_ids().len() && hotspot_ids()[i]@ == zone_id@,
{
    let ids: [&str; 5] = [
        "india_china_lac",
        "india_pakistan_loc",
        "india_pakistan_sir_creek",
        "india_maritime_andaman",
        "india_maritime_gujarat",
    ];
    assert(ids@ =~= hotspot_ids());
    let z = chars_of(zone_id);
    let mut i: usize = 0;
    while i < 5
        invariant
            0 <= i <= 5,
            ids@ == hotspot_ids(),
            z@ == zone_id@,
            forall|k: int| 0 <= k < i ==> hotspot_ids()[k]@ != zone_id@,
        decreases 5 - i,
    {
        if crate::text::equals(z.as_slice(), ids[i]) {
            return true;
        }
        i = i + 1;
    }
    false
}

/// Identified, allowlisted entities are never flagged, and every other
/// flight or vessel in a corridor is: for all inputs, there is a reason to
/// flag exactly when the identity is missing or the entity is not allowlisted.
pub proof fn law_flagged_iff_unknown(missing_identity: bool, allowlisted: bool)
    ensures
        (reasons_for(missing_identity, allowlisted).len() > 0) == (missing_identity || !allowlisted),
{
}

/// A critical anomaly is always an unidentified entity in a hotspot.
pub proof fn law_critical_only_unidentified_in_hotspot(
    is_hotspot: bool,
    missing_identity: bool,
    allowlisted: bool,
)
    ensures
        severity_for(is_hotspot, missing_identity, allowlisted) == AnomalySeverity::Critical
            <==> is_hotspot && missing_identity,
{
}

/// The rank of a severity, from informational (0) to critical (3).
pub open spec fn severity_rank(s: AnomalySeverity) -> int {
    match s {
        AnomalySeverity::Critical => 3,
        AnomalySeverity::High => 2,
        AnomalySeverity::Elevated => 1,
        AnomalySeverity::Info => 0,
    }
}

/// An entity that is not on the allowlist is graded high unless it is an
/// unidentified entity in a hotspot (which is critical); an allowlisted one
/// below that is only elevated. Leaving the allowlist never lowers the
/// grade, and every flagged entity is graded at least elevated.
pub proof fn law_unlisted_entities_are_high(is_hotspot: bool, missing_identity: bool, allowlisted: bool)
    ensures
        !allowlisted && !(is_hotspot && missing_identity) ==> severity_for(
            is_hotspot,
            missing_identity,
            allowlisted,
        ) == AnomalySeverity::High,
        allowlisted && !(is_hotspot && missing_identity) ==> severity_for(
            is_hotspot,
            missing_identity,
            allowlisted,
        ) == AnomalySeverity::Elevated,
        severity_for(is_hotspot, missing_identity, allowlisted) == AnomalySeverity::Elevated
            ==> allowlisted,
        severity_rank(severity_for(is_hotspot, missing_identity, false)) >= severity_rank(
            severity_for(is_hotspot, missing_identity, true),
        ),
        severity_rank(severity_for(is_hotspot, missing_identity, allowlisted)) >= 1,
{
}

} // verus!
