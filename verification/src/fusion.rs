//! The parts of threat fusion that are not arithmetic: how weather reports
//! are banded, which drivers an assessment names and what it recommends.

use vstd::prelude::*;
use crate::numbers::{decimal, decimal_string};
use crate::text::{chars_of, prefixed, contains, equals, has_substring, push_str, string_from_chars, string_views, to_owned_string};

verus! {

/// How severe a weather report is.
#[derive(Debug, Clone, Copy, PartialEq, Eq, Structural)]
pub enum WeatherBand {
    Severe,
    Moderate,
    Calm,
}

/// The band of a weather risk level: `HIGH` and `CRITICAL` are severe,
/// `MEDIUM` and `MODERATE` moderate, anything else calm.
pub open spec fn band_of(risk: Seq<char>) -> WeatherBand {
    if risk == "HIGH"@ || risk == "CRITICAL"@ {
        WeatherBand::Severe
    } else if risk == "MEDIUM"@ || risk == "MODERATE"@ {
        WeatherBand::Moderate
    } else {
        WeatherBand::Calm
    }
}

/// Bands a weather risk level.
pub fn weather_band(risk: &str) -> (r: WeatherBand)
    ensures
        r == band_of(risk@),
{
    let c = chars_of(risk);
    if equals(c.as_slice(), "HIGH") || equals(c.as_slice(), "CRITICAL") {
        WeatherBand::Severe
    } else if equals(c.as_slice(), "MEDIUM") || equals(c.as_slice(), "MODERATE") {
        WeatherBand::Moderate
    } else {
        WeatherBand::Calm
    }
}

/// `s` when `b` holds, else nothing.
pub open spec fn when(b: bool, s: Seq<char>) -> Seq<Seq<char>> {
    if b {
        seq![s]
    } else {
        Seq::empty()
    }
}

/// What the fusion found notable, before it is named.
pub struct DriverSignals {
    /// The label of the model's assessment, when it scored above zero.
    pub ai_label: Option<String>,
    /// Whether news activity is notable.
    pub news_active: bool,
    pub news_count: u64,
    pub vessel_alert: bool,
    pub financial_threat: bool,
    pub terrain_sensitive: bool,
    pub satellite_activity: bool,
    pub weather: WeatherBand,
}

/// The drivers named for a set of signals, in a fixed order.
pub open spec fn driver_names(s: &DriverSignals) -> Seq<Seq<char>> {
    (match s.ai_label {
        Some(l) => seq![l@],
        None => Seq::empty(),
    }) + when(s.news_active, "news activity ("@ + decimal(s.news_count as nat) + " articles)"@) + when(
        s.vessel_alert,
        "vessel anomaly"@,
    ) + when(s.financial_threat, "financial threat detected"@) + when(
        s.terrain_sensitive,
        "terrain sensitivity"@,
    ) + when(s.satellite_activity, "satellite imagery activity"@) + when(
        s.weather == WeatherBand::Severe,
        "extreme weather conditions"@,
    ) + when(s.weather == WeatherBand::Moderate, "moderate weather conditions"@)
}

/// Appends `s` when `b` holds.
fn push_when(out: &mut Vec<String>, b: bool, s: String)
    ensures
        string_views(final(out)@) == string_views(old(out)@) + when(b, s@),
{
    let ghost before = string_views(out@);
    if b {
        out.push(s);
        assert(string_views(out@) =~= before + when(b, s@));
    } else {
        assert(string_views(out@) =~= before + when(b, s@));
    }
}

/// Names the drivers of an assessment.
pub fn collect_drivers(s: &DriverSignals) -> (r: Vec<String>)
    ensures
        string_views(r@) == driver_names(s),
{
    let mut out: Vec<String> = Vec::new();
    match &s.ai_label {
        Some(l) => {
            out.push(l.clone());
        },
        None => {},
    }
    assert(string_views(out@) =~= match s.ai_label {
        Some(l) => seq![l@],
        None => Seq::<Seq<char>>::empty(),
    });
    let n = decimal_string(s.news_count);
    let mut news: Vec<char> = Vec::new();
    push_str(&mut news, "news activity (");
    push_str(&mut news, n.as_str());
    push_str(&mut news, " articles)");
    push_when(&mut out, s.news_active, string_from_chars(news.as_slice()));
    push_when(&mut out, s.vessel_alert, to_owned_string("vessel anomaly"));
    push_when(&mut out, s.financial_threat, to_owned_string("financial threat detected"));
    push_when(&mut out, s.terrain_sensitive, to_owned_string("terrain sensitivity"));
    push_when(&mut out, s.satellite_activity, to_owned_string("satellite imagery activity"));
    push_when(
        &mut out,
        s.weather == WeatherBand::Severe,
        to_owned_string("extreme weather conditions"),
    );
    push_when(
        &mut out,
        s.weather == WeatherBand::Moderate,
        to_owned_string("moderate weather conditions"),
    );
    out
}

/// The recommendations of a risk level.
pub open spec fn level_recommendations(risk: Seq<char>) -> Seq<Seq<char>> {
    if risk == "CRITICAL"@ {
        seq![
            "Immediate escalation to command required"@,
            "Activate full alert mode monitoring"@,
            "Deploy rapid response assets"@,
        ]
    } else if risk == "HIGH"@ {
        seq![
            "Immediate attention required"@,
            "Activate alert mode monitoring"@,
            "Increase surveillance frequency"@,
        ]
    } else if risk == "ELEVATED"@ {
        seq![
            "Monitor situation closely"@,
            "Prepare contingency plans"@,
            "Brief command on developing situation"@,
        ]
    } else if risk == "MONITORED"@ {
        seq!["Continue enhanced monitoring"@, "Review available intelligence sources"@]
    } else {
        seq!["Continue routine monitoring"@]
    }
}

/// The recommendations a driver adds, one per topic that its text mentions.
pub open spec fn driver_recommendations(d: Seq<char>) -> Seq<Seq<char>> {
    when(has_substring(d, "vessel anomaly"@), "Track vessel movement patterns"@) + when(
        has_substring(d, "weather"@),
        "Review operational weather thresholds"@,
    ) + when(has_substring(d, "satellite"@), "Analyze recent imagery changes"@) + when(
        has_substring(d, "financial"@),
        "Escalate to financial intelligence unit"@,
    ) + when(has_substring(d, "cross-border"@), "Coordinate with border security forces"@)
}

/// The recommendations added by a list of drivers, in order.
pub open spec fn drivers_recommendations(drivers: Seq<Seq<char>>) -> Seq<Seq<char>>
    decreases drivers.len(),
{
    if drivers.len() == 0 {
        Seq::empty()
    } else {
        drivers_recommendations(drivers.drop_last()) + driver_recommendations(drivers.last())
    }
}

/// The recommendations of an assessment: those of its risk level, then
/// those of its drivers.
pub open spec fn recommendations_for(risk: Seq<char>, drivers: Seq<Seq<char>>) -> Seq<Seq<char>> {
    level_recommendations(risk) + drivers_recommendations(drivers)
}

/// Appends the recommendations of a risk level.
fn push_level_recommendations(out: &mut Vec<String>, risk: &str)
    ensures
        string_views(final(out)@) == string_views(old(out)@) + level_recommendations(risk@),
{
    let ghost before = string_views(out@);
    let r = chars_of(risk);
    if equals(r.as_slice(), "CRITICAL") {
        out.push(to_owned_string("Immediate escalation to command required"));
        out.push(to_owned_string("Activate full alert mode monitoring"));
        out.push(to_owned_string("Deploy rapid response assets"));
    } else if equals(r.as_slice(), "HIGH") {
        out.push(to_owned_string("Immediate attention required"));
        out.push(to_owned_string("Activate alert mode monitoring"));
        out.push(to_owned_string("Increase surveillance frequency"));
    } else if equals(r.as_slice(), "ELEVATED") {
        out.push(to_owned_string("Monitor situation closely"));
        out.push(to_owned_string("Prepare contingency plans"));
        out.push(to_owned_string("Brief command on developing situation"));
    } else if equals(r.as_slice(), "MONITORED") {
        out.push(to_owned_string("Continue enhanced monitoring"));
        out.push(to_owned_string("Review available intelligence sources"));
    } else {
        out.push(to_owned_string("Continue routine monitoring"));
    }
    assert(string_views(out@) =~= before + level_recommendations(risk@));
}

/// Appends the recommendations of one driver.
fn push_driver_recommendations(out: &mut Vec<String>, driver: &str)
    ensures
        string_views(final(out)@) == string_views(old(out)@) + driver_recommendations(driver@),
{
    let ghost before = string_views(out@);
    let d = chars_of(driver);
    push_when(out, contains(d.as_slice(), "vessel anomaly"), to_owned_string("Track vessel movement patterns"));
    push_when(out, contains(d.as_slice(), "weather"), to_owned_string("Review operational weather thresholds"));
    push_when(out, contains(d.as_slice(), "satellite"), to_owned_string("Analyze recent imagery changes"));
    push_when(out, contains(d.as_slice(), "financial"), to_owned_string("Escalate to financial intelligence unit"));
    push_when(out, contains(d.as_slice(), "cross-border"), to_owned_string("Coordinate with border security forces"));
    assert(string_views(out@) =~= before + driver_recommendations(driver@));
}

/// What to do about an assessment of level `risk` with `drivers`.
pub fn generate_recommendations(risk: &str, drivers: &Vec<String>) -> (r: Vec<String>)
    ensures
        string_views(r@) == recommendations_for(risk@, string_views(drivers@)),
{
    let mut out: Vec<String> = Vec::new();
    push_level_recommendations(&mut out, risk);
    assert(string_views(out@) =~= level_recommendations(risk@));
    let ghost dv = string_views(drivers@);
    let mut i: usize = 0;
    while i < drivers.len()
        invariant
            0 <= i <= drivers@.len(),
            dv == string_views(drivers@),
            string_views(out@) == level_recommendations(risk@) + drivers_recommendations(dv.take(i as int)),
        decreases drivers.len() - i,
    {
        assert(dv.take(i + 1).drop_last() =~= dv.take(i as int));
        assert(dv.take(i + 1).last() == drivers@[i as int]@);
        push_driver_recommendations(&mut out, drivers[i].as_str());
        assert(string_views(out@) =~= level_recommendations(risk@) + drivers_recommendations(dv.take(i + 1)));
        i = i + 1;
    }
    assert(dv.take(drivers@.len() as int) =~= dv);
    out
}

/// How many of the providers an assessment rests on answered.
pub struct ConfidenceDetail {
    pub providers_available: u8,
    pub providers_total: u8,
    pub timeout_count: u8,
    pub degraded_providers: Vec<String>,
}

/// The actions an assessment recommends first follow its risk level: a
/// critical assessment starts with escalation to command, full alert mode
/// and rapid response; a high one with immediate attention, alert mode and
/// more surveillance; an elevated one with close monitoring, contingency
/// plans and a briefing; a monitored one with enhanced monitoring and a
/// review of sources. Only an assessment below those levels recommends
/// routine monitoring first, whatever its drivers.
pub proof fn law_actions_follow_risk_level(risk: Seq<char>, drivers: Seq<Seq<char>>)
    ensures
        risk == "CRITICAL"@ ==> recommendations_for(risk, drivers).take(3) == seq![
            "Immediate escalation to command required"@,
            "Activate full alert mode monitoring"@,
            "Deploy rapid response assets"@,
        ],
        risk == "HIGH"@ ==> recommendations_for(risk, drivers).take(3) == seq![
            "Immediate attention required"@,
            "Activate alert mode monitoring"@,
            "Increase surveillance frequency"@,
        ],
        risk == "ELEVATED"@ ==> recommendations_for(risk, drivers).take(3) == seq![
            "Monitor situation closely"@,
            "Prepare contingency plans"@,
            "Brief command on developing situation"@,
        ],
        risk == "MONITORED"@ ==> recommendations_for(risk, drivers).take(2) == seq![
            "Continue enhanced monitoring"@,
            "Review available intelligence sources"@,
        ],
        recommendations_for(risk, drivers).len() > 0,
        (recommendations_for(risk, drivers)[0] == "Continue routine monitoring"@) <==> !(risk
            == "CRITICAL"@ || risk == "HIGH"@ || risk == "ELEVATED"@ || risk == "MONITORED"@),
{
    reveal_strlit("CRITICAL");
    reveal_strlit("HIGH");
    reveal_strlit("ELEVATED");
    reveal_strlit("MONITORED");
    assert("CRITICAL"@ != "HIGH"@ && "CRITICAL"@ != "ELEVATED"@ && "CRITICAL"@ != "MONITORED"@) by {
        assert("CRITICAL"@[0] != "ELEVATED"@[0] && "CRITICAL"@[0] != "MONITORED"@[0]);
        assert("CRITICAL"@.len() != "HIGH"@.len());
    }
    assert("HIGH"@ != "ELEVATED"@ && "HIGH"@ != "MONITORED"@ && "ELEVATED"@ != "MONITORED"@) by {
        assert("HIGH"@.len() != "ELEVATED"@.len() && "HIGH"@.len() != "MONITORED"@.len());
        assert("ELEVATED"@[0] != "MONITORED"@[0]);
    }
    let level = level_recommendations(risk);
    let all = recommendations_for(risk, drivers);
    assert(all == level + drivers_recommendations(drivers));
    if risk == "CRITICAL"@ {
        assert(all.take(3) =~= level);
    } else if risk == "HIGH"@ {
        assert(all.take(3) =~= level);
    } else if risk == "ELEVATED"@ {
        assert(all.take(3) =~= level);
    } else if risk == "MONITORED"@ {
        assert(all.take(2) =~= level);
    }
    assert(all[0] == level[0]);
    reveal_strlit("Continue routine monitoring");
    reveal_strlit("Immediate escalation to command required");
    reveal_strlit("Immediate attention required");
    reveal_strlit("Monitor situation closely");
    reveal_strlit("Continue enhanced monitoring");
}

} // verus!
