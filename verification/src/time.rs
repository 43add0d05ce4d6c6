//! Relative times, as messages of the catalogue.
use vstd::prelude::*;

verus! {

/// A message of the catalogue, with the number it is about.
#[derive(Clone, Copy, Debug, PartialEq, Eq)]
pub struct TimeLabel {
    pub key: &'static str,
    pub count: Option<u64>,
}

/// The keys of a family of relative times.
pub open spec fn label_is(
    label: TimeLabel,
    secs: u64,
    minutes: Seq<char>,
    hours: Seq<char>,
    days: Seq<char>,
) -> bool {
    if secs < 60 {
        label.key@ == "time.just_now"@ && label.count is None
    } else if secs < 3600 {
        label.key@ == minutes && label.count == Some((secs / 60) as u64)
    } else if secs < 86_400 {
        label.key@ == hours && label.count == Some((secs / 3600) as u64)
    } else {
        label.key@ == days && label.count == Some((secs / 86_400) as u64)
    }
}

/// Compact relative-time label (e.g. "5m ago") from an elapsed-seconds count.
pub fn humanize_ago(secs: u64) -> (label: TimeLabel)
    ensures
        label_is(label, secs, "time.minutes_ago"@, "time.hours_ago"@, "time.days_ago"@),
{
    if secs < 60 {
        TimeLabel { key: "time.just_now", count: None }
    } else if secs < 3600 {
        TimeLabel { key: "time.minutes_ago", count: Some(secs / 60) }
    } else if secs < 86_400 {
        TimeLabel { key: "time.hours_ago", count: Some(secs / 3600) }
    } else {
        TimeLabel { key: "time.days_ago", count: Some(secs / 86_400) }
    }
}

/// Thread-row age without the relative-time suffix used in prose.
pub fn humanize_age(secs: u64) -> (label: TimeLabel)
    ensures
        label_is(label, secs, "time.minutes"@, "time.hours"@, "time.days"@),
{
    if secs < 60 {
        TimeLabel { key: "time.just_now", count: None }
    } else if secs < 3600 {
        TimeLabel { key: "time.minutes", count: Some(secs / 60) }
    } else if secs < 86_400 {
        TimeLabel { key: "time.hours", count: Some(secs / 3600) }
    } else {
        TimeLabel { key: "time.days", count: Some(secs / 86_400) }
    }
}

/// A wall-clock duration.
#[derive(Clone, Copy, Debug, PartialEq, Eq, Structural)]
pub enum DurationLabel {
    /// Minutes, and seconds padded to two digits.
    Minutes { minutes: u64, tens: u8, units: u8 },
    Seconds { seconds: u64 },
}

/// Wall-clock duration formatted as "XmYYs" / "YYs".
pub fn format_duration(secs: u64) -> (label: DurationLabel)
    ensures
        match label {
            DurationLabel::Minutes { minutes, tens, units } => secs >= 60 && tens < 6 && units < 10
                && minutes * 60 + tens * 10 + units == secs,
            DurationLabel::Seconds { seconds } => secs < 60 && seconds == secs,
        },
{
    if secs >= 60 {
        let rest: u64 = secs % 60;
        DurationLabel::Minutes {
            minutes: secs / 60,
            tens: (rest / 10) as u8,
            units: (rest % 10) as u8,
        }
    } else {
        DurationLabel::Seconds { seconds: secs }
    }
}

/// An age is told in the largest unit that it has one whole of, by how many wholes of
/// it there are; below a minute it is just now.
pub proof fn law_ages_are_told_in_the_largest_unit(
    label: TimeLabel,
    secs: u64,
    minutes: Seq<char>,
    hours: Seq<char>,
    days: Seq<char>,
)
    requires
        label_is(label, secs, minutes, hours, days),
    ensures
        label.count is None <==> secs < 60,
        secs < 60 ==> label.key@ == "time.just_now"@,
        label.count matches Some(n) ==> {
            &&& n >= 1
            &&& secs < 3_600 ==> label.key@ == minutes && n * 60 <= secs < n * 60 + 60
            &&& 3_600 <= secs < 86_400 ==> label.key@ == hours && n * 3_600 <= secs < n * 3_600
                + 3_600
            &&& 86_400 <= secs ==> label.key@ == days && n * 86_400 <= secs < n * 86_400 + 86_400
        },
{
}

} // verus!
