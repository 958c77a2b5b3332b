use vstd::prelude::*;
use vstd::string::StringExecFns;

use crate::snapshot::CHARGE_SCALE;

verus! {

/// What `humantime::format_duration` prints for a duration of whole
/// seconds, such as `1m 30s`; it depends on the number of seconds
/// alone.
pub uninterp spec fn human_duration_of(secs: u64) -> Seq<char>;

/// Relies on `humantime::format_duration`: renders a duration of whole
/// seconds as text such as `1m 30s`. The output is a pure function of
/// the duration and the call never fails.
#[verifier::external_body]
fn format_duration_secs(secs: u64) -> (r: String)
    ensures
        r@ == human_duration_of(secs),
{
    humantime::format_duration(std::time::Duration::from_secs(secs)).to_string()
}

/// The text appended to a notification body for an optional time
/// estimate: `. <duration> <post>` when the provider estimated one,
/// nothing when it could not.
pub fn time_string(time: Option<u64>, post: &str) -> (r: String)
    ensures
        (time matches Some(secs) ==> r@ == ". "@ + human_duration_of(secs) + " "@ + post@),
        time is None ==> r@ == Seq::<char>::empty(),
{
    match time {
        Some(secs) => {
            let formatted = format_duration_secs(secs);
            let mut r = String::from_str(". ");
            r.append(formatted.as_str());
            r.append(" ");
            r.append(post);
            r
        },
        None => String::new(),
    }
}

/// The icon-level suffix for a charge: the charge rounded to the
/// nearest tenth of a full charge, as the three digits a battery icon
/// name ends in.
pub open spec fn spec_icon_level(charge: u32) -> Seq<char> {
    let level = (charge + 500) / 1000;
    if level == 0 {
        "000"@
    } else if level == 1 {
        "010"@
    } else if level == 2 {
        "020"@
    } else if level == 3 {
        "030"@
    } else if level == 4 {
        "040"@
    } else if level == 5 {
        "050"@
    } else if level == 6 {
        "060"@
    } else if level == 7 {
        "070"@
    } else if level == 8 {
        "080"@
    } else if level == 9 {
        "090"@
    } else {
        "100"@
    }
}

/// Rounds a charge to the nearest tenth of a full charge and returns
/// the three-digit suffix of the matching battery icon name, from `000`
/// for an empty source to `100` for a full one.
pub fn icon_level(charge: u32) -> (r: &'static str)
    requires
        charge <= CHARGE_SCALE,
    ensures
        r@ == spec_icon_level(charge),
{
    let level = (charge + 500) / 1000;
    match level {
        0 => "000",
        1 => "010",
        2 => "020",
        3 => "030",
        4 => "040",
        5 => "050",
        6 => "060",
        7 => "070",
        8 => "080",
        9 => "090",
        _ => "100",
    }
}

} // verus!
