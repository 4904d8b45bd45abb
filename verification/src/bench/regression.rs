//! Baselines of benchmark results.

use crate::engine::telemetry::decimal;
use vstd::prelude::*;
use vstd::string::StringExecFns;

verus! {

/// The name of the baseline file taken at `timestamp_secs` seconds since the
/// epoch.
pub open spec fn baseline_name(timestamp_secs: u64) -> Seq<char> {
    "baseline-"@ + decimal(timestamp_secs as nat) + ".json"@
}

/// Generate a default baseline filename with timestamp.
pub fn default_baseline_name(timestamp_secs: u64) -> (name: String)
    ensures
        name@ == baseline_name(timestamp_secs),
{
    let mut name = String::from_str("baseline-");
    crate::engine::telemetry::push_decimal(&mut name, timestamp_secs as u128);
    name.append(".json");
    name
}

} // verus!
