//! Typed progress reporting for the provisioning pipeline.

use vstd::prelude::*;
use vstd::string::*;
use crate::text::spec_dec;
use crate::text::u64_to_dec;

verus! {

/// The closed set of pipeline phases. Exactly one is active at a time;
/// phases are strictly ordered except `Error`, which is reachable from
/// any phase and is terminal. The download percentage is an integer in
/// `0..=100`.
pub enum ProgressState {
    Starting,
    Downloading(u8),
    Extracting,
    Configuring,
    Finished(String),
    Error(String),
}

impl ProgressState {
    /// Position of the phase in the pipeline order; `Error` sorts last.
    pub open spec fn rank(self) -> int {
        match self {
            ProgressState::Starting => 0,
            ProgressState::Downloading(_) => 1,
            ProgressState::Extracting => 2,
            ProgressState::Configuring => 3,
            ProgressState::Finished(_) => 4,
            ProgressState::Error(_) => 5,
        }
    }
}

/// Integer percentage of a partially downloaded body, capped at 100.
pub fn download_percent(downloaded: u64, total: u64) -> (r: u8)
    requires
        total > 0,
    ensures
        r as int == if downloaded as int * 100 / total as int > 100 {
            100int
        } else {
            downloaded as int * 100 / total as int
        },
{
    let pct = (downloaded as u128 * 100) / (total as u128);
    if pct > 100 {
        100
    } else {
        proof {
            assert(downloaded as int * 100 == (downloaded as u128 * 100) as int);
        }
        pct as u8
    }
}

/// The status line shown for each progress state.
pub open spec fn spec_status_message(s: ProgressState) -> Seq<char> {
    match s {
        ProgressState::Starting => "Initializing..."@,
        ProgressState::Downloading(pct) => "Downloading Rootfs... "@ + spec_dec(pct as nat)
            + "%"@,
        ProgressState::Extracting => "Extracting Archive (This takes CPU)..."@,
        ProgressState::Configuring => "Configuring Environment..."@,
        ProgressState::Finished(path) => "Success! Run: sh "@ + path@,
        ProgressState::Error(err) => "ERROR: "@ + err@,
    }
}

/// Formats the status line for a progress state.
pub fn status_message(s: &ProgressState) -> (r: String)
    ensures
        r@ == spec_status_message(*s),
{
    match s {
        ProgressState::Starting => String::from_str("Initializing..."),
        ProgressState::Downloading(pct) => {
            let mut r = String::from_str("Downloading Rootfs... ");
            let digits = u64_to_dec(*pct as u64);
            r.append(digits.as_str());
            r.append("%");
            r
        },
        ProgressState::Extracting => String::from_str("Extracting Archive (This takes CPU)..."),
        ProgressState::Configuring => String::from_str("Configuring Environment..."),
        ProgressState::Finished(path) => {
            let mut r = String::from_str("Success! Run: sh ");
            r.append(path.as_str());
            r
        },
        ProgressState::Error(err) => {
            let mut r = String::from_str("ERROR: ");
            r.append(err.as_str());
            r
        },
    }
}

} // verus!
