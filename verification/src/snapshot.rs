//! How a snapshot file is named.

use crate::timestamp::minute_label_text;
use crate::timestamp::Timestamp;
use vstd::prelude::*;
use vstd::string::*;

verus! {

/// The name of the snapshot file written at `at`: the minute of `at`, then the
/// marker that sets snapshot files apart from other output.
pub open spec fn snapshot_file_name_text(at: Timestamp) -> Seq<char> {
    minute_label_text(at.spec_secs() as int, at.spec_nanos() as int) + "_current_monitors.json"@
}

/// The name of the snapshot file written at `at`, for example
/// `2024-03-09_17-05_current_monitors.json`. Two snapshots taken within the
/// same minute share a name.
pub fn snapshot_file_name(at: &Timestamp) -> (name: String)
    ensures
        name@ == snapshot_file_name_text(*at),
{
    at.minute_label().concat("_current_monitors.json")
}

} // verus!
