//! Where a document is kept on disk, and which of several places a save
//! goes to.

use vstd::prelude::*;

verus! {

/// The directory of the panel below the user's configuration directory.
pub const CONFIG_DIR: &'static str = "egui-app";

/// The name of the document's file in that directory.
pub const CONFIG_FILE: &'static str = "data.yaml";

/// The place that a save goes to: the one given for this save; where none
/// is given, the configured one; and where none is configured either, the
/// fallback.
pub fn save_target<P>(explicit: Option<P>, configured: Option<P>, fallback: P) -> (target: P)
    ensures
        target == match explicit {
            Some(p) => p,
            None => match configured {
                Some(c) => c,
                None => fallback,
            },
        },
{
    match explicit {
        Some(p) => p,
        None => match configured {
            Some(c) => c,
            None => fallback,
        },
    }
}

} // verus!
