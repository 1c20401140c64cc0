//! Setting a directory up for a fresh exchange.
use vstd::prelude::*;

use crate::protocol::{prepare_begin, Action, PreparePhase, Progress, Task};

pub use crate::status_signal::delete_any_status_set;

verus! {

/// Readies the directory for a fresh exchange: creates it if it does not
/// exist; otherwise deletes the markers and the error file. A request or
/// response file left behind is harmless, as nothing reads it without its
/// marker.
pub fn prepare_directory<V>() -> (p: Progress<V>)
    ensures
        p == prepare_begin::<V>(),
        p.coherent(),
{
    Progress::Next(Task::Prepare(PreparePhase::Inspecting), Action::InspectRoot)
}

} // verus!
