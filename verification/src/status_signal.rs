//! The empty marker files by which the two sides signal each other.
use vstd::prelude::*;

use crate::protocol::{clear_begin, start_clear, Progress, SweepSet};

verus! {

/// A marker file: its presence in the directory is the signal.
#[derive(Clone, Copy, Debug, PartialEq, Eq, Structural)]
pub enum StatusSignal {
    /// A request has been written and waits for the server.
    StatusOpen,
    /// A response has been written and waits for the client.
    StatusDone,
    /// The server has put an error in place of a response.
    StatusError,
}

impl StatusSignal {
    /// The name of the marker file.
    pub open spec fn name(self) -> Seq<char> {
        match self {
            StatusSignal::StatusOpen => "status-open"@,
            StatusSignal::StatusDone => "status-done"@,
            StatusSignal::StatusError => "status-error"@,
        }
    }

    /// The name of the marker file, as a `String`.
    pub fn to_string(&self) -> (name: String)
        ensures
            name@ == self.name(),
    {
        match self {
            StatusSignal::StatusOpen => String::from_str("status-open"),
            StatusSignal::StatusDone => String::from_str("status-done"),
            StatusSignal::StatusError => String::from_str("status-error"),
        }
    }
}

/// Every signal, in the order in which they are cleared.
pub open spec fn all_status_signals() -> Seq<StatusSignal> {
    seq![StatusSignal::StatusOpen, StatusSignal::StatusDone, StatusSignal::StatusError]
}

/// Every signal, in the order in which they are cleared.
pub fn get_all_status_signals() -> (signals: Vec<StatusSignal>)
    ensures
        signals@ == all_status_signals(),
{
    let mut signals: Vec<StatusSignal> = Vec::new();
    signals.push(StatusSignal::StatusOpen);
    signals.push(StatusSignal::StatusDone);
    signals.push(StatusSignal::StatusError);
    signals
}

/// Deletes those markers that are set.
pub fn delete_any_status_set<V>() -> (p: Progress<V>)
    ensures
        p == clear_begin::<V>(SweepSet::Signals),
        p.coherent(),
{
    start_clear(SweepSet::Signals)
}

} // verus!
