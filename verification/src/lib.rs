//! Hermes: a request/response channel between two processes that meet in a
//! directory on disk.
//!
//! The client writes a request and sets a marker; the server waits for the
//! marker, reads the request, writes a response and sets another marker; the
//! client waits for that one. The server may put an error in place of a
//! response. Every operation is a [`protocol::Task`]: it names the file work
//! to do and decides, from what that work observed, what comes next.
use vstd::prelude::*;

pub mod backoff;
pub mod disk;
pub mod entry;
pub mod error;
pub mod laws;
pub mod protocol;
pub mod status_signal;
pub mod utils;

use crate::entry::{Channel, Entry};
use crate::error::{HermesError, PathError};
use crate::protocol::{
    await_begin, check_begin, clear_begin, fetch_begin, open_begin, put_error_begin,
    send_begin, start_await, start_clear, Action, Progress, PutErrorPhase, Sweep, SweepSet, Task,
};
use crate::status_signal::StatusSignal;

verus! {

/// The number of pauses after which `await_request` and `await_response`
/// give up.
pub const DEFAULT_MAX_ITERATIONS: u32 = 150_000;

/// A connection to a Hermes directory.
#[derive(Debug)]
pub struct Hermes {
    path: String,
    garbage_collection: bool,
}

impl Hermes {
    /// The path of the directory.
    pub closed spec fn root(self) -> Seq<char> {
        self.path@
    }

    /// Whether a successful wait deletes the value files.
    pub closed spec fn collects(self) -> bool {
        self.garbage_collection
    }

    /// The connection that opening `path` yields.
    pub closed spec fn opened(path: String) -> Hermes {
        Hermes { path, garbage_collection: false }
    }

    /// A freshly opened connection has the path it was opened with, and
    /// garbage collection off.
    pub proof fn lemma_opened(path: String)
        ensures
            Hermes::opened(path).root() == path@,
            !Hermes::opened(path).collects(),
    {
    }

    /// The connection that opening `path` yields.
    pub(crate) fn open_at(path: String) -> (hermes: Hermes)
        ensures
            hermes == Hermes::opened(path),
    {
        Hermes { path, garbage_collection: false }
    }
}

impl Hermes {
    /// Opens a connection to the directory at `path`, creating the directory
    /// if nothing stands there. An empty path is refused at once; a path on
    /// which something other than a directory stands is refused once
    /// inspected.
    pub fn new<V>(path: String) -> (p: Progress<V>)
        ensures
            p == open_begin::<V>(path),
            p.coherent(),
    {
        if path.as_str().is_empty() {
            Progress::Finished(Err(HermesError::PathError(PathError::EmptyPath)))
        } else {
            Progress::Next(Task::Open { path, creating: false }, Action::InspectRoot)
        }
    }

    /// The path of the directory.
    pub fn path(&self) -> (path: &str)
        ensures
            path@ == self.root(),
    {
        self.path.as_str()
    }

    /// Whether a successful wait deletes the value files.
    pub fn garbage_collection(&self) -> (enabled: bool)
        ensures
            enabled == self.collects(),
    {
        self.garbage_collection
    }

    /// Sends a request to the server: writes it, then sets the open marker.
    pub fn request<V>(&self, value: V) -> (p: Progress<V>)
        ensures
            p == send_begin(Channel::Request, value),
            p.coherent(),
    {
        Progress::Next(
            Task::Send { signal: StatusSignal::StatusOpen, touching: false },
            Action::Write(Entry::RequestFile, value),
        )
    }

    /// Whether a request waits: whether the open marker is set.
    pub fn is_request_ready<V>(&self) -> (p: Progress<V>)
        ensures
            p == check_begin::<V>(Channel::Request),
            p.coherent(),
    {
        Progress::Next(Task::Check, Action::Check(Entry::Signal(StatusSignal::StatusOpen)))
    }

    /// Reads the request at once, without looking at the marker.
    pub fn get_request<V>(&self) -> (p: Progress<V>)
        ensures
            p == fetch_begin::<V>(Channel::Request),
            p.coherent(),
    {
        Progress::Next(
            Task::Fetch { channel: Channel::Request, reading: false },
            Action::Check(Entry::RequestFile),
        )
    }

    /// Waits for a request with no time limit.
    pub fn await_request_forever<V>(&self) -> (p: Progress<V>)
        ensures
            p == await_begin::<V>(Channel::Request, 0, false, self.collects()),
            p.coherent(),
    {
        self.await_on(Channel::Request, 0, false)
    }

    /// Waits for a request, giving up after `DEFAULT_MAX_ITERATIONS` pauses
    /// (about three minutes).
    pub fn await_request<V>(&self) -> (p: Progress<V>)
        ensures
            p == await_begin::<V>(Channel::Request, DEFAULT_MAX_ITERATIONS, true, self.collects()),
            p.coherent(),
    {
        self.await_on(Channel::Request, DEFAULT_MAX_ITERATIONS, true)
    }

    /// Answers the client: writes the response, then sets the done marker.
    pub fn respond<V>(&self, value: V) -> (p: Progress<V>)
        ensures
            p == send_begin(Channel::Response, value),
            p.coherent(),
    {
        Progress::Next(
            Task::Send { signal: StatusSignal::StatusDone, touching: false },
            Action::Write(Entry::ResponseFile, value),
        )
    }

    /// Whether a response waits: whether the done marker is set.
    pub fn is_response_ready<V>(&self) -> (p: Progress<V>)
        ensures
            p == check_begin::<V>(Channel::Response),
            p.coherent(),
    {
        Progress::Next(Task::Check, Action::Check(Entry::Signal(StatusSignal::StatusDone)))
    }

    /// Reads the response at once, without looking at the marker.
    pub fn get_response<V>(&self) -> (p: Progress<V>)
        ensures
            p == fetch_begin::<V>(Channel::Response),
            p.coherent(),
    {
        Progress::Next(
            Task::Fetch { channel: Channel::Response, reading: false },
            Action::Check(Entry::ResponseFile),
        )
    }

    /// Waits for a response, giving up after `DEFAULT_MAX_ITERATIONS` pauses
    /// (about three minutes).
    pub fn await_response<V>(&self) -> (p: Progress<V>)
        ensures
            p == await_begin::<V>(Channel::Response, DEFAULT_MAX_ITERATIONS, true, self.collects()),
            p.coherent(),
    {
        self.await_on(Channel::Response, DEFAULT_MAX_ITERATIONS, true)
    }

    /// Waits for a response with no time limit.
    pub fn await_response_forever<V>(&self) -> (p: Progress<V>)
        ensures
            p == await_begin::<V>(Channel::Response, 0, false, self.collects()),
            p.coherent(),
    {
        self.await_on(Channel::Response, 0, false)
    }

    /// Waits for the value of `channel`.
    fn await_on<V>(&self, channel: Channel, max_iterations: u32, break_on_max: bool) -> (p: Progress<V>)
        ensures
            p == await_begin::<V>(channel, max_iterations, break_on_max, self.collects()),
            p.coherent(),
    {
        start_await(channel, max_iterations, break_on_max, self.garbage_collection)
    }

    /// Deletes the request, response and error files, those that exist.
    pub fn free_resources<V>(&self) -> (p: Progress<V>)
        ensures
            p == clear_begin::<V>(SweepSet::Resources),
            p.coherent(),
    {
        start_clear(SweepSet::Resources)
    }

    /// Turns the deletion of the value files after each successful wait on
    /// or off.
    pub fn set_garbage_collection(&mut self, enabled: bool)
        ensures
            final(self).root() == old(self).root(),
            final(self).collects() == enabled,
    {
        self.garbage_collection = enabled;
    }

    /// Puts an error in place of a response: deletes the markers, writes the
    /// error, then sets the error marker.
    pub fn put_error<V>(&self, error: V) -> (p: Progress<V>)
        ensures
            p == put_error_begin(error),
            p.coherent(),
    {
        let (s, a) = Sweep::start(SweepSet::Signals);
        Progress::Next(Task::PutError(PutErrorPhase::Clearing(s, error)), a)
    }
}

} // verus!
