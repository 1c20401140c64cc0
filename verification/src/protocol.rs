//! The Hermes protocol as a set of small state machines.
//!
//! A Hermes operation never touches the disk itself. It hands its caller an
//! [`Action`] on the shared directory, the caller performs it and answers with
//! the [`Event`] it observed, and the operation decides on the next action or
//! finishes. Every decision of the protocol lives here; the caller only does
//! the file work.
use vstd::prelude::*;

use crate::backoff::{backoff, backoff_micros};
use crate::entry::{Channel, Entry};
use crate::error::{HermesError, PathError};
use crate::status_signal::{all_status_signals, StatusSignal};
use crate::Hermes;

verus! {

/// One piece of work on the directory.
pub enum Action<V> {
    /// Find out whether the directory's path exists and is a directory.
    InspectRoot,
    /// Create the directory, with its parents.
    CreateRoot,
    /// Find out whether the entry exists.
    Check(Entry),
    /// Store the value in the entry.
    Write(Entry, V),
    /// Load the value stored in the entry.
    Read(Entry),
    /// Create the entry, empty.
    Touch(Entry),
    /// Delete the entry.
    Remove(Entry),
    /// Wait this many microseconds.
    Sleep(u64),
}

/// What the caller observed while performing an [`Action`].
pub enum Event<V> {
    /// Answers `InspectRoot`.
    Root { exists: bool, is_dir: bool },
    /// Answers `Check`.
    Exists(bool),
    /// Answers `CreateRoot`, `Touch` and `Remove`.
    Io(Result<(), std::io::Error>),
    /// Answers `Write`; the error is the text of the failure.
    Written(Result<(), String>),
    /// Answers `Read`; the error is the text of the failure.
    Loaded(Result<V, String>),
    /// Answers `Sleep`.
    Slept,
}

/// The kinds of [`Event`].
#[derive(Clone, Copy, Debug, PartialEq, Eq, Structural)]
pub enum EventKind {
    Root,
    Exists,
    Io,
    Written,
    Loaded,
    Slept,
}

impl<V> Action<V> {
    /// The kind of event that answers this action.
    pub open spec fn answer_kind(self) -> EventKind {
        match self {
            Action::InspectRoot => EventKind::Root,
            Action::CreateRoot => EventKind::Io,
            Action::Check(_) => EventKind::Exists,
            Action::Write(_, _) => EventKind::Written,
            Action::Read(_) => EventKind::Loaded,
            Action::Touch(_) => EventKind::Io,
            Action::Remove(_) => EventKind::Io,
            Action::Sleep(_) => EventKind::Slept,
        }
    }
}

impl<V> Event<V> {
    /// The kind of this event.
    pub open spec fn spec_kind(self) -> EventKind {
        match self {
            Event::Root { .. } => EventKind::Root,
            Event::Exists(_) => EventKind::Exists,
            Event::Io(_) => EventKind::Io,
            Event::Written(_) => EventKind::Written,
            Event::Loaded(_) => EventKind::Loaded,
            Event::Slept => EventKind::Slept,
        }
    }

    /// The kind of this event.
    pub fn kind(&self) -> (kind: EventKind)
        ensures
            kind == self.spec_kind(),
    {
        match self {
            Event::Root { .. } => EventKind::Root,
            Event::Exists(_) => EventKind::Exists,
            Event::Io(_) => EventKind::Io,
            Event::Written(_) => EventKind::Written,
            Event::Loaded(_) => EventKind::Loaded,
            Event::Slept => EventKind::Slept,
        }
    }
}

/// What a finished operation hands back.
pub enum Outcome<V> {
    /// `Hermes::new` succeeded.
    Opened(Hermes),
    /// The operation has no value to return.
    Unit,
    /// The answer of `is_request_ready` or `is_response_ready`.
    Flag(bool),
    /// The value that was read.
    Value(V),
}

/// Either the next action together with the operation that waits for its
/// answer, or the end of the operation.
pub enum Progress<V> {
    Next(Task<V>, Action<V>),
    Finished(Result<Outcome<V>, HermesError<V>>),
}

impl<V> Progress<V> {
    /// The waiting operation expects the kind of event that answers the
    /// action it asked for.
    pub open spec fn coherent(self) -> bool {
        match self {
            Progress::Next(task, action) => task.expected_kind() == action.answer_kind(),
            Progress::Finished(_) => true,
        }
    }
}

/// Which group of files a sweep deletes.
#[derive(Clone, Copy, Debug, PartialEq, Eq, Structural)]
pub enum SweepSet {
    /// The request, response and error files.
    Resources,
    /// The three markers.
    Signals,
}

impl SweepSet {
    /// The file at position `index` of the group; positions past the last
    /// one stand for the last one.
    pub open spec fn target(self, index: usize) -> Entry {
        let i: int = if index < 2 { index as int } else { 2 };
        match self {
            SweepSet::Resources => seq![Entry::RequestFile, Entry::ResponseFile, Entry::ErrorFile][i],
            SweepSet::Signals => Entry::Signal(all_status_signals()[i]),
        }
    }

    /// The file at position `index` of the group.
    pub fn target_at(self, index: usize) -> (entry: Entry)
        ensures
            entry == self.target(index),
    {
        match self {
            SweepSet::Resources => {
                if index == 0 {
                    Entry::RequestFile
                } else if index == 1 {
                    Entry::ResponseFile
                } else {
                    Entry::ErrorFile
                }
            },
            SweepSet::Signals => {
                if index == 0 {
                    Entry::Signal(StatusSignal::StatusOpen)
                } else if index == 1 {
                    Entry::Signal(StatusSignal::StatusDone)
                } else {
                    Entry::Signal(StatusSignal::StatusError)
                }
            },
        }
    }
}

/// Deletes, one after the other, those files of a group that exist.
#[derive(Clone, Copy, Debug, PartialEq, Eq, Structural)]
pub struct Sweep {
    pub set: SweepSet,
    /// The position of the file being handled.
    pub index: usize,
    /// Whether the file was found and its deletion was asked for.
    pub removing: bool,
}

/// The next step of a sweep.
pub enum SweepStep<V> {
    Next(Sweep, Action<V>),
    Finished(Result<(), std::io::Error>),
}

impl Sweep {
    /// A sweep at the first file of the group, and its first action.
    pub open spec fn begin<V>(set: SweepSet) -> (Sweep, Action<V>) {
        (Sweep { set, index: 0, removing: false }, Action::Check(set.target(0)))
    }

    /// The kind of event the sweep waits for.
    pub open spec fn expected_kind(self) -> EventKind {
        if self.removing {
            EventKind::Io
        } else {
            EventKind::Exists
        }
    }

    /// Go on with the next file of the group, or finish after the last.
    pub open spec fn advance<V>(self) -> SweepStep<V> {
        if self.index >= 2 {
            SweepStep::Finished(Ok(()))
        } else {
            SweepStep::Next(
                Sweep { set: self.set, index: (self.index + 1) as usize, removing: false },
                Action::Check(self.set.target((self.index + 1) as usize)),
            )
        }
    }

    /// The sweep's answer to an event: a file that exists is deleted, a
    /// failed deletion ends the sweep with its error.
    pub open spec fn next<V>(self, event: Event<V>) -> SweepStep<V> {
        if self.removing {
            match event {
                Event::Io(Err(e)) => SweepStep::Finished(Err(e)),
                _ => self.advance(),
            }
        } else {
            match event {
                Event::Exists(true) => SweepStep::Next(
                    Sweep { set: self.set, index: self.index, removing: true },
                    Action::Remove(self.set.target(self.index)),
                ),
                _ => self.advance(),
            }
        }
    }

    /// A sweep at the first file of the group, and its first action.
    pub fn start<V>(set: SweepSet) -> (res: (Sweep, Action<V>))
        ensures
            res == Sweep::begin::<V>(set),
            res.0.expected_kind() == res.1.answer_kind(),
    {
        (Sweep { set, index: 0, removing: false }, Action::Check(set.target_at(0)))
    }

    /// Go on with the next file of the group, or finish after the last.
    pub fn step_on<V>(self) -> (step: SweepStep<V>)
        ensures
            step == self.advance::<V>(),
    {
        if self.index >= 2 {
            SweepStep::Finished(Ok(()))
        } else {
            let index: usize = self.index + 1;
            SweepStep::Next(
                Sweep { set: self.set, index, removing: false },
                Action::Check(self.set.target_at(index)),
            )
        }
    }

    /// The sweep's answer to an event.
    pub fn resume<V>(self, event: Event<V>) -> (step: SweepStep<V>)
        ensures
            step == self.next(event),
            step matches SweepStep::Next(s, a) ==> s.expected_kind() == a.answer_kind(),
    {
        if self.removing {
            match event {
                Event::Io(Err(e)) => SweepStep::Finished(Err(e)),
                _ => self.step_on(),
            }
        } else {
            match event {
                Event::Exists(true) => SweepStep::Next(
                    Sweep { set: self.set, index: self.index, removing: true },
                    Action::Remove(self.set.target_at(self.index)),
                ),
                _ => self.step_on(),
            }
        }
    }
}

/// The stages of `put_error`.
pub enum PutErrorPhase<V> {
    /// Deleting the markers; the error waits to be written.
    Clearing(Sweep, V),
    Writing,
    Touching,
}

/// The stages of `prepare_directory`.
pub enum PreparePhase {
    Inspecting,
    Creating,
    Clearing(Sweep),
    CheckingError,
    RemovingError,
}

/// The stages of a wait for a value.
pub enum AwaitPhase<V> {
    /// Looking for the marker of the awaited value.
    PollSignal,
    /// Looking for an error file while no marker is there.
    PollError,
    /// Pausing before the next look.
    Sleeping,
    /// The wait is over; looking whether it ended with an error.
    CheckError,
    ReadError,
    ReadAnswer,
    /// The value was read; its marker is being deleted.
    Consume(V),
    /// Deleting the value files after the read.
    Collect(V, Sweep),
}

/// A wait for the value of one direction of the channel.
pub struct Await<V> {
    pub channel: Channel,
    /// After this many pauses the wait gives up, if `break_on_max` is set.
    pub max_iterations: u32,
    pub break_on_max: bool,
    /// Whether the value files are deleted once the value was read.
    pub garbage_collection: bool,
    /// The number of pauses so far.
    pub count: u32,
    pub phase: AwaitPhase<V>,
}

impl<V> Await<V> {
    /// The same wait in another stage.
    pub open spec fn with_phase(self, phase: AwaitPhase<V>) -> Await<V> {
        Await {
            channel: self.channel,
            max_iterations: self.max_iterations,
            break_on_max: self.break_on_max,
            garbage_collection: self.garbage_collection,
            count: self.count,
            phase,
        }
    }
}

/// The pause counter after one more pause; it stops at its largest value.
pub open spec fn bump(count: u32) -> u32 {
    if count < u32::MAX {
        (count + 1) as u32
    } else {
        count
    }
}

/// An operation that waits for the answer to the action it asked for.
pub enum Task<V> {
    /// `Hermes::new`: checks the path, creates the directory if needed.
    Open { path: String, creating: bool },
    /// `request` and `respond`: writes the value, then sets the marker.
    Send { signal: StatusSignal, touching: bool },
    /// `is_request_ready` and `is_response_ready`.
    Check,
    /// `get_request` and `get_response`.
    Fetch { channel: Channel, reading: bool },
    /// `free_resources` and `delete_any_status_set`.
    Clear(Sweep),
    /// `put_error`.
    PutError(PutErrorPhase<V>),
    /// `prepare_directory`.
    Prepare(PreparePhase),
    /// `await_request`, `await_response` and their variants without a
    /// time limit.
    Await(Await<V>),
}

impl<V> Task<V> {
    /// The kind of event the operation waits for.
    pub open spec fn expected_kind(self) -> EventKind {
        match self {
            Task::Open { creating, .. } => if creating {
                EventKind::Io
            } else {
                EventKind::Root
            },
            Task::Send { touching, .. } => if touching {
                EventKind::Io
            } else {
                EventKind::Written
            },
            Task::Check => EventKind::Exists,
            Task::Fetch { reading, .. } => if reading {
                EventKind::Loaded
            } else {
                EventKind::Exists
            },
            Task::Clear(sweep) => sweep.expected_kind(),
            Task::PutError(phase) => match phase {
                PutErrorPhase::Clearing(sweep, _) => sweep.expected_kind(),
                PutErrorPhase::Writing => EventKind::Written,
                PutErrorPhase::Touching => EventKind::Io,
            },
            Task::Prepare(phase) => match phase {
                PreparePhase::Inspecting => EventKind::Root,
                PreparePhase::Creating => EventKind::Io,
                PreparePhase::Clearing(sweep) => sweep.expected_kind(),
                PreparePhase::CheckingError => EventKind::Exists,
                PreparePhase::RemovingError => EventKind::Io,
            },
            Task::Await(w) => match w.phase {
                AwaitPhase::PollSignal => EventKind::Exists,
                AwaitPhase::PollError => EventKind::Exists,
                AwaitPhase::Sleeping => EventKind::Slept,
                AwaitPhase::CheckError => EventKind::Exists,
                AwaitPhase::ReadError => EventKind::Loaded,
                AwaitPhase::ReadAnswer => EventKind::Loaded,
                AwaitPhase::Consume(_) => EventKind::Io,
                AwaitPhase::Collect(_, sweep) => sweep.expected_kind(),
            },
        }
    }

    /// The operation's answer to an event.
    pub open spec fn next(self, event: Event<V>) -> Progress<V> {
        match self {
            Task::Open { path, creating } => open_next(path, event),
            Task::Send { signal, touching } => send_next(signal, event),
            Task::Check => match event {
                Event::Exists(b) => Progress::Finished(Ok(Outcome::Flag(b))),
                _ => Progress::Finished(Ok(Outcome::Flag(false))),
            },
            Task::Fetch { channel, reading } => fetch_next(channel, event),
            Task::Clear(sweep) => match sweep.next(event) {
                SweepStep::Next(s, a) => Progress::Next(Task::Clear(s), a),
                SweepStep::Finished(Err(e)) => Progress::Finished(Err(HermesError::IOError(e))),
                SweepStep::Finished(Ok(())) => Progress::Finished(Ok(Outcome::Unit)),
            },
            Task::PutError(phase) => put_error_next(phase, event),
            Task::Prepare(phase) => prepare_next(phase, event),
            Task::Await(w) => await_next(w, event),
        }
    }
}

/// `Hermes::new` after the path was inspected or the directory created.
pub open spec fn open_next<V>(path: String, event: Event<V>) -> Progress<V> {
    match event {
        Event::Root { exists, is_dir } => if exists && !is_dir {
            Progress::Finished(Err(HermesError::PathError(PathError::NotDirectory)))
        } else if !exists {
            Progress::Next(Task::Open { path, creating: true }, Action::CreateRoot)
        } else {
            Progress::Finished(Ok(Outcome::Opened(Hermes::opened(path))))
        },
        Event::Io(Err(e)) => Progress::Finished(Err(HermesError::IOError(e))),
        _ => Progress::Finished(Ok(Outcome::Opened(Hermes::opened(path)))),
    }
}

/// `request` and `respond` after the value was written or the marker set.
pub open spec fn send_next<V>(signal: StatusSignal, event: Event<V>) -> Progress<V> {
    match event {
        Event::Written(Err(s)) => Progress::Finished(Err(HermesError::NabuError(s))),
        Event::Written(Ok(())) => Progress::Next(
            Task::Send { signal, touching: true },
            Action::Touch(Entry::Signal(signal)),
        ),
        Event::Io(Err(e)) => Progress::Finished(Err(HermesError::IOError(e))),
        _ => Progress::Finished(Ok(Outcome::Unit)),
    }
}

/// `get_request` and `get_response` after the check or the read.
pub open spec fn fetch_next<V>(channel: Channel, event: Event<V>) -> Progress<V> {
    match event {
        Event::Exists(true) => Progress::Next(
            Task::Fetch { channel, reading: true },
            Action::Read(channel.spec_value_file()),
        ),
        Event::Loaded(Ok(v)) => Progress::Finished(Ok(Outcome::Value(v))),
        Event::Loaded(Err(s)) => Progress::Finished(Err(HermesError::NabuError(s))),
        _ => Progress::Finished(Err(channel.spec_missing())),
    }
}

/// `put_error` after an event.
pub open spec fn put_error_next<V>(phase: PutErrorPhase<V>, event: Event<V>) -> Progress<V> {
    match phase {
        PutErrorPhase::Clearing(sweep, value) => match sweep.next(event) {
            SweepStep::Next(s, a) => Progress::Next(
                Task::PutError(PutErrorPhase::Clearing(s, value)),
                a,
            ),
            SweepStep::Finished(Err(e)) => Progress::Finished(Err(HermesError::IOError(e))),
            SweepStep::Finished(Ok(())) => Progress::Next(
                Task::PutError(PutErrorPhase::Writing),
                Action::Write(Entry::ErrorFile, value),
            ),
        },
        PutErrorPhase::Writing => match event {
            Event::Written(Err(s)) => Progress::Finished(Err(HermesError::NabuError(s))),
            _ => Progress::Next(
                Task::PutError(PutErrorPhase::Touching),
                Action::Touch(Entry::Signal(StatusSignal::StatusError)),
            ),
        },
        PutErrorPhase::Touching => match event {
            Event::Io(Err(e)) => Progress::Finished(Err(HermesError::IOError(e))),
            _ => Progress::Finished(Ok(Outcome::Unit)),
        },
    }
}

/// `prepare_directory` after an event.
pub open spec fn prepare_next<V>(phase: PreparePhase, event: Event<V>) -> Progress<V> {
    match phase {
        PreparePhase::Inspecting => match event {
            Event::Root { exists: false, .. } => Progress::Next(
                Task::Prepare(PreparePhase::Creating),
                Action::CreateRoot,
            ),
            _ => Progress::Next(
                Task::Prepare(PreparePhase::Clearing(Sweep::begin::<V>(SweepSet::Signals).0)),
                Sweep::begin::<V>(SweepSet::Signals).1,
            ),
        },
        PreparePhase::Creating => match event {
            Event::Io(Err(e)) => Progress::Finished(Err(HermesError::IOError(e))),
            _ => Progress::Finished(Ok(Outcome::Unit)),
        },
        PreparePhase::Clearing(sweep) => match sweep.next(event) {
            SweepStep::Next(s, a) => Progress::Next(Task::Prepare(PreparePhase::Clearing(s)), a),
            SweepStep::Finished(Err(e)) => Progress::Finished(Err(HermesError::IOError(e))),
            SweepStep::Finished(Ok(())) => Progress::Next(
                Task::Prepare(PreparePhase::CheckingError),
                Action::Check(Entry::ErrorFile),
            ),
        },
        PreparePhase::CheckingError => match event {
            Event::Exists(true) => Progress::Next(
                Task::Prepare(PreparePhase::RemovingError),
                Action::Remove(Entry::ErrorFile),
            ),
            _ => Progress::Finished(Ok(Outcome::Unit)),
        },
        PreparePhase::RemovingError => match event {
            Event::Io(Err(e)) => Progress::Finished(Err(HermesError::IOError(e))),
            _ => Progress::Finished(Ok(Outcome::Unit)),
        },
    }
}

/// A wait after an event.
///
/// While neither the awaited marker nor an error file is there, the wait
/// pauses and looks again; with `break_on_max` it gives up once the number of
/// pauses exceeds `max_iterations`. Once either is there, an error file wins
/// over the value; a value that was read has its marker deleted and, with
/// garbage collection, the value files too.
pub open spec fn await_next<V>(w: Await<V>, event: Event<V>) -> Progress<V> {
    match w.phase {
        AwaitPhase::PollSignal => match event {
            Event::Exists(true) => Progress::Next(
                Task::Await(w.with_phase(AwaitPhase::CheckError)),
                Action::Check(Entry::ErrorFile),
            ),
            _ => Progress::Next(
                Task::Await(w.with_phase(AwaitPhase::PollError)),
                Action::Check(Entry::ErrorFile),
            ),
        },
        AwaitPhase::PollError => match event {
            Event::Exists(true) => Progress::Next(
                Task::Await(w.with_phase(AwaitPhase::CheckError)),
                Action::Check(Entry::ErrorFile),
            ),
            _ => Progress::Next(
                Task::Await(w.with_phase(AwaitPhase::Sleeping)),
                Action::Sleep(backoff(w.count)),
            ),
        },
        AwaitPhase::Sleeping => {
            let count: u32 = bump(w.count);
            if count > w.max_iterations && w.break_on_max {
                Progress::Finished(Err(HermesError::TimeOutError))
            } else {
                Progress::Next(
                    Task::Await(
                        Await {
                            channel: w.channel,
                            max_iterations: w.max_iterations,
                            break_on_max: w.break_on_max,
                            garbage_collection: w.garbage_collection,
                            count,
                            phase: AwaitPhase::PollSignal,
                        },
                    ),
                    Action::Check(Entry::Signal(w.channel.spec_ready_signal())),
                )
            }
        },
        AwaitPhase::CheckError => match event {
            Event::Exists(true) => Progress::Next(
                Task::Await(w.with_phase(AwaitPhase::ReadError)),
                Action::Read(Entry::ErrorFile),
            ),
            _ => Progress::Next(
                Task::Await(w.with_phase(AwaitPhase::ReadAnswer)),
                Action::Read(w.channel.spec_value_file()),
            ),
        },
        AwaitPhase::ReadError => match event {
            Event::Loaded(Ok(v)) => Progress::Finished(Err(HermesError::ServerError(v))),
            Event::Loaded(Err(s)) => Progress::Finished(Err(HermesError::NabuError(s))),
            _ => Progress::Finished(Err(HermesError::TimeOutError)),
        },
        AwaitPhase::ReadAnswer => match event {
            Event::Loaded(Ok(v)) => Progress::Next(
                Task::Await(w.with_phase(AwaitPhase::Consume(v))),
                Action::Remove(Entry::Signal(w.channel.spec_ready_signal())),
            ),
            Event::Loaded(Err(s)) => Progress::Finished(Err(HermesError::NabuError(s))),
            _ => Progress::Finished(Err(HermesError::TimeOutError)),
        },
        AwaitPhase::Consume(v) => match event {
            Event::Io(Err(e)) => Progress::Finished(Err(HermesError::IOError(e))),
            _ => if w.garbage_collection {
                Progress::Next(
                    Task::Await(
                        w.with_phase(AwaitPhase::Collect(v, Sweep::begin::<V>(SweepSet::Resources).0)),
                    ),
                    Sweep::begin::<V>(SweepSet::Resources).1,
                )
            } else {
                Progress::Finished(Ok(Outcome::Value(v)))
            },
        },
        AwaitPhase::Collect(v, sweep) => match sweep.next(event) {
            SweepStep::Next(s, a) => Progress::Next(
                Task::Await(w.with_phase(AwaitPhase::Collect(v, s))),
                a,
            ),
            SweepStep::Finished(Err(e)) => Progress::Finished(Err(HermesError::IOError(e))),
            SweepStep::Finished(Ok(())) => Progress::Finished(Ok(Outcome::Value(v))),
        },
    }
}

/// The start of `Hermes::new` on `path`.
pub open spec fn open_begin<V>(path: String) -> Progress<V> {
    if path@.len() == 0 {
        Progress::Finished(Err(HermesError::PathError(PathError::EmptyPath)))
    } else {
        Progress::Next(Task::Open { path, creating: false }, Action::InspectRoot)
    }
}

/// The start of sending `value` in the direction of `channel`: the value is
/// written first, the marker set after.
pub open spec fn send_begin<V>(channel: Channel, value: V) -> Progress<V> {
    Progress::Next(
        Task::Send { signal: channel.spec_ready_signal(), touching: false },
        Action::Write(channel.spec_value_file(), value),
    )
}

/// The start of asking whether a value waits in the direction of `channel`.
pub open spec fn check_begin<V>(channel: Channel) -> Progress<V> {
    Progress::Next(Task::Check, Action::Check(Entry::Signal(channel.spec_ready_signal())))
}

/// The start of reading the value of `channel` at once.
pub open spec fn fetch_begin<V>(channel: Channel) -> Progress<V> {
    Progress::Next(
        Task::Fetch { channel, reading: false },
        Action::Check(channel.spec_value_file()),
    )
}

/// The start of a wait for the value of `channel`.
pub open spec fn await_begin<V>(
    channel: Channel,
    max_iterations: u32,
    break_on_max: bool,
    garbage_collection: bool,
) -> Progress<V> {
    Progress::Next(
        Task::Await(
            Await {
                channel,
                max_iterations,
                break_on_max,
                garbage_collection,
                count: 0,
                phase: AwaitPhase::PollSignal,
            },
        ),
        Action::Check(Entry::Signal(channel.spec_ready_signal())),
    )
}

/// The start of a sweep over `set`.
pub open spec fn clear_begin<V>(set: SweepSet) -> Progress<V> {
    Progress::Next(Task::Clear(Sweep::begin::<V>(set).0), Sweep::begin::<V>(set).1)
}

/// The start of `put_error`: the markers are deleted first.
pub open spec fn put_error_begin<V>(value: V) -> Progress<V> {
    Progress::Next(
        Task::PutError(PutErrorPhase::Clearing(Sweep::begin::<V>(SweepSet::Signals).0, value)),
        Sweep::begin::<V>(SweepSet::Signals).1,
    )
}

/// The start of `prepare_directory`.
pub open spec fn prepare_begin<V>() -> Progress<V> {
    Progress::Next(Task::Prepare(PreparePhase::Inspecting), Action::InspectRoot)
}

/// The start of a wait for the value of `channel`.
pub fn start_await<V>(
    channel: Channel,
    max_iterations: u32,
    break_on_max: bool,
    garbage_collection: bool,
) -> (p: Progress<V>)
    ensures
        p == await_begin::<V>(channel, max_iterations, break_on_max, garbage_collection),
        p.coherent(),
{
    Progress::Next(
        Task::Await(
            Await {
                channel,
                max_iterations,
                break_on_max,
                garbage_collection,
                count: 0,
                phase: AwaitPhase::PollSignal,
            },
        ),
        Action::Check(Entry::Signal(channel.ready_signal())),
    )
}

/// The start of a sweep over `set`.
pub fn start_clear<V>(set: SweepSet) -> (p: Progress<V>)
    ensures
        p == clear_begin::<V>(set),
        p.coherent(),
{
    let (s, a) = Sweep::start(set);
    Progress::Next(Task::Clear(s), a)
}

impl<V> Await<V> {
    /// The same wait in another stage.
    pub fn into_phase(self, phase: AwaitPhase<V>) -> (w: Await<V>)
        ensures
            w == self.with_phase(phase),
    {
        Await {
            channel: self.channel,
            max_iterations: self.max_iterations,
            break_on_max: self.break_on_max,
            garbage_collection: self.garbage_collection,
            count: self.count,
            phase,
        }
    }
}

impl<V> Task<V> {
    /// The kind of event the operation waits for.
    pub fn expected(&self) -> (kind: EventKind)
        ensures
            kind == self.expected_kind(),
    {
        match self {
            Task::Open { creating, .. } => if *creating {
                EventKind::Io
            } else {
                EventKind::Root
            },
            Task::Send { touching, .. } => if *touching {
                EventKind::Io
            } else {
                EventKind::Written
            },
            Task::Check => EventKind::Exists,
            Task::Fetch { reading, .. } => if *reading {
                EventKind::Loaded
            } else {
                EventKind::Exists
            },
            Task::Clear(sweep) => if sweep.removing {
                EventKind::Io
            } else {
                EventKind::Exists
            },
            Task::PutError(phase) => match phase {
                PutErrorPhase::Clearing(sweep, _) => if sweep.removing {
                    EventKind::Io
                } else {
                    EventKind::Exists
                },
                PutErrorPhase::Writing => EventKind::Written,
                PutErrorPhase::Touching => EventKind::Io,
            },
            Task::Prepare(phase) => match phase {
                PreparePhase::Inspecting => EventKind::Root,
                PreparePhase::Creating => EventKind::Io,
                PreparePhase::Clearing(sweep) => if sweep.removing {
                    EventKind::Io
                } else {
                    EventKind::Exists
                },
                PreparePhase::CheckingError => EventKind::Exists,
                PreparePhase::RemovingError => EventKind::Io,
            },
            Task::Await(w) => match &w.phase {
                AwaitPhase::PollSignal => EventKind::Exists,
                AwaitPhase::PollError => EventKind::Exists,
                AwaitPhase::Sleeping => EventKind::Slept,
                AwaitPhase::CheckError => EventKind::Exists,
                AwaitPhase::ReadError => EventKind::Loaded,
                AwaitPhase::ReadAnswer => EventKind::Loaded,
                AwaitPhase::Consume(_) => EventKind::Io,
                AwaitPhase::Collect(_, sweep) => if sweep.removing {
                    EventKind::Io
                } else {
                    EventKind::Exists
                },
            },
        }
    }

    /// The operation's answer to the event that answers its last action.
    pub fn resume(self, event: Event<V>) -> (p: Progress<V>)
        requires
            event.spec_kind() == self.expected_kind(),
        ensures
            p == self.next(event),
            p.coherent(),
    {
        match self {
            Task::Open { path, creating } => resume_open(path, event),
            Task::Send { signal, touching } => resume_send(signal, event),
            Task::Check => match event {
                Event::Exists(b) => Progress::Finished(Ok(Outcome::Flag(b))),
                _ => Progress::Finished(Ok(Outcome::Flag(false))),
            },
            Task::Fetch { channel, reading } => resume_fetch(channel, event),
            Task::Clear(sweep) => match sweep.resume(event) {
                SweepStep::Next(s, a) => Progress::Next(Task::Clear(s), a),
                SweepStep::Finished(Err(e)) => Progress::Finished(Err(HermesError::IOError(e))),
                SweepStep::Finished(Ok(())) => Progress::Finished(Ok(Outcome::Unit)),
            },
            Task::PutError(phase) => resume_put_error(phase, event),
            Task::Prepare(phase) => resume_prepare(phase, event),
            Task::Await(w) => resume_await(w, event),
        }
    }
}

fn resume_open<V>(path: String, event: Event<V>) -> (p: Progress<V>)
    ensures
        p == open_next(path, event),
        p.coherent(),
{
    match event {
        Event::Root { exists, is_dir } => if exists && !is_dir {
            Progress::Finished(Err(HermesError::PathError(PathError::NotDirectory)))
        } else if !exists {
            Progress::Next(Task::Open { path, creating: true }, Action::CreateRoot)
        } else {
            Progress::Finished(Ok(Outcome::Opened(Hermes::open_at(path))))
        },
        Event::Io(Err(e)) => Progress::Finished(Err(HermesError::IOError(e))),
        _ => Progress::Finished(Ok(Outcome::Opened(Hermes::open_at(path)))),
    }
}

fn resume_send<V>(signal: StatusSignal, event: Event<V>) -> (p: Progress<V>)
    ensures
        p == send_next(signal, event),
        p.coherent(),
{
    match event {
        Event::Written(Err(s)) => Progress::Finished(Err(HermesError::NabuError(s))),
        Event::Written(Ok(())) => Progress::Next(
            Task::Send { signal, touching: true },
            Action::Touch(Entry::Signal(signal)),
        ),
        Event::Io(Err(e)) => Progress::Finished(Err(HermesError::IOError(e))),
        _ => Progress::Finished(Ok(Outcome::Unit)),
    }
}

fn resume_fetch<V>(channel: Channel, event: Event<V>) -> (p: Progress<V>)
    ensures
        p == fetch_next(channel, event),
        p.coherent(),
{
    match event {
        Event::Exists(true) => Progress::Next(
            Task::Fetch { channel, reading: true },
            Action::Read(channel.value_file()),
        ),
        Event::Loaded(Ok(v)) => Progress::Finished(Ok(Outcome::Value(v))),
        Event::Loaded(Err(s)) => Progress::Finished(Err(HermesError::NabuError(s))),
        _ => Progress::Finished(Err(channel.missing())),
    }
}

fn resume_put_error<V>(phase: PutErrorPhase<V>, event: Event<V>) -> (p: Progress<V>)
    ensures
        p == put_error_next(phase, event),
        p.coherent(),
{
    match phase {
        PutErrorPhase::Clearing(sweep, value) => match sweep.resume(event) {
            SweepStep::Next(s, a) => Progress::Next(
                Task::PutError(PutErrorPhase::Clearing(s, value)),
                a,
            ),
            SweepStep::Finished(Err(e)) => Progress::Finished(Err(HermesError::IOError(e))),
            SweepStep::Finished(Ok(())) => Progress::Next(
                Task::PutError(PutErrorPhase::Writing),
                Action::Write(Entry::ErrorFile, value),
            ),
        },
        PutErrorPhase::Writing => match event {
            Event::Written(Err(s)) => Progress::Finished(Err(HermesError::NabuError(s))),
            _ => Progress::Next(
                Task::PutError(PutErrorPhase::Touching),
                Action::Touch(Entry::Signal(StatusSignal::StatusError)),
            ),
        },
        PutErrorPhase::Touching => match event {
            Event::Io(Err(e)) => Progress::Finished(Err(HermesError::IOError(e))),
            _ => Progress::Finished(Ok(Outcome::Unit)),
        },
    }
}

fn resume_prepare<V>(phase: PreparePhase, event: Event<V>) -> (p: Progress<V>)
    ensures
        p == prepare_next(phase, event),
        p.coherent(),
{
    match phase {
        PreparePhase::Inspecting => match event {
            Event::Root { exists: false, .. } => Progress::Next(
                Task::Prepare(PreparePhase::Creating),
                Action::CreateRoot,
            ),
            _ => {
                let (s, a) = Sweep::start(SweepSet::Signals);
                Progress::Next(Task::Prepare(PreparePhase::Clearing(s)), a)
            },
        },
        PreparePhase::Creating => match event {
            Event::Io(Err(e)) => Progress::Finished(Err(HermesError::IOError(e))),
            _ => Progress::Finished(Ok(Outcome::Unit)),
        },
        PreparePhase::Clearing(sweep) => match sweep.resume(event) {
            SweepStep::Next(s, a) => Progress::Next(Task::Prepare(PreparePhase::Clearing(s)), a),
            SweepStep::Finished(Err(e)) => Progress::Finished(Err(HermesError::IOError(e))),
            SweepStep::Finished(Ok(())) => Progress::Next(
                Task::Prepare(PreparePhase::CheckingError),
                Action::Check(Entry::ErrorFile),
            ),
        },
        PreparePhase::CheckingError => match event {
            Event::Exists(true) => Progress::Next(
                Task::Prepare(PreparePhase::RemovingError),
                Action::Remove(Entry::ErrorFile),
            ),
            _ => Progress::Finished(Ok(Outcome::Unit)),
        },
        PreparePhase::RemovingError => match event {
            Event::Io(Err(e)) => Progress::Finished(Err(HermesError::IOError(e))),
            _ => Progress::Finished(Ok(Outcome::Unit)),
        },
    }
}

fn resume_await<V>(w: Await<V>, event: Event<V>) -> (p: Progress<V>)
    ensures
        p == await_next(w, event),
        p.coherent(),
{
    let ghost w0 = w;
    let Await { channel, max_iterations, break_on_max, garbage_collection, count, phase } = w;
    let w = Await {
        channel,
        max_iterations,
        break_on_max,
        garbage_collection,
        count,
        phase: AwaitPhase::PollSignal,
    };
    assert(w == w0.with_phase(AwaitPhase::PollSignal));
    match phase {
        AwaitPhase::PollSignal => match event {
            Event::Exists(true) => Progress::Next(
                Task::Await(w.into_phase(AwaitPhase::CheckError)),
                Action::Check(Entry::ErrorFile),
            ),
            _ => Progress::Next(
                Task::Await(w.into_phase(AwaitPhase::PollError)),
                Action::Check(Entry::ErrorFile),
            ),
        },
        AwaitPhase::PollError => match event {
            Event::Exists(true) => Progress::Next(
                Task::Await(w.into_phase(AwaitPhase::CheckError)),
                Action::Check(Entry::ErrorFile),
            ),
            _ => Progress::Next(
                Task::Await(w.into_phase(AwaitPhase::Sleeping)),
                Action::Sleep(backoff_micros(count)),
            ),
        },
        AwaitPhase::Sleeping => {
            let next_count: u32 = if count < u32::MAX {
                count + 1
            } else {
                count
            };
            if next_count > max_iterations && break_on_max {
                Progress::Finished(Err(HermesError::TimeOutError))
            } else {
                Progress::Next(
                    Task::Await(
                        Await {
                            channel,
                            max_iterations,
                            break_on_max,
                            garbage_collection,
                            count: next_count,
                            phase: AwaitPhase::PollSignal,
                        },
                    ),
                    Action::Check(Entry::Signal(channel.ready_signal())),
                )
            }
        },
        AwaitPhase::CheckError => match event {
            Event::Exists(true) => Progress::Next(
                Task::Await(w.into_phase(AwaitPhase::ReadError)),
                Action::Read(Entry::ErrorFile),
            ),
            _ => Progress::Next(
                Task::Await(w.into_phase(AwaitPhase::ReadAnswer)),
                Action::Read(channel.value_file()),
            ),
        },
        AwaitPhase::ReadError => match event {
            Event::Loaded(Ok(v)) => Progress::Finished(Err(HermesError::ServerError(v))),
            Event::Loaded(Err(s)) => Progress::Finished(Err(HermesError::NabuError(s))),
            _ => Progress::Finished(Err(HermesError::TimeOutError)),
        },
        AwaitPhase::ReadAnswer => match event {
            Event::Loaded(Ok(v)) => Progress::Next(
                Task::Await(w.into_phase(AwaitPhase::Consume(v))),
                Action::Remove(Entry::Signal(channel.ready_signal())),
            ),
            Event::Loaded(Err(s)) => Progress::Finished(Err(HermesError::NabuError(s))),
            _ => Progress::Finished(Err(HermesError::TimeOutError)),
        },
        AwaitPhase::Consume(v) => match event {
            Event::Io(Err(e)) => Progress::Finished(Err(HermesError::IOError(e))),
            _ => if garbage_collection {
                let (s, a) = Sweep::start(SweepSet::Resources);
                Progress::Next(Task::Await(w.into_phase(AwaitPhase::Collect(v, s))), a)
            } else {
                Progress::Finished(Ok(Outcome::Value(v)))
            },
        },
        AwaitPhase::Collect(v, sweep) => match sweep.resume(event) {
            SweepStep::Next(s, a) => Progress::Next(
                Task::Await(w.into_phase(AwaitPhase::Collect(v, s))),
                a,
            ),
            SweepStep::Finished(Err(e)) => Progress::Finished(Err(HermesError::IOError(e))),
            SweepStep::Finished(Ok(())) => Progress::Finished(Ok(Outcome::Value(v))),
        },
    }
}

} // verus!
