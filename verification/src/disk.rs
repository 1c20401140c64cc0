//! A model of the directory that two Hermes sides share, and of running an
//! operation against it.
//!
//! The model is what the protocol assumes of the file system: a value that
//! was written reads back unchanged, a created file exists, a deleted one is
//! gone, and nothing else changes the directory while the operation runs.
use vstd::prelude::*;

use crate::entry::Entry;
use crate::error::HermesError;
use crate::protocol::{Action, Event, Outcome, Progress};

verus! {

/// What stands at the directory's path.
#[derive(Clone, Copy, Debug, PartialEq, Eq, Structural)]
pub enum RootKind {
    Missing,
    Directory,
    /// Something that is not a directory.
    Other,
}

/// The directory: what stands at its path, and which entries exist in it.
/// An entry maps to the value it holds, or to `None` when it holds none that
/// can be read (a marker, for one).
pub struct Disk<V> {
    pub root: RootKind,
    pub files: Map<Entry, Option<V>>,
}

impl<V> Disk<V> {
    /// Whether the entry exists.
    pub open spec fn has(self, e: Entry) -> bool {
        self.files.contains_key(e)
    }

    /// Whether the entry exists and holds `v`.
    pub open spec fn holds(self, e: Entry, v: V) -> bool {
        self.files.contains_key(e) && self.files[e] == Some(v)
    }

    /// The same directory with `e` set to `content`.
    pub open spec fn put(self, e: Entry, content: Option<V>) -> Disk<V> {
        Disk { root: self.root, files: self.files.insert(e, content) }
    }

    /// The same directory without `e`.
    pub open spec fn without(self, e: Entry) -> Disk<V> {
        Disk { root: self.root, files: self.files.remove(e) }
    }

    /// The directory after an action, and the event the action observes.
    pub open spec fn perform(self, a: Action<V>) -> (Disk<V>, Event<V>) {
        match a {
            Action::InspectRoot => (
                self,
                Event::Root {
                    exists: self.root != RootKind::Missing,
                    is_dir: self.root == RootKind::Directory,
                },
            ),
            Action::CreateRoot => if self.root == RootKind::Other {
                (self, Event::Io(Err(arbitrary())))
            } else {
                (Disk { root: RootKind::Directory, files: self.files }, Event::Io(Ok(())))
            },
            Action::Check(e) => (self, Event::Exists(self.has(e))),
            Action::Write(e, v) => (self.put(e, Some(v)), Event::Written(Ok(()))),
            Action::Read(e) => if self.has(e) && self.files[e] is Some {
                (self, Event::Loaded(Ok(self.files[e]->0)))
            } else {
                (self, Event::Loaded(Err(arbitrary())))
            },
            Action::Touch(e) => (self.put(e, None), Event::Io(Ok(()))),
            Action::Remove(e) => if self.has(e) {
                (self.without(e), Event::Io(Ok(())))
            } else {
                (self, Event::Io(Err(arbitrary())))
            },
            Action::Sleep(_) => (self, Event::Slept),
        }
    }
}

/// The directory and the result after letting `p` run for at most `fuel`
/// actions; the result is `None` when the operation has not finished by then.
pub open spec fn run<V>(p: Progress<V>, d: Disk<V>, fuel: nat) -> (
    Disk<V>,
    Option<Result<Outcome<V>, HermesError<V>>>,
)
    decreases fuel,
{
    match p {
        Progress::Finished(r) => (d, Some(r)),
        Progress::Next(task, action) => if fuel == 0 {
            (d, None)
        } else {
            let (d2, e) = d.perform(action);
            run(task.next(e), d2, (fuel - 1) as nat)
        },
    }
}

/// The directory answers every action with an event of the kind the action
/// calls for.
pub proof fn lemma_perform_answers<V>(d: Disk<V>, a: Action<V>)
    ensures
        d.perform(a).1.spec_kind() == a.answer_kind(),
{
}

/// Deleting an entry that does not exist leaves the directory as it was.
pub proof fn lemma_without_absent<V>(d: Disk<V>, e: Entry)
    requires
        !d.has(e),
    ensures
        d.without(e) == d,
{
    assert(d.files.remove(e) =~= d.files);
}

/// The pause an action asks for, in microseconds.
pub open spec fn pause<V>(a: Action<V>) -> nat {
    match a {
        Action::Sleep(micros) => micros as nat,
        _ => 0,
    }
}

/// The total pause that `p` asks for while it runs for at most `fuel`
/// actions against `d`.
pub open spec fn pauses<V>(p: Progress<V>, d: Disk<V>, fuel: nat) -> nat
    decreases fuel,
{
    match p {
        Progress::Finished(_) => 0,
        Progress::Next(task, action) => if fuel == 0 {
            0
        } else {
            let (d2, e) = d.perform(action);
            pause(action) + pauses(task.next(e), d2, (fuel - 1) as nat)
        },
    }
}

/// Where `p` stands, and the directory, after at most `n` actions against
/// `d`.
pub open spec fn steps<V>(p: Progress<V>, d: Disk<V>, n: nat) -> (Progress<V>, Disk<V>)
    decreases n,
{
    if n == 0 {
        (p, d)
    } else {
        match p {
            Progress::Finished(_) => (p, d),
            Progress::Next(task, action) => {
                let (d2, e) = d.perform(action);
                steps(task.next(e), d2, (n - 1) as nat)
            },
        }
    }
}

/// Running `p` on the answers `evs`, one per action and whatever they are:
/// the result once the operation has finished (`None` if the answers run out
/// first), and the total pause it asked for.
pub open spec fn feed<V>(p: Progress<V>, evs: Seq<Event<V>>) -> (
    Option<Result<Outcome<V>, HermesError<V>>>,
    nat,
)
    decreases evs.len(),
{
    match p {
        Progress::Finished(r) => (Some(r), 0),
        Progress::Next(task, action) => if evs.len() == 0 {
            (None, 0)
        } else {
            let rest = feed(task.next(evs[0]), evs.drop_first());
            (rest.0, rest.1 + pause(action))
        },
    }
}

} // verus!
