//! What running the operations against a directory yields.
use vstd::prelude::*;

use crate::disk::{feed, lemma_without_absent, pause, pauses, run, steps, Disk, RootKind};
use crate::entry::{Channel, Entry};
use crate::error::HermesError;
use crate::status_signal::StatusSignal;
use crate::error::PathError;
use crate::backoff::{backoff, lemma_backoff_bounds};
use crate::protocol::{
    await_begin, bump, check_begin, clear_begin, fetch_begin, open_begin, prepare_begin,
    put_error_begin, send_begin, Action, Await, AwaitPhase, Event, Outcome, PreparePhase, Progress,
    Sweep, SweepSet, SweepStep, Task,
};
use crate::{Hermes, DEFAULT_MAX_ITERATIONS};

verus! {

/// The directory after `v` was sent in the direction of `c`.
pub open spec fn sent<V>(d: Disk<V>, c: Channel, v: V) -> Disk<V> {
    d.put(c.spec_value_file(), Some(v)).put(Entry::Signal(c.spec_ready_signal()), None)
}

/// Sending a value writes it to the direction's value file, then sets the
/// direction's marker, and succeeds.
pub proof fn law_send<V>(c: Channel, v: V, d: Disk<V>)
    ensures
        run(send_begin(c, v), d, 2) == (sent(d, c, v), Some(Ok::<Outcome<V>, HermesError<V>>(Outcome::Unit))),
{
    reveal_with_fuel(run, 3);
}

/// After a value was sent, the direction reports it ready and reading the
/// direction gives the value back.
pub proof fn law_read_after_send<V>(c: Channel, v: V, d: Disk<V>)
    ensures
        run(check_begin::<V>(c), sent(d, c, v), 1).1 == Some(Ok::<Outcome<V>, HermesError<V>>(Outcome::Flag(true))),
        run(fetch_begin::<V>(c), sent(d, c, v), 2).1 == Some(Ok::<Outcome<V>, HermesError<V>>(Outcome::Value(v))),
{
    reveal_with_fuel(run, 3);
}

/// The directory after the value files were deleted.
pub open spec fn collected<V>(d: Disk<V>) -> Disk<V> {
    d.without(Entry::RequestFile).without(Entry::ResponseFile).without(Entry::ErrorFile)
}

/// The directory after the markers were deleted.
pub open spec fn unsignalled<V>(d: Disk<V>) -> Disk<V> {
    d.without(Entry::Signal(StatusSignal::StatusOpen)).without(
        Entry::Signal(StatusSignal::StatusDone),
    ).without(Entry::Signal(StatusSignal::StatusError))
}

/// The directory after a wait in the direction of `c` took its value: the
/// marker is gone and, with garbage collection, the value files too.
pub open spec fn consumed<V>(d: Disk<V>, c: Channel, gc: bool) -> Disk<V> {
    let taken = d.without(Entry::Signal(c.spec_ready_signal()));
    if gc {
        collected(taken)
    } else {
        taken
    }
}

/// A wait, at any point of its loop, in a directory that holds the awaited
/// marker and a readable value but no error file: it returns the value
/// without pausing, deletes the marker and, with garbage collection, the
/// request, response and error files; nothing else changes.
pub proof fn law_await_ready<V>(
    c: Channel,
    v: V,
    d: Disk<V>,
    max_iterations: u32,
    break_on_max: bool,
    gc: bool,
    count: u32,
)
    requires
        d.has(Entry::Signal(c.spec_ready_signal())),
        d.holds(c.spec_value_file(), v),
        !d.has(Entry::ErrorFile),
    ensures
        run(polling::<V>(c, max_iterations, break_on_max, gc, count), d, 10) == (
            consumed(d, c, gc),
            Some(Ok::<Outcome<V>, HermesError<V>>(Outcome::Value(v))),
        ),
        pauses(polling::<V>(c, max_iterations, break_on_max, gc, count), d, 10) == 0,
        !consumed(d, c, gc).has(Entry::Signal(c.spec_ready_signal())),
        !gc ==> consumed(d, c, gc) == d.without(Entry::Signal(c.spec_ready_signal())),
{
    let t = d.without(Entry::Signal(c.spec_ready_signal()));
    lemma_three_deletions(t, Entry::RequestFile, Entry::ResponseFile, Entry::ErrorFile);
    reveal_with_fuel(run, 11);
    reveal_with_fuel(pauses, 11);
}

/// A wait for a value that was sent, with no error file in the directory,
/// returns the value and deletes its marker (and, with garbage collection,
/// the value files); the direction no longer reports a value ready.
pub proof fn law_await_after_send<V>(
    c: Channel,
    v: V,
    d: Disk<V>,
    max_iterations: u32,
    break_on_max: bool,
    gc: bool,
)
    requires
        !d.has(Entry::ErrorFile),
    ensures
        run(await_begin::<V>(c, max_iterations, break_on_max, gc), sent(d, c, v), 10) == (
            consumed(sent(d, c, v), c, gc),
            Some(Ok::<Outcome<V>, HermesError<V>>(Outcome::Value(v))),
        ),
        run(check_begin::<V>(c), consumed(sent(d, c, v), c, gc), 1).1 == Some(
            Ok::<Outcome<V>, HermesError<V>>(Outcome::Flag(false)),
        ),
{
    law_await_ready(c, v, sent(d, c, v), max_iterations, break_on_max, gc, 0);
    assert(await_begin::<V>(c, max_iterations, break_on_max, gc) == polling::<V>(
        c,
        max_iterations,
        break_on_max,
        gc,
        0,
    ));
    reveal_with_fuel(run, 2);
}

/// With an error file in the directory, a wait in either direction ends
/// with the error it holds, whatever the markers say.
pub proof fn law_error_wins<V>(
    c: Channel,
    e: V,
    d: Disk<V>,
    max_iterations: u32,
    break_on_max: bool,
    gc: bool,
)
    requires
        d.holds(Entry::ErrorFile, e),
    ensures
        run(await_begin::<V>(c, max_iterations, break_on_max, gc), d, 4) == (
            d,
            Some(Err::<Outcome<V>, HermesError<V>>(HermesError::ServerError(e))),
        ),
{
    reveal_with_fuel(run, 5);
}

/// The steps of a sweep over three files: each intermediate directory
/// equals the one with the files handled so far deleted.
proof fn lemma_three_deletions<V>(d: Disk<V>, a: Entry, b: Entry, c: Entry)
    ensures
        !d.has(a) ==> d.without(a) == d,
        !d.without(a).has(b) ==> d.without(a).without(b) == d.without(a),
        !d.without(a).without(b).has(c) ==> d.without(a).without(b).without(c) == d.without(
            a,
        ).without(b),
{
    if !d.has(a) {
        lemma_without_absent(d, a);
    }
    if !d.without(a).has(b) {
        lemma_without_absent(d.without(a), b);
    }
    if !d.without(a).without(b).has(c) {
        lemma_without_absent(d.without(a).without(b), c);
    }
}

/// Putting an error deletes the markers, writes the error and sets the
/// error marker.
pub proof fn law_put_error<V>(e: V, d: Disk<V>)
    ensures
        run(put_error_begin(e), d, 8) == (
            unsignalled(d).put(Entry::ErrorFile, Some(e)).put(
                Entry::Signal(StatusSignal::StatusError),
                None,
            ),
            Some(Ok::<Outcome<V>, HermesError<V>>(Outcome::Unit)),
        ),
{
    lemma_three_deletions(
        d,
        Entry::Signal(StatusSignal::StatusOpen),
        Entry::Signal(StatusSignal::StatusDone),
        Entry::Signal(StatusSignal::StatusError),
    );
    reveal_with_fuel(run, 9);
}

/// Freeing the resources deletes the request, response and error files;
/// reading either direction afterwards fails with that direction's error.
pub proof fn law_free_resources<V>(d: Disk<V>, c: Channel)
    ensures
        run(clear_begin::<V>(SweepSet::Resources), d, 6) == (
            collected(d),
            Some(Ok::<Outcome<V>, HermesError<V>>(Outcome::Unit)),
        ),
        run(fetch_begin::<V>(c), collected(d), 1).1 == Some(
            Err::<Outcome<V>, HermesError<V>>(c.spec_missing()),
        ),
{
    lemma_three_deletions(d, Entry::RequestFile, Entry::ResponseFile, Entry::ErrorFile);
    reveal_with_fuel(run, 7);
}

/// Clearing the markers deletes all three.
pub proof fn law_delete_signals<V>(d: Disk<V>)
    ensures
        run(clear_begin::<V>(SweepSet::Signals), d, 6) == (
            unsignalled(d),
            Some(Ok::<Outcome<V>, HermesError<V>>(Outcome::Unit)),
        ),
{
    lemma_three_deletions(
        d,
        Entry::Signal(StatusSignal::StatusOpen),
        Entry::Signal(StatusSignal::StatusDone),
        Entry::Signal(StatusSignal::StatusError),
    );
    reveal_with_fuel(run, 7);
}

/// Reading a direction whose value file does not exist fails with that
/// direction's error.
pub proof fn law_fetch_missing<V>(c: Channel, d: Disk<V>)
    requires
        !d.has(c.spec_value_file()),
    ensures
        run(fetch_begin::<V>(c), d, 1) == (
            d,
            Some(Err::<Outcome<V>, HermesError<V>>(c.spec_missing())),
        ),
{
    reveal_with_fuel(run, 2);
}

/// The waiting loop of a wait in the direction of `c` at pause `count`.
pub open spec fn polling<V>(
    c: Channel,
    max_iterations: u32,
    break_on_max: bool,
    gc: bool,
    count: u32,
) -> Progress<V> {
    Progress::Next(
        Task::Await(
            Await {
                channel: c,
                max_iterations,
                break_on_max,
                garbage_collection: gc,
                count,
                phase: AwaitPhase::PollSignal,
            },
        ),
        Action::Check(Entry::Signal(c.spec_ready_signal())),
    )
}

/// One round of the waiting loop in a directory that holds neither the
/// awaited marker nor an error file: two looks and a pause, then either the
/// wait gives up or the loop starts over one pause later.
proof fn lemma_poll_round<V>(
    c: Channel,
    max_iterations: u32,
    break_on_max: bool,
    gc: bool,
    count: u32,
    d: Disk<V>,
    fuel: nat,
)
    requires
        !d.has(Entry::Signal(c.spec_ready_signal())),
        !d.has(Entry::ErrorFile),
    ensures
        fuel < 3 ==> run(polling::<V>(c, max_iterations, break_on_max, gc, count), d, fuel) == (
            d,
            None::<Result<Outcome<V>, HermesError<V>>>,
        ),
        fuel >= 3 ==> run(polling::<V>(c, max_iterations, break_on_max, gc, count), d, fuel) == (
            if bump(count) > max_iterations && break_on_max {
                (d, Some(Err::<Outcome<V>, HermesError<V>>(HermesError::TimeOutError)))
            } else {
                run(polling::<V>(c, max_iterations, break_on_max, gc, bump(count)), d, (fuel - 3) as nat)
            }
        ),
{
    reveal_with_fuel(run, 4);
}

/// A wait without a time limit never ends while neither the awaited marker
/// nor an error file appears.
pub proof fn law_wait_forever<V>(c: Channel, gc: bool, count: u32, d: Disk<V>, fuel: nat)
    requires
        !d.has(Entry::Signal(c.spec_ready_signal())),
        !d.has(Entry::ErrorFile),
    ensures
        run(polling::<V>(c, 0, false, gc, count), d, fuel) == (
            d,
            None::<Result<Outcome<V>, HermesError<V>>>,
        ),
    decreases fuel,
{
    lemma_poll_round::<V>(c, 0, false, gc, count, d, fuel);
    if fuel >= 3 {
        law_wait_forever::<V>(c, gc, bump(count), d, (fuel - 3) as nat);
    }
}

/// A wait with a time limit, while neither the awaited marker nor an error
/// file appears, gives up with a time-out after exactly `max_iterations - count
/// + 1` more pauses, that is after three times as many actions, and not
/// before.
pub proof fn law_time_out<V>(
    c: Channel,
    max_iterations: u32,
    gc: bool,
    count: u32,
    d: Disk<V>,
    fuel: nat,
)
    requires
        !d.has(Entry::Signal(c.spec_ready_signal())),
        !d.has(Entry::ErrorFile),
        count <= max_iterations < u32::MAX,
    ensures
        fuel >= 3 * (max_iterations - count + 1) ==> run(
            polling::<V>(c, max_iterations, true, gc, count),
            d,
            fuel,
        ) == (d, Some(Err::<Outcome<V>, HermesError<V>>(HermesError::TimeOutError))),
        fuel < 3 * (max_iterations - count + 1) ==> run(
            polling::<V>(c, max_iterations, true, gc, count),
            d,
            fuel,
        ) == (d, None::<Result<Outcome<V>, HermesError<V>>>),
    decreases max_iterations - count, fuel,
{
    lemma_poll_round::<V>(c, max_iterations, true, gc, count, d, fuel);
    if fuel >= 3 && count < max_iterations {
        law_time_out::<V>(c, max_iterations, gc, (count + 1) as u32, d, (fuel - 3) as nat);
    }
}

/// The full exchange: the client sends a request, the server's wait returns
/// it, the server sends a response, and the client's wait returns that.
pub proof fn law_round_trip<V>(
    request: V,
    response: V,
    d: Disk<V>,
    gc_server: bool,
    gc_client: bool,
)
    requires
        !d.has(Entry::ErrorFile),
    ensures
        ({
            let d1 = run(send_begin(Channel::Request, request), d, 2).0;
            let (d2, got_request) = run(
                await_begin::<V>(Channel::Request, DEFAULT_MAX_ITERATIONS, true, gc_server),
                d1,
                10,
            );
            let d3 = run(send_begin(Channel::Response, response), d2, 2).0;
            let got_response = run(
                await_begin::<V>(Channel::Response, DEFAULT_MAX_ITERATIONS, true, gc_client),
                d3,
                10,
            ).1;
            &&& got_request == Some(Ok::<Outcome<V>, HermesError<V>>(Outcome::Value(request)))
            &&& got_response == Some(Ok::<Outcome<V>, HermesError<V>>(Outcome::Value(response)))
        }),
{
    law_send(Channel::Request, request, d);
    law_await_after_send(Channel::Request, request, d, DEFAULT_MAX_ITERATIONS, true, gc_server);
    let d2 = consumed(sent(d, Channel::Request, request), Channel::Request, gc_server);
    law_send(Channel::Response, response, d2);
    law_await_after_send(Channel::Response, response, d2, DEFAULT_MAX_ITERATIONS, true, gc_client);
}

/// After the server put an error, a wait in either direction ends with that
/// error.
pub proof fn law_error_reaches_waiter<V>(
    c: Channel,
    e: V,
    d: Disk<V>,
    max_iterations: u32,
    break_on_max: bool,
    gc: bool,
)
    ensures
        run(
            await_begin::<V>(c, max_iterations, break_on_max, gc),
            run(put_error_begin(e), d, 8).0,
            4,
        ).1 == Some(Err::<Outcome<V>, HermesError<V>>(HermesError::ServerError(e))),
{
    law_put_error(e, d);
    let d1 = unsignalled(d).put(Entry::ErrorFile, Some(e)).put(
        Entry::Signal(StatusSignal::StatusError),
        None,
    );
    law_error_wins(c, e, d1, max_iterations, break_on_max, gc);
}

/// Opening refuses an empty path and a path on which something other than a
/// directory stands; it creates a missing directory and leaves an existing
/// one as it is.
pub proof fn law_open<V>(path: String, d: Disk<V>)
    ensures
        path@.len() == 0 ==> run(open_begin::<V>(path), d, 0) == (
            d,
            Some(Err::<Outcome<V>, HermesError<V>>(HermesError::PathError(PathError::EmptyPath))),
        ),
        path@.len() != 0 && d.root == RootKind::Other ==> run(open_begin::<V>(path), d, 1) == (
            d,
            Some(Err::<Outcome<V>, HermesError<V>>(HermesError::PathError(PathError::NotDirectory))),
        ),
        path@.len() != 0 && d.root == RootKind::Directory ==> run(open_begin::<V>(path), d, 1) == (
            d,
            Some(Ok::<Outcome<V>, HermesError<V>>(Outcome::Opened(Hermes::opened(path)))),
        ),
        path@.len() != 0 && d.root == RootKind::Missing ==> run(open_begin::<V>(path), d, 2) == (
            Disk { root: RootKind::Directory, files: d.files },
            Some(Ok::<Outcome<V>, HermesError<V>>(Outcome::Opened(Hermes::opened(path)))),
        ),
{
    reveal_with_fuel(run, 3);
}

/// `prepare_directory` while it handles the marker at position `index`.
pub open spec fn preparing<V>(index: usize) -> Progress<V> {
    Progress::Next(
        Task::Prepare(PreparePhase::Clearing(Sweep { set: SweepSet::Signals, index, removing: false })),
        Action::Check(SweepSet::Signals.target(index)),
    )
}

/// `prepare_directory` once the markers are gone.
pub open spec fn checking_error<V>() -> Progress<V> {
    Progress::Next(Task::Prepare(PreparePhase::CheckingError), Action::Check(Entry::ErrorFile))
}

/// One marker handled by `prepare_directory`: deleted if set, in one or two
/// actions.
proof fn lemma_prepare_one_marker<V>(index: usize, d: Disk<V>, fuel: nat)
    requires
        index <= 2,
        fuel >= 2,
    ensures
        run(preparing::<V>(index), d, fuel) == run(
            if index < 2 { preparing::<V>((index + 1) as usize) } else { checking_error::<V>() },
            d.without(SweepSet::Signals.target(index)),
            if d.has(SweepSet::Signals.target(index)) { (fuel - 2) as nat } else { (fuel - 1) as nat },
        ),
{
    if !d.has(SweepSet::Signals.target(index)) {
        lemma_without_absent(d, SweepSet::Signals.target(index));
    }
    reveal_with_fuel(run, 3);
}

/// Preparing a directory creates it when missing, and otherwise deletes the
/// markers and the error file.
pub proof fn law_prepare_directory<V>(d: Disk<V>)
    ensures
        d.root == RootKind::Missing ==> run(prepare_begin::<V>(), d, 2) == (
            Disk { root: RootKind::Directory, files: d.files },
            Some(Ok::<Outcome<V>, HermesError<V>>(Outcome::Unit)),
        ),
        d.root != RootKind::Missing ==> run(prepare_begin::<V>(), d, 9) == (
            unsignalled(d).without(Entry::ErrorFile),
            Some(Ok::<Outcome<V>, HermesError<V>>(Outcome::Unit)),
        ),
{
    if d.root == RootKind::Missing {
        reveal_with_fuel(run, 3);
    } else {
        assert(run(prepare_begin::<V>(), d, 9) == run(preparing::<V>(0), d, 8)) by {
            reveal_with_fuel(run, 2);
        }
        let d1 = d.without(SweepSet::Signals.target(0));
        let f1: nat = if d.has(SweepSet::Signals.target(0)) { 6 } else { 7 };
        lemma_prepare_one_marker::<V>(0, d, 8);
        let d2 = d1.without(SweepSet::Signals.target(1));
        let f2: nat = if d1.has(SweepSet::Signals.target(1)) { (f1 - 2) as nat } else { (f1 - 1) as nat };
        lemma_prepare_one_marker::<V>(1, d1, f1);
        let d3 = d2.without(SweepSet::Signals.target(2));
        let f3: nat = if d2.has(SweepSet::Signals.target(2)) { (f2 - 2) as nat } else { (f2 - 1) as nat };
        lemma_prepare_one_marker::<V>(2, d2, f2);
        assert(d3 == unsignalled(d));
        if !d3.has(Entry::ErrorFile) {
            lemma_without_absent(d3, Entry::ErrorFile);
        }
        assert(run(checking_error::<V>(), d3, f3) == (
            d3.without(Entry::ErrorFile),
            Some(Ok::<Outcome<V>, HermesError<V>>(Outcome::Unit)),
        )) by {
            reveal_with_fuel(run, 3);
        }
    }
}

/// Different entries are different files.
pub proof fn law_entry_names_distinct(a: Entry, b: Entry)
    requires
        a != b,
    ensures
        a.name() != b.name(),
{
    reveal_strlit("request.xff");
    reveal_strlit("response.xff");
    reveal_strlit("error.xff");
    reveal_strlit("status-open");
    reveal_strlit("status-done");
    reveal_strlit("status-error");
    if a.name() == b.name() {
        assert(a.name()[0] == b.name()[0]);
        assert(a.name()[7] == b.name()[7]);
        assert(a.name().len() == b.name().len());
    }
}

/// How many more answers a garbage-collecting sweep needs at most.
pub open spec fn sweep_budget(s: Sweep) -> nat {
    (2 * (2 - s.index) + if s.removing { 1int } else { 2int }) as nat
}

/// A wait that deletes the value files after its read finishes, whatever
/// answers it gets, within `sweep_budget` answers and without pausing.
proof fn lemma_collect_ends<V>(w: Await<V>, v: V, s: Sweep, a: Action<V>, evs: Seq<Event<V>>)
    requires
        s.index <= 2,
        evs.len() >= sweep_budget(s),
    ensures
        feed(Progress::Next(Task::Await(w.with_phase(AwaitPhase::Collect(v, s))), a), evs).0 is Some,
        feed(Progress::Next(Task::Await(w.with_phase(AwaitPhase::Collect(v, s))), a), evs).1
            == pause(a),
    decreases evs.len(),
{
    let e = evs[0];
    let rest = evs.drop_first();
    let wc = w.with_phase(AwaitPhase::Collect(v, s));
    let p1 = Task::Await(wc).next(e);
    assert(feed(Progress::Next(Task::Await(wc), a), evs) == (feed(p1, rest).0, feed(p1, rest).1
        + pause(a)));
    match s.next(e) {
        SweepStep::Next(s2, a2) => {
            assert(wc.with_phase(AwaitPhase::Collect(v, s2)) == w.with_phase(AwaitPhase::Collect(v, s2)));
            assert(p1 == Progress::Next(Task::Await(w.with_phase(AwaitPhase::Collect(v, s2))), a2));
            assert(pause(a2) == 0);
            assert(s2.index <= 2);
            assert(rest.len() >= sweep_budget(s2));
            lemma_collect_ends(w, v, s2, a2, rest);
        },
        SweepStep::Finished(_) => {
            assert(p1 is Finished);
        },
    }
}

/// A wait that has left its loop finishes, whatever answers it gets, within
/// nine answers and without pausing.
proof fn lemma_exit_ends<V>(w: Await<V>, a: Action<V>, evs: Seq<Event<V>>)
    requires
        evs.len() >= 9,
    ensures
        feed(Progress::Next(Task::Await(w.with_phase(AwaitPhase::CheckError)), a), evs).0 is Some,
        feed(Progress::Next(Task::Await(w.with_phase(AwaitPhase::CheckError)), a), evs).1
            == pause(a),
{
    let r1 = evs.drop_first();
    let r2 = r1.drop_first();
    let r3 = r2.drop_first();
    let w1 = w.with_phase(AwaitPhase::CheckError);
    let p1 = Task::Await(w1).next(evs[0]);
    assert(feed(Progress::Next(Task::Await(w1), a), evs) == (feed(p1, r1).0, feed(p1, r1).1 + pause(a)));
    match evs[0] {
        Event::Exists(true) => {
            let p2 = match p1 {
                Progress::Next(t, _) => t.next(r1[0]),
                _ => p1,
            };
            assert(p2 is Finished);
            assert(feed(p1, r1) == (feed(p2, r2).0, feed(p2, r2).1));
        },
        _ => {
            assert(p1 == Progress::Next(
                Task::Await(w.with_phase(AwaitPhase::ReadAnswer)),
                Action::Read(w.channel.spec_value_file()),
            ));
            let p2 = Task::Await(w.with_phase(AwaitPhase::ReadAnswer)).next(r1[0]);
            assert(feed(p1, r1) == (feed(p2, r2).0, feed(p2, r2).1));
            match r1[0] {
                Event::Loaded(Ok(v)) => {
                    let wc = w.with_phase(AwaitPhase::Consume(v));
                    assert(p2 == Progress::Next(
                        Task::Await(wc),
                        Action::Remove(Entry::Signal(w.channel.spec_ready_signal())),
                    ));
                    let p3 = Task::Await(wc).next(r2[0]);
                    assert(feed(p2, r2) == (feed(p3, r3).0, feed(p3, r3).1));
                    match r2[0] {
                        Event::Io(Err(_)) => {},
                        _ => {
                            if w.garbage_collection {
                                let (s0, a0) = Sweep::begin::<V>(SweepSet::Resources);
                                assert(wc.with_phase(AwaitPhase::Collect(v, s0)) == w.with_phase(
                                    AwaitPhase::Collect(v, s0),
                                ));
                                lemma_collect_ends(w, v, s0, a0, r3);
                            }
                        },
                    }
                },
                _ => {},
            }
        },
    }
}

/// A wait with a time limit, in its loop at pause `count`, finishes whatever
/// answers its looks get, however the directory changes meanwhile: within
/// `3 * (max_iterations - count) + 11` answers, having paused at most
/// 2.5 ms for each of the at most `max_iterations - count + 1` pauses left.
proof fn lemma_timed_wait_ends<V>(
    c: Channel,
    max_iterations: u32,
    gc: bool,
    count: u32,
    evs: Seq<Event<V>>,
)
    requires
        count <= max_iterations < u32::MAX,
        evs.len() >= 3 * (max_iterations - count) + 11,
    ensures
        feed(polling::<V>(c, max_iterations, true, gc, count), evs).0 is Some,
        feed(polling::<V>(c, max_iterations, true, gc, count), evs).1 <= 2_500 * (max_iterations
            - count + 1),
    decreases max_iterations - count,
{
    let w = Await::<V> {
        channel: c,
        max_iterations,
        break_on_max: true,
        garbage_collection: gc,
        count,
        phase: AwaitPhase::PollSignal,
    };
    assert(w.with_phase(AwaitPhase::PollSignal) == w);
    let p0 = polling::<V>(c, max_iterations, true, gc, count);
    let r1 = evs.drop_first();
    let r2 = r1.drop_first();
    let r3 = r2.drop_first();
    let p1 = Task::Await(w).next(evs[0]);
    assert(feed(p0, evs) == (feed(p1, r1).0, feed(p1, r1).1));
    match evs[0] {
        Event::Exists(true) => {
            lemma_exit_ends(w, Action::Check(Entry::ErrorFile), r1);
        },
        _ => {
            let wp = w.with_phase(AwaitPhase::PollError);
            assert(p1 == Progress::Next(Task::Await(wp), Action::<V>::Check(Entry::ErrorFile)));
            let p2 = Task::Await(wp).next(r1[0]);
            assert(feed(p1, r1) == (feed(p2, r2).0, feed(p2, r2).1));
            match r1[0] {
                Event::Exists(true) => {
                    assert(wp.with_phase(AwaitPhase::CheckError) == w.with_phase(AwaitPhase::CheckError));
                    lemma_exit_ends(w, Action::Check(Entry::ErrorFile), r2);
                },
                _ => {
                    let ws = w.with_phase(AwaitPhase::Sleeping);
                    assert(p2 == Progress::Next(Task::Await(ws), Action::<V>::Sleep(backoff(count))));
                    let p3 = Task::Await(ws).next(r2[0]);
                    assert(feed(p2, r2) == (feed(p3, r3).0, (feed(p3, r3).1 + backoff(count)) as nat));
                    lemma_backoff_bounds(count);
                    if count < max_iterations {
                        assert(p3 == polling::<V>(c, max_iterations, true, gc, (count + 1) as u32));
                        lemma_timed_wait_ends::<V>(c, max_iterations, gc, (count + 1) as u32, r3);
                    } else {
                        assert(p3 is Finished);
                    }
                },
            }
        },
    }
}

/// A wait with a time limit ends, whatever the directory holds and whatever
/// another process does to it meanwhile: for any answers to its actions it
/// finishes within `3 * max_iterations + 11` actions, after at most
/// `max_iterations + 1` pauses of at most 2.5 ms each.
pub proof fn law_timed_wait_ends<V>(
    c: Channel,
    max_iterations: u32,
    gc: bool,
    evs: Seq<Event<V>>,
)
    requires
        max_iterations < u32::MAX,
        evs.len() >= 3 * max_iterations + 11,
    ensures
        feed(await_begin::<V>(c, max_iterations, true, gc), evs).0 is Some,
        feed(await_begin::<V>(c, max_iterations, true, gc), evs).1 <= 2_500 * (max_iterations + 1),
{
    assert(await_begin::<V>(c, max_iterations, true, gc) == polling::<V>(c, max_iterations, true, gc, 0));
    lemma_timed_wait_ends::<V>(c, max_iterations, gc, 0, evs);
}

/// `k` rounds of the waiting loop, in a directory that holds neither the
/// awaited marker nor an error file, only count pauses: the wait stands at
/// pause `count + k` and the directory is unchanged.
proof fn lemma_rounds<V>(
    c: Channel,
    max_iterations: u32,
    break_on_max: bool,
    gc: bool,
    count: u32,
    d: Disk<V>,
    k: nat,
)
    requires
        !d.has(Entry::Signal(c.spec_ready_signal())),
        !d.has(Entry::ErrorFile),
        count + k <= u32::MAX,
        break_on_max ==> count + k <= max_iterations,
    ensures
        steps(polling::<V>(c, max_iterations, break_on_max, gc, count), d, 3 * k) == (
            polling::<V>(c, max_iterations, break_on_max, gc, (count + k) as u32),
            d,
        ),
    decreases k,
{
    if k == 0 {
        reveal_with_fuel(steps, 1);
    } else {
        assert(steps(polling::<V>(c, max_iterations, break_on_max, gc, count), d, 3 * k) == steps(
            polling::<V>(c, max_iterations, break_on_max, gc, (count + 1) as u32),
            d,
            3 * (k - 1) as nat,
        )) by {
            reveal_with_fuel(steps, 4);
        }
        lemma_rounds::<V>(
            c,
            max_iterations,
            break_on_max,
            gc,
            (count + 1) as u32,
            d,
            (k - 1) as nat,
        );
    }
}

/// A value that arrives while a wait is already looping: after any number
/// `k` of rounds in which neither the awaited marker nor an error file was
/// there (and before a time limit ran out), the directory is unchanged; once
/// another connection has sent the value, the wait returns it and deletes
/// its marker.
pub proof fn law_marker_arrives_during_wait<V>(
    c: Channel,
    v: V,
    d: Disk<V>,
    max_iterations: u32,
    break_on_max: bool,
    gc: bool,
    k: u32,
)
    requires
        !d.has(Entry::Signal(c.spec_ready_signal())),
        !d.has(Entry::ErrorFile),
        break_on_max ==> k <= max_iterations,
    ensures
        steps(await_begin::<V>(c, max_iterations, break_on_max, gc), d, 3 * k as nat) == (
            polling::<V>(c, max_iterations, break_on_max, gc, k),
            d,
        ),
        run(polling::<V>(c, max_iterations, break_on_max, gc, k), sent(d, c, v), 10) == (
            consumed(sent(d, c, v), c, gc),
            Some(Ok::<Outcome<V>, HermesError<V>>(Outcome::Value(v))),
        ),
{
    assert(await_begin::<V>(c, max_iterations, break_on_max, gc) == polling::<V>(
        c,
        max_iterations,
        break_on_max,
        gc,
        0,
    ));
    lemma_rounds::<V>(c, max_iterations, break_on_max, gc, 0, d, k as nat);
    law_await_ready(c, v, sent(d, c, v), max_iterations, break_on_max, gc, k);
}

/// The exchange of two connections to one directory, as the crate's
/// documentation shows it: the client sends a request and starts waiting for
/// the response; while it loops, the server's wait returns the request and
/// the server responds; the client's wait then returns the response.
pub proof fn law_two_connection_exchange<V>(
    request: V,
    response: V,
    d: Disk<V>,
    gc_server: bool,
    gc_client: bool,
    k: u32,
)
    requires
        !d.has(Entry::ErrorFile),
        !d.has(Entry::Signal(StatusSignal::StatusDone)),
        k <= DEFAULT_MAX_ITERATIONS,
    ensures
        ({
            let d1 = run(send_begin(Channel::Request, request), d, 2).0;
            let (client, d2) = steps(
                await_begin::<V>(Channel::Response, DEFAULT_MAX_ITERATIONS, true, gc_client),
                d1,
                3 * k as nat,
            );
            let (d3, got_request) = run(
                await_begin::<V>(Channel::Request, DEFAULT_MAX_ITERATIONS, true, gc_server),
                d2,
                10,
            );
            let d4 = run(send_begin(Channel::Response, response), d3, 2).0;
            let got_response = run(client, d4, 10).1;
            &&& d2 == d1
            &&& got_request == Some(Ok::<Outcome<V>, HermesError<V>>(Outcome::Value(request)))
            &&& got_response == Some(Ok::<Outcome<V>, HermesError<V>>(Outcome::Value(response)))
        }),
{
    law_send(Channel::Request, request, d);
    let d1 = sent(d, Channel::Request, request);
    assert(await_begin::<V>(Channel::Response, DEFAULT_MAX_ITERATIONS, true, gc_client) == polling::<V>(
        Channel::Response,
        DEFAULT_MAX_ITERATIONS,
        true,
        gc_client,
        0,
    ));
    lemma_rounds::<V>(Channel::Response, DEFAULT_MAX_ITERATIONS, true, gc_client, 0, d1, k as nat);
    law_await_after_send(Channel::Request, request, d, DEFAULT_MAX_ITERATIONS, true, gc_server);
    let d3 = consumed(d1, Channel::Request, gc_server);
    law_send(Channel::Response, response, d3);
    law_await_ready(
        Channel::Response,
        response,
        sent(d3, Channel::Response, response),
        DEFAULT_MAX_ITERATIONS,
        true,
        gc_client,
        k,
    );
}

/// The kinds of outcome a successful operation hands back.
#[derive(Clone, Copy, Debug, PartialEq, Eq, Structural)]
pub enum Yield {
    Connection,
    Nothing,
    Flag,
    Value,
}

/// The kind of outcome an operation hands back when it succeeds.
pub open spec fn task_yield<V>(t: Task<V>) -> Yield {
    match t {
        Task::Open { .. } => Yield::Connection,
        Task::Send { .. } => Yield::Nothing,
        Task::Check => Yield::Flag,
        Task::Fetch { .. } => Yield::Value,
        Task::Clear(_) => Yield::Nothing,
        Task::PutError(_) => Yield::Nothing,
        Task::Prepare(_) => Yield::Nothing,
        Task::Await(_) => Yield::Value,
    }
}

/// The kind of an outcome.
pub open spec fn outcome_yield<V>(o: Outcome<V>) -> Yield {
    match o {
        Outcome::Opened(_) => Yield::Connection,
        Outcome::Unit => Yield::Nothing,
        Outcome::Flag(_) => Yield::Flag,
        Outcome::Value(_) => Yield::Value,
    }
}

/// One step keeps the kind of outcome an operation promises, and a success
/// hands back that kind.
pub proof fn law_step_keeps_yield<V>(t: Task<V>, e: Event<V>)
    ensures
        match t.next(e) {
            Progress::Next(t2, _) => task_yield(t2) == task_yield(t),
            Progress::Finished(Ok(o)) => outcome_yield(o) == task_yield(t),
            Progress::Finished(Err(_)) => true,
        },
{
}

/// Whatever answers it gets, an operation that succeeds hands back the kind
/// of outcome it promised at its start.
pub proof fn law_success_yield<V>(t: Task<V>, a: Action<V>, evs: Seq<Event<V>>)
    ensures
        feed(Progress::Next(t, a), evs).0 matches Some(Ok(o)) ==> outcome_yield(o) == task_yield(t),
    decreases evs.len(),
{
    if evs.len() > 0 {
        law_step_keeps_yield(t, evs[0]);
        let p1 = t.next(evs[0]);
        assert(feed(Progress::Next(t, a), evs).0 == feed(p1, evs.drop_first()).0);
        match p1 {
            Progress::Next(t2, a2) => {
                law_success_yield(t2, a2, evs.drop_first());
            },
            Progress::Finished(r) => {
                assert(feed(p1, evs.drop_first()).0 == Some(r));
            },
        }
    }
}

/// The only success of opening is a connection; sending, freeing, putting an
/// error, clearing markers and preparing succeed with no value; asking
/// whether a value is ready succeeds with a flag; reading and waiting succeed
/// with a value.
pub proof fn law_operation_outcomes<V>(
    path: String,
    c: Channel,
    v: V,
    max_iterations: u32,
    break_on_max: bool,
    gc: bool,
    set: SweepSet,
    evs: Seq<Event<V>>,
)
    ensures
        feed(open_begin::<V>(path), evs).0 matches Some(Ok(o)) ==> o is Opened,
        feed(send_begin(c, v), evs).0 matches Some(Ok(o)) ==> o is Unit,
        feed(check_begin::<V>(c), evs).0 matches Some(Ok(o)) ==> o is Flag,
        feed(fetch_begin::<V>(c), evs).0 matches Some(Ok(o)) ==> o is Value,
        feed(await_begin::<V>(c, max_iterations, break_on_max, gc), evs).0 matches Some(Ok(o))
            ==> o is Value,
        feed(clear_begin::<V>(set), evs).0 matches Some(Ok(o)) ==> o is Unit,
        feed(put_error_begin(v), evs).0 matches Some(Ok(o)) ==> o is Unit,
        feed(prepare_begin::<V>(), evs).0 matches Some(Ok(o)) ==> o is Unit,
{
    if path@.len() != 0 {
        law_success_yield(Task::<V>::Open { path, creating: false }, Action::InspectRoot, evs);
    } else {
        reveal_with_fuel(feed, 1);
    }
    match send_begin(c, v) {
        Progress::Next(t, a) => law_success_yield(t, a, evs),
        _ => {},
    }
    match check_begin::<V>(c) {
        Progress::Next(t, a) => law_success_yield(t, a, evs),
        _ => {},
    }
    match fetch_begin::<V>(c) {
        Progress::Next(t, a) => law_success_yield(t, a, evs),
        _ => {},
    }
    match await_begin::<V>(c, max_iterations, break_on_max, gc) {
        Progress::Next(t, a) => law_success_yield(t, a, evs),
        _ => {},
    }
    match clear_begin::<V>(set) {
        Progress::Next(t, a) => law_success_yield(t, a, evs),
        _ => {},
    }
    match put_error_begin(v) {
        Progress::Next(t, a) => law_success_yield(t, a, evs),
        _ => {},
    }
    match prepare_begin::<V>() {
        Progress::Next(t, a) => law_success_yield(t, a, evs),
        _ => {},
    }
}

/// Asking whether a value is ready only looks: the answer is whether the
/// direction's marker is set, and the directory is left exactly as it was.
pub proof fn law_check_only_looks<V>(c: Channel, d: Disk<V>)
    ensures
        run(check_begin::<V>(c), d, 1) == (
            d,
            Some(
                Ok::<Outcome<V>, HermesError<V>>(
                    Outcome::Flag(d.has(Entry::Signal(c.spec_ready_signal()))),
                ),
            ),
        ),
{
    reveal_with_fuel(run, 2);
}

/// Reading a value at once only reads: the directory is left exactly as it
/// was; the result is the value the direction's file holds, the direction's
/// error when the file does not exist, or a read error when it holds nothing
/// readable.
pub proof fn law_fetch_only_reads<V>(c: Channel, d: Disk<V>)
    ensures
        run(fetch_begin::<V>(c), d, 2).0 == d,
        !d.has(c.spec_value_file()) ==> run(fetch_begin::<V>(c), d, 2).1 == Some(
            Err::<Outcome<V>, HermesError<V>>(c.spec_missing()),
        ),
        d.has(c.spec_value_file()) && d.files[c.spec_value_file()] is Some ==> run(
            fetch_begin::<V>(c),
            d,
            2,
        ).1 == Some(
            Ok::<Outcome<V>, HermesError<V>>(Outcome::Value(d.files[c.spec_value_file()]->0)),
        ),
        d.has(c.spec_value_file()) && d.files[c.spec_value_file()] is None ==> run(
            fetch_begin::<V>(c),
            d,
            2,
        ).1 matches Some(Err(HermesError::NabuError(_))),
{
    reveal_with_fuel(run, 3);
}

/// After a value was sent, asking twice whether it is ready says yes twice,
/// reading it twice gives it twice, and a wait afterwards still returns it.
pub proof fn law_looking_does_not_consume<V>(
    c: Channel,
    v: V,
    d: Disk<V>,
    max_iterations: u32,
    break_on_max: bool,
    gc: bool,
)
    requires
        !d.has(Entry::ErrorFile),
    ensures
        ({
            let d0 = sent(d, c, v);
            let (d1, first) = run(check_begin::<V>(c), d0, 1);
            let (d2, second) = run(check_begin::<V>(c), d1, 1);
            let (d3, read1) = run(fetch_begin::<V>(c), d2, 2);
            let (d4, read2) = run(fetch_begin::<V>(c), d3, 2);
            let waited = run(await_begin::<V>(c, max_iterations, break_on_max, gc), d4, 10).1;
            &&& first == Some(Ok::<Outcome<V>, HermesError<V>>(Outcome::Flag(true)))
            &&& second == Some(Ok::<Outcome<V>, HermesError<V>>(Outcome::Flag(true)))
            &&& read1 == Some(Ok::<Outcome<V>, HermesError<V>>(Outcome::Value(v)))
            &&& read2 == Some(Ok::<Outcome<V>, HermesError<V>>(Outcome::Value(v)))
            &&& waited == Some(Ok::<Outcome<V>, HermesError<V>>(Outcome::Value(v)))
        }),
{
    let d0 = sent(d, c, v);
    law_check_only_looks(c, d0);
    law_fetch_only_reads(c, d0);
    law_await_after_send(c, v, d, max_iterations, break_on_max, gc);
}

/// The pauses of the schedule from pause `count` up to pause `last`.
pub open spec fn backoff_sum(count: u32, last: u32) -> nat
    decreases last - count,
{
    if count >= last {
        backoff(count) as nat
    } else {
        backoff(count) as nat + backoff_sum((count + 1) as u32, last)
    }
}

/// One round of the waiting loop, in either direction and with or without a
/// time limit, in a directory that holds neither the awaited marker nor an
/// error file, pauses exactly the schedule's pause for its count.
proof fn lemma_round_pause<V>(
    c: Channel,
    max_iterations: u32,
    break_on_max: bool,
    gc: bool,
    count: u32,
    d: Disk<V>,
    fuel: nat,
)
    requires
        !d.has(Entry::Signal(c.spec_ready_signal())),
        !d.has(Entry::ErrorFile),
        fuel >= 3,
    ensures
        pauses(polling::<V>(c, max_iterations, break_on_max, gc, count), d, fuel) == backoff(count)
            + if bump(count) > max_iterations && break_on_max {
            0
        } else {
            pauses(polling::<V>(c, max_iterations, break_on_max, gc, bump(count)), d, (fuel - 3) as nat)
        },
{
    reveal_with_fuel(pauses, 4);
}

/// A wait with a time limit that sees neither the awaited marker nor an
/// error file pauses, until it gives up, exactly the sum of the schedule from
/// its count to its limit, and so at least a tenth of a millisecond per
/// look.
pub proof fn law_wait_pauses<V>(
    c: Channel,
    max_iterations: u32,
    gc: bool,
    count: u32,
    d: Disk<V>,
)
    requires
        !d.has(Entry::Signal(c.spec_ready_signal())),
        !d.has(Entry::ErrorFile),
        count <= max_iterations < u32::MAX,
    ensures
        pauses(polling::<V>(c, max_iterations, true, gc, count), d, 3 * (max_iterations - count + 1) as nat)
            == backoff_sum(count, max_iterations),
        backoff_sum(count, max_iterations) >= 100 * (max_iterations - count + 1),
    decreases max_iterations - count,
{
    lemma_backoff_bounds(count);
    reveal_with_fuel(pauses, 1);
    let fuel: nat = 3 * (max_iterations - count + 1) as nat;
    lemma_round_pause::<V>(c, max_iterations, true, gc, count, d, fuel);
    if count < max_iterations {
        law_wait_pauses::<V>(c, max_iterations, gc, (count + 1) as u32, d);
        assert(bump(count) == count + 1);
        assert((fuel - 3) as nat == 3 * (max_iterations - (count + 1) + 1) as nat);
    }
}

/// Every round of a wait's loop, in either direction, with or without a time
/// limit and at any count, in a directory that holds neither the awaited
/// marker nor an error file, pauses exactly the schedule's pause for its
/// count, which is at least a tenth of a millisecond.
pub proof fn law_round_pauses<V>(
    c: Channel,
    max_iterations: u32,
    break_on_max: bool,
    gc: bool,
    count: u32,
    d: Disk<V>,
)
    requires
        !d.has(Entry::Signal(c.spec_ready_signal())),
        !d.has(Entry::ErrorFile),
    ensures
        pauses(polling::<V>(c, max_iterations, break_on_max, gc, count), d, 3) == backoff(count),
        backoff(count) >= 100,
{
    lemma_backoff_bounds(count);
    lemma_round_pause::<V>(c, max_iterations, break_on_max, gc, count, d, 3);
    reveal_with_fuel(pauses, 1);
}

/// The schedule summed over a stretch on which it is constant.
proof fn lemma_sum_constant(first: u32, last: u32, k: nat)
    requires
        first <= last,
        forall|i: u32| first <= i <= last ==> #[trigger] backoff(i) == k,
    ensures
        backoff_sum(first, last) == (last - first + 1) * k,
    decreases last - first,
{
    assert(backoff(first) == k);
    if first < last {
        lemma_sum_constant((first + 1) as u32, last, k);
        assert(backoff_sum(first, last) == k + backoff_sum((first + 1) as u32, last));
        let n: int = last - first;
        assert(k + n * k == (n + 1) * k) by (nonlinear_arith);
    }
}

/// The schedule summed over two adjacent stretches.
proof fn lemma_sum_split(first: u32, mid: u32, last: u32)
    requires
        first <= mid < last,
    ensures
        backoff_sum(first, last) == backoff_sum(first, mid) + backoff_sum((mid + 1) as u32, last),
    decreases mid - first,
{
    if first < mid {
        lemma_sum_split((first + 1) as u32, mid, last);
    }
}

/// The whole schedule of a wait with the default limit: 189.1251 seconds of
/// pauses before it gives up.
proof fn lemma_default_schedule_total()
    ensures
        backoff_sum(0, DEFAULT_MAX_ITERATIONS) == 189_125_100,
{
    lemma_sum_constant(0, 2_500, 100);
    lemma_sum_constant(2_501, 5_000, 150);
    lemma_sum_constant(5_001, 10_000, 200);
    lemma_sum_constant(10_001, 25_000, 250);
    lemma_sum_constant(25_001, 50_000, 500);
    lemma_sum_constant(50_001, 75_000, 750);
    lemma_sum_constant(75_001, 90_000, 1_000);
    lemma_sum_constant(90_001, 100_000, 1_250);
    lemma_sum_constant(100_001, 150_000, 2_500);
    lemma_sum_split(0, 2_500, 150_000);
    lemma_sum_split(2_501, 5_000, 150_000);
    lemma_sum_split(5_001, 10_000, 150_000);
    lemma_sum_split(10_001, 25_000, 150_000);
    lemma_sum_split(25_001, 50_000, 150_000);
    lemma_sum_split(50_001, 75_000, 150_000);
    lemma_sum_split(75_001, 90_000, 150_000);
    lemma_sum_split(90_001, 100_000, 150_000);
}

/// `await_request` and `await_response`, in a directory where neither the
/// awaited marker nor an error file appears, give up with a time-out after
/// exactly 189.1251 seconds of pauses (about three minutes), having looked
/// 150 001 times.
pub proof fn law_default_time_out_takes_three_minutes<V>(c: Channel, gc: bool, d: Disk<V>)
    requires
        !d.has(Entry::Signal(c.spec_ready_signal())),
        !d.has(Entry::ErrorFile),
    ensures
        run(await_begin::<V>(c, DEFAULT_MAX_ITERATIONS, true, gc), d, 3 * 150_001) == (
            d,
            Some(Err::<Outcome<V>, HermesError<V>>(HermesError::TimeOutError)),
        ),
        pauses(await_begin::<V>(c, DEFAULT_MAX_ITERATIONS, true, gc), d, 3 * 150_001)
            == 189_125_100,
{
    assert(await_begin::<V>(c, DEFAULT_MAX_ITERATIONS, true, gc) == polling::<V>(
        c,
        DEFAULT_MAX_ITERATIONS,
        true,
        gc,
        0,
    ));
    law_time_out::<V>(c, DEFAULT_MAX_ITERATIONS, gc, 0, d, 3 * 150_001);
    law_wait_pauses::<V>(c, DEFAULT_MAX_ITERATIONS, gc, 0, d);
    lemma_default_schedule_total();
}

/// A wait whose marker is set but whose value file is missing or holds
/// nothing readable, with no error file, fails with a read error and leaves
/// the directory, marker included, as it was.
pub proof fn law_await_unreadable_value<V>(
    c: Channel,
    d: Disk<V>,
    max_iterations: u32,
    break_on_max: bool,
    gc: bool,
    count: u32,
)
    requires
        d.has(Entry::Signal(c.spec_ready_signal())),
        !(d.has(c.spec_value_file()) && d.files[c.spec_value_file()] is Some),
        !d.has(Entry::ErrorFile),
    ensures
        run(polling::<V>(c, max_iterations, break_on_max, gc, count), d, 3).0 == d,
        run(polling::<V>(c, max_iterations, break_on_max, gc, count), d, 3).1 matches Some(
            Err(HermesError::NabuError(_)),
        ),
{
    reveal_with_fuel(run, 4);
}

/// A wait that finds an error file holding nothing readable fails with a
/// read error and leaves the directory as it was.
pub proof fn law_await_unreadable_error<V>(
    c: Channel,
    d: Disk<V>,
    max_iterations: u32,
    break_on_max: bool,
    gc: bool,
    count: u32,
)
    requires
        d.has(Entry::ErrorFile),
        d.files[Entry::ErrorFile] is None,
    ensures
        run(polling::<V>(c, max_iterations, break_on_max, gc, count), d, 4).0 == d,
        run(polling::<V>(c, max_iterations, break_on_max, gc, count), d, 4).1 matches Some(
            Err(HermesError::NabuError(_)),
        ),
{
    reveal_with_fuel(run, 5);
}

/// The names on disk that two processes meet by: the request in
/// `request.xff` marked by `status-open`, the response in `response.xff`
/// marked by `status-done`, the error in `error.xff` marked by
/// `status-error`.
pub proof fn law_file_names()
    ensures
        Channel::Request.spec_value_file().name() == "request.xff"@,
        Entry::Signal(Channel::Request.spec_ready_signal()).name() == "status-open"@,
        Channel::Response.spec_value_file().name() == "response.xff"@,
        Entry::Signal(Channel::Response.spec_ready_signal()).name() == "status-done"@,
        Entry::ErrorFile.name() == "error.xff"@,
        Entry::Signal(StatusSignal::StatusError).name() == "status-error"@,
{
}

} // verus!
