// The protocol's laws and edge cases, checked on concrete values against a
// directory held in memory.
use std::collections::HashMap;

use hermes::backoff::backoff_micros;
use hermes::entry::{Channel, Entry};
use hermes::error::{HermesError, PathError, RequestError, ResponseError};
use hermes::protocol::{Action, Event, EventKind, Outcome, Progress};
use hermes::status_signal::{delete_any_status_set, get_all_status_signals, StatusSignal};
use hermes::utils::prepare_directory;
use hermes::Hermes;

#[derive(Clone, Copy, PartialEq, Eq, Debug)]
enum Root {
    Missing,
    Directory,
    Other,
}

/// A directory held in memory: what stands at its path, and its files by
/// name, each with the value it holds (`None` for an empty file).
struct MemDisk<V> {
    root: Root,
    files: HashMap<String, Option<V>>,
    slept_micros: u64,
    actions: u64,
}

impl<V: Clone> MemDisk<V> {
    fn new(root: Root) -> MemDisk<V> {
        MemDisk { root, files: HashMap::new(), slept_micros: 0, actions: 0 }
    }

    fn has(&self, e: Entry) -> bool {
        self.files.contains_key(&e.file_name())
    }

    fn perform(&mut self, action: Action<V>) -> Event<V> {
        self.actions += 1;
        match action {
            Action::InspectRoot => Event::Root {
                exists: self.root != Root::Missing,
                is_dir: self.root == Root::Directory,
            },
            Action::CreateRoot => {
                if self.root == Root::Other {
                    Event::Io(Err(std::io::Error::new(std::io::ErrorKind::AlreadyExists, "file")))
                } else {
                    self.root = Root::Directory;
                    Event::Io(Ok(()))
                }
            }
            Action::Check(e) => Event::Exists(self.has(e)),
            Action::Write(e, v) => {
                self.files.insert(e.file_name(), Some(v));
                Event::Written(Ok(()))
            }
            Action::Read(e) => match self.files.get(&e.file_name()) {
                Some(Some(v)) => Event::Loaded(Ok(v.clone())),
                _ => Event::Loaded(Err(format!("cannot read {}", e.file_name()))),
            },
            Action::Touch(e) => {
                self.files.insert(e.file_name(), None);
                Event::Io(Ok(()))
            }
            Action::Remove(e) => match self.files.remove(&e.file_name()) {
                Some(_) => Event::Io(Ok(())),
                None => Event::Io(Err(std::io::Error::new(std::io::ErrorKind::NotFound, "gone"))),
            },
            Action::Sleep(micros) => {
                self.slept_micros += micros;
                Event::Slept
            }
        }
    }

    fn run(&mut self, progress: Progress<V>) -> Result<Outcome<V>, HermesError<V>> {
        let mut progress = progress;
        loop {
            match progress {
                Progress::Finished(result) => return result,
                Progress::Next(task, action) => {
                    let event = self.perform(action);
                    assert_eq!(event.kind(), task.expected());
                    progress = task.resume(event);
                }
            }
        }
    }
}

fn open<V: Clone>(disk: &mut MemDisk<V>, path: &str) -> Result<Hermes, HermesError<V>> {
    match disk.run(Hermes::new(path.to_string())) {
        Ok(Outcome::Opened(h)) => Ok(h),
        Ok(_) => panic!("opening yields a connection"),
        Err(e) => Err(e),
    }
}

fn unit<V: Clone>(disk: &mut MemDisk<V>, p: Progress<V>) -> Result<(), HermesError<V>> {
    match disk.run(p) {
        Ok(Outcome::Unit) => Ok(()),
        Ok(_) => panic!("no value expected"),
        Err(e) => Err(e),
    }
}

fn value<V: Clone>(disk: &mut MemDisk<V>, p: Progress<V>) -> Result<V, HermesError<V>> {
    match disk.run(p) {
        Ok(Outcome::Value(v)) => Ok(v),
        Ok(_) => panic!("a value expected"),
        Err(e) => Err(e),
    }
}

fn flag<V: Clone>(disk: &mut MemDisk<V>, p: Progress<V>) -> bool {
    match disk.run(p) {
        Ok(Outcome::Flag(b)) => b,
        _ => panic!("a flag expected"),
    }
}

impl<V: Clone> MemDisk<V> {
    /// Runs for at most `fuel` actions; `None` if unfinished by then.
    fn run_for(
        &mut self,
        progress: Progress<V>,
        fuel: u64,
    ) -> Option<Result<Outcome<V>, HermesError<V>>> {
        let mut progress = progress;
        let mut left = fuel;
        loop {
            match progress {
                Progress::Finished(result) => return Some(result),
                Progress::Next(task, action) => {
                    if left == 0 {
                        return None;
                    }
                    left -= 1;
                    let event = self.perform(action);
                    progress = task.resume(event);
                }
            }
        }
    }
}

impl<V: Clone> MemDisk<V> {
    /// Performs `n` actions of `progress` and returns where it stands.
    fn advance(&mut self, progress: Progress<V>, n: u64) -> Progress<V> {
        let mut progress = progress;
        for _ in 0..n {
            progress = match progress {
                Progress::Finished(r) => return Progress::Finished(r),
                Progress::Next(task, action) => {
                    let event = self.perform(action);
                    task.resume(event)
                }
            };
        }
        progress
    }
}

fn opened(disk: &mut MemDisk<String>) -> Hermes {
    match disk.run(Hermes::new("dir".to_string())) {
        Ok(Outcome::Opened(h)) => h,
        _ => panic!("opening yields a connection"),
    }
}

fn io_error() -> std::io::Error {
    std::io::Error::new(std::io::ErrorKind::PermissionDenied, "denied")
}

#[test]
fn backoff_steps() {
    let expected: Vec<(u32, u64)> = vec![
        (0, 100),
        (2_500, 100),
        (2_501, 150),
        (5_000, 150),
        (5_001, 200),
        (10_000, 200),
        (10_001, 250),
        (25_000, 250),
        (25_001, 500),
        (50_000, 500),
        (50_001, 750),
        (75_000, 750),
        (75_001, 1_000),
        (90_000, 1_000),
        (90_001, 1_250),
        (100_000, 1_250),
        (100_001, 2_500),
        (u32::MAX, 2_500),
    ];
    for (count, micros) in expected {
        assert_eq!(backoff_micros(count), micros, "count {}", count);
    }
}

#[test]
fn backoff_never_shrinks() {
    let mut last = 0u64;
    let mut count = 0u32;
    while count < 110_000 {
        let now = backoff_micros(count);
        assert!(now >= last);
        assert!(100 <= now && now <= 2_500);
        last = now;
        count += 97;
    }
}

#[test]
fn time_out_after_exact_number_of_pauses() {
    let mut disk: MemDisk<String> = MemDisk::new(Root::Directory);
    let hermes = opened(&mut disk);
    let before = disk.actions;
    let result = disk.run(hermes.await_response());
    assert!(matches!(result, Err(HermesError::TimeOutError)));
    // Three actions per round, 150_001 rounds.
    assert_eq!(disk.actions - before, 3 * 150_001);
    let mut total: u64 = 0;
    for k in 0..=150_000u32 {
        total += backoff_micros(k);
    }
    assert_eq!(disk.slept_micros, total);
    // About three minutes of pauses in all.
    assert_eq!(total, 189_125_100);
}

#[test]
fn time_out_not_earlier() {
    let mut disk: MemDisk<String> = MemDisk::new(Root::Directory);
    let hermes = opened(&mut disk);
    assert!(disk.run_for(hermes.await_request(), 3 * 150_001 - 1).is_none());
}

#[test]
fn wait_forever_does_not_end() {
    let mut disk: MemDisk<String> = MemDisk::new(Root::Directory);
    let hermes = opened(&mut disk);
    assert!(disk.run_for(hermes.await_request_forever(), 1_000_000).is_none());
    assert!(disk.run_for(hermes.await_response_forever(), 1_000_000).is_none());
}

#[test]
fn wait_forever_ends_when_value_arrives() {
    let mut disk: MemDisk<String> = MemDisk::new(Root::Directory);
    let hermes = opened(&mut disk);
    assert!(unit(&mut disk, hermes.respond("late".to_string())).is_ok());
    let got = value(&mut disk, hermes.await_response_forever());
    assert_eq!(got.unwrap(), "late".to_string());
}

#[test]
fn read_after_send() {
    for channel in [Channel::Request, Channel::Response] {
        let mut disk: MemDisk<String> = MemDisk::new(Root::Directory);
        let hermes = opened(&mut disk);
        let (send, check, fetch) = match channel {
            Channel::Request => (
                hermes.request("v".to_string()),
                hermes.is_request_ready(),
                hermes.get_request(),
            ),
            Channel::Response => (
                hermes.respond("v".to_string()),
                hermes.is_response_ready(),
                hermes.get_response(),
            ),
        };
        assert!(unit(&mut disk, send).is_ok());
        assert!(disk.has(channel.value_file()));
        assert!(disk.has(Entry::Signal(channel.ready_signal())));
        assert!(flag(&mut disk, check));
        assert_eq!(value(&mut disk, fetch).unwrap(), "v".to_string());
    }
}

#[test]
fn second_send_replaces_first() {
    let mut disk: MemDisk<String> = MemDisk::new(Root::Directory);
    let hermes = opened(&mut disk);
    assert!(unit(&mut disk, hermes.request("first".to_string())).is_ok());
    assert!(unit(&mut disk, hermes.request("second".to_string())).is_ok());
    assert_eq!(value(&mut disk, hermes.get_request()).unwrap(), "second".to_string());
}

#[test]
fn await_consumes_marker() {
    let mut disk: MemDisk<String> = MemDisk::new(Root::Directory);
    let hermes = opened(&mut disk);
    assert!(unit(&mut disk, hermes.request("v".to_string())).is_ok());
    assert_eq!(value(&mut disk, hermes.await_request()).unwrap(), "v".to_string());
    assert!(!flag(&mut disk, hermes.is_request_ready()));
    // Without garbage collection the value file stays.
    assert!(disk.has(Entry::RequestFile));
    assert_eq!(value(&mut disk, hermes.get_request()).unwrap(), "v".to_string());
}

#[test]
fn await_with_garbage_collection_deletes_value_files() {
    let mut disk: MemDisk<String> = MemDisk::new(Root::Directory);
    let mut hermes = opened(&mut disk);
    assert!(!hermes.garbage_collection());
    hermes.set_garbage_collection(true);
    assert!(hermes.garbage_collection());
    assert_eq!(hermes.path(), "dir");
    assert!(unit(&mut disk, hermes.request("q".to_string())).is_ok());
    assert!(unit(&mut disk, hermes.respond("r".to_string())).is_ok());
    assert_eq!(value(&mut disk, hermes.await_response()).unwrap(), "r".to_string());
    assert!(!disk.has(Entry::RequestFile));
    assert!(!disk.has(Entry::ResponseFile));
    assert!(!disk.has(Entry::ErrorFile));
    assert!(!disk.has(Entry::Signal(StatusSignal::StatusDone)));
    // The request's marker is not a value file and stays.
    assert!(disk.has(Entry::Signal(StatusSignal::StatusOpen)));
}

#[test]
fn error_wins_over_ready_value() {
    let mut disk: MemDisk<String> = MemDisk::new(Root::Directory);
    let hermes = opened(&mut disk);
    assert!(unit(&mut disk, hermes.put_error("bad".to_string())).is_ok());
    assert!(unit(&mut disk, hermes.respond("r".to_string())).is_ok());
    let got = value(&mut disk, hermes.await_response());
    let err = got.unwrap_err();
    assert_eq!(err.get_inner_server_error(), Some("bad".to_string()));
    // The error stays until the resources are freed.
    let again = value(&mut disk, hermes.await_request());
    assert_eq!(again.unwrap_err().get_inner_server_error(), Some("bad".to_string()));
}

#[test]
fn put_error_clears_markers() {
    let mut disk: MemDisk<String> = MemDisk::new(Root::Directory);
    let hermes = opened(&mut disk);
    assert!(unit(&mut disk, hermes.request("q".to_string())).is_ok());
    assert!(unit(&mut disk, hermes.respond("r".to_string())).is_ok());
    assert!(unit(&mut disk, hermes.put_error("e".to_string())).is_ok());
    assert!(!disk.has(Entry::Signal(StatusSignal::StatusOpen)));
    assert!(!disk.has(Entry::Signal(StatusSignal::StatusDone)));
    assert!(disk.has(Entry::Signal(StatusSignal::StatusError)));
    assert!(disk.has(Entry::ErrorFile));
    assert!(disk.has(Entry::RequestFile));
}

#[test]
fn free_resources_deletes_value_files() {
    let mut disk: MemDisk<String> = MemDisk::new(Root::Directory);
    let hermes = opened(&mut disk);
    assert!(unit(&mut disk, hermes.request("q".to_string())).is_ok());
    assert!(unit(&mut disk, hermes.put_error("e".to_string())).is_ok());
    assert!(unit(&mut disk, hermes.free_resources()).is_ok());
    assert!(!disk.has(Entry::RequestFile));
    assert!(!disk.has(Entry::ResponseFile));
    assert!(!disk.has(Entry::ErrorFile));
    let got = value(&mut disk, hermes.get_request());
    assert!(matches!(
        got.unwrap_err().get_inner_request_error(),
        Some(RequestError::RequestDoesNotExist)
    ));
    let got = value(&mut disk, hermes.get_response());
    assert!(matches!(
        got.unwrap_err().get_inner_response_error(),
        Some(ResponseError::ResponseDoesNotExist)
    ));
    // Freeing an empty directory succeeds too.
    assert!(unit(&mut disk, hermes.free_resources()).is_ok());
}

#[test]
fn delete_any_status_set_clears_markers() {
    let mut disk: MemDisk<String> = MemDisk::new(Root::Directory);
    let hermes = opened(&mut disk);
    assert!(unit(&mut disk, hermes.request("q".to_string())).is_ok());
    assert!(unit(&mut disk, hermes.respond("r".to_string())).is_ok());
    assert!(unit(&mut disk, delete_any_status_set()).is_ok());
    for s in get_all_status_signals() {
        assert!(!disk.has(Entry::Signal(s)));
    }
    assert!(disk.has(Entry::RequestFile));
}

#[test]
fn prepare_directory_creates_or_cleans() {
    let mut disk: MemDisk<String> = MemDisk::new(Root::Missing);
    assert!(unit(&mut disk, prepare_directory()).is_ok());
    assert_eq!(disk.root, Root::Directory);

    let hermes = opened(&mut disk);
    assert!(unit(&mut disk, hermes.request("q".to_string())).is_ok());
    assert!(unit(&mut disk, hermes.put_error("e".to_string())).is_ok());
    assert!(unit(&mut disk, prepare_directory()).is_ok());
    assert!(!disk.has(Entry::ErrorFile));
    assert!(!disk.has(Entry::Signal(StatusSignal::StatusError)));
    assert!(disk.has(Entry::RequestFile));
}

#[test]
fn open_existing_directory_keeps_it() {
    let mut disk: MemDisk<String> = MemDisk::new(Root::Directory);
    let hermes = opened(&mut disk);
    assert!(unit(&mut disk, hermes.request("q".to_string())).is_ok());
    let again = opened(&mut disk);
    assert_eq!(value(&mut disk, again.get_request()).unwrap(), "q".to_string());
}

#[test]
fn names_of_files() {
    assert_eq!(Entry::RequestFile.file_name(), "request.xff");
    assert_eq!(Entry::ResponseFile.file_name(), "response.xff");
    assert_eq!(Entry::ErrorFile.file_name(), "error.xff");
    assert_eq!(StatusSignal::StatusOpen.to_string(), "status-open");
    assert_eq!(StatusSignal::StatusDone.to_string(), "status-done");
    assert_eq!(StatusSignal::StatusError.to_string(), "status-error");
    let all = [
        Entry::RequestFile,
        Entry::ResponseFile,
        Entry::ErrorFile,
        Entry::Signal(StatusSignal::StatusOpen),
        Entry::Signal(StatusSignal::StatusDone),
        Entry::Signal(StatusSignal::StatusError),
    ];
    for a in all {
        for b in all {
            assert_eq!(a == b, a.file_name() == b.file_name());
        }
    }
}

#[test]
fn all_status_signals_in_order() {
    assert_eq!(
        get_all_status_signals(),
        vec![StatusSignal::StatusOpen, StatusSignal::StatusDone, StatusSignal::StatusError]
    );
}

#[test]
fn channels() {
    assert_eq!(Channel::Request.value_file(), Entry::RequestFile);
    assert_eq!(Channel::Response.value_file(), Entry::ResponseFile);
    assert_eq!(Channel::Request.ready_signal(), StatusSignal::StatusOpen);
    assert_eq!(Channel::Response.ready_signal(), StatusSignal::StatusDone);
}

#[test]
fn failed_write_is_a_nabu_error() {
    let hermes = opened(&mut MemDisk::new(Root::Directory));
    match hermes.request("x".to_string()) {
        Progress::Next(task, Action::Write(Entry::RequestFile, v)) => {
            assert_eq!(v, "x".to_string());
            assert_eq!(task.expected(), EventKind::Written);
            match task.resume(Event::Written(Err("disk full".to_string()))) {
                Progress::Finished(Err(e)) => {
                    assert_eq!(e.get_inner_nabu_error(), Some("disk full".to_string()));
                    assert!(e.get_inner_io_error().is_none());
                }
                _ => panic!("a failed write ends the request"),
            }
        }
        _ => panic!("a request writes first"),
    }
}

#[test]
fn failed_marker_is_an_io_error() {
    let hermes = opened(&mut MemDisk::new(Root::Directory));
    let p = match hermes.respond("x".to_string()) {
        Progress::Next(task, Action::Write(..)) => task.resume(Event::Written(Ok(()))),
        _ => panic!("a response writes first"),
    };
    match p {
        Progress::Next(task, Action::Touch(Entry::Signal(StatusSignal::StatusDone))) => {
            assert_eq!(task.expected(), EventKind::Io);
            match task.resume(Event::Io(Err(io_error()))) {
                Progress::Finished(Err(e)) => {
                    assert_eq!(
                        e.get_inner_io_error().unwrap().kind(),
                        std::io::ErrorKind::PermissionDenied
                    );
                    assert!(e.get_inner_nabu_error().is_none());
                }
                _ => panic!("a failed marker ends the response"),
            }
        }
        _ => panic!("the marker follows the value"),
    }
}

#[test]
fn failed_create_is_an_io_error() {
    match Hermes::new::<String>("new/dir".to_string()) {
        Progress::Next(task, Action::InspectRoot) => {
            match task.resume(Event::Root { exists: false, is_dir: false }) {
                Progress::Next(task, Action::CreateRoot) => {
                    match task.resume(Event::Io(Err(io_error()))) {
                        Progress::Finished(Err(HermesError::IOError(_))) => {}
                        _ => panic!("a failed creation ends the opening"),
                    }
                }
                _ => panic!("a missing directory is created"),
            }
        }
        _ => panic!("a path is inspected first"),
    }
}

#[test]
fn failed_read_is_a_nabu_error() {
    let mut disk: MemDisk<String> = MemDisk::new(Root::Directory);
    let hermes = opened(&mut disk);
    // A marker without a value file: the read fails.
    disk.files.insert(Entry::Signal(StatusSignal::StatusOpen).file_name(), None);
    let got = value(&mut disk, hermes.await_request());
    assert!(got.unwrap_err().get_inner_nabu_error().is_some());
    // An error file that cannot be read.
    disk.files.insert(Entry::ErrorFile.file_name(), None);
    let got = value(&mut disk, hermes.await_response());
    assert!(got.unwrap_err().get_inner_nabu_error().is_some());
}

#[test]
fn failed_removal_is_an_io_error() {
    let hermes = opened(&mut MemDisk::new(Root::Directory));
    let mut p = hermes.free_resources::<String>();
    // The request file exists; its removal fails.
    p = match p {
        Progress::Next(task, Action::Check(Entry::RequestFile)) => task.resume(Event::Exists(true)),
        _ => panic!("the request file is checked first"),
    };
    match p {
        Progress::Next(task, Action::Remove(Entry::RequestFile)) => {
            match task.resume(Event::Io(Err(io_error()))) {
                Progress::Finished(Err(HermesError::IOError(_))) => {}
                _ => panic!("a failed removal ends the sweep"),
            }
        }
        _ => panic!("an existing file is removed"),
    }
}

#[test]
fn error_getters() {
    let e: HermesError<String> = HermesError::PathError(PathError::EmptyPath);
    assert!(matches!(e.get_inner_path_error(), Some(PathError::EmptyPath)));
    assert!(e.get_inner_request_error().is_none());
    let e: HermesError<String> = HermesError::RequestError(RequestError::RequestDoesNotExist);
    assert!(e.get_inner_request_error().is_some());
    assert!(e.get_inner_response_error().is_none());
    let e: HermesError<String> = HermesError::ResponseError(ResponseError::ResponseDoesNotExist);
    assert!(e.get_inner_response_error().is_some());
    assert!(e.get_inner_server_error().is_none());
    let e: HermesError<String> = HermesError::TimeOutError;
    assert!(e.get_inner_io_error().is_none());
    assert!(e.get_inner_nabu_error().is_none());
    assert!(e.get_inner_path_error().is_none());
    let e: HermesError<String> = HermesError::ServerError("s".to_string());
    assert_eq!(e.get_inner_server_error(), Some("s".to_string()));
    let e: HermesError<String> = HermesError::IOError(io_error());
    assert!(e.get_inner_io_error().is_some());
}

#[test]
fn value_arriving_during_a_wait_is_returned() {
    let mut disk: MemDisk<String> = MemDisk::new(Root::Directory);
    let client = opened(&mut disk);
    let server = opened(&mut disk);
    assert!(unit(&mut disk, client.request("World".to_string())).is_ok());
    // The client loops five rounds; the directory does not change.
    let waiting = disk.advance(client.await_response(), 3 * 5);
    assert!(matches!(waiting, Progress::Next(_, Action::Check(Entry::Signal(StatusSignal::StatusDone)))));
    assert_eq!(disk.files.len(), 2);
    assert_eq!(disk.slept_micros, 5 * 100);
    // Meanwhile the server answers.
    let got = value(&mut disk, server.await_request()).unwrap();
    assert!(unit(&mut disk, server.respond(format!("Hello {}!", got))).is_ok());
    // The client's wait resumes and returns the response.
    assert_eq!(value(&mut disk, waiting).unwrap(), "Hello World!".to_string());
    assert!(!disk.has(Entry::Signal(StatusSignal::StatusDone)));
}

/// Answers of the right kind, but chosen at random rather than read from a
/// directory: another process may be changing it all the time.
fn random_answer(kind: EventKind, seed: &mut u64) -> Event<String> {
    *seed = seed.wrapping_mul(6364136223846793005).wrapping_add(1442695040888963407);
    let bit = (*seed >> 33) % 4;
    match kind {
        EventKind::Root => Event::Root { exists: bit != 0, is_dir: bit != 1 },
        EventKind::Exists => Event::Exists(bit == 0),
        EventKind::Io => if bit == 0 { Event::Io(Err(io_error())) } else { Event::Io(Ok(())) },
        EventKind::Written => Event::Written(Ok(())),
        EventKind::Loaded => if bit == 0 {
            Event::Loaded(Err("garbled".to_string()))
        } else {
            Event::Loaded(Ok(format!("v{}", bit)))
        },
        EventKind::Slept => Event::Slept,
    }
}

#[test]
fn timed_wait_ends_whatever_the_answers() {
    let hermes = opened(&mut MemDisk::new(Root::Directory));
    for start in 0..200u64 {
        let mut seed = start;
        let mut progress = if start % 2 == 0 { hermes.await_request() } else { hermes.await_response() };
        let mut actions: u64 = 0;
        let mut slept: u64 = 0;
        loop {
            match progress {
                Progress::Finished(_) => break,
                Progress::Next(task, action) => {
                    actions += 1;
                    assert!(actions <= 3 * 150_000 + 11);
                    if let Action::Sleep(m) = action {
                        slept += m;
                    }
                    let event = random_answer(task.expected(), &mut seed);
                    progress = task.resume(event);
                }
            }
        }
        assert!(slept <= 2_500 * 150_001);
    }
}
