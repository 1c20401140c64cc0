# hermes

A request/response channel between two processes that meet in a directory on
disk. The client writes a request and sets the `status-open` marker; the
server waits for it, reads the request, writes a response and sets
`status-done`; the client waits for that. The server may put an error in
place of a response (`error.xff` and `status-error`), which any waiting side
then receives.

## Layout

- `src/` — the verified library. Every operation (`Hermes::new`, `request`,
  `await_request`, `respond`, `put_error`, `free_resources`, ...) is a small
  state machine (`protocol::Task`): it names the file work to do next
  (`protocol::Action`) and decides, from what that work observed
  (`protocol::Event`), what comes next or how it ends. `disk.rs` models the
  directory and what running an operation against it yields; `laws.rs` proves
  what the protocol promises: a value sent is the value read, a wait consumes
  its marker, an error wins over a value, waits time out after a fixed number
  of pauses or never, and so on.
- `app/` — runs the operations against a real directory, storing values in
  nabu's XFF format, and offers the connection API with plain results.
- `tests/` — the documented exchanges and the laws, run against a directory
  held in memory.
