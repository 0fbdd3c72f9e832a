# lamco-rdp-server

A remote desktop server for Wayland sessions. Clients connect by RDP over TCP or over
virtual sockets; the desktop is captured and controlled through desktop portals or the
compositor's own interfaces.

## Layout

- `src/` is the library: configuration, authentication, the clipboard exchange, the
  set-up of sessions, the accept loop and the command line, as decisions on plain
  values. Functions carry contracts that Verus proves. Where a result rests on the
  clock alone (`start_clock`, `nanos_since`, `RateLimiter::now`) there is nothing to
  state and no contract.
- `app/` is the program around it: arguments, files, sockets, portals, PAM and the
  event loops that carry out what the library decides.
- `tests/` exercises the library on concrete values.

## How the library is built

State machines take an event, or the outcome of what was asked for before, and return
what to do next. `clipboard::manager::ClipboardOrchestrator` and
`server::accept::LamcoRdpServer` are the two large ones. The answers of the desktop are
arguments. Functions that read the clock themselves (`RateLimiter::check`,
`SessionToken::is_expired` and their like) state what holds at whatever time was read;
beside each stands one that takes the time as an argument, with an exact contract
(`check_at`, `is_expired_at`). Random identifiers and the time in the
name of a log file are stated by their form.

Properties that span several functions are public proof functions next to the
functions that they speak of, and in `clipboard::laws`.

What other crates compute (bitmap conversion, text clean-up, TOML and JSON documents,
random identifiers) is called where it is needed. The contract of each such call
stands beside it, with a comment that says what is taken on trust.
