# kidstime

A parental-control timer for Windows desktops: daily and session limits with a
green / amber / red countdown, allowed hours, a screen lock when time is up,
per-program usage statistics and an activity log, and remote control from a
phone through a local web panel or a cloud relay.

## Layout

- `src/` is the library, verified with Verus. Public functions state in
  their `ensures` what they return or how they change their arguments, over
  spec functions on sequences and integers; the laws (`law_*` proof
  functions) state what holds across calls. A few functions state nothing of
  their result because it is a reading that Verus cannot describe: the
  relay client's shared stop flag (an atomic) and whether a notice is still
  within its three seconds (the monotonic clock; the rule itself is
  `notice_shown`).
  - `text.rs`: trimming, replacement, decimal and hexadecimal rendering and
    parsing.
  - `clock.rs`: local time readings and the daily schedule window.
  - `config.rs`: settings, the timer state, password hashing, tokens, and the
    manager with its time accounting and panel addresses.
  - `history.rs`: the bounded activity log and the usage summary.
  - `tracker.rs`: one tick of the minute tracker.
  - `server.rs`: API authorization, routing, add-time bounds and the status.
  - `relay.rs`: the cloud relay client's steps and message reading.
  - `net.rs`: public address lookups and DuckDNS requests.
  - `gui.rs`: the desktop window's state and decisions.
  - `winapi.rs`: what is made of the foreground window's data.
- `app/` is the program around it: file storage, the axum web server, the
  WebSocket relay connection, HTTP lookups, the Win32 calls, the threads and
  the egui window. It reads, sends and draws, and leaves the decisions to
  the library.
- `tests/` runs the library on concrete values.
