# time_tracker

A client for external time-tracking services (Toggl Track and Kimai),
written in Verus: the library in `src/` states its behaviour in contracts
and is proved against them.

- `src/models.rs`, `src/state.rs`: the data model (scopes, projects, time
  entries, timestamps) and the state kept across runs.
- `src/toggl.rs`, `src/kimai.rs`, `src/request.rs`: the HTTP requests each
  service is sent, and how its answers become the model.
- `src/clock.rs`, `src/text.rs`: the times and durations shown to the user.
- `src/timer_page.rs`, `src/settings_page.rs`, `src/time_entries_page.rs`,
  `src/panel.rs`: the panel applet and its pages, as state machines that
  return the work they ask for.
- `src/applet.rs`: the stand-alone stopwatch applet.
- `src/backend.rs`: the line-based backend for shell panels.
- `src/credentials.rs`, `src/locale.rs`: keyring entry names and the user's locale.

`app/` holds the program around the library: HTTP, the keyring, JSON on
standard input and output.
The panel applet and the stand-alone stopwatch need the COSMIC toolkit
(libcosmic) to run; it is not among the dependencies here, so `app/` holds
no runner for them, only the shell-panel backend and the keyring and HTTP
code the applets share with it.
