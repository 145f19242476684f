# dsh-desktop

A desktop shell around the local web backend `dsh`: a native window, a menu bar,
a tray icon, a watchdog over the backend process and an updater.

- `src/` decides. It is written in Verus: every function has a contract, and what
  is promised of the whole (such as that the backend's URL is published only
  while the backend listens, or that at most one downloaded update is held) is
  stated and proved there.
- `app/` acts. It starts processes, opens sockets, shows windows and dialogs, and
  reports what came of it.
- `tests/` runs the decisions on concrete values.

Where decisions and effects alternate, `src/` holds a value that says what is
asked or awaited next, and a function from that value and the answer to the next
one; `app/` runs the loop.

| module | what it decides |
| --- | --- |
| `resolve` | which command launches the backend |
| `workspace` | which directory the backend works in |
| `launch` | the steps of a start, the arguments and the URL |
| `ready` | when the backend counts as ready |
| `tail` | how much of its output is kept |
| `kill` | how a process is ended |
| `watchdog` | what is published, announced and restarted |
| `update` | the steps of an update |
| `state` | the shared state, and what the page may ask of it |
| `status`, `menu`, `text` | payloads, menus, text |
