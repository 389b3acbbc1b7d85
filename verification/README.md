# orion_rpc

Orion RPC is a tray application that publishes a Discord rich presence for
Orion Hosting, keeps itself to a single running instance, manages its own
start-up entry and offers the updates published as GitHub releases.

The library in `src/` holds the application's decisions, verified with Verus:

- `config`: the application's constants and default configuration.
- `version`: parsing and ordering release versions (through `semver`) and
  choosing an update.
- `auto_launch`: the start-up entry (through `auto-launch`).
- `rpc`: the presence worker as a state machine from action outcomes to the
  next action, with its invariant and laws.
- `ui`: the settings window's view model.
- `backend`: the command line, the routing of commands, the window
  process's launch arguments and the errors that end the backend.
- `instance`: the signal of the single-instance handshake and its types
  (the socket handshake itself is in `app/`).
- `updater`: what follows an update check and an installation.

`app/` is the program around it: threads, channels, local sockets, the
Discord client, the release downloads and the window drawn with gpui.
