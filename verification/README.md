# flowtile-core-daemon

The daemon of the Flowtile window manager for Windows. It listens to hotkeys, touchpad
gestures, the console and the desktop, shows the overview of all workspaces and the bars beside
tabbed columns, and hands requests to the window manager.

What the daemon decides stands in `src/`, a library in Verus: every function there has a
contract, and Verus proves that it keeps it. What the daemon does stands in `app/`, ordinary
Rust that calls the system, reports to the library what came back, and does what the library
answers.

- `hotkeys`: which key fires which command, which key is held back, and what is played back.
- `touchpad`: the gestures that are bound to commands, and how a swipe is recognised.
- `overview_engine`: where every preview of the overview stands, at rest and in motion.
- `overview_surface`: the windows that show the overview, and how they make way for the
  shell's screenshot tools.
- `tab_indicator`: the bars beside tabbed columns.
- `watch`: the commands, the messages, the start of the daemon and its main loop.
- `flowshell_core`: the conversation with the desktop shell.
- `wm_state`, `geometry`, `ids`: the window manager's state as the library reads it.
- `double`, `arith`, `text`: numbers and texts that the other modules compute with.

A function whose name starts with `law_` states something about several functions or about every
state, and proves it.

The window manager itself is reached through the crates `flowtile_domain`, `flowtile_ipc`,
`flowtile_layout_engine`, `flowtile_windows_adapter` and `flowtile_wm_core`, which only
`app/flowtile.rs` names.
