# starship_manager

Core of a terminal manager for Starship prompt profiles: which key does what,
how the TOML editor edits text, how profiles are ordered, how captured prompt
output is cleaned up, and how the install provider is chosen. The library in
`src/` is checked by Verus against its contracts; `app/` is the terminal
program around it (files, processes, environment, drawing).

- `src/text.rs` — character sequences, `str::lines`-style splitting and joining.
- `src/render.rs` — stripping ANSI escapes and prompt markers; reading a `starship prompt` run.
- `src/provider.rs` — install providers, their detection and commands.
- `src/config.rs` — TOML validation (through `toml_edit`).
- `src/profile.rs` — profiles, their names and their order.
- `src/bundle.rs` — theme bundle data.
- `src/app.rs` — application state and its updates.
- `src/event.rs` — the key bindings as a state machine from key press to new state and outside work.
- `src/view.rs` — what the panes show.
- `src/laws.rs` — properties over sequences of key presses.
