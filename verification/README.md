# piri plugins, verified

The decision logic of three window-management plugins for the niri
compositor, written in Verus:

- **mark**: named marks on windows (`toggle`, `add`, `delete`), with the
  optional return to the previously focused window;
- **sticky**: a floating window that follows the focused workspace;
- **workspace_rule**: per-workspace layout rules: column widths by column
  count, maximizing a lone window, tiling new windows into lone columns,
  column alignment, and the edge indicators.

`src/` is the verified library. Work that needs the compositor is expressed
as step functions: each takes what the caller has learned (an event) and
returns the next thing to fetch or do (an action), so every decision is
proved while the caller only performs I/O. `src/text.rs` holds the decimal
printing and string comparison the rules need, `src/search.rs` a
"first element satisfying" specification used by the lookups, and
`src/desktop.rs` the windows, workspaces, events and requests as plain values.

`app/` is the daemon side: the niri socket connection, the configuration with
serde, the async drivers that run the step functions, the throttle and the
alignment flag, and the floating-point width parsing.
