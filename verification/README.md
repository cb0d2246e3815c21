# tauri-plugin-icloud-container

A Tauri plugin that gives a webview coordinated access to an app's iCloud
container on iOS. This crate is its verified core, written in Verus:

- `src/commands.rs` checks every command's arguments: relative paths that
  must stay inside the container (no root, no `..` component), container
  identifiers, watch ids, encodings, and the defaults of each command's
  options. Each `prepare_*` function checks a command's arguments in the
  order the command does, so the first invalid one decides the error.
- `src/bridge.rs` holds what the native bridge decides: which identifier a
  call sends (a non-blank override, else the normalized default), how content
  and file protection travel, and which error a native failure message stands
  for.
- `src/error.rs` is the nine-code error taxonomy; `src/models.rs` the values
  that commands take and return; `src/text.rs` Unicode whitespace and
  trimming.
- `src/laws.rs` states the properties that span functions: sandboxing is
  idempotent and shared by every command that takes paths, native failures
  round-trip through their codes, absent options mean defaults, and codes and
  wire names are distinct.

`app/` is the plugin itself: the Tauri commands, the calls into the native
plugin, and serde forms of the core's types.
