# flytunnel

FlyTunnel exposes a Minecraft LAN world to the internet through an `frp`
client (`frpc`) talking to an `frps` server on a VPS.

- `src/` is the verified library: settings and their validation
  (`models`), the `frpc` configuration and its TOML document, written by the
  `toml` crate (`frpc_config`), recognition of
  `frpc` log lines (`frpc_log`), where the `frp` binaries come from and what is
  reported on the way, and finding the binary inside a release archive
  through the `tar`, `flate2` and `zip` crates (`frpc_resolver`), the tunnel's lifecycle as a state
  machine over the child process and its configuration file
  (`process_manager`), event receivers (`event_sink`), the decisions and text
  of the terminal front end (`cli`) and the character-level string operations
  they rest on (`text`).
- `app/` is the terminal program around it: reading and writing files,
  downloading archives and writing out the unpacked binary, spawning and watching `frpc`, parsing
  the command line and printing.
- `tests/` runs the library on concrete values.
