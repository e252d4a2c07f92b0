# zenbookd

A battery charge-limit daemon for ASUS Zenbooks and its command-line tool,
with the daemon's decisions and the tool's output proved correct with Verus.

- `src/` is the verified library: the charge policy, the Wi-Fi power-save
  monitor, request handling, message framing, sysfs discovery and parsing, the
  status panel and the fish completions. Every function carries a contract;
  the public proof functions state the laws the daemon keeps.
- `app/` holds the executable: file and socket I/O, threads, argument parsing,
  serde and TOML, and the one floating-point computation (battery health).
- `tests/` runs the library on concrete values.
