# fskit_rs

A bridge that serves a user-space file system to a macOS FSKit host
extension over a local TCP connection.

`src/` is the verified core (Verus):

- `options` — mount options and their defaults.
- `varint`, `framing` — the length-delimited wire framing (LEB128 length,
  then body), with the round-trip laws for varints and frame streams.
- `handler` — what a request turns into: an immediate `EINVAL` answer or a
  file system call, and the response a call's outcome gives.
- `mounter`, `installer` — the mount and install procedures as state
  machines that say which command to run next, and how command output is
  read.
- `session`, `socket` — locating the registered extension, describing
  failed commands, the listen address and how decode failures are treated.
- `text`, `platform` — string helpers with exact specifications, and the
  operating system items the rest needs.

`app/` is the runtime: the `Filesystem` trait users implement, the tokio
endpoint, and the processes that mount, unmount and install.  It expects the
protocol's message types generated by `prost-build` from the extension's
protocol definition (module `pb`, read from `OUT_DIR`).
