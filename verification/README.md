# oneos

The user space of OneOS, a small Debian-based system: the `oneosd` daemon,
the `oneos` client and the boot splash, with the logic they share verified
by Verus.

- `src/` — the verified library
  - `text` — Unicode whitespace, trimming, lines and words as std splits
    them, decimal numbers (printing and parsing)
  - `proto` — the JSON Lines protocol: methods and their wire names,
    requests, responses, the result types, the socket path, message framing
  - `daemon` — how `oneosd` answers each request (development mode refuses
    every write operation with `dev_mode`), the session, service and journal
    commands it runs and how their results are answered, unit-name checks,
    the status report, `/etc/os-release`, socket activation, the handling of
    a stale socket file
  - `settings` — host name, time zone and locale: reading them from their
    files, and the checks a new host name (RFC 1123 style) or time zone (a
    name inside the zone database, whose file must exist) must pass
  - `cli` — the client's commands (`status`, `session`, `service`, `logs`,
    `settings`, power), the requests they send, failures and exit codes,
    and what each command prints
  - `splash` — canvas, boot history, framebuffer geometry and pixel
    encoding, PPM preview frames, mask blending and downsampling, the glyph
    outline format
- `app/` — the programs: sockets, files, processes, serde's JSON, and the
  floating-point drawing of the splash
- `tests/` — tests of the library
