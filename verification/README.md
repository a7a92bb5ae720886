# process_scheduler

A process scheduling daemon for Linux whose decision logic is a verified
Verus library.

- `src/` — the library, verified with Verus:
  - `scheduler/` — scheduling policies (names, kernel numbers), CPU sets as
    bit masks, scheduler errors and the interpretation of the kernel's
    return values, policy parameters;
  - `priority/` — the `which` selectors of the CPU and I/O priority calls and
    the I/O priority encoding;
  - `config/` — rules, their validation, the configuration built from the
    TOML entries and the matching of rules against processes (regular
    expressions through the `regex` crate);
  - `pidwatcher.rs` — the tracking of PIDs between scans;
  - `daemon.rs` — the changes a rule makes and the order in which
    configuration files are tried;
  - `target.rs` — processes, process groups and users as targets.
- `app/` — the daemon itself: file and `/proc` reading, TOML parsing, the
  kernel calls and the main loop.
- `tests/` — tests of the library.
