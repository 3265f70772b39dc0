# zfstop

A terminal dashboard for ZFS in the spirit of `htop`: ARC size and
breakdown, hit ratios and throughput, system RAM, pool health, capacity,
fragmentation and scrub status.

## Layout

- `src/` — the verified library (Verus). Every function carries a
  contract; the decisions the dashboard makes live here:
  - `app` — tabs, the pools list/detail view, key and mouse handling, refresh
    bookkeeping (with proved navigation laws);
  - `pools` — pool and vdev models, `vdev_stats` / `scan_stats` decoding,
    vdev classification and naming;
  - `datasets` — dataset trees, property decoding, name ordering and lookup;
  - `arcstats`, `meminfo`, `kv` — kstat, `/proc/meminfo` and `sysctl(8)` text,
    the RAM-bar segments per OS, FreeBSD sysctl reads;
  - `units`, `calendar`, `display`, `text` — sizes, durations, dates and the
    cell text and tones of every panel;
  - `cli` — the command line.
- `tests/` — tests of the library.
- `app/` — the `zftop` binary: terminal, event loop, files, libzfs loaded with
  `dlopen`, and drawing with ratatui. Floating-point shares (hit ratios, gauge
  fill, bar widths) are computed there.
