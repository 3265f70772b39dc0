//! Library core of a terminal dashboard for ZFS: tab navigation and the
//! key/mouse state machine, pool, vdev and dataset models, the decoding of
//! what libzfs, kstat files, `/proc/meminfo` and sysctl(3) report, the
//! command line, calendar dates, and the text each panel shows.

pub mod app;
pub mod arcstats;
pub mod calendar;
pub mod cli;
pub mod datasets;
pub mod display;
pub mod kv;
pub mod meminfo;
pub mod pools;
pub mod text;
pub mod units;
