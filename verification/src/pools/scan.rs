//! Decoding of the `scan_stats` array (`pool_scan_stat_t`) into a
//! `ScrubState`, with the arithmetic `zpool status` uses
//! (`print_scan_scrub_resilver_status` in OpenZFS `zpool_main.c`).
//!
//! On OpenZFS 0.8+ arrays (15 fields or more) progress is
//! `issued / (to_examine - skipped)` and speed is
//! `pass_issued / max(1, now - pass_start - pass_scrub_spent_paused)`.
//! Older 9-field arrays fall back to `examined / to_examine` and
//! `examined / (now - start_time)`.

use vstd::prelude::*;
use crate::pools::ffi::{
    DSS_CANCELED, DSS_FINISHED, DSS_NONE, DSS_SCANNING, POOL_SCAN_RESILVER, PSS_IDX_END_TIME,
    PSS_IDX_ERRORS, PSS_IDX_EXAMINED, PSS_IDX_FUNC, PSS_IDX_ISSUED, PSS_IDX_PASS_ISSUED,
    PSS_IDX_PASS_SCRUB_SPENT_PAUSED, PSS_IDX_PASS_START, PSS_IDX_SKIPPED, PSS_IDX_START_TIME,
    PSS_IDX_STATE, PSS_IDX_TO_EXAMINE, PSS_MIN_LEN, PSS_MIN_LEN_WITH_ISSUED,
};
use crate::pools::types::ScrubState;

verus! {

/// `a.saturating_sub(b)`.
pub open spec fn sat_sub(a: u64, b: u64) -> u64 {
    if a >= b {
        (a - b) as u64
    } else {
        0
    }
}

/// `a.saturating_mul(b)`.
pub open spec fn sat_mul(a: u64, b: u64) -> u64 {
    if a * b > u64::MAX {
        u64::MAX
    } else {
        (a * b) as u64
    }
}

pub fn saturating_mul(a: u64, b: u64) -> (r: u64)
    ensures
        r == sat_mul(a, b),
{
    match a.checked_mul(b) {
        Some(p) => p,
        None => u64::MAX,
    }
}

/// Percentage `numerator / denominator`, capped at 100; 0 when the
/// denominator is 0.
pub open spec fn percent(numerator: u64, denominator: u64) -> u8 {
    if denominator == 0 {
        0
    } else {
        let p = sat_mul(numerator, 100) / denominator;
        if p > 100 {
            100
        } else {
            p as u8
        }
    }
}

/// Speed and remaining time of a running scan: `(bytes per second, ETA in
/// seconds)`.
pub open spec fn scan_rate(stats: Seq<u64>, now: u64) -> (Option<u64>, Option<u64>) {
    let to_examine = stats[PSS_IDX_TO_EXAMINE as int];
    let examined = stats[PSS_IDX_EXAMINED as int];
    if stats.len() >= PSS_MIN_LEN_WITH_ISSUED {
        let issued = stats[PSS_IDX_ISSUED as int];
        let total_i = sat_sub(to_examine, stats[PSS_IDX_SKIPPED as int]);
        let elapsed = sat_sub(
            sat_sub(now, stats[PSS_IDX_PASS_START as int]),
            stats[PSS_IDX_PASS_SCRUB_SPENT_PAUSED as int],
        );
        let pass_elapsed = if elapsed >= 1 {
            elapsed
        } else {
            1
        };
        let rate = stats[PSS_IDX_PASS_ISSUED as int] / pass_elapsed;
        (
            if rate > 0 {
                Some(rate)
            } else {
                None
            },
            if rate > 0 && total_i > issued {
                Some(((total_i - issued) as u64 / rate) as u64)
            } else {
                None
            },
        )
    } else {
        let elapsed = sat_sub(now, stats[PSS_IDX_START_TIME as int]);
        if elapsed > 0 && examined > 0 {
            let rate = examined / elapsed;
            (
                Some(rate),
                if rate > 0 && to_examine > examined {
                    Some(((to_examine - examined) as u64 / rate) as u64)
                } else {
                    None
                },
            )
        } else {
            (None, None)
        }
    }
}

/// Progress of a running scan, in percent.
pub open spec fn scan_progress(stats: Seq<u64>) -> u8 {
    let to_examine = stats[PSS_IDX_TO_EXAMINE as int];
    if stats.len() >= PSS_MIN_LEN_WITH_ISSUED {
        percent(
            stats[PSS_IDX_ISSUED as int],
            sat_sub(to_examine, stats[PSS_IDX_SKIPPED as int]),
        )
    } else {
        percent(stats[PSS_IDX_EXAMINED as int], to_examine)
    }
}

/// The scrub state a `scan_stats` array describes, read at `now` (Unix
/// seconds).
pub open spec fn scan_state(stats: Seq<u64>, now: u64) -> ScrubState {
    if stats.len() < PSS_MIN_LEN {
        ScrubState::Never
    } else {
        let state = stats[PSS_IDX_STATE as int];
        if state == DSS_SCANNING {
            ScrubState::InProgress {
                progress_pct: scan_progress(stats),
                eta_seconds: scan_rate(stats, now).1,
                speed_bytes_per_sec: scan_rate(stats, now).0,
                is_resilver: stats[PSS_IDX_FUNC as int] == POOL_SCAN_RESILVER,
            }
        } else if state == DSS_FINISHED {
            ScrubState::Finished {
                completed_at: stats[PSS_IDX_END_TIME as int],
                errors_repaired: stats[PSS_IDX_ERRORS as int],
            }
        } else if state == DSS_CANCELED {
            ScrubState::Error
        } else {
            ScrubState::Never
        }
    }
}

fn percent_exec(numerator: u64, denominator: u64) -> (r: u8)
    ensures
        r == percent(numerator, denominator),
{
    if denominator == 0 {
        0
    } else {
        let p = saturating_mul(numerator, 100) / denominator;
        if p > 100 {
            100
        } else {
            p as u8
        }
    }
}

/// Decodes a `pool_scan_stat_t` array into a `ScrubState`. `now_secs` is
/// the current Unix time, passed in so the speed and ETA can be computed
/// against a known clock.
pub fn decode_scan_state(stats: &[u64], now_secs: u64) -> (r: ScrubState)
    ensures
        r == scan_state(stats@, now_secs),
{
    if stats.len() < PSS_MIN_LEN {
        return ScrubState::Never;
    }
    let func = stats[PSS_IDX_FUNC];
    let state = stats[PSS_IDX_STATE];
    if state == DSS_NONE {
        ScrubState::Never
    } else if state == DSS_SCANNING {
        let to_examine = stats[PSS_IDX_TO_EXAMINE];
        let examined = stats[PSS_IDX_EXAMINED];
        let has_issued = stats.len() >= PSS_MIN_LEN_WITH_ISSUED;
        let progress_pct = if has_issued {
            let issued = stats[PSS_IDX_ISSUED];
            let skipped = stats[PSS_IDX_SKIPPED];
            percent_exec(issued, to_examine.saturating_sub(skipped))
        } else {
            percent_exec(examined, to_examine)
        };
        let (speed_bytes_per_sec, eta_seconds) = if has_issued {
            let issued = stats[PSS_IDX_ISSUED];
            let skipped = stats[PSS_IDX_SKIPPED];
            let pass_start = stats[PSS_IDX_PASS_START];
            let pass_paused = stats[PSS_IDX_PASS_SCRUB_SPENT_PAUSED];
            let pass_issued = stats[PSS_IDX_PASS_ISSUED];
            let total_i = to_examine.saturating_sub(skipped);
            let elapsed = now_secs.saturating_sub(pass_start).saturating_sub(pass_paused);
            let pass_elapsed = if elapsed >= 1 {
                elapsed
            } else {
                1
            };
            let rate = pass_issued / pass_elapsed;
            let speed = if rate > 0 {
                Some(rate)
            } else {
                None
            };
            let eta = if rate > 0 && total_i > issued {
                Some((total_i - issued) / rate)
            } else {
                None
            };
            (speed, eta)
        } else {
            let start_time = stats[PSS_IDX_START_TIME];
            let elapsed = now_secs.saturating_sub(start_time);
            if elapsed > 0 && examined > 0 {
                let rate = examined / elapsed;
                let eta = if rate > 0 && to_examine > examined {
                    Some((to_examine - examined) / rate)
                } else {
                    None
                };
                (Some(rate), eta)
            } else {
                (None, None)
            }
        };
        ScrubState::InProgress {
            progress_pct,
            eta_seconds,
            speed_bytes_per_sec,
            is_resilver: func == POOL_SCAN_RESILVER,
        }
    } else if state == DSS_FINISHED {
        ScrubState::Finished {
            completed_at: stats[PSS_IDX_END_TIME],
            errors_repaired: stats[PSS_IDX_ERRORS],
        }
    } else if state == DSS_CANCELED {
        ScrubState::Error
    } else {
        ScrubState::Never
    }
}

/// A running scan never reports more than 100%, an ETA only comes with a
/// speed, and `is_resilver` is set exactly for resilvers.
pub proof fn lemma_scan_state_bounds(stats: Seq<u64>, now: u64)
    ensures
        scan_state(stats, now) matches ScrubState::InProgress {
            progress_pct,
            eta_seconds,
            speed_bytes_per_sec,
            is_resilver,
        } ==> {
            &&& progress_pct <= 100
            &&& eta_seconds is Some ==> speed_bytes_per_sec is Some
            &&& is_resilver == (stats[PSS_IDX_FUNC as int] == POOL_SCAN_RESILVER)
        },
        stats.len() < PSS_MIN_LEN ==> scan_state(stats, now) is Never,
{
}

/// The reported speed of a running scan, 0 when there is none.
pub open spec fn reported_speed(s: ScrubState) -> int {
    match s {
        ScrubState::InProgress { speed_bytes_per_sec: Some(v), .. } => v as int,
        _ => 0,
    }
}

/// On an OpenZFS 0.8+ `scan_stats` array (15 fields or more) of a running
/// scan, the speed is the bytes issued in this pass (field 13) over the
/// seconds the pass has actually been scanning: the time since the pass
/// started (field 10) less the time it spent paused (field 12), at least
/// one second. A paused hour is not scanning time.
pub proof fn lemma_scan_speed_counts_active_time(stats: Seq<u64>, now: u64)
    requires
        stats.len() >= 15,
        stats[1] == 1,
    ensures
        ({
            let active: int = now - stats[10] - stats[12];
            let secs: int = if active >= 1 { active } else { 1 };
            let rate: int = stats[13] as int / secs;
            &&& scan_state(stats, now) is InProgress
            &&& reported_speed(scan_state(stats, now)) == rate
            &&& (rate == 0 <==> scan_state(stats, now)->speed_bytes_per_sec is None)
        }),
{
}

/// Raising the time a scan spent paused, with the bytes issued in the
/// pass unchanged, never lowers the speed reported for it.
pub proof fn lemma_scan_speed_grows_with_paused_time(stats: Seq<u64>, now: u64, paused: u64)
    requires
        stats.len() >= 15,
        stats[1] == 1,
        paused >= stats[12],
    ensures
        reported_speed(scan_state(stats, now)) <= reported_speed(
            scan_state(stats.update(12, paused), now),
        ),
{
    let later = stats.update(12, paused);
    lemma_scan_speed_counts_active_time(stats, now);
    lemma_scan_speed_counts_active_time(later, now);
    let a1: int = now - stats[10] - stats[12];
    let a2: int = now - stats[10] - paused;
    let d1: int = if a1 >= 1 { a1 } else { 1 };
    let d2: int = if a2 >= 1 { a2 } else { 1 };
    assert(d2 <= d1);
    vstd::arithmetic::div_mod::lemma_div_is_ordered_by_denominator(stats[13] as int, d2, d1);
}

/// What a `scan_stats` array says, field by field: fewer than 9 fields is
/// no scan; state 2 (finished) carries the end time (field 3) and the
/// errors repaired (field 8); state 3 (canceled) is an error; state 1
/// (scanning) is in progress, a resilver exactly when the function (field
/// 0) is 2. On OpenZFS 0.8+ arrays progress is the issued bytes (field 14)
/// over the bytes to scan (field 4 less the skipped field 6), capped at
/// 100%, and the ETA is the bytes left over the speed, when both are
/// positive. On older arrays the speed is the bytes examined (field 5)
/// over the seconds since the scan started (field 2).
pub proof fn lemma_scan_state_fields(stats: Seq<u64>, now: u64)
    ensures
        stats.len() < 9 ==> scan_state(stats, now) is Never,
        stats.len() >= 9 && stats[1] == 2 ==> scan_state(stats, now) == (ScrubState::Finished {
            completed_at: stats[3],
            errors_repaired: stats[8],
        }),
        stats.len() >= 9 && stats[1] == 3 ==> scan_state(stats, now) is Error,
        stats.len() >= 9 && stats[1] != 1 && stats[1] != 2 && stats[1] != 3 ==> scan_state(stats, now) is Never,
        stats.len() >= 9 && stats[1] == 1 ==> {
            &&& scan_state(stats, now) is InProgress
            &&& (scan_state(stats, now)->is_resilver <==> stats[0] == 2)
        },
        stats.len() >= 15 && stats[1] == 1 ==> {
            let total: int = if stats[4] >= stats[6] { stats[4] - stats[6] } else { 0 };
            let active: int = now - stats[10] - stats[12];
            let rate: int = stats[13] as int / (if active >= 1 { active } else { 1 });
            &&& total == 0 ==> scan_state(stats, now)->progress_pct == 0
            &&& total > 0 && stats[14] as int * 100 <= u64::MAX ==> scan_state(stats, now)->progress_pct == (
                if stats[14] as int * 100 / total > 100 { 100 } else { stats[14] as int * 100 / total })
            &&& scan_state(stats, now)->progress_pct <= 100
            &&& scan_state(stats, now)->eta_seconds == (if rate > 0 && total > stats[14] {
                Some(((total - stats[14]) / rate) as u64)
            } else {
                None::<u64>
            })
        },
        stats.len() >= 9 && stats.len() < 15 && stats[1] == 1 ==> {
            let elapsed: int = now - stats[2];
            scan_state(stats, now)->speed_bytes_per_sec == (if elapsed > 0 && stats[5] > 0 {
                Some((stats[5] as int / elapsed) as u64)
            } else {
                None::<u64>
            })
        },
{
}

} // verus!
