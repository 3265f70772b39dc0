use zfstop::pools::ffi;
use zfstop::pools::scan::decode_scan_state;
use zfstop::pools::ScrubState;

const GIB: u64 = 1 << 30;

fn build_modern_scan_stats(
    func: u64,
    state: u64,
    start_time: u64,
    to_examine: u64,
    examined: u64,
    skipped: u64,
    pass_start: u64,
    pass_paused: u64,
    pass_issued: u64,
    issued: u64,
) -> Vec<u64> {
    let mut stats = vec![0u64; ffi::PSS_MIN_LEN_WITH_ISSUED];
    stats[ffi::PSS_IDX_FUNC] = func;
    stats[ffi::PSS_IDX_STATE] = state;
    stats[ffi::PSS_IDX_START_TIME] = start_time;
    stats[ffi::PSS_IDX_TO_EXAMINE] = to_examine;
    stats[ffi::PSS_IDX_EXAMINED] = examined;
    stats[ffi::PSS_IDX_SKIPPED] = skipped;
    stats[ffi::PSS_IDX_PASS_START] = pass_start;
    stats[ffi::PSS_IDX_PASS_SCRUB_SPENT_PAUSED] = pass_paused;
    stats[ffi::PSS_IDX_PASS_ISSUED] = pass_issued;
    stats[ffi::PSS_IDX_ISSUED] = issued;
    stats
}

#[test]
fn decode_scan_state_matches_zpool_status_after_metadata_walk() {
    let scan_start = 1_000_000;
    let pass_issued_bytes = 34_900_000_000;
    let issued_bytes = 34_900_000_000;
    let to_examine = 227 * GIB;
    let examined = 228 * GIB;

    let stats = build_modern_scan_stats(
        ffi::POOL_SCAN_SCRUB,
        ffi::DSS_SCANNING,
        scan_start,
        to_examine,
        examined,
        0,
        scan_start,
        0,
        pass_issued_bytes,
        issued_bytes,
    );
    let now = scan_start + 28;

    match decode_scan_state(&stats, now) {
        ScrubState::InProgress {
            progress_pct,
            eta_seconds,
            speed_bytes_per_sec,
            is_resilver,
        } => {
            assert!(!is_resilver);
            assert!(
                (13..=16).contains(&progress_pct),
                "expected ~15% progress, got {progress_pct}%"
            );
            let rate = speed_bytes_per_sec.expect("speed should be Some");
            assert!(
                rate > 500 * (1 << 20) && rate < 3 * GIB,
                "expected ~1 GiB/s, got {rate} B/s"
            );
            let eta = eta_seconds.expect("eta should be Some");
            assert!(
                (60..=600).contains(&eta),
                "expected eta roughly 2-10 min, got {eta}s"
            );
        }
        other => panic!("expected InProgress, got {other:?}"),
    }
}

#[test]
fn decode_scan_state_just_started_scrub_with_no_issued_yet() {
    let start = 2_000_000;
    let stats = build_modern_scan_stats(
        ffi::POOL_SCAN_SCRUB,
        ffi::DSS_SCANNING,
        start,
        500 * GIB,
        1 * GIB,
        0,
        start,
        0,
        0,
        0,
    );

    match decode_scan_state(&stats, start + 2) {
        ScrubState::InProgress {
            progress_pct,
            eta_seconds,
            speed_bytes_per_sec,
            ..
        } => {
            assert_eq!(progress_pct, 0);
            assert!(speed_bytes_per_sec.is_none());
            assert!(eta_seconds.is_none());
        }
        other => panic!("expected InProgress, got {other:?}"),
    }
}

#[test]
fn decode_scan_state_modern_resilver_sets_flag() {
    let start = 3_000_000;
    let stats = build_modern_scan_stats(
        ffi::POOL_SCAN_RESILVER,
        ffi::DSS_SCANNING,
        start,
        100 * GIB,
        100 * GIB,
        0,
        start,
        0,
        25 * GIB,
        25 * GIB,
    );
    match decode_scan_state(&stats, start + 25) {
        ScrubState::InProgress {
            progress_pct,
            is_resilver,
            ..
        } => {
            assert!(is_resilver);
            assert_eq!(progress_pct, 25);
        }
        other => panic!("expected InProgress, got {other:?}"),
    }
}

#[test]
fn decode_scan_state_legacy_array_uses_examined_fallback() {
    let start = 4_000_000;
    let mut stats = vec![0u64; ffi::PSS_MIN_LEN];
    stats[ffi::PSS_IDX_FUNC] = ffi::POOL_SCAN_SCRUB;
    stats[ffi::PSS_IDX_STATE] = ffi::DSS_SCANNING;
    stats[ffi::PSS_IDX_START_TIME] = start;
    stats[ffi::PSS_IDX_TO_EXAMINE] = 100 * GIB;
    stats[ffi::PSS_IDX_EXAMINED] = 50 * GIB;

    match decode_scan_state(&stats, start + 50) {
        ScrubState::InProgress {
            progress_pct,
            speed_bytes_per_sec,
            ..
        } => {
            assert_eq!(progress_pct, 50);
            let rate = speed_bytes_per_sec.expect("legacy path should compute speed");
            assert!(rate > 0);
        }
        other => panic!("expected InProgress, got {other:?}"),
    }
}

#[test]
fn decode_scan_state_finished_carries_errors_and_end_time() {
    let mut stats = vec![0u64; ffi::PSS_MIN_LEN];
    stats[ffi::PSS_IDX_FUNC] = ffi::POOL_SCAN_SCRUB;
    stats[ffi::PSS_IDX_STATE] = ffi::DSS_FINISHED;
    stats[ffi::PSS_IDX_END_TIME] = 1_700_000_000;
    stats[ffi::PSS_IDX_ERRORS] = 7;

    match decode_scan_state(&stats, 1_700_500_000) {
        ScrubState::Finished {
            errors_repaired,
            completed_at,
        } => {
            assert_eq!(errors_repaired, 7);
            assert_eq!(completed_at, 1_700_000_000);
        }
        other => panic!("expected Finished, got {other:?}"),
    }
}

#[test]
fn decode_scan_state_never_and_empty() {
    let mut stats = vec![0u64; ffi::PSS_MIN_LEN];
    stats[ffi::PSS_IDX_STATE] = ffi::DSS_NONE;
    assert!(matches!(decode_scan_state(&stats, 0), ScrubState::Never));

    let too_short = vec![0u64; 3];
    assert!(matches!(
        decode_scan_state(&too_short, 0),
        ScrubState::Never
    ));
}

#[test]
fn decode_scan_state_canceled_maps_to_error() {
    let mut stats = vec![0u64; ffi::PSS_MIN_LEN];
    stats[ffi::PSS_IDX_FUNC] = ffi::POOL_SCAN_SCRUB;
    stats[ffi::PSS_IDX_STATE] = ffi::DSS_CANCELED;
    assert!(matches!(decode_scan_state(&stats, 0), ScrubState::Error));
}

#[test]
fn decode_scan_state_exact_values_for_modern_scrub() {
    // 25 GiB issued of 100 GiB in 25 s: 1 GiB/s, 75 s to go.
    let start = 3_000_000;
    let stats = build_modern_scan_stats(
        ffi::POOL_SCAN_SCRUB,
        ffi::DSS_SCANNING,
        start,
        100 * GIB,
        100 * GIB,
        0,
        start,
        0,
        25 * GIB,
        25 * GIB,
    );
    match decode_scan_state(&stats, start + 25) {
        ScrubState::InProgress {
            progress_pct,
            eta_seconds,
            speed_bytes_per_sec,
            is_resilver,
        } => {
            assert!(!is_resilver);
            assert_eq!(progress_pct, 25);
            assert_eq!(speed_bytes_per_sec, Some(GIB));
            assert_eq!(eta_seconds, Some(75));
        }
        other => panic!("expected InProgress, got {other:?}"),
    }
}

#[test]
fn decode_scan_state_unknown_state_is_never() {
    let mut stats = vec![0u64; ffi::PSS_MIN_LEN];
    stats[ffi::PSS_IDX_STATE] = 99;
    assert!(matches!(decode_scan_state(&stats, 0), ScrubState::Never));
}
