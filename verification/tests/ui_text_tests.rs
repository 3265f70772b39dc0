//! The text the dashboard's panels are built from, checked the way the
//! panels combine it.

use zfstop::app::{PoolsView, Tab};
use zfstop::display::{
    error_tone, footer_hints, format_scrub_header, pool_health_label, pools_notice,
    truncate_left_with_ellipsis, vdev_row_cells, Tone,
};
use zfstop::pools::{ErrorCounts, PoolHealth, ScrubState, VdevKind, VdevNode, VdevState};

const NOW: u64 = 1_777_680_000;

fn footer(tab: Tab, view: PoolsView) -> String {
    footer_hints(tab, view).iter().map(|(k, l)| format!("{k}{l}")).collect()
}

#[test]
fn tab_strip_shows_all_three_tab_titles() {
    let titles: Vec<&str> = Tab::ALL.iter().map(|t| t.title()).collect();
    assert!(titles.contains(&"Overview"));
    assert!(titles.contains(&"ARC"));
    assert!(titles.contains(&"Pools"));
}

#[test]
fn footer_on_overview_shows_global_hints() {
    let last = footer(Tab::Overview, PoolsView::List { selected: 0 });
    assert!(last.contains('q'));
    assert!(last.contains("1/2/3"));
    assert!(last.contains('r'));
    assert!(!last.contains("enter"));
    assert!(!last.contains("esc"));
}

#[test]
fn footer_on_arc_shows_global_hints() {
    let last = footer(Tab::Arc, PoolsView::List { selected: 0 });
    assert!(last.contains('q'));
    assert!(last.contains("1/2/3"));
    assert!(last.contains('r'));
    assert!(!last.contains("enter"));
}

#[test]
fn footer_on_pools_list_shows_selection_keys() {
    let last = footer(Tab::Pools, PoolsView::List { selected: 0 });
    assert!(last.contains("select"), "footer = {last:?}");
    assert!(last.contains("enter"), "footer = {last:?}");
    assert!(last.contains("details"), "footer = {last:?}");
}

#[test]
fn footer_on_pools_detail_shows_esc_back() {
    let last = footer(Tab::Pools, PoolsView::Detail { pool_index: 0 });
    assert!(last.contains("esc"), "footer = {last:?}");
    assert!(last.contains("back"), "footer = {last:?}");
}

#[test]
fn overview_shows_libzfs_unavailable_on_init_error() {
    let (text, tone) = pools_notice(&Some("init failed".to_string()), 0).expect("notice");
    assert!(text.contains("libzfs unavailable"), "missing libzfs-unavailable notice");
    assert_eq!(tone, Tone::Bad);
}

#[test]
fn overview_shows_no_pools_when_snapshot_empty() {
    let (text, _tone) = pools_notice(&None, 0).expect("notice");
    assert!(text.contains("no pools imported"), "missing no-pools notice: {text}");
}

#[test]
fn empty_snapshot_shows_notice() {
    let (text, tone) = pools_notice(&None, 0).expect("notice");
    assert!(text.contains("no pools imported"), "missing no-pools notice");
    assert_eq!(tone, Tone::Muted);
}

#[test]
fn pools_list_libzfs_unavailable_shows_init_error() {
    let (text, _tone) = pools_notice(&Some("init failed at /dev/zfs".to_string()), 0).expect("notice");
    assert!(text.contains("libzfs unavailable"), "missing libzfs-unavailable notice");
    assert!(text.ends_with("init failed at /dev/zfs"));
}

#[test]
fn overview_renders_degraded_pool_health_label() {
    let out: Vec<String> = [PoolHealth::Online, PoolHealth::Degraded].iter().map(|h| pool_health_label(*h)).collect();
    assert!(out.join(" ").contains("DEGRADED"), "missing DEGRADED label");
}

#[test]
fn detail_shows_active_scrub_progress() {
    let scrub = ScrubState::InProgress {
        progress_pct: 42,
        eta_seconds: Some(1800),
        speed_bytes_per_sec: Some(100 * 1024 * 1024),
        is_resilver: false,
    };
    let out = format_scrub_header(&scrub, NOW);
    assert!(out.contains("Scrub: 42% complete"), "missing scrub progress: {out:?}");
    assert!(out.contains("ETA 30m00s"), "missing ETA in scrub line: {out:?}");
    assert_eq!(out, "Scrub: 42% complete, ETA 30m00s, 100.0 MiB/s");
}

#[test]
fn detail_shows_finished_scrub_summary() {
    let scrub = ScrubState::Finished { completed_at: NOW - 3 * 86_400, errors_repaired: 0 };
    let out = format_scrub_header(&scrub, NOW);
    assert!(out.contains("Last scrub:"), "missing finished-scrub summary: {out:?}");
}

#[test]
fn device_path_truncates_with_ellipsis_when_overflowing() {
    let long_path = "/dev/disk/by-id/wwn-0x500abc123def4567890aaabbbccc1234567890dddeeefff";
    let out = truncate_left_with_ellipsis(long_path, 30);
    assert!(out.contains('…'), "expected leading ellipsis on truncated path: {out:?}");
    assert!(out.contains("dddeeefff") || out.contains("eeefff"), "expected trailing characters of long path: {out:?}");
    assert_eq!(out.chars().count(), 30);
}

fn leaf(name: &str, errors: ErrorCounts) -> VdevNode {
    VdevNode {
        name: name.into(),
        kind: VdevKind::Disk,
        state: VdevState::Online,
        size_bytes: Some(8 * 1024 * 1024 * 1024),
        errors,
        children: vec![],
    }
}

#[test]
fn rwc_columns_color_red_when_nonzero() {
    assert_eq!(error_tone(5), Tone::Bad);
    assert_eq!(error_tone(0), Tone::Plain);
    let sda = leaf("sda", ErrorCounts { read: 5, write: 0, checksum: 0 });
    let cells = vdev_row_cells(&sda, 2, true);
    assert_eq!(cells.counters.len(), 3);
    assert_eq!(cells.counters[0], ("5     ".to_string(), Tone::Bad));
    assert_eq!(cells.counters[1], ("0     ".to_string(), Tone::Plain));
    assert_eq!(cells.counters[2], ("0     ".to_string(), Tone::Plain));
}

#[test]
fn group_header_rows_blank_size_and_errors() {
    let log_vdev = VdevNode {
        name: "nvme0n1p1".into(),
        kind: VdevKind::LogVdev,
        state: VdevState::Online,
        size_bytes: Some(8 * 1024 * 1024 * 1024),
        errors: ErrorCounts::default(),
        children: vec![],
    };
    let log_group = VdevNode {
        name: "logs".into(),
        kind: VdevKind::LogGroup,
        state: VdevState::Online,
        size_bytes: None,
        errors: ErrorCounts::default(),
        children: vec![log_vdev],
    };
    let cells = vdev_row_cells(&log_group, 1, true);
    let line = format!("{}{}{}{}{}", cells.indent, cells.name, cells.state, cells.kind, cells.size);
    assert!(line.contains("logs"));
    assert!(!line.contains(" GiB ") && !line.contains(" TiB "), "logs group row should have blank SIZE: {line:?}");
    assert_eq!(cells.state, " ".repeat(10));
    assert_eq!(cells.size, " ".repeat(8));
    assert!(cells.counters.iter().all(|(t, _)| t.trim().is_empty()));
    let child = vdev_row_cells(&log_group.children[0], 2, false);
    assert_eq!(child.size, "8.0 GiB ");
    assert_eq!(child.kind, "log     ");
    assert_eq!(child.counters, vec![("0     ".to_string(), Tone::Plain)]);
}

#[test]
fn vdev_row_cells_fit_the_name_slot() {
    let node = leaf("wwn-0x500abcdef0123456", ErrorCounts { read: 1, write: 2, checksum: 3 });
    let cells = vdev_row_cells(&node, 2, false);
    assert_eq!(cells.indent, "    ");
    assert_eq!(cells.name, "wwn-0x500a");
    assert_eq!(cells.state, "ONLINE    ");
    assert_eq!(cells.state_tone, Tone::Good);
    assert_eq!(cells.counters, vec![("6     ".to_string(), Tone::Bad)]);
    assert_eq!(vdev_row_cells(&node, 7, true).name, "");
}
