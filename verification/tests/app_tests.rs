use zfstop::app::{ram_used_total, App, KeyAction, KeyCode, KeyEvent, MouseEventKind, PoolsView, Tab};
use zfstop::arcstats::ArcStats;
use zfstop::meminfo::{MemSnapshot, MemSource, RamSegment, SegmentColor};
use zfstop::pools::{
    collect_pools, ErrorCounts, PoolHealth, PoolInfo, PoolsSource, ScrubState, VdevKind, VdevNode, VdevState,
};

fn sample_stats() -> ArcStats {
    ArcStats {
        hits: 9000,
        iohits: 100,
        misses: 1000,
        demand_data_hits: 5000,
        demand_data_iohits: 50,
        demand_data_misses: 500,
        demand_metadata_hits: 3000,
        demand_metadata_iohits: 30,
        demand_metadata_misses: 300,
        prefetch_data_hits: 800,
        prefetch_data_iohits: 15,
        prefetch_data_misses: 150,
        prefetch_metadata_hits: 200,
        prefetch_metadata_iohits: 5,
        prefetch_metadata_misses: 50,
        size: 10 * 1024 * 1024 * 1024,
        c: 16 * 1024 * 1024 * 1024,
        c_min: 1024 * 1024 * 1024,
        c_max: 16 * 1024 * 1024 * 1024,
        data_size: 6 * 1024 * 1024 * 1024,
        metadata_size: 1024 * 1024 * 1024,
        anon_size: 512 * 1024 * 1024,
        overhead_size: 256 * 1024 * 1024,
        hdr_size: 64 * 1024 * 1024,
        dbuf_size: 96 * 1024 * 1024,
        dnode_size: 128 * 1024 * 1024,
        bonus_size: 64 * 1024 * 1024,
        mru_size: 3 * 1024 * 1024 * 1024,
        mru_data: 2 * 1024 * 1024 * 1024,
        mru_metadata: 1024 * 1024 * 1024,
        mfu_size: 4 * 1024 * 1024 * 1024,
        mfu_data: 3 * 1024 * 1024 * 1024,
        mfu_metadata: 1024 * 1024 * 1024,
        compressed_size: 5 * 1024 * 1024 * 1024,
        uncompressed_size: 8 * 1024 * 1024 * 1024,
        memory_all_bytes: 32 * 1024 * 1024 * 1024,
        memory_free_bytes: 8 * 1024 * 1024 * 1024,
        memory_available_bytes: 12 * 1024 * 1024 * 1024,
        arc_meta_used: 2 * 1024 * 1024 * 1024,
    }
}

/// An app with no live sources, for the derived-metric tests.
fn app_with(current: ArcStats, previous: Option<ArcStats>) -> App {
    App {
        current,
        previous,
        mem_snapshot: None,
        should_quit: false,
        current_tab: Tab::Overview,
        pools_snapshot: Vec::new(),
        pools_refresh_error: None,
        pools_init_error: None,
        pools_view: PoolsView::List { selected: 0 },
    }
}

/// Echoes the ARC segments it is given as the snapshot's segments, so a
/// test sees exactly what the app passed to `MemSource::snapshot`.
struct EchoMemSource;

impl MemSource for EchoMemSource {
    fn refresh(&mut self) -> Result<(), String> {
        Ok(())
    }

    fn snapshot(&self, arc_segments: &[RamSegment]) -> Option<MemSnapshot> {
        Some(MemSnapshot {
            total_bytes: 100 * 1024 * 1024 * 1024,
            segments: arc_segments.to_vec(),
        })
    }
}

/// Pools source over a fixed list, with an optional error for the next
/// refresh (a transient libzfs failure).
#[derive(Default)]
struct FakePoolsSource {
    pools: Vec<PoolInfo>,
    next_refresh_error: Option<String>,
}

impl FakePoolsSource {
    fn new(pools: Vec<PoolInfo>) -> Self {
        Self { pools, next_refresh_error: None }
    }

    fn fail_next_refresh(mut self, msg: &str) -> Self {
        self.next_refresh_error = Some(msg.to_string());
        self
    }
}

impl PoolsSource for FakePoolsSource {
    fn refresh(&mut self) -> Result<(), String> {
        if let Some(msg) = self.next_refresh_error.take() {
            return Err(msg);
        }
        Ok(())
    }

    fn pools(&self) -> Vec<PoolInfo> {
        self.pools.clone()
    }
}

fn key(code: KeyCode) -> KeyEvent {
    KeyEvent::new(code)
}

fn test_pool(name: &str, health: PoolHealth, size: u64, alloc: u64) -> PoolInfo {
    PoolInfo {
        name: name.into(),
        health,
        allocated_bytes: alloc,
        size_bytes: size,
        free_bytes: size.saturating_sub(alloc),
        fragmentation_pct: Some(10),
        scrub: ScrubState::Never,
        errors: ErrorCounts::default(),
        root_vdev: VdevNode {
            name: name.into(),
            kind: VdevKind::Root,
            state: VdevState::Online,
            size_bytes: Some(size),
            errors: ErrorCounts::default(),
            children: vec![],
        },
    }
}

fn app_with_pools(pools: Vec<PoolInfo>) -> App {
    let mut app = app_with(sample_stats(), None);
    app.pools_snapshot = pools;
    app
}

#[test]
fn throughput_none_without_previous() {
    let app = app_with(sample_stats(), None);
    assert!(app.throughput_hits().is_none());
    assert!(app.throughput_misses().is_none());
}

#[test]
fn throughput_delta() {
    let mut prev = sample_stats();
    prev.hits = 8000;
    prev.misses = 900;
    let app = app_with(sample_stats(), Some(prev));
    assert_eq!(app.throughput_hits(), Some(1000));
    assert_eq!(app.throughput_misses(), Some(100));
}

#[test]
fn throughput_saturates_when_counters_reset() {
    let mut prev = sample_stats();
    prev.hits = 20_000;
    prev.iohits = 50;
    let app = app_with(sample_stats(), Some(prev));
    assert_eq!(app.throughput_hits(), Some(0));
    assert_eq!(app.throughput_iohits(), Some(50));
}

#[test]
fn tab_all_ordered_overview_pools_arc() {
    assert_eq!(&Tab::ALL, &[Tab::Overview, Tab::Pools, Tab::Arc]);
}

#[test]
fn tab_titles_stable() {
    assert_eq!(Tab::Overview.title(), "Overview");
    assert_eq!(Tab::Pools.title(), "Pools");
    assert_eq!(Tab::Arc.title(), "ARC");
}

#[test]
fn tab_hotkeys_match_position() {
    assert_eq!(Tab::Overview.hotkey(), '1');
    assert_eq!(Tab::Pools.hotkey(), '2');
    assert_eq!(Tab::Arc.hotkey(), '3');
}

#[test]
fn cycle_tab_forward_wraps() {
    let mut app = app_with(sample_stats(), None);
    app.current_tab = Tab::Overview;
    app.cycle_tab(1);
    assert_eq!(app.current_tab, Tab::Pools);
    app.cycle_tab(1);
    assert_eq!(app.current_tab, Tab::Arc);
    app.cycle_tab(1);
    assert_eq!(app.current_tab, Tab::Overview);
}

#[test]
fn cycle_tab_back_wraps() {
    let mut app = app_with(sample_stats(), None);
    app.current_tab = Tab::Overview;
    app.cycle_tab(-1);
    assert_eq!(app.current_tab, Tab::Arc);
    app.cycle_tab(-1);
    assert_eq!(app.current_tab, Tab::Pools);
    app.cycle_tab(-1);
    assert_eq!(app.current_tab, Tab::Overview);
}

#[test]
fn cycle_tab_large_steps_wrap() {
    let mut app = app_with(sample_stats(), None);
    app.current_tab = Tab::Pools;
    app.cycle_tab(7);
    assert_eq!(app.current_tab, Tab::Arc);
    app.cycle_tab(-5);
    assert_eq!(app.current_tab, Tab::Overview);
    app.cycle_tab(i32::MIN);
    assert_eq!(app.current_tab, Tab::Pools);
}

#[test]
fn hotkey_1_switches_to_overview() {
    let mut app = app_with(sample_stats(), None);
    app.current_tab = Tab::Arc;
    app.on_key(key(KeyCode::Char('1')));
    assert_eq!(app.current_tab, Tab::Overview);
}

#[test]
fn hotkey_2_switches_to_pools() {
    let mut app = app_with(sample_stats(), None);
    app.current_tab = Tab::Overview;
    app.on_key(key(KeyCode::Char('2')));
    assert_eq!(app.current_tab, Tab::Pools);
}

#[test]
fn hotkey_3_switches_to_arc() {
    let mut app = app_with(sample_stats(), None);
    app.current_tab = Tab::Overview;
    app.on_key(key(KeyCode::Char('3')));
    assert_eq!(app.current_tab, Tab::Arc);
}

#[test]
fn tab_key_cycles_forward() {
    let mut app = app_with(sample_stats(), None);
    app.current_tab = Tab::Overview;
    app.on_key(key(KeyCode::Tab));
    assert_eq!(app.current_tab, Tab::Pools);
}

#[test]
fn back_tab_cycles_backward() {
    let mut app = app_with(sample_stats(), None);
    app.current_tab = Tab::Overview;
    app.on_key(key(KeyCode::BackTab));
    assert_eq!(app.current_tab, Tab::Arc);
}

#[test]
fn q_still_quits() {
    let mut app = app_with(sample_stats(), None);
    app.on_key(key(KeyCode::Char('q')));
    assert!(app.should_quit);
}

#[test]
fn ctrl_c_still_quits() {
    let mut app = app_with(sample_stats(), None);
    app.on_key(KeyEvent { code: KeyCode::Char('c'), control: true });
    assert!(app.should_quit);
}

#[test]
fn plain_c_does_not_quit() {
    let mut app = app_with(sample_stats(), None);
    app.on_key(key(KeyCode::Char('c')));
    assert!(!app.should_quit);
}

#[test]
fn r_asks_for_a_refresh() {
    let mut app = app_with(sample_stats(), None);
    assert_eq!(app.on_key(key(KeyCode::Char('r'))), KeyAction::Refresh);
    assert_eq!(app.on_key(key(KeyCode::Char('x'))), KeyAction::NoOp);
    assert!(!app.should_quit);
}

#[test]
fn refresh_pools_populates_snapshot_from_source() {
    let pools = vec![test_pool("tank", PoolHealth::Online, 1_000, 500)];
    let mut app = app_with(sample_stats(), None);
    let mut source = Some(FakePoolsSource::new(pools.clone()));
    app.refresh_pools(&mut source);
    assert_eq!(app.pools_snapshot.len(), 1);
    assert_eq!(app.pools_snapshot[0].name, "tank");
    assert!(app.pools_refresh_error.is_none());
}

#[test]
fn refresh_pools_error_preserves_stale_snapshot() {
    let initial = vec![test_pool("tank", PoolHealth::Online, 1_000, 500)];
    let mut app = app_with_pools(initial);
    let mut source = Some(FakePoolsSource::new(vec![]).fail_next_refresh("transient libzfs fail"));
    app.refresh_pools(&mut source);
    assert!(app.pools_refresh_error.is_some());
    assert_eq!(app.pools_snapshot.len(), 1, "snapshot should be preserved");
}

#[test]
fn refresh_pools_without_source_changes_nothing() {
    let mut app = app_with_pools(vec![test_pool("tank", PoolHealth::Online, 1_000, 500)]);
    app.refresh_pools(&mut None::<FakePoolsSource>);
    assert_eq!(app.pools_snapshot.len(), 1);
    assert!(app.pools_refresh_error.is_none());
}

#[test]
fn pools_degraded_count_sums_non_online() {
    let app = app_with_pools(vec![
        test_pool("a", PoolHealth::Online, 100, 50),
        test_pool("b", PoolHealth::Degraded, 100, 50),
        test_pool("c", PoolHealth::Faulted, 100, 50),
    ]);
    assert_eq!(app.pools_degraded_count(), 2);
}

#[test]
fn pools_totals_sum_correctly() {
    let app = app_with_pools(vec![
        test_pool("a", PoolHealth::Online, 1000, 400),
        test_pool("b", PoolHealth::Online, 2000, 800),
    ]);
    assert_eq!(app.pools_total_capacity(), 3000);
    assert_eq!(app.pools_total_allocated(), 1200);
}

#[test]
fn selection_clamps_when_pools_shrink() {
    let mut app = app_with_pools(vec![
        test_pool("a", PoolHealth::Online, 100, 50),
        test_pool("b", PoolHealth::Online, 100, 50),
        test_pool("c", PoolHealth::Online, 100, 50),
    ]);
    app.pools_view = PoolsView::List { selected: 2 };
    let mut source = Some(FakePoolsSource::new(vec![test_pool("a", PoolHealth::Online, 100, 50)]));
    app.refresh_pools(&mut source);
    assert_eq!(app.pools_view, PoolsView::List { selected: 0 });
}

#[test]
fn selection_resets_when_pools_vanish() {
    let mut app = app_with_pools(vec![test_pool("a", PoolHealth::Online, 100, 50)]);
    app.pools_view = PoolsView::List { selected: 0 };
    app.apply_pools_refresh(Ok(vec![]));
    assert_eq!(app.pools_view, PoolsView::List { selected: 0 });
    app.pools_view = PoolsView::Detail { pool_index: 0 };
    app.apply_pools_refresh(Ok(vec![]));
    assert_eq!(app.pools_view, PoolsView::List { selected: 0 });
}

#[test]
fn pools_down_advances_selection() {
    let mut app = app_with_pools(vec![
        test_pool("a", PoolHealth::Online, 100, 50),
        test_pool("b", PoolHealth::Online, 100, 50),
        test_pool("c", PoolHealth::Online, 100, 50),
    ]);
    app.current_tab = Tab::Pools;
    app.on_key(key(KeyCode::Down));
    assert_eq!(app.pools_view, PoolsView::List { selected: 1 });
    app.on_key(key(KeyCode::Char('j')));
    assert_eq!(app.pools_view, PoolsView::List { selected: 2 });
}

#[test]
fn pools_down_clamps_at_last() {
    let mut app = app_with_pools(vec![
        test_pool("a", PoolHealth::Online, 100, 50),
        test_pool("b", PoolHealth::Online, 100, 50),
    ]);
    app.current_tab = Tab::Pools;
    app.pools_view = PoolsView::List { selected: 1 };
    app.on_key(key(KeyCode::Down));
    assert_eq!(app.pools_view, PoolsView::List { selected: 1 });
}

#[test]
fn pools_up_at_first_is_noop() {
    let mut app = app_with_pools(vec![
        test_pool("a", PoolHealth::Online, 100, 50),
        test_pool("b", PoolHealth::Online, 100, 50),
    ]);
    app.current_tab = Tab::Pools;
    app.on_key(key(KeyCode::Up));
    assert_eq!(app.pools_view, PoolsView::List { selected: 0 });
    app.pools_view = PoolsView::List { selected: 1 };
    app.on_key(key(KeyCode::Char('k')));
    assert_eq!(app.pools_view, PoolsView::List { selected: 0 });
}

#[test]
fn pools_home_end_jump() {
    let mut app = app_with_pools(vec![
        test_pool("a", PoolHealth::Online, 100, 50),
        test_pool("b", PoolHealth::Online, 100, 50),
        test_pool("c", PoolHealth::Online, 100, 50),
    ]);
    app.current_tab = Tab::Pools;
    app.on_key(key(KeyCode::End));
    assert_eq!(app.pools_view, PoolsView::List { selected: 2 });
    app.on_key(key(KeyCode::Home));
    assert_eq!(app.pools_view, PoolsView::List { selected: 0 });
}

#[test]
fn pools_enter_drills_into_detail() {
    let mut app = app_with_pools(vec![
        test_pool("a", PoolHealth::Online, 100, 50),
        test_pool("b", PoolHealth::Online, 100, 50),
    ]);
    app.current_tab = Tab::Pools;
    app.pools_view = PoolsView::List { selected: 1 };
    app.on_key(key(KeyCode::Enter));
    assert_eq!(app.pools_view, PoolsView::Detail { pool_index: 1 });
}

#[test]
fn pools_enter_with_empty_list_is_noop() {
    let mut app = app_with_pools(vec![]);
    app.current_tab = Tab::Pools;
    app.on_key(key(KeyCode::Enter));
    assert!(matches!(app.pools_view, PoolsView::List { .. }));
}

#[test]
fn leaving_pools_while_in_detail_collapses_to_list_via_overview_key() {
    let mut app = app_with_pools(vec![
        test_pool("a", PoolHealth::Online, 100, 50),
        test_pool("b", PoolHealth::Online, 100, 50),
        test_pool("c", PoolHealth::Online, 100, 50),
    ]);
    app.current_tab = Tab::Pools;
    app.pools_view = PoolsView::Detail { pool_index: 2 };
    app.on_key(key(KeyCode::Char('1')));
    assert_eq!(app.current_tab, Tab::Overview);
    assert_eq!(
        app.pools_view,
        PoolsView::List { selected: 2 },
        "leaving Pools via '1' should have collapsed Detail to List"
    );
}

#[test]
fn leaving_pools_while_in_detail_collapses_to_list_via_arc_key() {
    let mut app = app_with_pools(vec![
        test_pool("a", PoolHealth::Online, 100, 50),
        test_pool("b", PoolHealth::Online, 100, 50),
    ]);
    app.current_tab = Tab::Pools;
    app.pools_view = PoolsView::Detail { pool_index: 1 };
    app.on_key(key(KeyCode::Char('3')));
    assert_eq!(app.current_tab, Tab::Arc);
    assert_eq!(app.pools_view, PoolsView::List { selected: 1 });
}

#[test]
fn leaving_pools_while_in_detail_collapses_to_list_via_tab_key() {
    let mut app = app_with_pools(vec![
        test_pool("a", PoolHealth::Online, 100, 50),
        test_pool("b", PoolHealth::Online, 100, 50),
    ]);
    app.current_tab = Tab::Pools;
    app.pools_view = PoolsView::Detail { pool_index: 0 };
    app.on_key(key(KeyCode::Tab));
    assert_eq!(app.current_tab, Tab::Arc);
    assert_eq!(app.pools_view, PoolsView::List { selected: 0 });
}

#[test]
fn leaving_pools_while_in_detail_collapses_to_list_via_backtab_key() {
    let mut app = app_with_pools(vec![
        test_pool("a", PoolHealth::Online, 100, 50),
        test_pool("b", PoolHealth::Online, 100, 50),
    ]);
    app.current_tab = Tab::Pools;
    app.pools_view = PoolsView::Detail { pool_index: 1 };
    app.on_key(key(KeyCode::BackTab));
    assert_eq!(app.current_tab, Tab::Overview);
    assert_eq!(app.pools_view, PoolsView::List { selected: 1 });
}

#[test]
fn pressing_pools_key_while_already_on_pools_preserves_detail() {
    let mut app = app_with_pools(vec![
        test_pool("a", PoolHealth::Online, 100, 50),
        test_pool("b", PoolHealth::Online, 100, 50),
    ]);
    app.current_tab = Tab::Pools;
    app.pools_view = PoolsView::Detail { pool_index: 1 };
    app.on_key(key(KeyCode::Char('2')));
    assert_eq!(app.current_tab, Tab::Pools);
    assert_eq!(
        app.pools_view,
        PoolsView::Detail { pool_index: 1 },
        "no-op tab switch should not disturb the sub-view"
    );
}

#[test]
fn pools_detail_round_trip_ends_on_list() {
    let mut app = app_with_pools(vec![
        test_pool("a", PoolHealth::Online, 100, 50),
        test_pool("b", PoolHealth::Online, 100, 50),
        test_pool("c", PoolHealth::Online, 100, 50),
    ]);
    app.current_tab = Tab::Pools;
    app.pools_view = PoolsView::List { selected: 2 };
    app.on_key(key(KeyCode::Enter));
    assert_eq!(app.pools_view, PoolsView::Detail { pool_index: 2 });
    app.on_key(key(KeyCode::Char('1')));
    assert_eq!(app.current_tab, Tab::Overview);
    app.on_key(key(KeyCode::Char('2')));
    assert_eq!(app.current_tab, Tab::Pools);
    assert_eq!(
        app.pools_view,
        PoolsView::List { selected: 2 },
        "returning to Pools after a drill-in + tab-out should land on the list"
    );
}

#[test]
fn pools_esc_returns_to_list_with_same_index() {
    let mut app = app_with_pools(vec![
        test_pool("a", PoolHealth::Online, 100, 50),
        test_pool("b", PoolHealth::Online, 100, 50),
    ]);
    app.current_tab = Tab::Pools;
    app.pools_view = PoolsView::Detail { pool_index: 1 };
    app.on_key(key(KeyCode::Esc));
    assert_eq!(app.pools_view, PoolsView::List { selected: 1 });
    app.pools_view = PoolsView::Detail { pool_index: 0 };
    app.on_key(key(KeyCode::Backspace));
    assert_eq!(app.pools_view, PoolsView::List { selected: 0 });
}

#[test]
fn pools_keys_ignored_when_not_on_pools_tab() {
    let mut app = app_with_pools(vec![
        test_pool("a", PoolHealth::Online, 100, 50),
        test_pool("b", PoolHealth::Online, 100, 50),
    ]);
    app.current_tab = Tab::Overview;
    app.on_key(key(KeyCode::Down));
    assert_eq!(app.pools_view, PoolsView::List { selected: 0 });
}

#[test]
fn detail_view_drops_to_list_when_pool_vanishes() {
    let mut app = app_with_pools(vec![
        test_pool("a", PoolHealth::Online, 100, 50),
        test_pool("b", PoolHealth::Online, 100, 50),
    ]);
    app.pools_view = PoolsView::Detail { pool_index: 1 };
    let mut source = Some(FakePoolsSource::new(vec![test_pool("a", PoolHealth::Online, 100, 50)]));
    app.refresh_pools(&mut source);
    assert!(matches!(app.pools_view, PoolsView::List { selected: 0 }));
}

#[test]
fn scroll_wheel_moves_selection_within_bounds() {
    let mut app = app_with_pools(vec![
        test_pool("a", PoolHealth::Online, 100, 50),
        test_pool("b", PoolHealth::Online, 100, 50),
    ]);
    app.current_tab = Tab::Pools;
    app.on_mouse(MouseEventKind::ScrollDown);
    assert_eq!(app.pools_view, PoolsView::List { selected: 1 });
    app.on_mouse(MouseEventKind::ScrollDown);
    assert_eq!(app.pools_view, PoolsView::List { selected: 1 });
    app.on_mouse(MouseEventKind::ScrollUp);
    app.on_mouse(MouseEventKind::ScrollUp);
    assert_eq!(app.pools_view, PoolsView::List { selected: 0 });
    app.current_tab = Tab::Arc;
    app.on_mouse(MouseEventKind::ScrollDown);
    assert_eq!(app.pools_view, PoolsView::List { selected: 0 });
}

#[test]
fn app_passes_two_arc_segments_size_and_overhead() {
    let stats = sample_stats();
    let mem = Some(EchoMemSource);
    let app = App::new(sample_stats(), &mem, &mut None::<FakePoolsSource>, None);
    let snap = app.mem_snapshot.expect("snapshot should be present");

    assert_eq!(
        snap.segments.len(),
        2,
        "App should pass two ARC sub-segments (size + overhead_size)"
    );

    assert_eq!(snap.segments[0].label, "ARC");
    assert_eq!(snap.segments[0].bytes, stats.size);
    assert_eq!(snap.segments[0].color, SegmentColor::Indexed(171));

    assert_eq!(snap.segments[1].label, "ARC ovh");
    assert_eq!(snap.segments[1].bytes, stats.overhead_size);
    assert_eq!(snap.segments[1].color, SegmentColor::Magenta);

    assert_ne!(
        snap.segments[0].color, snap.segments[1].color,
        "ARC and ARC ovh must use visually distinct colours"
    );
}

#[test]
fn new_ticks_pools_source_once() {
    let mut source = Some(FakePoolsSource::new(vec![
        test_pool("a", PoolHealth::Online, 100, 50),
        test_pool("b", PoolHealth::Degraded, 100, 50),
    ]));
    let app = App::new(sample_stats(), &None::<EchoMemSource>, &mut source, None);
    assert_eq!(app.pools_snapshot.len(), 2);
    assert_eq!(app.current_tab, Tab::Overview);
    assert!(app.previous.is_none());
    assert!(app.mem_snapshot.is_none());
}

#[test]
fn refresh_keeps_previous_snapshot_for_rates() {
    let mut app = app_with(sample_stats(), None);
    let mut next = sample_stats();
    next.hits += 500;
    next.misses += 7;
    let mut mem = Some(EchoMemSource);
    app.refresh(next, &mut mem, &mut None::<FakePoolsSource>);
    assert_eq!(app.throughput_hits(), Some(500));
    assert_eq!(app.throughput_misses(), Some(7));
    let (total, segs) = app.ram_segments().expect("memory snapshot");
    assert_eq!(total, 100 * 1024 * 1024 * 1024);
    assert_eq!(segs.len(), 2);
}

#[test]
fn breakdown_has_expected_categories() {
    let app = app_with(sample_stats(), None);
    let rows = app.arc_breakdown();
    let labels: Vec<&str> = rows.iter().map(|r| r.label).collect();
    assert!(labels.contains(&"MFU data"));
    assert!(labels.contains(&"MRU data"));
    assert!(labels.contains(&"Anon"));
    assert!(labels.contains(&"Headers"));
    assert_eq!(
        labels,
        vec!["MFU data", "MFU meta", "MRU data", "MRU meta", "Anon", "Headers", "Dbuf", "Dnode", "Bonus"]
    );
    let s = sample_stats();
    assert_eq!(rows[0].bytes, s.mfu_data);
    assert_eq!(rows[4].bytes, s.anon_size);
    assert_eq!(rows[8].bytes, s.bonus_size);
}

#[test]
fn collect_pools_skips_pools_that_failed_to_build() {
    let built = vec![
        Ok(test_pool("a", PoolHealth::Online, 100, 50)),
        Err("zpool_get_config returned null for 'b'".to_string()),
        Ok(test_pool("c", PoolHealth::Degraded, 200, 20)),
    ];
    let pools = collect_pools(built);
    let names: Vec<&str> = pools.iter().map(|p| p.name.as_str()).collect();
    assert_eq!(names, vec!["a", "c"]);
    assert!(collect_pools(vec![Err("x".to_string())]).is_empty());
}

#[test]
fn on_key_pools_enter_then_backspace_returns_to_the_row() {
    let mut app = app_with_pools(vec![
        test_pool("a", PoolHealth::Online, 100, 50),
        test_pool("b", PoolHealth::Online, 100, 50),
    ]);
    app.pools_view = PoolsView::List { selected: 1 };
    app.on_key_pools(key(KeyCode::Enter));
    assert_eq!(app.pools_view, PoolsView::Detail { pool_index: 1 });
    app.on_key_pools(key(KeyCode::Char('j')));
    assert_eq!(app.pools_view, PoolsView::Detail { pool_index: 1 });
    app.on_key_pools(key(KeyCode::Backspace));
    assert_eq!(app.pools_view, PoolsView::List { selected: 1 });
    app.on_key_pools(key(KeyCode::Char('k')));
    app.on_key_pools(key(KeyCode::Char('k')));
    assert_eq!(app.pools_view, PoolsView::List { selected: 0 });
}

#[test]
fn scroll_clamps_a_selection_past_the_end() {
    let mut app = app_with_pools(vec![
        test_pool("a", PoolHealth::Online, 100, 50),
        test_pool("b", PoolHealth::Online, 100, 50),
    ]);
    app.current_tab = Tab::Pools;
    app.pools_view = PoolsView::List { selected: 7 };
    app.on_mouse(MouseEventKind::ScrollUp);
    assert_eq!(app.pools_view, PoolsView::List { selected: 1 });
    app.pools_view = PoolsView::List { selected: usize::MAX };
    app.on_mouse(MouseEventKind::ScrollDown);
    assert_eq!(app.pools_view, PoolsView::List { selected: 1 });
}

#[test]
fn ram_used_total_sums_segments_and_reports_overflow() {
    let segs = vec![
        RamSegment { label: "Apps", color: SegmentColor::Green, bytes: 1000 },
        RamSegment { label: "ARC", color: SegmentColor::Magenta, bytes: 250 },
    ];
    assert_eq!(ram_used_total(&segs), Some(1250));
    assert_eq!(ram_used_total(&[]), Some(0));
    let huge = vec![
        RamSegment { label: "A", color: SegmentColor::Green, bytes: u64::MAX },
        RamSegment { label: "B", color: SegmentColor::Green, bytes: 1 },
    ];
    assert_eq!(ram_used_total(&huge), None);
}

#[test]
fn arc_headroom_is_cmax_minus_size_or_zero() {
    let mut stats = sample_stats();
    stats.c_max = 1000;
    stats.size = 400;
    assert_eq!(app_with(stats, None).arc_headroom(), 600);
    stats.size = 1500;
    assert_eq!(app_with(stats, None).arc_headroom(), 0);
}

#[test]
fn failed_pools_refresh_keeps_snapshot_and_records_the_source_message() {
    let mut app = app_with_pools(vec![test_pool("tank", PoolHealth::Online, 1_000, 500)]);
    let mut source = Some(FakePoolsSource::new(vec![]).fail_next_refresh("zpool_iter returned 1"));
    app.refresh_pools(&mut source);
    assert_eq!(app.pools_refresh_error.as_deref(), Some("zpool_iter returned 1"));
    assert_eq!(app.pools_snapshot.len(), 1);
    app.refresh_pools(&mut source);
    assert!(app.pools_refresh_error.is_none());
    assert!(app.pools_snapshot.is_empty());
}
