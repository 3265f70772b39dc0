//! App state and the navigation state machine. The event loop lives with
//! the terminal front end: it reads the counters, polls the keyboard and
//! hands the results to the methods here, which decide what changes.

use vstd::prelude::*;
use crate::arcstats::ArcStats;
use crate::meminfo::{MemSnapshot, MemSource, RamSegment, SegmentColor};
use crate::meminfo::freebsd::{lemma_segments_total_prefix, segments_total};
use crate::pools::{PoolHealth, PoolInfo, PoolsSource};

verus! {

/// Top-level navigation tab.
#[derive(Copy, Clone, Debug, PartialEq, Eq, Structural)]
pub enum Tab {
    Overview,
    Arc,
    Pools,
}

/// State of the Pools tab: the list with a selected row, or the detail
/// view of one pool (by index into the snapshot).
#[derive(Copy, Clone, Debug, PartialEq, Eq, Structural)]
pub enum PoolsView {
    List { selected: usize },
    Detail { pool_index: usize },
}

impl Tab {
    /// Order of the tabs on screen, left to right; also the order in which
    /// `App::cycle_tab` moves through them.
    pub const ALL: [Tab; 3] = [Tab::Overview, Tab::Pools, Tab::Arc];

    /// Position of the tab in `ALL`.
    pub open spec fn index(self) -> int {
        match self {
            Tab::Overview => 0,
            Tab::Pools => 1,
            Tab::Arc => 2,
        }
    }

    /// The tab at position `i` (taken modulo 3) of `ALL`.
    pub open spec fn at(i: int) -> Tab {
        let k = i % 3;
        if k == 0 {
            Tab::Overview
        } else if k == 1 {
            Tab::Pools
        } else {
            Tab::Arc
        }
    }

    pub open spec fn spec_title(self) -> Seq<char> {
        match self {
            Tab::Overview => "Overview"@,
            Tab::Pools => "Pools"@,
            Tab::Arc => "ARC"@,
        }
    }

    pub open spec fn spec_hotkey(self) -> char {
        match self {
            Tab::Overview => '1',
            Tab::Pools => '2',
            Tab::Arc => '3',
        }
    }

    pub fn title(&self) -> (r: &'static str)
        ensures
            r@ == self.spec_title(),
    {
        match self {
            Tab::Overview => "Overview",
            Tab::Pools => "Pools",
            Tab::Arc => "ARC",
        }
    }

    /// The key bound to this tab, shown next to its label in the tab strip.
    pub fn hotkey(&self) -> (c: char)
        ensures
            c == self.spec_hotkey(),
    {
        match self {
            Tab::Overview => '1',
            Tab::Pools => '2',
            Tab::Arc => '3',
        }
    }
}

/// `ALL` lists every tab exactly once, at its `index`, and each tab's
/// hotkey is the digit of its 1-based position in the strip.
pub proof fn lemma_tab_order(t: Tab)
    ensures
        Tab::ALL@.len() == 3,
        Tab::ALL@[t.index()] == t,
        Tab::at(t.index()) == t,
        0 <= t.index() < 3,
        t.spec_hotkey() as int == '1' as int + t.index(),
{
}

/// Key codes the app reacts to; everything else is `Other`.
#[derive(Copy, Clone, Debug, PartialEq, Eq, Structural)]
pub enum KeyCode {
    Char(char),
    Tab,
    BackTab,
    Up,
    Down,
    Home,
    End,
    Enter,
    Esc,
    Backspace,
    Other,
}

/// A key press: the key and whether Control was held.
#[derive(Copy, Clone, Debug, PartialEq, Eq, Structural)]
pub struct KeyEvent {
    pub code: KeyCode,
    pub control: bool,
}

impl KeyEvent {
    /// A key pressed without modifiers.
    pub fn new(code: KeyCode) -> (k: KeyEvent)
        ensures
            k.code == code,
            !k.control,
    {
        KeyEvent { code, control: false }
    }

    /// Ctrl+Z: the user asks to suspend the process (job control). The
    /// event loop handles it before the key reaches `App::on_key`.
    pub fn is_suspend(&self) -> (b: bool)
        ensures
            b == (self.code == KeyCode::Char('z') && self.control),
    {
        match self.code {
            KeyCode::Char(c) => c == 'z' && self.control,
            _ => false,
        }
    }
}

/// Mouse events the app reacts to.
#[derive(Copy, Clone, Debug, PartialEq, Eq, Structural)]
pub enum MouseEventKind {
    ScrollDown,
    ScrollUp,
    Other,
}

/// Work a key asks of the event loop beyond the state change itself.
#[derive(Copy, Clone, Debug, PartialEq, Eq, Structural)]
pub enum KeyAction {
    /// Nothing beyond the state change.
    NoOp,
    /// Re-read every source now (`r`).
    Refresh,
}

/// Colour of the primary ARC segment of the RAM bar (xterm-256 #D75FFF).
pub open spec fn arc_size_color() -> SegmentColor {
    SegmentColor::Indexed(171)
}

/// Colour of the ARC overhead segment, next to the primary one: a darker
/// purple, so the extra footprint reads as part of the ARC.
pub open spec fn arc_overhead_color() -> SegmentColor {
    SegmentColor::Magenta
}

/// The two ARC segments of the RAM bar for a snapshot: `size` labelled
/// `ARC`, then `overhead_size` labelled `ARC ovh`.
pub open spec fn arc_segments_of(stats: ArcStats) -> Seq<RamSegment> {
    seq![
        RamSegment { label: "ARC", color: arc_size_color(), bytes: stats.size },
        RamSegment { label: "ARC ovh", color: arc_overhead_color(), bytes: stats.overhead_size },
    ]
}

/// The ARC segments the RAM bar renders; `App::new` and `App::refresh` both
/// use this, so the two cannot drift apart.
pub fn arc_segments(stats: &ArcStats) -> (r: Vec<RamSegment>)
    ensures
        r@ == arc_segments_of(*stats),
{
    let mut v: Vec<RamSegment> = Vec::new();
    v.push(RamSegment { label: "ARC", color: SegmentColor::Indexed(171), bytes: stats.size });
    v.push(
        RamSegment { label: "ARC ovh", color: SegmentColor::Magenta, bytes: stats.overhead_size },
    );
    assert(v@ =~= arc_segments_of(*stats));
    v
}

/// The view kept valid for a snapshot of `len` pools: a list selection is
/// clamped to the last row (0 when empty); a detail view of a pool that is
/// gone falls back to the list on the last row.
pub open spec fn clamped_view(view: PoolsView, len: nat) -> PoolsView {
    match view {
        PoolsView::List { selected } => PoolsView::List {
            selected: if len == 0 {
                0
            } else if selected >= len {
                (len - 1) as usize
            } else {
                selected
            },
        },
        PoolsView::Detail { pool_index } => if pool_index >= len {
            PoolsView::List {
                selected: if len == 0 {
                    0
                } else {
                    (len - 1) as usize
                },
            }
        } else {
            view
        },
    }
}

/// A view that points into a snapshot of `len` pools.
pub open spec fn view_fits(view: PoolsView, len: nat) -> bool {
    match view {
        PoolsView::List { selected } => if len == 0 {
            selected == 0
        } else {
            selected < len
        },
        PoolsView::Detail { pool_index } => pool_index < len,
    }
}

/// Clamping always yields a view that fits the snapshot, and leaves a
/// fitting view alone.
pub proof fn lemma_clamp_fits(view: PoolsView, len: nat)
    ensures
        view_fits(clamped_view(view, len), len),
        view_fits(view, len) ==> clamped_view(view, len) == view,
{
}

/// Tab and pools view after switching to `target`: leaving the Pools tab
/// while in a pool's detail collapses it to the list on that same pool; a
/// switch to the current tab changes nothing.
pub open spec fn switched(tab: Tab, view: PoolsView, target: Tab) -> (Tab, PoolsView) {
    if target == tab {
        (tab, view)
    } else if tab == Tab::Pools && view is Detail {
        (target, PoolsView::List { selected: view->pool_index })
    } else {
        (target, view)
    }
}

/// The tab `delta` steps from `tab` along `Tab::ALL`, wrapping both ways.
pub open spec fn cycled(tab: Tab, delta: int) -> Tab {
    Tab::at(tab.index() + delta)
}

/// Pools view after a key in the Pools tab, with `len` pools listed.
pub open spec fn pools_key(view: PoolsView, code: KeyCode, len: nat) -> PoolsView {
    match view {
        PoolsView::List { selected } => match code {
            KeyCode::Down | KeyCode::Char('j') => if selected + 1 < len {
                PoolsView::List { selected: (selected + 1) as usize }
            } else {
                view
            },
            KeyCode::Up | KeyCode::Char('k') => if selected > 0 {
                PoolsView::List { selected: (selected - 1) as usize }
            } else {
                view
            },
            KeyCode::Home => PoolsView::List { selected: 0 },
            KeyCode::End => PoolsView::List {
                selected: if len == 0 {
                    0
                } else {
                    (len - 1) as usize
                },
            },
            KeyCode::Enter => if len > 0 {
                PoolsView::Detail { pool_index: selected }
            } else {
                view
            },
            _ => view,
        },
        PoolsView::Detail { pool_index } => match code {
            KeyCode::Esc | KeyCode::Backspace => PoolsView::List { selected: pool_index },
            _ => view,
        },
    }
}

/// Effect of a key: `(should_quit, tab, pools view, action)` from the
/// current `should_quit`, tab and view, with `len` pools listed.
pub open spec fn key_effect(quit: bool, tab: Tab, view: PoolsView, len: nat, key: KeyEvent) -> (
    bool,
    Tab,
    PoolsView,
    KeyAction,
) {
    match key.code {
        KeyCode::Char('q') => (true, tab, view, KeyAction::NoOp),
        KeyCode::Char('c') if key.control => (true, tab, view, KeyAction::NoOp),
        KeyCode::Char('r') => (quit, tab, view, KeyAction::Refresh),
        KeyCode::Char('1') => (
            quit,
            switched(tab, view, Tab::Overview).0,
            switched(tab, view, Tab::Overview).1,
            KeyAction::NoOp,
        ),
        KeyCode::Char('2') => (
            quit,
            switched(tab, view, Tab::Pools).0,
            switched(tab, view, Tab::Pools).1,
            KeyAction::NoOp,
        ),
        KeyCode::Char('3') => (
            quit,
            switched(tab, view, Tab::Arc).0,
            switched(tab, view, Tab::Arc).1,
            KeyAction::NoOp,
        ),
        KeyCode::Tab => (
            quit,
            switched(tab, view, cycled(tab, 1)).0,
            switched(tab, view, cycled(tab, 1)).1,
            KeyAction::NoOp,
        ),
        KeyCode::BackTab => (
            quit,
            switched(tab, view, cycled(tab, -1)).0,
            switched(tab, view, cycled(tab, -1)).1,
            KeyAction::NoOp,
        ),
        _ => if tab == Tab::Pools {
            (quit, tab, pools_key(view, key.code, len), KeyAction::NoOp)
        } else {
            (quit, tab, view, KeyAction::NoOp)
        },
    }
}

/// Selection after a scroll of `delta` rows in the Pools list with `len`
/// pools: moved by `delta`, clamped to the rows that exist.
/// Whether `snapshot` is what the memory source `src`, if there is one,
/// can give for the ARC segments `arc`: `None` without a source.
pub open spec fn source_snapshot<M: MemSource>(
    src: Option<M>,
    arc: Seq<RamSegment>,
    snapshot: Option<MemSnapshot>,
) -> bool {
    match src {
        Some(m) => exists|s: &[RamSegment]|
            s@ == arc && #[trigger] call_ensures(M::snapshot, (&m, s), snapshot),
        None => snapshot is None,
    }
}

/// Asks the memory source, if there is one, for its snapshot with the ARC
/// segments `arc`.
fn snapshot_from<M: MemSource>(src: &Option<M>, arc: &[RamSegment]) -> (r: Option<MemSnapshot>)
    ensures
        source_snapshot(*src, arc@, r),
{
    match src {
        Some(m) => {
            let r = m.snapshot(arc);
            assert(call_ensures(M::snapshot, (m, arc), r));
            r
        },
        None => None,
    }
}

/// The pools the pools source holds.
fn pools_from<P: PoolsSource>(src: &Option<P>) -> (r: Vec<PoolInfo>)
    requires
        src is Some,
    ensures
        source_pools(*src, r@),
{
    match src {
        Some(p) => {
            let v = p.pools();
            assert(call_ensures(P::pools, (p,), v));
            v
        },
        None => Vec::new(),
    }
}

/// Whether `pools` is what the pools source `src`, if there is one, can
/// give from `pools()`.
pub open spec fn source_pools<P: PoolsSource>(src: Option<P>, pools: Seq<PoolInfo>) -> bool {
    match src {
        Some(p) => exists|v: Vec<PoolInfo>| v@ == pools && #[trigger] call_ensures(P::pools, (&p,), v),
        None => false,
    }
}

/// Whether a scroll moves the Pools list selection: on the Pools tab, in
/// the list view, with at least one pool.
pub open spec fn scrolls_pools_list(tab: Tab, view: PoolsView, len: nat) -> bool {
    tab == Tab::Pools && view is List && len > 0
}

pub open spec fn scrolled(tab: Tab, view: PoolsView, len: nat, delta: int) -> PoolsView {
    if scrolls_pools_list(tab, view, len) {
        let s = view->selected + delta;
        PoolsView::List {
            selected: if s < 0 {
                0
            } else if s > len - 1 {
                (len - 1) as usize
            } else {
                s as usize
            },
        }
    } else {
        view
    }
}

/// Count of pools whose health is anything but online.
pub open spec fn degraded_count(pools: Seq<PoolInfo>) -> nat
    decreases pools.len(),
{
    if pools.len() == 0 {
        0
    } else {
        degraded_count(pools.drop_last()) + if pools.last().health != PoolHealth::Online {
            1nat
        } else {
            0nat
        }
    }
}

/// Sum of `size_bytes` over the pools.
pub open spec fn total_capacity(pools: Seq<PoolInfo>) -> nat
    decreases pools.len(),
{
    if pools.len() == 0 {
        0
    } else {
        total_capacity(pools.drop_last()) + pools.last().size_bytes as nat
    }
}

/// Sum of `allocated_bytes` over the pools.
pub open spec fn total_allocated(pools: Seq<PoolInfo>) -> nat
    decreases pools.len(),
{
    if pools.len() == 0 {
        0
    } else {
        total_allocated(pools.drop_last()) + pools.last().allocated_bytes as nat
    }
}

proof fn lemma_total_capacity_prefix(pools: Seq<PoolInfo>, i: int)
    requires
        0 <= i <= pools.len(),
    ensures
        total_capacity(pools.take(i)) <= total_capacity(pools),
    decreases pools.len() - i,
{
    if i < pools.len() {
        lemma_total_capacity_prefix(pools, i + 1);
        assert(pools.take(i + 1).drop_last() =~= pools.take(i));
    } else {
        assert(pools.take(i) =~= pools);
    }
}

proof fn lemma_total_allocated_prefix(pools: Seq<PoolInfo>, i: int)
    requires
        0 <= i <= pools.len(),
    ensures
        total_allocated(pools.take(i)) <= total_allocated(pools),
    decreases pools.len() - i,
{
    if i < pools.len() {
        lemma_total_allocated_prefix(pools, i + 1);
        assert(pools.take(i + 1).drop_last() =~= pools.take(i));
    } else {
        assert(pools.take(i) =~= pools);
    }
}

/// `a.saturating_sub(b)` for the counters.
pub open spec fn counter_delta(now: u64, before: u64) -> u64 {
    if now >= before {
        (now - before) as u64
    } else {
        0
    }
}

/// One row of the ARC breakdown: a size category and its bytes. The
/// share of the ARC it takes is computed where it is drawn.
#[derive(Copy, Clone, Debug)]
pub struct BreakdownRow {
    pub label: &'static str,
    pub bytes: u64,
}

/// The breakdown categories of `s`, in display order.
pub open spec fn breakdown_text(s: ArcStats) -> Seq<(Seq<char>, u64)> {
    seq![
        ("MFU data"@, s.mfu_data),
        ("MFU meta"@, s.mfu_metadata),
        ("MRU data"@, s.mru_data),
        ("MRU meta"@, s.mru_metadata),
        ("Anon"@, s.anon_size),
        ("Headers"@, s.hdr_size),
        ("Dbuf"@, s.dbuf_size),
        ("Dnode"@, s.dnode_size),
        ("Bonus"@, s.bonus_size),
    ]
}

pub struct App {
    pub current: ArcStats,
    pub previous: Option<ArcStats>,
    pub mem_snapshot: Option<MemSnapshot>,
    pub should_quit: bool,
    /// Currently selected top-level tab; starts on `Tab::Overview`.
    pub current_tab: Tab,
    /// Latest successful pools snapshot; empty until the first refresh, and
    /// on hosts without libzfs.
    pub pools_snapshot: Vec<PoolInfo>,
    /// Error of the latest pools refresh, `None` when it succeeded. The last
    /// good snapshot stays on screen meanwhile.
    pub pools_refresh_error: Option<String>,
    /// Error from setting up the pools source at startup; never cleared.
    pub pools_init_error: Option<String>,
    pub pools_view: PoolsView,
}

impl App {
    /// Whether `other` agrees with `self` on everything but the pools
    /// snapshot, the refresh error and the pools view.
    pub open spec fn same_except_pools(self, other: App) -> bool {
        &&& other.current == self.current
        &&& other.previous == self.previous
        &&& other.mem_snapshot == self.mem_snapshot
        &&& other.should_quit == self.should_quit
        &&& other.current_tab == self.current_tab
        &&& other.pools_init_error == self.pools_init_error
    }

    /// Whether `other` agrees with `self` on all data, navigation aside.
    pub open spec fn same_data(self, other: App) -> bool {
        &&& other.current == self.current
        &&& other.previous == self.previous
        &&& other.mem_snapshot == self.mem_snapshot
        &&& other.pools_snapshot@ == self.pools_snapshot@
        &&& other.pools_refresh_error == self.pools_refresh_error
        &&& other.pools_init_error == self.pools_init_error
    }

    /// A freshly started app showing `current`. The memory source (if any)
    /// is asked for a snapshot with the ARC segments of `current`, and the
    /// pools source (if any) is refreshed once so the first frame has data.
    pub fn new<M: MemSource, P: PoolsSource>(
        current: ArcStats,
        mem_source: &Option<M>,
        pools_source: &mut Option<P>,
        pools_init_error: Option<String>,
    ) -> (app: App)
        ensures
            app.current == current,
            app.previous is None,
            source_snapshot(*mem_source, arc_segments_of(current), app.mem_snapshot),
            !app.should_quit,
            app.current_tab == Tab::Overview,
            app.pools_init_error == pools_init_error,
            view_fits(app.pools_view, app.pools_snapshot@.len()),
            *final(pools_source) is Some <==> *old(pools_source) is Some,
            *old(pools_source) is None ==> {
                &&& app.pools_snapshot@.len() == 0
                &&& app.pools_refresh_error is None
                &&& app.pools_view == (PoolsView::List { selected: 0 })
            },
            *old(pools_source) is Some ==> {
                ||| {
                    &&& app.pools_refresh_error is None
                    &&& final(pools_source)->0.refreshed_from(&old(pools_source)->0, Ok(()))
                    &&& source_pools(*final(pools_source), app.pools_snapshot@)
                    &&& app.pools_view == clamped_view(
                        PoolsView::List { selected: 0 },
                        app.pools_snapshot@.len(),
                    )
                }
                ||| {
                    &&& (app.pools_refresh_error matches Some(e) && final(pools_source)->0.refreshed_from(&old(pools_source)->0, Err(e)))
                    &&& app.pools_snapshot@.len() == 0
                    &&& app.pools_view == (PoolsView::List { selected: 0 })
                }
            },
    {
        let arc_segs = arc_segments(&current);
        let mem_snapshot = snapshot_from(mem_source, arc_segs.as_slice());
        let mut app = App {
            current,
            previous: None,
            mem_snapshot,
            should_quit: false,
            current_tab: Tab::Overview,
            pools_snapshot: Vec::new(),
            pools_refresh_error: None,
            pools_init_error,
            pools_view: PoolsView::List { selected: 0 },
        };
        app.refresh_pools(pools_source);
        app
    }

    /// Applies the outcome of a pools refresh: on success the snapshot is
    /// replaced, the error cleared and the view clamped to the new
    /// snapshot; on failure the error is recorded and the stale snapshot
    /// and view are kept.
    pub fn apply_pools_refresh(&mut self, outcome: Result<Vec<PoolInfo>, String>)
        ensures
            old(self).same_except_pools(*final(self)),
            match outcome {
                Ok(pools) => {
                    &&& final(self).pools_snapshot@ == pools@
                    &&& final(self).pools_refresh_error is None
                    &&& final(self).pools_view == clamped_view(
                        old(self).pools_view,
                        pools@.len(),
                    )
                },
                Err(e) => {
                    &&& final(self).pools_snapshot@ == old(self).pools_snapshot@
                    &&& final(self).pools_refresh_error == Some(e)
                    &&& final(self).pools_view == old(self).pools_view
                },
            },
    {
        match outcome {
            Ok(pools) => {
                self.pools_snapshot = pools;
                self.pools_refresh_error = None;
                self.clamp_pools_selection();
            },
            Err(e) => {
                self.pools_refresh_error = Some(e);
            },
        }
    }

    /// Ticks the pools source, if there is one, and applies the outcome as
    /// `apply_pools_refresh` does. Without a source nothing changes.
    pub fn refresh_pools<P: PoolsSource>(&mut self, pools_source: &mut Option<P>)
        ensures
            old(self).same_except_pools(*final(self)),
            *final(pools_source) is Some <==> *old(pools_source) is Some,
            *old(pools_source) is None ==> {
                &&& final(self).pools_snapshot@ == old(self).pools_snapshot@
                &&& final(self).pools_refresh_error == old(self).pools_refresh_error
                &&& final(self).pools_view == old(self).pools_view
            },
            *old(pools_source) is Some ==> {
                ||| {
                    &&& final(self).pools_refresh_error is None
                    &&& final(pools_source)->0.refreshed_from(&old(pools_source)->0, Ok(()))
                    &&& source_pools(*final(pools_source), final(self).pools_snapshot@)
                    &&& final(self).pools_view == clamped_view(
                        old(self).pools_view,
                        final(self).pools_snapshot@.len(),
                    )
                }
                ||| {
                    &&& (final(self).pools_refresh_error matches Some(e) && final(pools_source)->0.refreshed_from(&old(pools_source)->0, Err(e)))
                    &&& final(self).pools_snapshot@ == old(self).pools_snapshot@
                    &&& final(self).pools_view == old(self).pools_view
                }
            },
            view_fits(old(self).pools_view, old(self).pools_snapshot@.len()) ==> view_fits(
                final(self).pools_view,
                final(self).pools_snapshot@.len(),
            ),
    {
        let ghost before = *pools_source;
        let refreshed = match pools_source {
            Some(ps) => Some(ps.refresh()),
            None => None,
        };
        if let Some(res) = refreshed {
            assert(pools_source->0.refreshed_from(&before->0, res));
            match res {
                Ok(unit) => {
                    assert(res == Ok::<(), String>(unit));
                    let pools = pools_from(pools_source);
                    self.apply_pools_refresh(Ok(pools));
                },
                Err(e) => {
                    self.apply_pools_refresh(Err(e));
                },
            }
        }
    }

    /// Keeps `pools_view` valid when the snapshot changes size under it.
    pub fn clamp_pools_selection(&mut self)
        ensures
            old(self).same_except_pools(*final(self)),
            final(self).pools_snapshot@ == old(self).pools_snapshot@,
            final(self).pools_refresh_error == old(self).pools_refresh_error,
            final(self).pools_view == clamped_view(
                old(self).pools_view,
                old(self).pools_snapshot@.len(),
            ),
    {
        let len = self.pools_snapshot.len();
        match self.pools_view {
            PoolsView::List { selected } => {
                if len == 0 {
                    self.pools_view = PoolsView::List { selected: 0 };
                } else if selected >= len {
                    self.pools_view = PoolsView::List { selected: len - 1 };
                }
            },
            PoolsView::Detail { pool_index } => {
                if pool_index >= len {
                    self.pools_view = PoolsView::List { selected: len.saturating_sub(1) };
                }
            },
        }
    }

    /// Moves `current_tab` by `delta` positions through `Tab::ALL`,
    /// wrapping both ways: `+1` is the next tab (Tab key), `-1` the
    /// previous one (Shift+Tab).
    pub fn cycle_tab(&mut self, delta: i32)
        requires
            old(self).current_tab.index() + delta <= i32::MAX,
        ensures
            old(self).same_data(*final(self)),
            final(self).should_quit == old(self).should_quit,
            (final(self).current_tab, final(self).pools_view) == switched(
                old(self).current_tab,
                old(self).pools_view,
                cycled(old(self).current_tab, delta as int),
            ),
    {
        let len: i32 = 3;
        let mut current_idx: i32 = 0;
        let mut i: usize = 0;
        proof {
            lemma_tab_order(self.current_tab);
            assert(Tab::ALL@ =~= seq![Tab::Overview, Tab::Pools, Tab::Arc]);
        }
        while i < 3
            invariant
                0 <= i <= 3,
                forall|j: int| 0 <= j < i ==> Tab::ALL@[j] != self.current_tab,
                Tab::ALL@[self.current_tab.index()] == self.current_tab,
                0 <= self.current_tab.index() < 3,
                Tab::ALL@ == seq![Tab::Overview, Tab::Pools, Tab::Arc],
            ensures
                current_idx == self.current_tab.index(),
            decreases 3 - i,
        {
            if Tab::ALL[i] == self.current_tab {
                current_idx = i as i32;
                break;
            }
            i = i + 1;
        }
        assert(current_idx == self.current_tab.index());
        let sum: i32 = current_idx + delta;
        let r: i32 = sum % len;
        let next_idx: i32 = (r + len) % len;
        assert(next_idx == (sum as int) % 3) by {
            assert(sum >= -3 - i32::MAX);
        }
        self.switch_tab(Tab::ALL[next_idx as usize]);
    }

    /// Switches to `target`. Leaving the Pools tab while drilled into a
    /// pool collapses the drilldown to the list, still on that pool; a
    /// switch to the tab already shown keeps whatever sub-view is open.
    pub fn switch_tab(&mut self, target: Tab)
        ensures
            old(self).same_data(*final(self)),
            final(self).should_quit == old(self).should_quit,
            (final(self).current_tab, final(self).pools_view) == switched(
                old(self).current_tab,
                old(self).pools_view,
                target,
            ),
    {
        if target == self.current_tab {
            return ;
        }
        if self.current_tab == Tab::Pools {
            if let PoolsView::Detail { pool_index } = self.pools_view {
                self.pools_view = PoolsView::List { selected: pool_index };
            }
        }
        self.current_tab = target;
    }

    /// Takes in a new ARC snapshot read by the caller: the previous one is
    /// kept for the per-second rates, the memory source (if any) is
    /// refreshed (a failure only leaves the bar as it was read last) and
    /// asked for the RAM-bar snapshot with the new ARC segments, and the
    /// pools source is ticked.
    pub fn refresh<M: MemSource, P: PoolsSource>(
        &mut self,
        next: ArcStats,
        mem_source: &mut Option<M>,
        pools_source: &mut Option<P>,
    )
        ensures
            final(self).previous == Some(old(self).current),
            final(self).current == next,
            *final(mem_source) is Some <==> *old(mem_source) is Some,
            *old(mem_source) is None ==> final(self).mem_snapshot is None,
            source_snapshot(*final(mem_source), arc_segments_of(next), final(self).mem_snapshot),
            *old(mem_source) is Some ==> exists|o: Result<(), String>|
                #[trigger] final(mem_source)->0.refreshed_from(&old(mem_source)->0, o),
            final(self).should_quit == old(self).should_quit,
            final(self).current_tab == old(self).current_tab,
            final(self).pools_init_error == old(self).pools_init_error,
            *final(pools_source) is Some <==> *old(pools_source) is Some,
            *old(pools_source) is None ==> {
                &&& final(self).pools_snapshot@ == old(self).pools_snapshot@
                &&& final(self).pools_refresh_error == old(self).pools_refresh_error
                &&& final(self).pools_view == old(self).pools_view
            },
            *old(pools_source) is Some ==> {
                ||| {
                    &&& final(self).pools_refresh_error is None
                    &&& final(pools_source)->0.refreshed_from(&old(pools_source)->0, Ok(()))
                    &&& source_pools(*final(pools_source), final(self).pools_snapshot@)
                    &&& final(self).pools_view == clamped_view(
                        old(self).pools_view,
                        final(self).pools_snapshot@.len(),
                    )
                }
                ||| {
                    &&& (final(self).pools_refresh_error matches Some(e) && final(pools_source)->0.refreshed_from(&old(pools_source)->0, Err(e)))
                    &&& final(self).pools_snapshot@ == old(self).pools_snapshot@
                    &&& final(self).pools_view == old(self).pools_view
                }
            },
    {
        let prev = self.current;
        self.current = next;
        self.previous = Some(prev);
        let arc_segs = arc_segments(&self.current);
        if let Some(mem) = mem_source {
            let _ = mem.refresh();
        }
        self.mem_snapshot = snapshot_from(mem_source, arc_segs.as_slice());
        self.refresh_pools(pools_source);
    }

    /// Number of pools whose health is anything other than online.
    pub fn pools_degraded_count(&self) -> (n: usize)
        ensures
            n == degraded_count(self.pools_snapshot@),
    {
        let mut n: usize = 0;
        let mut i: usize = 0;
        while i < self.pools_snapshot.len()
            invariant
                0 <= i <= self.pools_snapshot@.len(),
                n == degraded_count(self.pools_snapshot@.take(i as int)),
                n <= i,
            decreases self.pools_snapshot@.len() - i,
        {
            assert(self.pools_snapshot@.take(i + 1).drop_last() =~= self.pools_snapshot@.take(
                i as int,
            ));
            if self.pools_snapshot[i].health != PoolHealth::Online {
                n = n + 1;
            }
            i = i + 1;
        }
        assert(self.pools_snapshot@.take(i as int) =~= self.pools_snapshot@);
        n
    }

    /// Sum of `size_bytes` over every pool in the snapshot.
    pub fn pools_total_capacity(&self) -> (r: u64)
        requires
            total_capacity(self.pools_snapshot@) <= u64::MAX,
        ensures
            r == total_capacity(self.pools_snapshot@),
    {
        let mut sum: u64 = 0;
        let mut i: usize = 0;
        while i < self.pools_snapshot.len()
            invariant
                0 <= i <= self.pools_snapshot@.len(),
                sum == total_capacity(self.pools_snapshot@.take(i as int)),
                total_capacity(self.pools_snapshot@) <= u64::MAX,
            decreases self.pools_snapshot@.len() - i,
        {
            assert(self.pools_snapshot@.take(i + 1).drop_last() =~= self.pools_snapshot@.take(
                i as int,
            ));
            proof {
                lemma_total_capacity_prefix(self.pools_snapshot@, i + 1);
            }
            sum = sum + self.pools_snapshot[i].size_bytes;
            i = i + 1;
        }
        assert(self.pools_snapshot@.take(i as int) =~= self.pools_snapshot@);
        sum
    }

    /// Sum of `allocated_bytes` over every pool in the snapshot.
    pub fn pools_total_allocated(&self) -> (r: u64)
        requires
            total_allocated(self.pools_snapshot@) <= u64::MAX,
        ensures
            r == total_allocated(self.pools_snapshot@),
    {
        let mut sum: u64 = 0;
        let mut i: usize = 0;
        while i < self.pools_snapshot.len()
            invariant
                0 <= i <= self.pools_snapshot@.len(),
                sum == total_allocated(self.pools_snapshot@.take(i as int)),
                total_allocated(self.pools_snapshot@) <= u64::MAX,
            decreases self.pools_snapshot@.len() - i,
        {
            assert(self.pools_snapshot@.take(i + 1).drop_last() =~= self.pools_snapshot@.take(
                i as int,
            ));
            proof {
                lemma_total_allocated_prefix(self.pools_snapshot@, i + 1);
            }
            sum = sum + self.pools_snapshot[i].allocated_bytes;
            i = i + 1;
        }
        assert(self.pools_snapshot@.take(i as int) =~= self.pools_snapshot@);
        sum
    }

    /// Handles a key press. Global keys work on every tab: `q` and Ctrl+C
    /// quit, `r` asks for a refresh (returned as `KeyAction::Refresh`),
    /// `1`/`2`/`3` pick a tab, Tab and Shift+Tab cycle. On the Pools tab the
    /// list moves with Up/Down (`k`/`j`), Home and End, Enter opens the
    /// selected pool and Esc or Backspace return to the list.
    pub fn on_key(&mut self, key: KeyEvent) -> (action: KeyAction)
        requires
            old(self).current_tab == Tab::Pools && (key.code == KeyCode::Down || key.code
                == KeyCode::Char('j')) && old(self).pools_view is List ==> old(
                self,
            ).pools_view->selected < usize::MAX,
        ensures
            old(self).same_data(*final(self)),
            (final(self).should_quit, final(self).current_tab, final(self).pools_view, action)
                == key_effect(
                old(self).should_quit,
                old(self).current_tab,
                old(self).pools_view,
                old(self).pools_snapshot@.len(),
                key,
            ),
    {
        match key.code {
            KeyCode::Char('q') => {
                self.should_quit = true;
                return KeyAction::NoOp;
            },
            KeyCode::Char('c') if key.control => {
                self.should_quit = true;
                return KeyAction::NoOp;
            },
            KeyCode::Char('r') => {
                return KeyAction::Refresh;
            },
            KeyCode::Char('1') => {
                self.switch_tab(Tab::Overview);
                return KeyAction::NoOp;
            },
            KeyCode::Char('2') => {
                self.switch_tab(Tab::Pools);
                return KeyAction::NoOp;
            },
            KeyCode::Char('3') => {
                self.switch_tab(Tab::Arc);
                return KeyAction::NoOp;
            },
            KeyCode::Tab => {
                self.cycle_tab(1);
                return KeyAction::NoOp;
            },
            KeyCode::BackTab => {
                self.cycle_tab(-1);
                return KeyAction::NoOp;
            },
            _ => {},
        }
        if self.current_tab == Tab::Pools {
            self.on_key_pools(key);
        }
        KeyAction::NoOp
    }

    /// Keys of the Pools tab: the list moves with Up/Down (`k`/`j`), Home
    /// and End, Enter opens the selected pool, Esc or Backspace return to
    /// the list on that pool.
    pub fn on_key_pools(&mut self, key: KeyEvent)
        requires
            (key.code == KeyCode::Down || key.code == KeyCode::Char('j'))
                && old(self).pools_view is List ==> old(self).pools_view->selected < usize::MAX,
        ensures
            old(self).same_data(*final(self)),
            final(self).should_quit == old(self).should_quit,
            final(self).current_tab == old(self).current_tab,
            final(self).pools_view == pools_key(
                old(self).pools_view,
                key.code,
                old(self).pools_snapshot@.len(),
            ),
    {
        let len = self.pools_snapshot.len();
        match (self.pools_view, key.code) {
            (PoolsView::List { selected }, KeyCode::Down)
            | (PoolsView::List { selected }, KeyCode::Char('j')) => {
                if selected + 1 < len {
                    self.pools_view = PoolsView::List { selected: selected + 1 };
                }
            },
            (PoolsView::List { selected }, KeyCode::Up)
            | (PoolsView::List { selected }, KeyCode::Char('k')) => {
                if selected > 0 {
                    self.pools_view = PoolsView::List { selected: selected - 1 };
                }
            },
            (PoolsView::List { .. }, KeyCode::Home) => {
                self.pools_view = PoolsView::List { selected: 0 };
            },
            (PoolsView::List { .. }, KeyCode::End) => {
                self.pools_view = PoolsView::List { selected: len.saturating_sub(1) };
            },
            (PoolsView::List { selected }, KeyCode::Enter) => {
                if len > 0 {
                    self.pools_view = PoolsView::Detail { pool_index: selected };
                }
            },
            (PoolsView::Detail { pool_index }, KeyCode::Esc)
            | (PoolsView::Detail { pool_index }, KeyCode::Backspace) => {
                self.pools_view = PoolsView::List { selected: pool_index };
            },
            _ => {},
        }
    }

    /// Handles a mouse event: the scroll wheel moves the Pools list
    /// selection; everything else is ignored.
    pub fn on_mouse(&mut self, kind: MouseEventKind)
        ensures
            old(self).same_data(*final(self)),
            final(self).should_quit == old(self).should_quit,
            final(self).current_tab == old(self).current_tab,
            final(self).pools_view == match kind {
                MouseEventKind::ScrollDown => scrolled(
                    old(self).current_tab,
                    old(self).pools_view,
                    old(self).pools_snapshot@.len(),
                    1,
                ),
                MouseEventKind::ScrollUp => scrolled(
                    old(self).current_tab,
                    old(self).pools_view,
                    old(self).pools_snapshot@.len(),
                    -1,
                ),
                MouseEventKind::Other => old(self).pools_view,
            },
    {
        match kind {
            MouseEventKind::ScrollDown => self.scroll(1),
            MouseEventKind::ScrollUp => self.scroll(-1),
            MouseEventKind::Other => {},
        }
    }

    fn scroll(&mut self, delta: i32)
        requires
            -1 <= delta <= 1,
        ensures
            old(self).same_data(*final(self)),
            final(self).should_quit == old(self).should_quit,
            final(self).current_tab == old(self).current_tab,
            final(self).pools_view == scrolled(
                old(self).current_tab,
                old(self).pools_view,
                old(self).pools_snapshot@.len(),
                delta as int,
            ),
    {
        if self.current_tab == Tab::Pools {
            if let PoolsView::List { selected } = self.pools_view {
                if self.pools_snapshot.len() == 0 {
                    return ;
                }
                let last = self.pools_snapshot.len() - 1;
                let clamped: usize = if delta < 0 {
                    if selected == 0 {
                        0
                    } else if selected - 1 > last {
                        last
                    } else {
                        selected - 1
                    }
                } else if delta > 0 {
                    if selected >= last {
                        last
                    } else {
                        selected + 1
                    }
                } else if selected > last {
                    last
                } else {
                    selected
                };
                self.pools_view = PoolsView::List { selected: clamped };
            }
        }
    }

    /// The ARC size categories of the breakdown table, in display order,
    /// with their sizes in bytes.
    pub fn arc_breakdown(&self) -> (r: Vec<BreakdownRow>)
        ensures
            r@.len() == breakdown_text(self.current).len(),
            forall|i: int|
                0 <= i < r@.len() ==> (#[trigger] r@[i]).label@ == breakdown_text(self.current)[i].0
                    && r@[i].bytes == breakdown_text(self.current)[i].1,
    {
        let s = &self.current;
        let v = vec![
            BreakdownRow { label: "MFU data", bytes: s.mfu_data },
            BreakdownRow { label: "MFU meta", bytes: s.mfu_metadata },
            BreakdownRow { label: "MRU data", bytes: s.mru_data },
            BreakdownRow { label: "MRU meta", bytes: s.mru_metadata },
            BreakdownRow { label: "Anon", bytes: s.anon_size },
            BreakdownRow { label: "Headers", bytes: s.hdr_size },
            BreakdownRow { label: "Dbuf", bytes: s.dbuf_size },
            BreakdownRow { label: "Dnode", bytes: s.dnode_size },
            BreakdownRow { label: "Bonus", bytes: s.bonus_size },
        ];
        v
    }

    /// Hits per refresh since the previous snapshot (`None` before one).
    pub fn throughput_hits(&self) -> (r: Option<u64>)
        ensures
            r == match self.previous {
                Some(prev) => Some(counter_delta(self.current.hits, prev.hits)),
                None => None,
            },
    {
        match &self.previous {
            Some(prev) => Some(self.current.hits.saturating_sub(prev.hits)),
            None => None,
        }
    }

    /// Misses per refresh since the previous snapshot (`None` before one).
    pub fn throughput_misses(&self) -> (r: Option<u64>)
        ensures
            r == match self.previous {
                Some(prev) => Some(counter_delta(self.current.misses, prev.misses)),
                None => None,
            },
    {
        match &self.previous {
            Some(prev) => Some(self.current.misses.saturating_sub(prev.misses)),
            None => None,
        }
    }

    /// I/O hits per refresh since the previous snapshot (`None` before one).
    pub fn throughput_iohits(&self) -> (r: Option<u64>)
        ensures
            r == match self.previous {
                Some(prev) => Some(counter_delta(self.current.iohits, prev.iohits)),
                None => None,
            },
    {
        match &self.previous {
            Some(prev) => Some(self.current.iohits.saturating_sub(prev.iohits)),
            None => None,
        }
    }

    /// The cached system-RAM snapshot for the UI: total bytes and segments.
    pub fn ram_segments(&self) -> (r: Option<(u64, &[RamSegment])>)
        ensures
            match self.mem_snapshot {
                Some(s) => r matches Some((t, segs)) && t == s.total_bytes && segs@ == s.segments@,
                None => r is None,
            },
    {
        match &self.mem_snapshot {
            Some(s) => Some((s.total_bytes, s.segments.as_slice())),
            None => None,
        }
    }

    /// ARC headroom for the RAM bar's side title: how far the ARC may
    /// still grow, `c_max - size`, or 0 when it is already at or past it.
    pub fn arc_headroom(&self) -> (r: u64)
        ensures
            r == if self.current.c_max >= self.current.size {
                (self.current.c_max - self.current.size) as u64
            } else {
                0
            },
    {
        self.current.c_max.saturating_sub(self.current.size)
    }
}

/// Bytes used by the RAM-bar segments together, for the bar's title;
/// `None` when the sum does not fit in a `u64`.
pub fn ram_used_total(segments: &[RamSegment]) -> (r: Option<u64>)
    ensures
        match r {
            Some(t) => t == segments_total(segments@),
            None => segments_total(segments@) > u64::MAX,
        },
{
    let mut total: u64 = 0;
    let mut i: usize = 0;
    while i < segments.len()
        invariant
            0 <= i <= segments@.len(),
            total == segments_total(segments@.take(i as int)),
        decreases segments@.len() - i,
    {
        assert(segments@.take(i + 1).drop_last() =~= segments@.take(i as int));
        match total.checked_add(segments[i].bytes) {
            Some(t) => {
                total = t;
            },
            None => {
                proof {
                    lemma_segments_total_prefix(segments@, i + 1);
                }
                return None;
            },
        }
        i = i + 1;
    }
    assert(segments@.take(i as int) =~= segments@);
    Some(total)
}

} // verus!

verus! {

/// Cycling forward and back by the same amount returns to the same tab,
/// and three steps in either direction go all the way round.
pub proof fn lemma_cycle_round_trip(t: Tab, delta: int)
    ensures
        cycled(cycled(t, delta), -delta) == t,
        cycled(t, 3) == t,
        cycled(t, -3) == t,
{
    let i = t.index() + delta;
    let k = i % 3;
    assert(0 <= k < 3);
    assert(cycled(t, delta).index() == k);
    assert((k - delta) % 3 == t.index()) by {
        assert(k - delta == t.index() - 3 * (i / 3));
    }
}

/// Leaving the Pools tab from a pool's detail lands, on return, on the
/// list with that pool selected; switching to the tab already shown keeps
/// the sub-view.
pub proof fn lemma_detail_round_trip(pool_index: usize, away: Tab)
    requires
        away != Tab::Pools,
    ensures
        ({
            let (t1, v1) = switched(Tab::Pools, PoolsView::Detail { pool_index }, away);
            let (t2, v2) = switched(t1, v1, Tab::Pools);
            &&& t1 == away
            &&& v1 == (PoolsView::List { selected: pool_index })
            &&& t2 == Tab::Pools
            &&& v2 == (PoolsView::List { selected: pool_index })
        }),
        switched(Tab::Pools, PoolsView::Detail { pool_index }, Tab::Pools) == (
            Tab::Pools,
            PoolsView::Detail { pool_index },
        ),
{
}

/// Navigating the Pools tab never points outside the snapshot: a view
/// that fits stays fitting under every key and scroll.
pub proof fn lemma_navigation_keeps_view_fitting(
    quit: bool,
    tab: Tab,
    view: PoolsView,
    len: nat,
    key: KeyEvent,
    delta: int,
)
    requires
        view_fits(view, len),
        len <= usize::MAX,
    ensures
        view_fits(key_effect(quit, tab, view, len, key).2, len),
        view_fits(scrolled(tab, view, len, delta), len),
{
}

/// Keys that are not global leave the Pools view alone on other tabs.
pub proof fn lemma_pools_keys_only_on_pools_tab(
    quit: bool,
    tab: Tab,
    view: PoolsView,
    len: nat,
    code: KeyCode,
)
    requires
        tab != Tab::Pools,
        code is Up || code is Down || code is Home || code is End || code is Enter || code is Esc
            || code is Backspace,
    ensures
        key_effect(quit, tab, view, len, KeyEvent { code, control: false }) == (
            quit,
            tab,
            view,
            KeyAction::NoOp,
        ),
{
}

/// On the Pools tab's list, on row `s` of `len`: Down moves one row down
/// and stops at the last row, Up moves one row up and stops at the first,
/// Home and End go to the first and last rows, and Enter opens the row's
/// pool when there is one; Esc (or Backspace) from that pool returns to
/// the list on the same row.
pub proof fn lemma_pools_list_keys(quit: bool, s: usize, len: nat)
    requires
        s < len || (len == 0 && s == 0),
        len <= usize::MAX,
    ensures
        ({
            let list = PoolsView::List { selected: s };
            let down = key_effect(quit, Tab::Pools, list, len, KeyEvent { code: KeyCode::Down, control: false });
            let up = key_effect(quit, Tab::Pools, list, len, KeyEvent { code: KeyCode::Up, control: false });
            let home = key_effect(quit, Tab::Pools, list, len, KeyEvent { code: KeyCode::Home, control: false });
            let end = key_effect(quit, Tab::Pools, list, len, KeyEvent { code: KeyCode::End, control: false });
            let enter = key_effect(quit, Tab::Pools, list, len, KeyEvent { code: KeyCode::Enter, control: false });
            let back = key_effect(enter.0, enter.1, enter.2, len, KeyEvent { code: KeyCode::Esc, control: false });
            &&& down.2 == (PoolsView::List { selected: if s + 1 < len { (s + 1) as usize } else { s } })
            &&& up.2 == (PoolsView::List { selected: if s > 0 { (s - 1) as usize } else { 0 } })
            &&& home.2 == (PoolsView::List { selected: 0 })
            &&& end.2 == (PoolsView::List { selected: if len == 0 { 0 } else { (len - 1) as usize } })
            &&& enter.2 == (if len > 0 { PoolsView::Detail { pool_index: s } } else { list })
            &&& back.1 == Tab::Pools
            &&& back.2 == list
            &&& view_fits(down.2, len) && view_fits(up.2, len) && view_fits(home.2, len)
            &&& view_fits(end.2, len) && view_fits(enter.2, len)
        }),
{
}

/// Every Pools-tab key keeps a valid view valid. In the list, on row `s`
/// of `len`: Down (`j`) moves one row down and stops at the last row, Up
/// (`k`) moves one row up and stops at the first, Home and End go to the
/// first and last rows, Enter opens row `s`'s pool when there are pools;
/// in a pool's detail, Esc or Backspace return to the list on that pool
/// and every other key changes nothing.
pub proof fn lemma_pools_key(view: PoolsView, code: KeyCode, len: nat)
    requires
        view_fits(view, len),
        len <= usize::MAX,
    ensures
        view_fits(pools_key(view, code, len), len),
        view matches PoolsView::List { selected: s } ==> {
            &&& (code is Down || code == KeyCode::Char('j')) ==> pools_key(view, code, len)
                == (PoolsView::List { selected: if s + 1 < len { (s + 1) as usize } else { s } })
            &&& (code is Up || code == KeyCode::Char('k')) ==> pools_key(view, code, len)
                == (PoolsView::List { selected: if s > 0 { (s - 1) as usize } else { 0 } })
            &&& code is Home ==> pools_key(view, code, len) == (PoolsView::List { selected: 0 })
            &&& code is End ==> pools_key(view, code, len) == (PoolsView::List {
                selected: if len == 0 { 0 } else { (len - 1) as usize },
            })
            &&& code is Enter ==> pools_key(view, code, len) == (if len > 0 {
                PoolsView::Detail { pool_index: s }
            } else {
                view
            })
        },
        view matches PoolsView::Detail { pool_index: i } ==> pools_key(view, code, len) == (if code is Esc
            || code is Backspace {
            PoolsView::List { selected: i }
        } else {
            view
        }),
{
}

/// Every row of the ARC size breakdown carries the `ArcStats` figure its
/// label names (the "MRU data" row shows `mru_data`, "MRU meta" shows
/// `mru_metadata`, and so on), and each of the nine categories has a row.
pub proof fn lemma_breakdown_rows_carry_their_fields(s: ArcStats)
    ensures
        breakdown_text(s).len() == 9,
        forall|i: int|
            0 <= i < 9 ==> {
                let row = #[trigger] breakdown_text(s)[i];
            &&& row.0 == "MFU data"@ ==> row.1 == s.mfu_data
            &&& row.0 == "MFU meta"@ ==> row.1 == s.mfu_metadata
            &&& row.0 == "MRU data"@ ==> row.1 == s.mru_data
            &&& row.0 == "MRU meta"@ ==> row.1 == s.mru_metadata
            &&& row.0 == "Anon"@ ==> row.1 == s.anon_size
            &&& row.0 == "Headers"@ ==> row.1 == s.hdr_size
            &&& row.0 == "Dbuf"@ ==> row.1 == s.dbuf_size
            &&& row.0 == "Dnode"@ ==> row.1 == s.dnode_size
            &&& row.0 == "Bonus"@ ==> row.1 == s.bonus_size
            },
        exists|i: int| 0 <= i < 9 && #[trigger] breakdown_text(s)[i].0 == "MFU data"@,
        exists|i: int| 0 <= i < 9 && #[trigger] breakdown_text(s)[i].0 == "MFU meta"@,
        exists|i: int| 0 <= i < 9 && #[trigger] breakdown_text(s)[i].0 == "MRU data"@,
        exists|i: int| 0 <= i < 9 && #[trigger] breakdown_text(s)[i].0 == "MRU meta"@,
        exists|i: int| 0 <= i < 9 && #[trigger] breakdown_text(s)[i].0 == "Anon"@,
        exists|i: int| 0 <= i < 9 && #[trigger] breakdown_text(s)[i].0 == "Headers"@,
        exists|i: int| 0 <= i < 9 && #[trigger] breakdown_text(s)[i].0 == "Dbuf"@,
        exists|i: int| 0 <= i < 9 && #[trigger] breakdown_text(s)[i].0 == "Dnode"@,
        exists|i: int| 0 <= i < 9 && #[trigger] breakdown_text(s)[i].0 == "Bonus"@,
{
    reveal_strlit("MFU data");
    reveal_strlit("MFU meta");
    reveal_strlit("MRU data");
    reveal_strlit("MRU meta");
    reveal_strlit("Anon");
    reveal_strlit("Headers");
    reveal_strlit("Dbuf");
    reveal_strlit("Dnode");
    reveal_strlit("Bonus");
    assert("MFU data"@ != "MFU meta"@) by { assert("MFU data"@[4] != "MFU meta"@[4]); }
    assert("MFU data"@ != "MRU data"@) by { assert("MFU data"@[1] != "MRU data"@[1]); }
    assert("MFU data"@ != "MRU meta"@) by { assert("MFU data"@[1] != "MRU meta"@[1]); }
    assert("MFU data"@ != "Anon"@) by { assert("MFU data"@.len() != "Anon"@.len()); }
    assert("MFU data"@ != "Headers"@) by { assert("MFU data"@.len() != "Headers"@.len()); }
    assert("MFU data"@ != "Dbuf"@) by { assert("MFU data"@.len() != "Dbuf"@.len()); }
    assert("MFU data"@ != "Dnode"@) by { assert("MFU data"@.len() != "Dnode"@.len()); }
    assert("MFU data"@ != "Bonus"@) by { assert("MFU data"@.len() != "Bonus"@.len()); }
    assert("MFU meta"@ != "MRU data"@) by { assert("MFU meta"@[1] != "MRU data"@[1]); }
    assert("MFU meta"@ != "MRU meta"@) by { assert("MFU meta"@[1] != "MRU meta"@[1]); }
    assert("MFU meta"@ != "Anon"@) by { assert("MFU meta"@.len() != "Anon"@.len()); }
    assert("MFU meta"@ != "Headers"@) by { assert("MFU meta"@.len() != "Headers"@.len()); }
    assert("MFU meta"@ != "Dbuf"@) by { assert("MFU meta"@.len() != "Dbuf"@.len()); }
    assert("MFU meta"@ != "Dnode"@) by { assert("MFU meta"@.len() != "Dnode"@.len()); }
    assert("MFU meta"@ != "Bonus"@) by { assert("MFU meta"@.len() != "Bonus"@.len()); }
    assert("MRU data"@ != "MRU meta"@) by { assert("MRU data"@[4] != "MRU meta"@[4]); }
    assert("MRU data"@ != "Anon"@) by { assert("MRU data"@.len() != "Anon"@.len()); }
    assert("MRU data"@ != "Headers"@) by { assert("MRU data"@.len() != "Headers"@.len()); }
    assert("MRU data"@ != "Dbuf"@) by { assert("MRU data"@.len() != "Dbuf"@.len()); }
    assert("MRU data"@ != "Dnode"@) by { assert("MRU data"@.len() != "Dnode"@.len()); }
    assert("MRU data"@ != "Bonus"@) by { assert("MRU data"@.len() != "Bonus"@.len()); }
    assert("MRU meta"@ != "Anon"@) by { assert("MRU meta"@.len() != "Anon"@.len()); }
    assert("MRU meta"@ != "Headers"@) by { assert("MRU meta"@.len() != "Headers"@.len()); }
    assert("MRU meta"@ != "Dbuf"@) by { assert("MRU meta"@.len() != "Dbuf"@.len()); }
    assert("MRU meta"@ != "Dnode"@) by { assert("MRU meta"@.len() != "Dnode"@.len()); }
    assert("MRU meta"@ != "Bonus"@) by { assert("MRU meta"@.len() != "Bonus"@.len()); }
    assert("Anon"@ != "Headers"@) by { assert("Anon"@.len() != "Headers"@.len()); }
    assert("Anon"@ != "Dbuf"@) by { assert("Anon"@[0] != "Dbuf"@[0]); }
    assert("Anon"@ != "Dnode"@) by { assert("Anon"@.len() != "Dnode"@.len()); }
    assert("Anon"@ != "Bonus"@) by { assert("Anon"@.len() != "Bonus"@.len()); }
    assert("Headers"@ != "Dbuf"@) by { assert("Headers"@.len() != "Dbuf"@.len()); }
    assert("Headers"@ != "Dnode"@) by { assert("Headers"@.len() != "Dnode"@.len()); }
    assert("Headers"@ != "Bonus"@) by { assert("Headers"@.len() != "Bonus"@.len()); }
    assert("Dbuf"@ != "Dnode"@) by { assert("Dbuf"@.len() != "Dnode"@.len()); }
    assert("Dbuf"@ != "Bonus"@) by { assert("Dbuf"@.len() != "Bonus"@.len()); }
    assert("Dnode"@ != "Bonus"@) by { assert("Dnode"@[0] != "Bonus"@[0]); }
    let rows = breakdown_text(s);
    assert forall|i: int| 0 <= i < 9 implies {
        let row = #[trigger] breakdown_text(s)[i];
            &&& row.0 == "MFU data"@ ==> row.1 == s.mfu_data
            &&& row.0 == "MFU meta"@ ==> row.1 == s.mfu_metadata
            &&& row.0 == "MRU data"@ ==> row.1 == s.mru_data
            &&& row.0 == "MRU meta"@ ==> row.1 == s.mru_metadata
            &&& row.0 == "Anon"@ ==> row.1 == s.anon_size
            &&& row.0 == "Headers"@ ==> row.1 == s.hdr_size
            &&& row.0 == "Dbuf"@ ==> row.1 == s.dbuf_size
            &&& row.0 == "Dnode"@ ==> row.1 == s.dnode_size
            &&& row.0 == "Bonus"@ ==> row.1 == s.bonus_size
    } by {
        assert(rows[i] == breakdown_text(s)[i]);
    }
    assert(breakdown_text(s)[0].0 == "MFU data"@);
    assert(breakdown_text(s)[1].0 == "MFU meta"@);
    assert(breakdown_text(s)[2].0 == "MRU data"@);
    assert(breakdown_text(s)[3].0 == "MRU meta"@);
    assert(breakdown_text(s)[4].0 == "Anon"@);
    assert(breakdown_text(s)[5].0 == "Headers"@);
    assert(breakdown_text(s)[6].0 == "Dbuf"@);
    assert(breakdown_text(s)[7].0 == "Dnode"@);
    assert(breakdown_text(s)[8].0 == "Bonus"@);
}

} // verus!
