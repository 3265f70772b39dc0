//! The text the dashboard shows for pools, vdevs, scrubs and datasets, and
//! the tone each value is drawn in. Everything here is a function of plain
//! values: the current time is an argument (seconds since the Unix
//! epoch), so the same inputs always give the same cells.

use vstd::prelude::*;

use crate::app::{PoolsView, Tab};
use crate::calendar::{civil_from_days, date_text, format_unix_date};
use crate::datasets::{DatasetKind, DatasetNode};
use crate::pools::scan::{sat_mul, saturating_mul};
use crate::pools::vdev::{is_group, is_group_kind};
use crate::pools::{PoolHealth, ScrubState, VdevKind, VdevNode, VdevState};
use crate::text::{chars_of, dec, pad2, push_char, push_decimal, push_pad2, push_str, string_of};
use crate::units::{bytes_text, eta_text, format_bytes, format_eta};

verus! {

/// The colour family a cell is drawn in; the terminal front end picks the
/// actual colours.
#[derive(Copy, Clone, Debug, PartialEq, Eq, Structural)]
pub enum Tone {
    /// The terminal's default style.
    Plain,
    /// Healthy (green).
    Good,
    /// Needs attention (yellow).
    Warning,
    /// Broken or erroring (red).
    Bad,
    /// Not in service (dark gray).
    Muted,
}

pub open spec fn health_text(h: PoolHealth) -> Seq<char> {
    match h {
        PoolHealth::Online => "ONLINE"@,
        PoolHealth::Degraded => "DEGRADED"@,
        PoolHealth::Faulted => "FAULTED"@,
        PoolHealth::Offline => "OFFLINE"@,
        PoolHealth::Removed => "REMOVED"@,
        PoolHealth::Unavail => "UNAVAIL"@,
    }
}

/// The label `zpool status` uses for a pool's health.
pub fn pool_health_label(h: PoolHealth) -> (r: String)
    ensures
        r@ == health_text(h),
{
    match h {
        PoolHealth::Online => string_of("ONLINE"),
        PoolHealth::Degraded => string_of("DEGRADED"),
        PoolHealth::Faulted => string_of("FAULTED"),
        PoolHealth::Offline => string_of("OFFLINE"),
        PoolHealth::Removed => string_of("REMOVED"),
        PoolHealth::Unavail => string_of("UNAVAIL"),
    }
}

pub open spec fn health_tone(h: PoolHealth) -> Tone {
    match h {
        PoolHealth::Online => Tone::Good,
        PoolHealth::Degraded => Tone::Warning,
        PoolHealth::Faulted | PoolHealth::Removed | PoolHealth::Unavail => Tone::Bad,
        PoolHealth::Offline => Tone::Muted,
    }
}

/// Online is good, degraded a warning, faulted / removed / unavailable
/// bad, offline muted.
pub fn pool_health_tone(h: PoolHealth) -> (t: Tone)
    ensures
        t == health_tone(h),
{
    match h {
        PoolHealth::Online => Tone::Good,
        PoolHealth::Degraded => Tone::Warning,
        PoolHealth::Faulted | PoolHealth::Removed | PoolHealth::Unavail => Tone::Bad,
        PoolHealth::Offline => Tone::Muted,
    }
}

pub open spec fn state_text(s: VdevState) -> Seq<char> {
    match s {
        VdevState::Online => "ONLINE"@,
        VdevState::Degraded => "DEGRADED"@,
        VdevState::Faulted => "FAULTED"@,
        VdevState::Offline => "OFFLINE"@,
        VdevState::Removed => "REMOVED"@,
        VdevState::Unavail => "UNAVAIL"@,
    }
}

/// The label `zpool status` uses for a vdev's state.
pub fn vdev_state_label(s: VdevState) -> (r: &'static str)
    ensures
        r@ == state_text(s),
{
    match s {
        VdevState::Online => "ONLINE",
        VdevState::Degraded => "DEGRADED",
        VdevState::Faulted => "FAULTED",
        VdevState::Offline => "OFFLINE",
        VdevState::Removed => "REMOVED",
        VdevState::Unavail => "UNAVAIL",
    }
}

pub open spec fn state_tone(s: VdevState) -> Tone {
    match s {
        VdevState::Online => Tone::Good,
        VdevState::Degraded => Tone::Warning,
        VdevState::Faulted | VdevState::Removed | VdevState::Unavail => Tone::Bad,
        VdevState::Offline => Tone::Muted,
    }
}

/// The same colour rule as for pools, applied to a vdev's state.
pub fn vdev_state_tone(s: VdevState) -> (t: Tone)
    ensures
        t == state_tone(s),
{
    match s {
        VdevState::Online => Tone::Good,
        VdevState::Degraded => Tone::Warning,
        VdevState::Faulted | VdevState::Removed | VdevState::Unavail => Tone::Bad,
        VdevState::Offline => Tone::Muted,
    }
}

pub open spec fn kind_text(k: VdevKind) -> Seq<char> {
    match k {
        VdevKind::Root => "root"@,
        VdevKind::Raidz => "raidz"@,
        VdevKind::Mirror => "mirror"@,
        VdevKind::Disk => "disk"@,
        VdevKind::File => "file"@,
        VdevKind::LogGroup => "logs"@,
        VdevKind::LogVdev => "log"@,
        VdevKind::CacheGroup => "cache"@,
        VdevKind::CacheVdev => "cache"@,
        VdevKind::SpareGroup => "spares"@,
        VdevKind::SpareVdev => "spare"@,
    }
}

/// The short name of a vdev's role in the tree.
pub fn vdev_kind_label(k: VdevKind) -> (r: String)
    ensures
        r@ == kind_text(k),
{
    match k {
        VdevKind::Root => string_of("root"),
        VdevKind::Raidz => string_of("raidz"),
        VdevKind::Mirror => string_of("mirror"),
        VdevKind::Disk => string_of("disk"),
        VdevKind::File => string_of("file"),
        VdevKind::LogGroup => string_of("logs"),
        VdevKind::LogVdev => string_of("log"),
        VdevKind::CacheGroup => string_of("cache"),
        VdevKind::CacheVdev => string_of("cache"),
        VdevKind::SpareGroup => string_of("spares"),
        VdevKind::SpareVdev => string_of("spare"),
    }
}

/// An error counter is drawn in the error colour unless it is zero.
pub fn error_tone(n: u64) -> (t: Tone)
    ensures
        t == (if n == 0 {
            Tone::Plain
        } else {
            Tone::Bad
        }),
{
    if n == 0 {
        Tone::Plain
    } else {
        Tone::Bad
    }
}

/// `n` spaces.
pub open spec fn spaces(n: nat) -> Seq<char> {
    Seq::new(n, |i: int| ' ')
}

pub open spec fn truncate_pad_text(s: Seq<char>, width: nat) -> Seq<char> {
    if s.len() <= width {
        s + spaces((width - s.len()) as nat)
    } else {
        s.take(width as int)
    }
}

/// `s` cut to `width` characters, losing its tail, or right-padded with
/// spaces to `width`.
pub fn truncate_pad(s: &str, width: usize) -> (r: String)
    ensures
        r@ == truncate_pad_text(s@, width as nat),
        r@.len() == width,
{
    let v = chars_of(s);
    let mut out = String::new();
    let mut i: usize = 0;
    while i < v.len() && i < width
        invariant
            v@ == s@,
            0 <= i <= v@.len(),
            i <= width,
            out@ == v@.take(i as int),
        decreases width - i,
    {
        push_char(&mut out, v[i]);
        assert(v@.take(i + 1) =~= v@.take(i as int).push(v@[i as int]));
        i = i + 1;
    }
    let ghost cut = out@;
    while i < width
        invariant
            v@ == s@,
            v@.len() <= i <= width || (i == width && cut.len() == width),
            cut == v@.take(cut.len() as int),
            cut.len() <= v@.len(),
            out@ == cut + spaces((i - cut.len()) as nat),
            cut.len() == if v@.len() <= width {
                v@.len()
            } else {
                width as nat
            },
        decreases width - i,
    {
        push_char(&mut out, ' ');
        assert(spaces((i + 1 - cut.len()) as nat) =~= spaces((i - cut.len()) as nat).push(' '));
        i = i + 1;
    }
    proof {
        if v@.len() <= width {
            assert(cut =~= v@);
        } else {
            assert(spaces(0) =~= Seq::<char>::empty());
            assert(out@ =~= cut);
        }
    }
    out
}

pub open spec fn ellipsis_text(s: Seq<char>, max_width: nat) -> Seq<char> {
    if s.len() <= max_width {
        s
    } else if max_width == 0 {
        Seq::empty()
    } else if max_width == 1 {
        seq!['…']
    } else {
        seq!['…'] + s.skip(s.len() - (max_width - 1))
    }
}

/// `s` unchanged when it fits in `max_width` characters, otherwise its
/// last `max_width - 1` characters behind a leading `…`, so the
/// identifying tail of a long device path stays visible.
pub fn truncate_left_with_ellipsis(s: &str, max_width: usize) -> (r: String)
    ensures
        r@ == ellipsis_text(s@, max_width as nat),
{
    let v = chars_of(s);
    let len = v.len();
    if len <= max_width {
        return string_of(s);
    }
    let mut out = String::new();
    if max_width == 0 {
        return out;
    }
    push_char(&mut out, '…');
    if max_width == 1 {
        return out;
    }
    let skip = len - (max_width - 1);
    let mut i = skip;
    while i < len
        invariant
            v@ == s@,
            len == v@.len(),
            skip <= i <= len,
            out@ == seq!['…'] + v@.subrange(skip as int, i as int),
        decreases len - i,
    {
        push_char(&mut out, v[i]);
        assert(v@.subrange(skip as int, i + 1) =~= v@.subrange(skip as int, i as int).push(
            v@[i as int],
        ));
        i = i + 1;
    }
    assert(v@.subrange(skip as int, len as int) =~= v@.skip(skip as int));
    out
}

/// How long ago `then` was at `now` (both in Unix seconds); `None` when
/// `then` lies in the future, as `SystemTime::elapsed` reports it.
pub open spec fn elapsed_since(then: u64, now: u64) -> Option<nat> {
    if now >= then {
        Some((now - then) as nat)
    } else {
        None
    }
}

pub open spec fn relative_time_text(elapsed: Option<nat>) -> Seq<char> {
    match elapsed {
        None => "—"@,
        Some(secs) => {
            let days = secs / 86400;
            if days == 0 {
                "today"@
            } else if days < 30 {
                dec(days) + "d ago"@
            } else if days < 365 {
                dec(days / 30) + " mo ago"@
            } else {
                dec(days / 365) + "y ago"@
            }
        },
    }
}

fn push_relative_time(s: &mut String, then: u64, now: u64)
    ensures
        final(s)@ == old(s)@ + relative_time_text(elapsed_since(then, now)),
{
    if now < then {
        push_str(s, "—");
        return;
    }
    let days = (now - then) / 86_400;
    if days == 0 {
        push_str(s, "today");
    } else if days < 30 {
        push_decimal(s, days);
        push_str(s, "d ago");
    } else if days < 365 {
        push_decimal(s, days / 30);
        push_str(s, " mo ago");
    } else {
        push_decimal(s, days / 365);
        push_str(s, "y ago");
    }
}

/// How long ago `then` was, in whole days, months of 30 days or years of
/// 365 days: `today`, `3d ago`, `2 mo ago`, `1y ago`; `—` for a time in
/// the future.
pub fn format_relative_time(then: u64, now: u64) -> (r: String)
    ensures
        r@ == relative_time_text(elapsed_since(then, now)),
{
    let mut s = String::new();
    push_relative_time(&mut s, then, now);
    s
}

pub open spec fn scrub_cell_text(scrub: ScrubState, now: u64) -> Seq<char> {
    match scrub {
        ScrubState::Never => "—"@,
        ScrubState::Error => "error"@,
        ScrubState::InProgress { progress_pct, is_resilver, .. } => (if is_resilver {
            "resilver "@
        } else {
            "scrub "@
        }) + dec(progress_pct as nat) + "%"@,
        ScrubState::Finished { completed_at, .. } => relative_time_text(
            elapsed_since(completed_at, now),
        ),
    }
}

/// The one-cell summary of a pool's last scan: `scrub 42%`,
/// `resilver 7%`, how long ago it finished, `error`, or `—` for never.
pub fn render_scrub_cell(scrub: &ScrubState, now: u64) -> (r: String)
    ensures
        r@ == scrub_cell_text(*scrub, now),
{
    let mut s = String::new();
    match scrub {
        ScrubState::Never => push_str(&mut s, "—"),
        ScrubState::Error => push_str(&mut s, "error"),
        ScrubState::InProgress { progress_pct, is_resilver, .. } => {
            if *is_resilver {
                push_str(&mut s, "resilver ");
            } else {
                push_str(&mut s, "scrub ");
            }
            push_decimal(&mut s, *progress_pct as u64);
            push_str(&mut s, "%");
        },
        ScrubState::Finished { completed_at, .. } => {
            push_relative_time(&mut s, *completed_at, now);
        },
    }
    s
}

pub open spec fn scrub_header_text(scrub: ScrubState, now: u64) -> Seq<char> {
    match scrub {
        ScrubState::Never => "No scrub recorded"@,
        ScrubState::Error => "Scrub: last run errored or was canceled"@,
        ScrubState::InProgress { progress_pct, eta_seconds, speed_bytes_per_sec, is_resilver } => {
            (if is_resilver {
                "Resilver"@
            } else {
                "Scrub"@
            }) + ": "@ + dec(progress_pct as nat) + "% complete"@ + (match eta_seconds {
                Some(eta) => ", ETA "@ + eta_text(eta as nat),
                None => Seq::empty(),
            }) + (match speed_bytes_per_sec {
                Some(bps) => ", "@ + bytes_text(bps as nat) + "/s"@,
                None => Seq::empty(),
            })
        },
        ScrubState::Finished { completed_at, errors_repaired } => "Last scrub: "@
            + relative_time_text(elapsed_since(completed_at, now)) + ", "@ + dec(
            errors_repaired as nat,
        ) + " errors repaired"@,
    }
}

/// The line the pool detail shows under "Scrub": progress with ETA and
/// speed while running, how long ago and how many errors were repaired
/// once finished.
pub fn format_scrub_header(scrub: &ScrubState, now: u64) -> (r: String)
    ensures
        r@ == scrub_header_text(*scrub, now),
{
    let mut s = String::new();
    match scrub {
        ScrubState::Never => push_str(&mut s, "No scrub recorded"),
        ScrubState::Error => push_str(&mut s, "Scrub: last run errored or was canceled"),
        ScrubState::InProgress { progress_pct, eta_seconds, speed_bytes_per_sec, is_resilver } => {
            if *is_resilver {
                push_str(&mut s, "Resilver");
            } else {
                push_str(&mut s, "Scrub");
            }
            push_str(&mut s, ": ");
            push_decimal(&mut s, *progress_pct as u64);
            push_str(&mut s, "% complete");
            let ghost head = s@;
            match eta_seconds {
                Some(eta) => {
                    push_str(&mut s, ", ETA ");
                    let e = format_eta(*eta);
                    push_str(&mut s, e.as_str());
                },
                None => {
                    assert(s@ =~= head + Seq::<char>::empty());
                },
            }
            let ghost mid = s@;
            match speed_bytes_per_sec {
                Some(bps) => {
                    push_str(&mut s, ", ");
                    let b = format_bytes(*bps);
                    push_str(&mut s, b.as_str());
                    push_str(&mut s, "/s");
                },
                None => {
                    assert(s@ =~= mid + Seq::<char>::empty());
                },
            }
        },
        ScrubState::Finished { completed_at, errors_repaired } => {
            push_str(&mut s, "Last scrub: ");
            push_relative_time(&mut s, *completed_at, now);
            push_str(&mut s, ", ");
            push_decimal(&mut s, *errors_repaired);
            push_str(&mut s, " errors repaired");
        },
    }
    s
}

pub open spec fn fragmentation_text(frag: Option<u8>) -> Seq<char> {
    match frag {
        Some(v) => dec(v as nat) + "%"@,
        None => "—"@,
    }
}

/// A pool's fragmentation as `8%`, or `—` when libzfs did not report it.
pub fn format_fragmentation(frag: Option<u8>) -> (r: String)
    ensures
        r@ == fragmentation_text(frag),
{
    let mut s = String::new();
    match frag {
        Some(v) => {
            push_decimal(&mut s, v as u64);
            push_str(&mut s, "%");
        },
        None => push_str(&mut s, "—"),
    }
    s
}

pub open spec fn opt_bytes_text(b: Option<u64>) -> Seq<char> {
    match b {
        Some(v) => bytes_text(v as nat),
        None => "—"@,
    }
}

/// A size, or `—` when unset.
pub fn opt_bytes(b: Option<u64>) -> (r: String)
    ensures
        r@ == opt_bytes_text(b),
{
    match b {
        Some(v) => format_bytes(v),
        None => string_of("—"),
    }
}

/// How full a quota is, which decides how its cell is drawn.
#[derive(Copy, Clone, Debug, PartialEq, Eq, Structural)]
pub enum QuotaLevel {
    /// Below 75% used (default style).
    Normal,
    /// 75% to 89% used (yellow).
    Warning,
    /// 90% or more used (bold red).
    Critical,
}

/// Percent of `limit` that `used` takes, rounded down and capped at 999.
pub open spec fn quota_pct(limit: u64, used: u64) -> nat {
    if limit == 0 {
        0
    } else {
        let p = sat_mul(used, 100) / limit;
        if p > 999 {
            999
        } else {
            p as nat
        }
    }
}

pub open spec fn quota_level(pct: nat) -> QuotaLevel {
    if pct >= 90 {
        QuotaLevel::Critical
    } else if pct >= 75 {
        QuotaLevel::Warning
    } else {
        QuotaLevel::Normal
    }
}

/// The level a quota cell is drawn at; `Normal` when no quota is set.
pub open spec fn quota_cell_level(limit: Option<u64>, used: u64) -> QuotaLevel {
    match limit {
        None => QuotaLevel::Normal,
        Some(l) => quota_level(quota_pct(l, used)),
    }
}

pub open spec fn quota_text(limit: Option<u64>, used: u64) -> Seq<char> {
    match limit {
        None => "—"@,
        Some(l) => bytes_text(l as nat) + "  ("@ + bytes_text(used as nat) + " used, "@ + dec(
            quota_pct(l, used),
        ) + "%)"@,
    }
}

/// The quota cell: `—` when no quota is set, otherwise
/// `<limit>  (<used> used, <pct>%)` with its level.
pub fn format_quota_value(limit: Option<u64>, used: u64) -> (r: (String, QuotaLevel))
    ensures
        r.0@ == quota_text(limit, used),
        r.1 == quota_cell_level(limit, used),
{
    match limit {
        None => (string_of("—"), QuotaLevel::Normal),
        Some(l) => {
            let pct: u64 = if l == 0 {
                0
            } else {
                let p = saturating_mul(used, 100) / l;
                if p > 999 {
                    999
                } else {
                    p
                }
            };
            let level = if pct >= 90 {
                QuotaLevel::Critical
            } else if pct >= 75 {
                QuotaLevel::Warning
            } else {
                QuotaLevel::Normal
            };
            let mut s = format_bytes(l);
            push_str(&mut s, "  (");
            let u = format_bytes(used);
            push_str(&mut s, u.as_str());
            push_str(&mut s, " used, ");
            push_decimal(&mut s, pct);
            push_str(&mut s, "%)");
            (s, level)
        },
    }
}

/// A ratio given in hundredths with two decimals: 142 is `1.42`.
pub open spec fn ratio_text(x100: nat) -> Seq<char> {
    dec(x100 / 100) + "."@ + pad2(x100 % 100)
}

fn push_ratio(s: &mut String, x100: u64)
    ensures
        final(s)@ == old(s)@ + ratio_text(x100 as nat),
{
    push_decimal(s, x100 / 100);
    push_str(s, ".");
    push_pad2(s, x100 % 100);
}

/// What the pools panels show instead of a table: the libzfs error when
/// libzfs could not be opened, a notice when no pool is imported.
pub open spec fn pools_notice_text(init_error: Option<Seq<char>>, n_pools: nat) -> Option<
    (Seq<char>, Tone),
> {
    match init_error {
        Some(e) => Some(("libzfs unavailable: "@ + e, Tone::Bad)),
        None => if n_pools == 0 {
            Some(("(no pools imported)"@, Tone::Muted))
        } else {
            None
        },
    }
}

pub fn pools_notice(init_error: &Option<String>, n_pools: usize) -> (r: Option<(String, Tone)>)
    ensures
        r is Some <==> pools_notice_text(
            match init_error {
                Some(e) => Some(e@),
                None => None,
            },
            n_pools as nat,
        ) is Some,
        r matches Some(x) ==> pools_notice_text(
            match init_error {
                Some(e) => Some(e@),
                None => None,
            },
            n_pools as nat,
        ) == Some((x.0@, x.1)),
{
    match init_error {
        Some(e) => {
            let mut s = string_of("libzfs unavailable: ");
            push_str(&mut s, e.as_str());
            Some((s, Tone::Bad))
        },
        None => {
            if n_pools == 0 {
                Some((string_of("(no pools imported)"), Tone::Muted))
            } else {
                None
            }
        },
    }
}

/// The key hints in the footer, as (key, what it does) pairs.
pub open spec fn footer_text(tab: Tab, view: PoolsView) -> Seq<(Seq<char>, Seq<char>)> {
    let head = seq![("q"@, ": quit  "@), ("1/2/3"@, ": tabs  "@)];
    let tail = seq![("r"@, ": refresh"@)];
    if tab == Tab::Pools {
        match view {
            PoolsView::List { .. } => head + seq![("↑↓"@, ": select  "@), ("enter"@, ": details  "@)]
                + tail,
            PoolsView::Detail { .. } => head + seq![("esc"@, ": back  "@)] + tail,
        }
    } else {
        head + tail
    }
}

/// The footer's key hints: quit, tabs and refresh everywhere, plus
/// selection keys on the pool list and `esc` in the pool detail.
pub fn footer_hints(tab: Tab, view: PoolsView) -> (r: Vec<(&'static str, &'static str)>)
    ensures
        r@.len() == footer_text(tab, view).len(),
        forall|i: int|
            0 <= i < r@.len() ==> (#[trigger] r@[i]).0@ == footer_text(tab, view)[i].0
                && r@[i].1@ == footer_text(tab, view)[i].1,
{
    let mut v: Vec<(&'static str, &'static str)> = Vec::new();
    v.push(("q", ": quit  "));
    v.push(("1/2/3", ": tabs  "));
    let on_pools = match tab {
        Tab::Pools => true,
        _ => false,
    };
    if on_pools {
        match view {
            PoolsView::List { .. } => {
                v.push(("↑↓", ": select  "));
                v.push(("enter", ": details  "));
            },
            PoolsView::Detail { .. } => {
                v.push(("esc", ": back  "));
            },
        }
    }
    v.push(("r", ": refresh"));
    let ghost f = footer_text(tab, view);
    assert(v@.len() == f.len());
    assert forall|i: int| 0 <= i < v@.len() implies (#[trigger] v@[i]).0@ == f[i].0 && v@[i].1@
        == f[i].1 by {
        if on_pools {
            match view {
                PoolsView::List { .. } => {
                    assert(f == seq![("q"@, ": quit  "@), ("1/2/3"@, ": tabs  "@), ("↑↓"@, ": select  "@), ("enter"@, ": details  "@), ("r"@, ": refresh"@)]);
                },
                PoolsView::Detail { .. } => {
                    assert(f == seq![("q"@, ": quit  "@), ("1/2/3"@, ": tabs  "@), ("esc"@, ": back  "@), ("r"@, ": refresh"@)]);
                },
            }
        } else {
            assert(f == seq![("q"@, ": quit  "@), ("1/2/3"@, ": tabs  "@), ("r"@, ": refresh"@)]);
        }
    }
    v
}

pub open spec fn age_text(elapsed: Option<nat>) -> Seq<char> {
    match elapsed {
        None => Seq::empty(),
        Some(secs) => {
            let days = secs / 86400;
            if days < 30 {
                "("@ + dec(days) + "d ago)"@
            } else if days < 365 {
                "("@ + dec(days / 30) + " mo ago)"@
            } else if (days % 365) / 30 > 0 {
                "("@ + dec(days / 365) + "y "@ + dec((days % 365) / 30) + "mo ago)"@
            } else {
                "("@ + dec(days / 365) + "y ago)"@
            }
        },
    }
}

pub open spec fn time_with_relative_text(then: u64, now: u64) -> Seq<char> {
    date_text(civil_from_days((then / 86400) as int)) + "  "@ + age_text(elapsed_since(then, now))
}

fn push_time_with_relative(s: &mut String, then: u64, now: u64)
    ensures
        final(s)@ == old(s)@ + time_with_relative_text(then, now),
{
    let date = format_unix_date(then);
    push_str(s, date.as_str());
    push_str(s, "  ");
    let ghost head = s@;
    if now >= then {
        let days = (now - then) / 86_400;
        if days < 30 {
            push_str(s, "(");
            push_decimal(s, days);
            push_str(s, "d ago)");
        } else if days < 365 {
            push_str(s, "(");
            push_decimal(s, days / 30);
            push_str(s, " mo ago)");
        } else {
            let y = days / 365;
            let m = (days % 365) / 30;
            push_str(s, "(");
            push_decimal(s, y);
            if m > 0 {
                push_str(s, "y ");
                push_decimal(s, m);
                push_str(s, "mo ago)");
            } else {
                push_str(s, "y ago)");
            }
        }
    } else {
        assert(s@ =~= head + Seq::<char>::empty());
    }
}

/// A creation time as its UTC date followed by how long ago it was:
/// `2024-03-15  (12d ago)`, `(3 mo ago)`, `(1y 2mo ago)`, `(2y ago)`; the
/// age is left out for a time in the future.
pub fn format_time_with_relative(then: u64, now: u64) -> (r: String)
    ensures
        r@ == time_with_relative_text(then, now),
{
    let mut s = String::new();
    push_time_with_relative(&mut s, then, now);
    s
}

pub open spec fn dataset_kind_text(k: DatasetKind) -> Seq<char> {
    match k {
        DatasetKind::Filesystem => "Filesystem"@,
        DatasetKind::Volume => "Volume"@,
    }
}

/// The three header lines of the dataset detail: kind and space, where it
/// is mounted (or its device node for a volume), and when it was created.
pub open spec fn dataset_header_text(n: DatasetNode, now: u64) -> (Seq<char>, Seq<char>, Seq<char>) {
    (
        dataset_kind_text(n.kind) + "    "@ + bytes_text(n.used_bytes as nat) + " used    "@
            + bytes_text(n.refer_bytes as nat) + " referenced    "@ + bytes_text(
            n.available_bytes as nat,
        ) + " available"@,
        match n.kind {
            DatasetKind::Filesystem => match n.properties.mountpoint {
                Some(m) => "Mountpoint: "@ + m@,
                None => "Mountpoint: (none)"@,
            },
            DatasetKind::Volume => "Device: /dev/zvol/"@ + n.name@,
        },
        match n.properties.creation_time {
            Some(t) => "Created:    "@ + time_with_relative_text(t, now),
            None => "Created:    (unknown)"@,
        },
    )
}

pub fn dataset_header_lines(n: &DatasetNode, now: u64) -> (r: (String, String, String))
    ensures
        (r.0@, r.1@, r.2@) == dataset_header_text(*n, now),
{
    let mut l1 = match n.kind {
        DatasetKind::Filesystem => string_of("Filesystem"),
        DatasetKind::Volume => string_of("Volume"),
    };
    push_str(&mut l1, "    ");
    let b = format_bytes(n.used_bytes);
    push_str(&mut l1, b.as_str());
    push_str(&mut l1, " used    ");
    let b = format_bytes(n.refer_bytes);
    push_str(&mut l1, b.as_str());
    push_str(&mut l1, " referenced    ");
    let b = format_bytes(n.available_bytes);
    push_str(&mut l1, b.as_str());
    push_str(&mut l1, " available");
    let l2 = match n.kind {
        DatasetKind::Filesystem => match &n.properties.mountpoint {
            Some(m) => {
                let mut l = string_of("Mountpoint: ");
                push_str(&mut l, m.as_str());
                l
            },
            None => string_of("Mountpoint: (none)"),
        },
        DatasetKind::Volume => {
            let mut l = string_of("Device: /dev/zvol/");
            push_str(&mut l, n.name.as_str());
            l
        },
    };
    let l3 = match n.properties.creation_time {
        Some(t) => {
            let mut l = string_of("Created:    ");
            push_time_with_relative(&mut l, t, now);
            l
        },
        None => string_of("Created:    (unknown)"),
    };
    (l1, l2, l3)
}

/// One row of the dataset property grid.
pub struct PropertyRow {
    pub name: &'static str,
    pub value: String,
    pub level: QuotaLevel,
}

pub open spec fn rows_view(v: Seq<PropertyRow>) -> Seq<(Seq<char>, Seq<char>, QuotaLevel)> {
    v.map_values(|r: PropertyRow| (r.name@, r.value@, r.level))
}

pub open spec fn opt_row(name: Seq<char>, value: Option<Seq<char>>) -> Seq<
    (Seq<char>, Seq<char>, QuotaLevel),
> {
    match value {
        Some(v) => seq![(name, v, QuotaLevel::Normal)],
        None => Seq::empty(),
    }
}

pub open spec fn on_off_text(b: bool) -> Seq<char> {
    if b {
        "on"@
    } else {
        "off"@
    }
}

/// The rows that depend on the dataset's kind: record size, atime and
/// snapdir for a filesystem, volume block size for a volume.
pub open spec fn kind_rows_text(n: DatasetNode) -> Seq<(Seq<char>, Seq<char>, QuotaLevel)> {
    let p = n.properties;
    match n.kind {
        DatasetKind::Filesystem => opt_row(
            "Recordsize"@,
            match p.recordsize_bytes {
                Some(v) => Some(bytes_text(v as nat)),
                None => None,
            },
        ) + opt_row(
            "atime"@,
            match p.atime_on {
                Some(b) => Some(on_off_text(b)),
                None => None,
            },
        ) + opt_row(
            "snapdir"@,
            match p.snapdir_visible {
                Some(b) => Some(
                    if b {
                        "visible"@
                    } else {
                        "hidden"@
                    },
                ),
                None => None,
            },
        ),
        DatasetKind::Volume => opt_row(
            "Volblocksize"@,
            match p.volblocksize_bytes {
                Some(v) => Some(bytes_text(v as nat)),
                None => None,
            },
        ),
    }
}

/// The quota and reservation rows, which are always shown.
pub open spec fn space_rows_text(n: DatasetNode) -> Seq<(Seq<char>, Seq<char>, QuotaLevel)> {
    let p = n.properties;
    seq![
        ("Quota"@, quota_text(p.quota_bytes, n.used_bytes), quota_cell_level(p.quota_bytes, n.used_bytes)),
        ("Refquota"@, quota_text(p.refquota_bytes, n.refer_bytes), quota_cell_level(p.refquota_bytes, n.refer_bytes)),
        ("Reservation"@, opt_bytes_text(p.reservation_bytes), QuotaLevel::Normal),
        ("Refreservation"@, opt_bytes_text(p.refreservation_bytes), QuotaLevel::Normal),
    ]
}

/// Dedup, copies and encryption, each when set.
pub open spec fn trailing_rows_text(n: DatasetNode) -> Seq<(Seq<char>, Seq<char>, QuotaLevel)> {
    let p = n.properties;
    opt_row(
        "Dedup"@,
        match p.dedup_on {
            Some(b) => Some(on_off_text(b)),
            None => None,
        },
    ) + opt_row(
        "Copies"@,
        match p.copies {
            Some(c) => Some(dec(c as nat)),
            None => None,
        },
    ) + opt_row(
        "Encryption"@,
        match p.encryption_algorithm {
            Some(e) => Some(e@),
            None => None,
        },
    )
}

/// The rows of the dataset property grid, in order: compression with its
/// ratio, the kind-specific rows, sync, the two quota rows, the two
/// reservation rows, dedup, copies and encryption. Rows of unset
/// optional properties are left out; compression, quotas and
/// reservations always have a row.
pub open spec fn property_rows_text(n: DatasetNode) -> Seq<(Seq<char>, Seq<char>, QuotaLevel)> {
    let p = n.properties;
    let compression = match p.compression_algorithm {
        Some(a) => a@ + "  ("@ + ratio_text(n.compression_ratio_x100 as nat) + "x ratio)"@,
        None => "—"@,
    };
    seq![("Compression"@, compression, QuotaLevel::Normal)] + kind_rows_text(n) + opt_row(
        "Sync"@,
        match p.sync_mode {
            Some(s) => Some(s@),
            None => None,
        },
    ) + space_rows_text(n) + trailing_rows_text(n)
}

fn push_row(v: &mut Vec<PropertyRow>, name: &'static str, value: String, level: QuotaLevel)
    ensures
        rows_view(final(v)@) == rows_view(old(v)@) + seq![(name@, value@, level)],
{
    let ghost before = v@;
    v.push(PropertyRow { name, value, level });
    assert(rows_view(v@) =~= rows_view(before) + seq![(name@, value@, level)]);
}

fn push_opt_row(v: &mut Vec<PropertyRow>, name: &'static str, value: Option<String>)
    ensures
        rows_view(final(v)@) == rows_view(old(v)@) + opt_row(
            name@,
            match value {
                Some(s) => Some(s@),
                None => None,
            },
        ),
{
    match value {
        Some(s) => push_row(v, name, s, QuotaLevel::Normal),
        None => {
            assert(rows_view(v@) =~= rows_view(v@) + Seq::<(Seq<char>, Seq<char>, QuotaLevel)>::empty());
        },
    }
}

fn on_off(b: bool) -> (r: String)
    ensures
        r@ == on_off_text(b),
{
    if b {
        string_of("on")
    } else {
        string_of("off")
    }
}

fn push_kind_rows(v: &mut Vec<PropertyRow>, n: &DatasetNode)
    ensures
        rows_view(final(v)@) == rows_view(old(v)@) + kind_rows_text(*n),
{
    let p = &n.properties;
    let ghost start = rows_view(v@);
    match n.kind {
        DatasetKind::Filesystem => {
            push_opt_row(
                v,
                "Recordsize",
                match p.recordsize_bytes {
                    Some(b) => Some(format_bytes(b)),
                    None => None,
                },
            );
            push_opt_row(
                v,
                "atime",
                match p.atime_on {
                    Some(b) => Some(on_off(b)),
                    None => None,
                },
            );
            push_opt_row(
                v,
                "snapdir",
                match p.snapdir_visible {
                    Some(b) => Some(
                        if b {
                            string_of("visible")
                        } else {
                            string_of("hidden")
                        },
                    ),
                    None => None,
                },
            );
            assert(rows_view(v@) =~= start + kind_rows_text(*n));
        },
        DatasetKind::Volume => {
            push_opt_row(
                v,
                "Volblocksize",
                match p.volblocksize_bytes {
                    Some(b) => Some(format_bytes(b)),
                    None => None,
                },
            );
        },
    }
}

fn push_space_rows(v: &mut Vec<PropertyRow>, n: &DatasetNode)
    ensures
        rows_view(final(v)@) == rows_view(old(v)@) + space_rows_text(*n),
{
    let p = &n.properties;
    let ghost start = rows_view(v@);
    let (q, ql) = format_quota_value(p.quota_bytes, n.used_bytes);
    push_row(v, "Quota", q, ql);
    let (rq, rql) = format_quota_value(p.refquota_bytes, n.refer_bytes);
    push_row(v, "Refquota", rq, rql);
    push_row(v, "Reservation", opt_bytes(p.reservation_bytes), QuotaLevel::Normal);
    push_row(v, "Refreservation", opt_bytes(p.refreservation_bytes), QuotaLevel::Normal);
    assert(rows_view(v@) =~= start + space_rows_text(*n));
}

fn push_trailing_rows(v: &mut Vec<PropertyRow>, n: &DatasetNode)
    ensures
        rows_view(final(v)@) == rows_view(old(v)@) + trailing_rows_text(*n),
{
    let p = &n.properties;
    let ghost start = rows_view(v@);
    push_opt_row(
        v,
        "Dedup",
        match p.dedup_on {
            Some(b) => Some(on_off(b)),
            None => None,
        },
    );
    push_opt_row(
        v,
        "Copies",
        match p.copies {
            Some(c) => {
                let mut s = String::new();
                push_decimal(&mut s, c as u64);
                Some(s)
            },
            None => None,
        },
    );
    push_opt_row(
        v,
        "Encryption",
        match &p.encryption_algorithm {
            Some(e) => Some(string_of(e.as_str())),
            None => None,
        },
    );
    assert(rows_view(v@) =~= start + trailing_rows_text(*n));
}

/// The property grid of the dataset detail.
pub fn dataset_property_rows(n: &DatasetNode) -> (r: Vec<PropertyRow>)
    ensures
        rows_view(r@) == property_rows_text(*n),
{
    let p = &n.properties;
    let mut v: Vec<PropertyRow> = Vec::new();
    let compression = match &p.compression_algorithm {
        Some(a) => {
            let mut s = string_of(a.as_str());
            push_str(&mut s, "  (");
            push_ratio(&mut s, n.compression_ratio_x100);
            push_str(&mut s, "x ratio)");
            s
        },
        None => string_of("—"),
    };
    assert(rows_view(v@) =~= Seq::<(Seq<char>, Seq<char>, QuotaLevel)>::empty());
    push_row(&mut v, "Compression", compression, QuotaLevel::Normal);
    push_kind_rows(&mut v, n);
    push_opt_row(
        &mut v,
        "Sync",
        match &p.sync_mode {
            Some(s) => Some(string_of(s.as_str())),
            None => None,
        },
    );
    push_space_rows(&mut v, n);
    push_trailing_rows(&mut v, n);
    v
}

/// `s` right-padded with spaces to at least `w` characters (`{:<w}`).
pub open spec fn pad_right(s: Seq<char>, w: nat) -> Seq<char> {
    if s.len() < w {
        s + spaces((w - s.len()) as nat)
    } else {
        s
    }
}

fn pad_right_exec(s: &mut String, w: usize)
    ensures
        final(s)@ == pad_right(old(s)@, w as nat),
{
    let ghost start = s@;
    let n = chars_of(s.as_str()).len();
    let mut i = n;
    while i < w
        invariant
            n == start.len(),
            n <= i <= w || (i == n && n >= w),
            s@ == start + spaces((i - n) as nat),
        decreases w - i,
    {
        push_char(s, ' ');
        assert(spaces((i + 1 - n) as nat) =~= spaces((i - n) as nat).push(' '));
        i = i + 1;
    }
    proof {
        if n >= w {
            assert(s@ =~= start);
        }
    }
}

/// The cells of one vdev row of the pool tree, each already padded to its
/// column: the indent for the depth, the name cut to what is left of the
/// 14-column name slot, state (blank for group headers), kind, size, and
/// the error counters with their tones.
pub struct VdevRowCells {
    pub indent: String,
    pub name: String,
    pub state: String,
    pub state_tone: Tone,
    pub kind: String,
    pub size: String,
    /// Read, write and checksum errors on a wide terminal; their sum on a
    /// narrow one. Blank for group headers.
    pub counters: Vec<(String, Tone)>,
}

/// Width of the name cell at `depth`: the 14-column slot less the indent.
pub open spec fn name_width(depth: u8) -> nat {
    if 2 * depth >= 14 {
        0
    } else {
        (14 - 2 * depth) as nat
    }
}

pub open spec fn counter_cell(group: bool, n: nat) -> (Seq<char>, Tone) {
    (
        pad_right(
            if group {
                Seq::empty()
            } else {
                dec(n)
            },
            6,
        ),
        if n == 0 {
            Tone::Plain
        } else {
            Tone::Bad
        },
    )
}

pub open spec fn counters_text(node: VdevNode, wide: bool) -> Seq<(Seq<char>, Tone)> {
    let group = is_group_kind(node.kind);
    if wide {
        seq![
            counter_cell(group, node.errors.read as nat),
            counter_cell(group, node.errors.write as nat),
            counter_cell(group, node.errors.checksum as nat),
        ]
    } else {
        seq![counter_cell(group, node.errors.total())]
    }
}

fn counter_cell_exec(group: bool, n: u64) -> (r: (String, Tone))
    ensures
        (r.0@, r.1) == counter_cell(group, n as nat),
{
    let mut s = String::new();
    if !group {
        push_decimal(&mut s, n);
    } else {
        assert(s@ =~= Seq::<char>::empty());
    }
    pad_right_exec(&mut s, 6);
    (s, error_tone(n))
}

/// The cells of `node`'s row at tree depth `depth`.
pub fn vdev_row_cells(node: &VdevNode, depth: u8, wide: bool) -> (r: VdevRowCells)
    requires
        node.errors.total() <= u64::MAX,
    ensures
        r.indent@ == spaces(2 * depth as nat),
        r.name@ == truncate_pad_text(node.name@, name_width(depth)),
        r.state@ == pad_right(
            if is_group_kind(node.kind) {
                Seq::empty()
            } else {
                state_text(node.state)
            },
            10,
        ),
        r.state_tone == state_tone(node.state),
        r.kind@ == truncate_pad_text(kind_text(node.kind), 8),
        r.size@ == truncate_pad_text(
            match node.size_bytes {
                Some(b) => bytes_text(b as nat),
                None => Seq::empty(),
            },
            8,
        ),
        r.counters@.len() == counters_text(*node, wide).len(),
        forall|i: int|
            0 <= i < r.counters@.len() ==> ((#[trigger] r.counters@[i]).0@, r.counters@[i].1)
                == counters_text(*node, wide)[i],
{
    let mut indent = String::new();
    let mut i: u8 = 0;
    while i < depth
        invariant
            i <= depth,
            indent@ == spaces(2 * i as nat),
        decreases depth - i,
    {
        push_char(&mut indent, ' ');
        push_char(&mut indent, ' ');
        assert(spaces(2 * (i + 1) as nat) =~= spaces(2 * i as nat).push(' ').push(' '));
        i = i + 1;
    }
    let width: usize = if depth >= 7 {
        0
    } else {
        14 - 2 * (depth as usize)
    };
    let name = truncate_pad(node.name.as_str(), width);
    let group = is_group(node.kind);
    let mut state = if group {
        String::new()
    } else {
        string_of(vdev_state_label(node.state))
    };
    proof {
        if group {
            assert(state@ =~= Seq::<char>::empty());
        }
    }
    pad_right_exec(&mut state, 10);
    let kind_label = vdev_kind_label(node.kind);
    let kind = truncate_pad(kind_label.as_str(), 8);
    let size_label = match node.size_bytes {
        Some(b) => format_bytes(b),
        None => String::new(),
    };
    let size = truncate_pad(size_label.as_str(), 8);
    let mut counters: Vec<(String, Tone)> = Vec::new();
    if wide {
        counters.push(counter_cell_exec(group, node.errors.read));
        counters.push(counter_cell_exec(group, node.errors.write));
        counters.push(counter_cell_exec(group, node.errors.checksum));
    } else {
        counters.push(counter_cell_exec(group, node.errors.sum()));
    }
    VdevRowCells {
        indent,
        name,
        state,
        state_tone: vdev_state_tone(node.state),
        kind,
        size,
        counters,
    }
}

/// The glyph before a dataset's name in the tree: `V` for a volume, `▼`
/// or `▶` for an expanded or collapsed filesystem with children, a blank
/// for a filesystem without.
pub open spec fn dataset_glyph(kind: DatasetKind, has_children: bool, expanded: bool) -> char {
    match kind {
        DatasetKind::Volume => 'V',
        DatasetKind::Filesystem => if !has_children {
            ' '
        } else if expanded {
            '▼'
        } else {
            '▶'
        },
    }
}

/// The name cell of a dataset tree row: four spaces per level of depth,
/// the glyph, a space, then the full dataset name.
pub fn dataset_row_name(node: &DatasetNode, depth: usize, is_expanded: bool) -> (r: String)
    requires
        4 * depth <= usize::MAX,
    ensures
        r@ == spaces(4 * depth as nat) + seq![
            dataset_glyph(node.kind, node.children@.len() > 0, is_expanded),
            ' ',
        ] + node.name@,
{
    let mut s = String::new();
    let n = 4 * depth;
    let mut i: usize = 0;
    while i < n
        invariant
            i <= n,
            s@ == spaces(i as nat),
        decreases n - i,
    {
        push_char(&mut s, ' ');
        assert(spaces((i + 1) as nat) =~= spaces(i as nat).push(' '));
        i = i + 1;
    }
    let glyph = match node.kind {
        DatasetKind::Volume => 'V',
        DatasetKind::Filesystem => {
            if !node.has_children() {
                ' '
            } else if is_expanded {
                '▼'
            } else {
                '▶'
            }
        },
    };
    push_char(&mut s, glyph);
    push_char(&mut s, ' ');
    push_str(&mut s, node.name.as_str());
    s
}

/// A compression ratio given in hundredths as `1.42x`.
pub fn compression_ratio_text(x100: u64) -> (r: String)
    ensures
        r@ == ratio_text(x100 as nat) + "x"@,
{
    let mut s = String::new();
    push_ratio(&mut s, x100);
    push_str(&mut s, "x");
    s
}

/// The Quota row of a dataset's property grid measures the quota against
/// the bytes the dataset uses (children and snapshots included), and the
/// Refquota row measures the refquota against the bytes it references,
/// each exactly as `format_quota_value` renders it.
pub proof fn lemma_quota_rows_measure_their_own_bytes(n: DatasetNode)
    ensures
        exists|i: int|
            0 <= i < property_rows_text(n).len() && #[trigger] property_rows_text(n)[i] == (
                "Quota"@,
                quota_text(n.properties.quota_bytes, n.used_bytes),
                quota_cell_level(n.properties.quota_bytes, n.used_bytes),
            ),
        exists|i: int|
            0 <= i < property_rows_text(n).len() && #[trigger] property_rows_text(n)[i] == (
                "Refquota"@,
                quota_text(n.properties.refquota_bytes, n.refer_bytes),
                quota_cell_level(n.properties.refquota_bytes, n.refer_bytes),
            ),
{
    let p = n.properties;
    let head = seq![(
        "Compression"@,
        match p.compression_algorithm {
            Some(a) => a@ + "  ("@ + ratio_text(n.compression_ratio_x100 as nat) + "x ratio)"@,
            None => "—"@,
        },
        QuotaLevel::Normal,
    )] + kind_rows_text(n) + opt_row(
        "Sync"@,
        match p.sync_mode {
            Some(s) => Some(s@),
            None => None,
        },
    );
    let rows = property_rows_text(n);
    assert(rows == head + space_rows_text(n) + trailing_rows_text(n));
    let k = head.len() as int;
    assert(rows[k] == space_rows_text(n)[0]);
    assert(rows[k + 1] == space_rows_text(n)[1]);
}

/// Changing only the bytes a dataset uses leaves its Refquota row as it
/// was: that row depends on the referenced bytes, not on the used ones.
pub proof fn lemma_refquota_row_ignores_used_bytes(n: DatasetNode, used: u64)
    ensures
        ({
            let m = DatasetNode { used_bytes: used, ..n };
            &&& property_rows_text(m).len() == property_rows_text(n).len()
            &&& forall|i: int|
                0 <= i < property_rows_text(n).len() && (#[trigger] property_rows_text(n)[i]).0
                    == "Refquota"@ ==> property_rows_text(m)[i] == property_rows_text(n)[i]
        }),
{
    let m = DatasetNode { used_bytes: used, ..n };
    reveal_strlit("Quota");
    reveal_strlit("Refquota");
    assert("Quota"@ != "Refquota"@) by {
        assert("Quota"@.len() != "Refquota"@.len());
    }
    assert(kind_rows_text(m) == kind_rows_text(n));
    assert(trailing_rows_text(m) == trailing_rows_text(n));
    let sn = space_rows_text(n);
    let sm = space_rows_text(m);
    assert(sm[1] == sn[1] && sm[2] == sn[2] && sm[3] == sn[3]);
    let before = property_rows_text(n).len() - sn.len() - trailing_rows_text(n).len();
    assert forall|i: int|
        0 <= i < property_rows_text(n).len() && (#[trigger] property_rows_text(n)[i]).0
            == "Refquota"@ implies property_rows_text(m)[i] == property_rows_text(n)[i] by {
        if i == before {
            assert(property_rows_text(n)[i] == sn[0]);
        }
    }
}

} // verus!
