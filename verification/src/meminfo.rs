//! System memory: the segments of the RAM bar, the `MemSource` interface
//! each OS implements, and the Linux `/proc/meminfo` parser.

pub mod freebsd;

use vstd::prelude::*;

verus! {

/// Colour of a RAM-bar segment; the terminal layer maps it to its palette.
#[derive(Copy, Clone, Debug, PartialEq, Eq, Structural)]
pub enum SegmentColor {
    /// An xterm-256 palette index.
    Indexed(u8),
    Magenta,
    Cyan,
    Green,
    Yellow,
    Blue,
}

/// One labelled slice of the RAM bar.
#[derive(Copy, Clone, Debug)]
pub struct RamSegment {
    pub label: &'static str,
    pub color: SegmentColor,
    pub bytes: u64,
}

/// What the RAM bar shows: total memory and the used slices, left to right.
#[derive(Clone, Debug)]
pub struct MemSnapshot {
    pub total_bytes: u64,
    pub segments: Vec<RamSegment>,
}

/// A per-OS source of memory figures.
pub trait MemSource {
    /// Whether `self` is what one `refresh` that returned `outcome` can
    /// make of `before`. Every
    /// source states this of its own `refresh`; a source that says no more
    /// is taken to allow any outcome.
    closed spec fn refreshed_from(&self, before: &Self, outcome: Result<(), String>) -> bool {
        true
    }

    /// Re-reads the underlying counters. A failure is not fatal: the last
    /// reading stays in use.
    fn refresh(&mut self) -> (r: Result<(), String>)
        ensures
            final(self).refreshed_from(old(self), r),
    ;

    /// The RAM-bar segments for the last reading, with the ARC's own
    /// segments (`arc_segments`) placed among them; `None` when there is no
    /// usable reading.
    fn snapshot(&self, arc_segments: &[RamSegment]) -> Option<MemSnapshot>;
}

} // verus!

use crate::kv::{lookup, lookup_all, LineStyle};
use crate::meminfo::freebsd::{lemma_segments_total_prefix, segments_total};
use crate::text::{chars_of, push_str, string_of};

verus! {

/// Figures from `/proc/meminfo`, in kB.
#[derive(Debug, Clone)]
pub struct MemInfo {
    pub total: u64,
    pub free: u64,
    pub available: u64,
    pub buffers: u64,
    pub cached: u64,
    pub s_reclaimable: u64,
}

/// A required `/proc/meminfo` field is missing.
#[derive(Debug, Clone)]
pub struct MissingField {
    pub key: String,
}

impl MissingField {
    /// `missing field '<key>' in meminfo`.
    pub fn message(&self) -> (m: String)
        ensures
            m@ == "missing field '"@ + self.key@ + "' in meminfo"@,
    {
        let mut m = string_of("missing field '");
        push_str(&mut m, self.key.as_str());
        push_str(&mut m, "' in meminfo");
        m
    }
}

/// The value of `key` in `/proc/meminfo` text.
pub open spec fn meminfo_field(content: Seq<char>, key: Seq<char>) -> Option<u64> {
    lookup(LineStyle::Meminfo, content, key)
}

/// What `MemInfo::parse` makes of `content`: the five required fields in
/// the order they are checked, and `SReclaimable` (0 when absent); or the
/// first required key that is missing.
pub open spec fn meminfo_of(content: Seq<char>) -> Result<MemInfo, Seq<char>> {
    let f = |k: Seq<char>| meminfo_field(content, k);
    if f("MemTotal"@) is None {
        Err("MemTotal"@)
    } else if f("MemFree"@) is None {
        Err("MemFree"@)
    } else if f("MemAvailable"@) is None {
        Err("MemAvailable"@)
    } else if f("Buffers"@) is None {
        Err("Buffers"@)
    } else if f("Cached"@) is None {
        Err("Cached"@)
    } else {
        Ok(
            MemInfo {
                total: f("MemTotal"@)->0,
                free: f("MemFree"@)->0,
                available: f("MemAvailable"@)->0,
                buffers: f("Buffers"@)->0,
                cached: f("Cached"@)->0,
                s_reclaimable: match f("SReclaimable"@) {
                    Some(v) => v,
                    None => 0,
                },
            },
        )
    }
}

fn field_or_missing(slot: Option<u64>, key: &str) -> (r: Result<u64, MissingField>)
    ensures
        match slot {
            Some(v) => r == Ok::<u64, MissingField>(v),
            None => r matches Err(e) && e.key@ == key@,
        },
{
    match slot {
        Some(v) => Ok(v),
        None => Err(MissingField { key: string_of(key) }),
    }
}

impl MemInfo {
    /// Parses `/proc/meminfo` text (`MemTotal:  3931420 kB` lines).
    /// `SReclaimable` is optional; the other five fields are required.
    pub fn parse(content: &str) -> (r: Result<MemInfo, MissingField>)
        ensures
            match meminfo_of(content@) {
                Ok(m) => r matches Ok(p) && p.total == m.total && p.free == m.free && p.available
                    == m.available && p.buffers == m.buffers && p.cached == m.cached
                    && p.s_reclaimable == m.s_reclaimable,
                Err(key) => r matches Err(e) && e.key@ == key,
            },
    {
        let text = chars_of(content);
        let mut keys: Vec<Vec<char>> = Vec::new();
        keys.push(chars_of("MemTotal"));
        keys.push(chars_of("MemFree"));
        keys.push(chars_of("MemAvailable"));
        keys.push(chars_of("Buffers"));
        keys.push(chars_of("Cached"));
        keys.push(chars_of("SReclaimable"));
        let vals = lookup_all(LineStyle::Meminfo, &text, &keys);
        assert(vals@[0] == meminfo_field(content@, "MemTotal"@));
        assert(vals@[1] == meminfo_field(content@, "MemFree"@));
        assert(vals@[2] == meminfo_field(content@, "MemAvailable"@));
        assert(vals@[3] == meminfo_field(content@, "Buffers"@));
        assert(vals@[4] == meminfo_field(content@, "Cached"@));
        assert(vals@[5] == meminfo_field(content@, "SReclaimable"@));
        let total = field_or_missing(vals[0], "MemTotal")?;
        let free = field_or_missing(vals[1], "MemFree")?;
        let available = field_or_missing(vals[2], "MemAvailable")?;
        let buffers = field_or_missing(vals[3], "Buffers")?;
        let cached = field_or_missing(vals[4], "Cached")?;
        let s_reclaimable = match vals[5] {
            Some(v) => v,
            None => 0,
        };
        Ok(MemInfo { total, free, available, buffers, cached, s_reclaimable })
    }

    pub open spec fn spec_buf_cache(&self) -> nat {
        (self.buffers + self.cached + self.s_reclaimable) as nat
    }

    /// Buffers + Cached + SReclaimable, as `free` reports buff/cache.
    pub fn buf_cache(&self) -> (r: u64)
        requires
            self.spec_buf_cache() <= u64::MAX,
        ensures
            r == self.spec_buf_cache(),
    {
        self.buffers + self.cached + self.s_reclaimable
    }

    /// Total less free, buff/cache and the ARC's whole kB, each step
    /// stopping at zero.
    pub open spec fn spec_app_used(&self, arc_bytes: u64) -> nat {
        let t1: nat = if self.total >= self.free {
            (self.total - self.free) as nat
        } else {
            0
        };
        let t2: nat = if t1 >= self.spec_buf_cache() {
            (t1 - self.spec_buf_cache()) as nat
        } else {
            0
        };
        if t2 >= arc_bytes / 1024 {
            (t2 - arc_bytes / 1024) as nat
        } else {
            0
        }
    }

    /// Memory used by applications, in kB: total less free, buff/cache and
    /// the ARC (`arc_bytes`, converted to whole kB), never below zero.
    pub fn app_used(&self, arc_bytes: u64) -> (r: u64)
        requires
            self.spec_buf_cache() <= u64::MAX,
        ensures
            r == self.spec_app_used(arc_bytes),
    {
        let arc_kb = arc_bytes / 1024;
        self.total.saturating_sub(self.free).saturating_sub(self.buf_cache()).saturating_sub(
            arc_kb,
        )
    }
}

/// Whether a reading's figures in bytes, and the ARC segments' total, fit
/// in a `u64`.
pub open spec fn linux_reading_fits(m: MemInfo, arc_segments: Seq<RamSegment>) -> bool {
    &&& m.total * 1024 <= u64::MAX
    &&& m.spec_buf_cache() * 1024 <= u64::MAX
    &&& segments_total(arc_segments) <= u64::MAX
}

/// The Linux RAM bar: memory used by applications, the ARC's segments
/// unchanged, then buffers and page cache (the slice `free` reports as
/// buff/cache). The application share is what `MemInfo::app_used` gives
/// for the ARC's total.
pub open spec fn linux_segments(m: MemInfo, arc_segments: Seq<RamSegment>) -> Seq<RamSegment> {
    seq![
        RamSegment {
            label: "Apps",
            color: SegmentColor::Green,
            bytes: (m.spec_app_used(segments_total(arc_segments) as u64) * 1024) as u64,
        },
    ] + arc_segments + seq![
        RamSegment {
            label: "Buf/Cache",
            color: SegmentColor::Yellow,
            bytes: (m.spec_buf_cache() * 1024) as u64,
        },
    ]
}

/// The RAM-bar snapshot of a `/proc/meminfo` reading; `None` for a zero
/// total or figures whose byte counts do not fit in a `u64`.
pub fn linux_snapshot(m: &MemInfo, arc_segments: &[RamSegment]) -> (r: Option<MemSnapshot>)
    ensures
        r is Some <==> (m.total != 0 && linux_reading_fits(*m, arc_segments@)),
        r matches Some(s) ==> s.total_bytes == m.total * 1024 && s.segments@ == linux_segments(
            *m,
            arc_segments@,
        ),
{
    if m.total == 0 || m.total > u64::MAX / 1024 {
        return None;
    }
    let bc = match m.buffers.checked_add(m.cached) {
        Some(x) => match x.checked_add(m.s_reclaimable) {
            Some(y) => y,
            None => {
                return None;
            },
        },
        None => {
            return None;
        },
    };
    if bc > u64::MAX / 1024 {
        return None;
    }
    let mut arc_total: u64 = 0;
    let mut i: usize = 0;
    while i < arc_segments.len()
        invariant
            0 <= i <= arc_segments@.len(),
            arc_total == segments_total(arc_segments@.take(i as int)),
        decreases arc_segments@.len() - i,
    {
        assert(arc_segments@.take(i + 1).drop_last() =~= arc_segments@.take(i as int));
        match arc_total.checked_add(arc_segments[i].bytes) {
            Some(t) => {
                arc_total = t;
            },
            None => {
                proof {
                    lemma_segments_total_prefix(arc_segments@, i + 1);
                }
                return None;
            },
        }
        i = i + 1;
    }
    assert(arc_segments@.take(i as int) =~= arc_segments@);
    let apps = m.app_used(arc_total);
    let mut segments: Vec<RamSegment> = Vec::new();
    segments.push(RamSegment { label: "Apps", color: SegmentColor::Green, bytes: apps * 1024 });
    let mut j: usize = 0;
    while j < arc_segments.len()
        invariant
            0 <= j <= arc_segments@.len(),
            segments@ == linux_segments(*m, arc_segments@).take(1) + arc_segments@.take(j as int),
        decreases arc_segments@.len() - j,
    {
        let ghost before = segments@;
        segments.push(arc_segments[j]);
        assert(segments@ =~= linux_segments(*m, arc_segments@).take(1) + arc_segments@.take(j + 1));
        j = j + 1;
    }
    segments.push(RamSegment { label: "Buf/Cache", color: SegmentColor::Yellow, bytes: bc * 1024 });
    assert(segments@ =~= linux_segments(*m, arc_segments@));
    Some(MemSnapshot { total_bytes: m.total * 1024, segments })
}

} // verus!
