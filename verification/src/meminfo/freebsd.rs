//! FreeBSD memory: `vm.stats.vm.*` page counts and `hw.physmem` read via
//! sysctl(3). The RAM bar uses FreeBSD's own categories: Wired (less the
//! ARC), Active, the ARC segments, then Inactive + Laundry.

use sysctl::Sysctl;
use vstd::prelude::*;
use crate::arcstats::{arcstats_of, kstat_counter, ArcStats};
use crate::kv::{lookup, lookup_all, trim, LineStyle};
use crate::meminfo::{MemSnapshot, MemSource, RamSegment, SegmentColor};
use crate::text::{chars_of, parse_u64, parse_u64_chars, push_str, string_of};

verus! {

#[verifier::external_type_specification]
#[verifier::external_body]
pub struct ExCtl(sysctl::Ctl);

#[verifier::external_type_specification]
#[verifier::external_body]
pub struct ExSysctlError(sysctl::SysctlError);

/// `sysctl::Ctl::new` (trait `sysctl::Sysctl`): opens the sysctl named
/// `key`. Whether it exists depends on the running kernel, so nothing is
/// stated of the outcome.
#[verifier::external_body]
fn ctl_new(key: &str) -> Result<sysctl::Ctl, sysctl::SysctlError> {
    sysctl::Ctl::new(key)
}

/// `sysctl::Sysctl::value_string`: the current value of the sysctl as
/// text. It is read from the kernel, so nothing is stated of it.
#[verifier::external_body]
fn ctl_value_string(ctl: &sysctl::Ctl) -> Result<String, sysctl::SysctlError> {
    ctl.value_string()
}

/// Why a sysctl could not be read as a number.
#[derive(Debug, Clone)]
pub enum SysctlReadError {
    /// The sysctl does not exist or cannot be opened.
    Open { key: String },
    /// The sysctl exists but its value could not be read.
    Read { key: String },
    /// The value is not a decimal `u64`.
    NonNumeric { key: String, value: String },
}

/// A sysctl value as a number: the text trimmed of surrounding whitespace,
/// parsed as a `u64`.
pub fn parse_sysctl_value(key: &str, value: &str) -> (r: Result<u64, SysctlReadError>)
    ensures
        match parse_u64(trim(value@)) {
            Some(v) => r matches Ok(x) && x == v,
            None => r matches Err(SysctlReadError::NonNumeric { key: k, value: t }) && k@
                == key@ && t@ == value@,
        },
{
    let text = chars_of(value);
    let n = text.len();
    proof {
        assert(text@.subrange(0, n as int) =~= text@);
    }
    let (a, b) = trim_range_of(&text);
    match parse_u64_chars(&text, a, b) {
        Some(x) => Ok(x),
        None => Err(SysctlReadError::NonNumeric { key: string_of(key), value: string_of(value) }),
    }
}

fn trim_range_of(v: &Vec<char>) -> (r: (usize, usize))
    ensures
        r.0 <= r.1 <= v@.len(),
        v@.subrange(r.0 as int, r.1 as int) == trim(v@),
{
    let n = v.len();
    let r = crate::kv::trim_range(v, 0, n);
    assert(v@.subrange(0, n as int) =~= v@);
    r
}

/// Reads the sysctl `key` as a number. Errors name `key`; a value that
/// was read is returned only when it parses as `parse_sysctl_value` says.
fn read_sysctl_u64(key: &str) -> (r: Result<u64, SysctlReadError>)
    ensures
        r matches Err(SysctlReadError::Open { key: k }) ==> k@ == key@,
        r matches Err(SysctlReadError::Read { key: k }) ==> k@ == key@,
        r matches Err(SysctlReadError::NonNumeric { key: k, value: t }) ==> k@ == key@ && parse_u64(
            trim(t@),
        ) is None,
{
    let ctl = match ctl_new(key) {
        Ok(c) => c,
        Err(_) => {
            return Err(SysctlReadError::Open { key: string_of(key) });
        },
    };
    let s = match ctl_value_string(&ctl) {
        Ok(s) => s,
        Err(_) => {
            return Err(SysctlReadError::Read { key: string_of(key) });
        },
    };
    parse_sysctl_value(key, s.as_str())
}

/// The sysctl that holds the ARC counter `name`.
pub open spec fn arc_counter_key(name: Seq<char>) -> Seq<char> {
    "kstat.zfs.misc.arcstats."@ + name
}

/// The ARC counters read from sysctl(3), in the order they are read.
pub open spec fn arc_counter_names() -> Seq<Seq<char>> {
    seq![
        "hits"@, "iohits"@, "misses"@,
        "demand_data_hits"@, "demand_data_iohits"@, "demand_data_misses"@,
        "demand_metadata_hits"@, "demand_metadata_iohits"@, "demand_metadata_misses"@,
        "prefetch_data_hits"@, "prefetch_data_iohits"@, "prefetch_data_misses"@,
        "prefetch_metadata_hits"@, "prefetch_metadata_iohits"@, "prefetch_metadata_misses"@,
        "size"@, "c"@, "c_min"@, "c_max"@,
        "data_size"@, "metadata_size"@, "anon_size"@, "overhead_size"@,
        "hdr_size"@, "dbuf_size"@, "dnode_size"@, "bonus_size"@,
        "mru_size"@, "mru_data"@, "mru_metadata"@,
        "mfu_size"@, "mfu_data"@, "mfu_metadata"@,
        "compressed_size"@, "uncompressed_size"@,
        "memory_all_bytes"@, "memory_free_bytes"@, "memory_available_bytes"@,
        "arc_meta_used"@,
    ]
}

/// Reads one ARC counter, `kstat.zfs.misc.arcstats.<name>`; a counter the
/// running kernel does not have reads as 0. A failure names that sysctl.
fn read_arc_counter(name: &str) -> (r: Result<u64, SysctlReadError>)
    ensures
        r matches Err(e) ==> !(e is Open) && error_key(e) == arc_counter_key(name@),
        r matches Err(SysctlReadError::NonNumeric { value, .. }) ==> parse_u64(trim(value@))
            is None,
{
    let mut key = string_of("kstat.zfs.misc.arcstats.");
    push_str(&mut key, name);
    arc_counter_from_read(read_sysctl_u64(key.as_str()))
}

/// What an ARC counter reads as, given how reading its sysctl went: a
/// counter whose sysctl the kernel does not have is 0; any other outcome
/// stands as it is.
pub fn arc_counter_from_read(read: Result<u64, SysctlReadError>) -> (r: Result<u64, SysctlReadError>)
    ensures
        r == match read {
            Err(SysctlReadError::Open { .. }) => Ok(0),
            _ => read,
        },
{
    match read {
        Err(SysctlReadError::Open { .. }) => Ok(0),
        other => other,
    }
}

/// An ARC snapshot from its counters given in the order of
/// `arc_counter_names()`: `vals[i]` is the counter named there at `i`.
pub open spec fn arc_stats_of_counters(vals: Seq<u64>) -> ArcStats {
    ArcStats {
        hits: vals[0],
        iohits: vals[1],
        misses: vals[2],
        demand_data_hits: vals[3],
        demand_data_iohits: vals[4],
        demand_data_misses: vals[5],
        demand_metadata_hits: vals[6],
        demand_metadata_iohits: vals[7],
        demand_metadata_misses: vals[8],
        prefetch_data_hits: vals[9],
        prefetch_data_iohits: vals[10],
        prefetch_data_misses: vals[11],
        prefetch_metadata_hits: vals[12],
        prefetch_metadata_iohits: vals[13],
        prefetch_metadata_misses: vals[14],
        size: vals[15],
        c: vals[16],
        c_min: vals[17],
        c_max: vals[18],
        data_size: vals[19],
        metadata_size: vals[20],
        anon_size: vals[21],
        overhead_size: vals[22],
        hdr_size: vals[23],
        dbuf_size: vals[24],
        dnode_size: vals[25],
        bonus_size: vals[26],
        mru_size: vals[27],
        mru_data: vals[28],
        mru_metadata: vals[29],
        mfu_size: vals[30],
        mfu_data: vals[31],
        mfu_metadata: vals[32],
        compressed_size: vals[33],
        uncompressed_size: vals[34],
        memory_all_bytes: vals[35],
        memory_free_bytes: vals[36],
        memory_available_bytes: vals[37],
        arc_meta_used: vals[38],
    }
}

/// The counters read one by one from sysctl(3), in the order of
/// `arc_counter_names()`, make the same snapshot as the kstat text whose
/// counters of those names they are.
pub proof fn lemma_counters_agree_with_kstat(content: Seq<char>, vals: Seq<u64>)
    requires
        vals.len() == 39,
        forall|i: int|
            0 <= i < 39 ==> vals[i] == kstat_counter(content, #[trigger] arc_counter_names()[i]),
    ensures
        arc_stats_of_counters(vals) == arcstats_of(content),
{
    assert forall|i: int| 0 <= i < 39 implies vals[i] == kstat_counter(
        content,
        arc_counter_names()[i],
    ) by {}
}

/// Builds an ARC snapshot from its 39 counters, in the order of
/// `arc_counter_names()`.
pub fn arc_stats_from_counters(vals: &Vec<u64>) -> (r: ArcStats)
    requires
        vals@.len() == 39,
    ensures
        r == arc_stats_of_counters(vals@),
{
    ArcStats {
        hits: vals[0],
        iohits: vals[1],
        misses: vals[2],
        demand_data_hits: vals[3],
        demand_data_iohits: vals[4],
        demand_data_misses: vals[5],
        demand_metadata_hits: vals[6],
        demand_metadata_iohits: vals[7],
        demand_metadata_misses: vals[8],
        prefetch_data_hits: vals[9],
        prefetch_data_iohits: vals[10],
        prefetch_data_misses: vals[11],
        prefetch_metadata_hits: vals[12],
        prefetch_metadata_iohits: vals[13],
        prefetch_metadata_misses: vals[14],
        size: vals[15],
        c: vals[16],
        c_min: vals[17],
        c_max: vals[18],
        data_size: vals[19],
        metadata_size: vals[20],
        anon_size: vals[21],
        overhead_size: vals[22],
        hdr_size: vals[23],
        dbuf_size: vals[24],
        dnode_size: vals[25],
        bonus_size: vals[26],
        mru_size: vals[27],
        mru_data: vals[28],
        mru_metadata: vals[29],
        mfu_size: vals[30],
        mfu_data: vals[31],
        mfu_metadata: vals[32],
        compressed_size: vals[33],
        uncompressed_size: vals[34],
        memory_all_bytes: vals[35],
        memory_free_bytes: vals[36],
        memory_available_bytes: vals[37],
        arc_meta_used: vals[38],
    }
}

/// Reads an ARC snapshot from the `kstat.zfs.misc.arcstats.*` sysctls. A
/// counter the kernel does not have reads as 0; a counter that exists but
/// cannot be read, or is not a number, fails the whole reading.
pub fn arcstats_from_sysctl() -> (r: Result<ArcStats, SysctlReadError>)
    ensures
        r matches Err(e) ==> !(e is Open) && exists|i: int|
            0 <= i < arc_counter_names().len() && error_key(e) == arc_counter_key(
                #[trigger] arc_counter_names()[i],
            ),
        r matches Err(SysctlReadError::NonNumeric { value, .. }) ==> parse_u64(trim(value@))
            is None,
{
    let names: Vec<&'static str> = vec![
        "hits",
        "iohits",
        "misses",
        "demand_data_hits",
        "demand_data_iohits",
        "demand_data_misses",
        "demand_metadata_hits",
        "demand_metadata_iohits",
        "demand_metadata_misses",
        "prefetch_data_hits",
        "prefetch_data_iohits",
        "prefetch_data_misses",
        "prefetch_metadata_hits",
        "prefetch_metadata_iohits",
        "prefetch_metadata_misses",
        "size",
        "c",
        "c_min",
        "c_max",
        "data_size",
        "metadata_size",
        "anon_size",
        "overhead_size",
        "hdr_size",
        "dbuf_size",
        "dnode_size",
        "bonus_size",
        "mru_size",
        "mru_data",
        "mru_metadata",
        "mfu_size",
        "mfu_data",
        "mfu_metadata",
        "compressed_size",
        "uncompressed_size",
        "memory_all_bytes",
        "memory_free_bytes",
        "memory_available_bytes",
        "arc_meta_used",
    ];
    let mut vals: Vec<u64> = Vec::new();
    let mut i: usize = 0;
    while i < names.len()
        invariant
            names@.len() == 39,
            forall|k: int| 0 <= k < 39 ==> (#[trigger] names@[k])@ == arc_counter_names()[k],
            0 <= i <= names@.len(),
            vals@.len() == i,
        decreases names@.len() - i,
    {
        let v = read_arc_counter(names[i])?;
        vals.push(v);
        i = i + 1;
    }
    Ok(arc_stats_from_counters(&vals))
}

/// The sysctl a read error is about.
pub open spec fn error_key(e: SysctlReadError) -> Seq<char> {
    match e {
        SysctlReadError::Open { key } => key@,
        SysctlReadError::Read { key } => key@,
        SysctlReadError::NonNumeric { key, .. } => key@,
    }
}

/// The sysctls a memory reading is made of, in the order of the fields of
/// `FreeBsdMemInfo` they fill.
pub open spec fn memory_sysctl_key_order() -> Seq<Seq<char>> {
    seq![
        "hw.pagesize"@,
        "hw.physmem"@,
        "vm.stats.vm.v_wire_count"@,
        "vm.stats.vm.v_active_count"@,
        "vm.stats.vm.v_inactive_count"@,
        "vm.stats.vm.v_laundry_count"@,
        "vm.stats.vm.v_free_count"@,
    ]
}

/// The sysctls a memory reading is made of.
pub open spec fn memory_sysctl_keys() -> Set<Seq<char>> {
    set![
        "hw.pagesize"@,
        "hw.physmem"@,
        "vm.stats.vm.v_wire_count"@,
        "vm.stats.vm.v_active_count"@,
        "vm.stats.vm.v_inactive_count"@,
        "vm.stats.vm.v_laundry_count"@,
        "vm.stats.vm.v_free_count"@,
    ]
}

#[derive(Debug, Clone)]
pub struct FreeBsdMemInfo {
    pub page_size: u64,
    pub total_bytes: u64,
    pub wired_pages: u64,
    pub active_pages: u64,
    pub inactive_pages: u64,
    pub laundry_pages: u64,
    /// Read as a sanity check; the bar's free area is what is left over.
    pub free_pages: u64,
}

/// A sysctl expected in captured `sysctl(8)` output is absent.
#[derive(Debug, Clone)]
pub struct MissingSysctl {
    pub key: String,
}

impl MissingSysctl {
    /// `missing sysctl '<key>'`.
    pub fn message(&self) -> (m: String)
        ensures
            m@ == "missing sysctl '"@ + self.key@ + "'"@,
    {
        let mut m = string_of("missing sysctl '");
        push_str(&mut m, self.key.as_str());
        push_str(&mut m, "'");
        m
    }
}

/// The value of `key` in captured `sysctl(8)` output.
pub open spec fn sysctl_field(text: Seq<char>, key: Seq<char>) -> Option<u64> {
    lookup(LineStyle::Sysctl, text, key)
}

/// What `parse_sysctl_text` makes of the `vm.stats.vm` and `hw.*` texts:
/// the seven fields in the order they are checked, or the first missing key.
pub open spec fn sysctl_text_of(vm: Seq<char>, hw: Seq<char>) -> Result<FreeBsdMemInfo, Seq<char>> {
    if sysctl_field(hw, "hw.pagesize"@) is None {
        Err("hw.pagesize"@)
    } else if sysctl_field(hw, "hw.physmem"@) is None {
        Err("hw.physmem"@)
    } else if sysctl_field(vm, "vm.stats.vm.v_wire_count"@) is None {
        Err("vm.stats.vm.v_wire_count"@)
    } else if sysctl_field(vm, "vm.stats.vm.v_active_count"@) is None {
        Err("vm.stats.vm.v_active_count"@)
    } else if sysctl_field(vm, "vm.stats.vm.v_inactive_count"@) is None {
        Err("vm.stats.vm.v_inactive_count"@)
    } else if sysctl_field(vm, "vm.stats.vm.v_laundry_count"@) is None {
        Err("vm.stats.vm.v_laundry_count"@)
    } else if sysctl_field(vm, "vm.stats.vm.v_free_count"@) is None {
        Err("vm.stats.vm.v_free_count"@)
    } else {
        Ok(
            FreeBsdMemInfo {
                page_size: sysctl_field(hw, "hw.pagesize"@)->0,
                total_bytes: sysctl_field(hw, "hw.physmem"@)->0,
                wired_pages: sysctl_field(vm, "vm.stats.vm.v_wire_count"@)->0,
                active_pages: sysctl_field(vm, "vm.stats.vm.v_active_count"@)->0,
                inactive_pages: sysctl_field(vm, "vm.stats.vm.v_inactive_count"@)->0,
                laundry_pages: sysctl_field(vm, "vm.stats.vm.v_laundry_count"@)->0,
                free_pages: sysctl_field(vm, "vm.stats.vm.v_free_count"@)->0,
            },
        )
    }
}

/// Values read one sysctl at a time, in the order of
/// `memory_sysctl_key_order()`, make the same reading as the captured
/// `sysctl(8)` texts holding those values under the same keys (`hw.*` in
/// `hw`, `vm.stats.vm.*` in `vm`).
pub proof fn lemma_values_agree_with_text(vm: Seq<char>, hw: Seq<char>, vals: Seq<u64>)
    requires
        vals.len() == 7,
        forall|i: int|
            0 <= i < 7 ==> Some(vals[i]) == sysctl_field(
                if i < 2 {
                    hw
                } else {
                    vm
                },
                #[trigger] memory_sysctl_key_order()[i],
            ),
    ensures
        sysctl_text_of(vm, hw) == Ok::<FreeBsdMemInfo, Seq<char>>(FreeBsdMemInfo::of_values(vals)),
{
    assert forall|i: int| 0 <= i < 7 implies Some(vals[i]) == sysctl_field(
        if i < 2 {
            hw
        } else {
            vm
        },
        memory_sysctl_key_order()[i],
    ) by {}
}

fn sysctl_or_missing(slot: Option<u64>, key: &str) -> (r: Result<u64, MissingSysctl>)
    ensures
        match slot {
            Some(v) => r == Ok::<u64, MissingSysctl>(v),
            None => r matches Err(e) && e.key@ == key@,
        },
{
    match slot {
        Some(v) => Ok(v),
        None => Err(MissingSysctl { key: string_of(key) }),
    }
}

impl FreeBsdMemInfo {
    /// Whether two readings hold the same figures.
    pub open spec fn same_as(self, other: FreeBsdMemInfo) -> bool {
        &&& self.page_size == other.page_size
        &&& self.total_bytes == other.total_bytes
        &&& self.wired_pages == other.wired_pages
        &&& self.active_pages == other.active_pages
        &&& self.inactive_pages == other.inactive_pages
        &&& self.laundry_pages == other.laundry_pages
        &&& self.free_pages == other.free_pages
    }

    /// A reading from its seven figures given in the order of
    /// `memory_sysctl_key_order()`.
    pub open spec fn of_values(vals: Seq<u64>) -> FreeBsdMemInfo {
        FreeBsdMemInfo {
            page_size: vals[0],
            total_bytes: vals[1],
            wired_pages: vals[2],
            active_pages: vals[3],
            inactive_pages: vals[4],
            laundry_pages: vals[5],
            free_pages: vals[6],
        }
    }

    /// Builds a reading from the values of the seven sysctls, in the order
    /// of `memory_sysctl_key_order()`.
    pub fn from_values(vals: &Vec<u64>) -> (r: FreeBsdMemInfo)
        requires
            vals@.len() == 7,
        ensures
            r == FreeBsdMemInfo::of_values(vals@),
    {
        FreeBsdMemInfo {
            page_size: vals[0],
            total_bytes: vals[1],
            wired_pages: vals[2],
            active_pages: vals[3],
            inactive_pages: vals[4],
            laundry_pages: vals[5],
            free_pages: vals[6],
        }
    }

    /// Reads every figure via sysctl(3), one sysctl at a time in the order
    /// of `memory_sysctl_key_order()`, and builds the reading with
    /// `from_values`. A failure names the first sysctl that could not be
    /// read as a number.
    pub fn from_sysctl() -> (r: Result<FreeBsdMemInfo, SysctlReadError>)
        ensures
            r matches Err(e) ==> memory_sysctl_keys().contains(error_key(e)),
            r matches Err(SysctlReadError::NonNumeric { value, .. }) ==> parse_u64(trim(value@))
                is None,
    {
        let keys: Vec<&'static str> = vec![
            "hw.pagesize",
            "hw.physmem",
            "vm.stats.vm.v_wire_count",
            "vm.stats.vm.v_active_count",
            "vm.stats.vm.v_inactive_count",
            "vm.stats.vm.v_laundry_count",
            "vm.stats.vm.v_free_count",
        ];
        let mut vals: Vec<u64> = Vec::new();
        let mut i: usize = 0;
        while i < keys.len()
            invariant
                keys@.len() == 7,
                forall|k: int|
                    0 <= k < 7 ==> (#[trigger] keys@[k])@ == memory_sysctl_key_order()[k],
                0 <= i <= keys@.len(),
                vals@.len() == i,
            decreases keys@.len() - i,
        {
            let v = read_sysctl_u64(keys[i])?;
            vals.push(v);
            i = i + 1;
        }
        Ok(FreeBsdMemInfo::from_values(&vals))
    }

    /// Builds a reading from captured `sysctl vm.stats.vm` output
    /// (`vm_text`) and `sysctl hw.physmem hw.realmem hw.pagesize` output
    /// (`hw_text`).
    pub fn parse_sysctl_text(vm_text: &str, hw_text: &str) -> (r: Result<
        FreeBsdMemInfo,
        MissingSysctl,
    >)
        ensures
            match sysctl_text_of(vm_text@, hw_text@) {
                Ok(m) => r matches Ok(p) && p.same_as(m),
                Err(key) => r matches Err(e) && e.key@ == key,
            },
    {
        let vm = chars_of(vm_text);
        let hw = chars_of(hw_text);
        let mut hw_keys: Vec<Vec<char>> = Vec::new();
        hw_keys.push(chars_of("hw.pagesize"));
        hw_keys.push(chars_of("hw.physmem"));
        let mut vm_keys: Vec<Vec<char>> = Vec::new();
        vm_keys.push(chars_of("vm.stats.vm.v_wire_count"));
        vm_keys.push(chars_of("vm.stats.vm.v_active_count"));
        vm_keys.push(chars_of("vm.stats.vm.v_inactive_count"));
        vm_keys.push(chars_of("vm.stats.vm.v_laundry_count"));
        vm_keys.push(chars_of("vm.stats.vm.v_free_count"));
        let h = lookup_all(LineStyle::Sysctl, &hw, &hw_keys);
        let v = lookup_all(LineStyle::Sysctl, &vm, &vm_keys);
        assert(h@[0] == sysctl_field(hw_text@, "hw.pagesize"@));
        assert(h@[1] == sysctl_field(hw_text@, "hw.physmem"@));
        assert(v@[0] == sysctl_field(vm_text@, "vm.stats.vm.v_wire_count"@));
        assert(v@[1] == sysctl_field(vm_text@, "vm.stats.vm.v_active_count"@));
        assert(v@[2] == sysctl_field(vm_text@, "vm.stats.vm.v_inactive_count"@));
        assert(v@[3] == sysctl_field(vm_text@, "vm.stats.vm.v_laundry_count"@));
        assert(v@[4] == sysctl_field(vm_text@, "vm.stats.vm.v_free_count"@));
        let page_size = sysctl_or_missing(h[0], "hw.pagesize")?;
        let total_bytes = sysctl_or_missing(h[1], "hw.physmem")?;
        let wired_pages = sysctl_or_missing(v[0], "vm.stats.vm.v_wire_count")?;
        let active_pages = sysctl_or_missing(v[1], "vm.stats.vm.v_active_count")?;
        let inactive_pages = sysctl_or_missing(v[2], "vm.stats.vm.v_inactive_count")?;
        let laundry_pages = sysctl_or_missing(v[3], "vm.stats.vm.v_laundry_count")?;
        let free_pages = sysctl_or_missing(v[4], "vm.stats.vm.v_free_count")?;
        Ok(
            FreeBsdMemInfo {
                page_size,
                total_bytes,
                wired_pages,
                active_pages,
                inactive_pages,
                laundry_pages,
                free_pages,
            },
        )
    }
}

/// Total bytes of a list of segments.
pub open spec fn segments_total(segs: Seq<RamSegment>) -> nat
    decreases segs.len(),
{
    if segs.len() == 0 {
        0
    } else {
        segments_total(segs.drop_last()) + segs.last().bytes as nat
    }
}

pub proof fn lemma_segments_total_prefix(segs: Seq<RamSegment>, i: int)
    requires
        0 <= i <= segs.len(),
    ensures
        segments_total(segs.take(i)) <= segments_total(segs),
    decreases segs.len() - i,
{
    if i < segs.len() {
        lemma_segments_total_prefix(segs, i + 1);
        assert(segs.take(i + 1).drop_last() =~= segs.take(i));
    } else {
        assert(segs.take(i) =~= segs);
    }
}

/// Whether the byte figures of a reading, and the ARC segments' total,
/// fit in a `u64`.
pub open spec fn reading_fits(m: FreeBsdMemInfo, arc_segments: Seq<RamSegment>) -> bool {
    &&& m.wired_pages * m.page_size <= u64::MAX
    &&& m.active_pages * m.page_size <= u64::MAX
    &&& m.inactive_pages + m.laundry_pages <= u64::MAX
    &&& (m.inactive_pages + m.laundry_pages) * m.page_size <= u64::MAX
    &&& segments_total(arc_segments) <= u64::MAX
}

/// The RAM-bar segments of a reading: Wired less the ARC (never below
/// zero), Active, the ARC segments unchanged, then Inactive + Laundry.
pub open spec fn freebsd_segments(m: FreeBsdMemInfo, arc_segments: Seq<RamSegment>) -> Seq<
    RamSegment,
> {
    let wired = m.wired_pages * m.page_size;
    let arc_total = segments_total(arc_segments);
    seq![
        RamSegment {
            label: "Wired",
            color: SegmentColor::Cyan,
            bytes: if wired >= arc_total {
                (wired - arc_total) as u64
            } else {
                0
            },
        },
        RamSegment {
            label: "Active",
            color: SegmentColor::Green,
            bytes: (m.active_pages * m.page_size) as u64,
        },
    ] + arc_segments + seq![
        RamSegment {
            label: "Inactive",
            color: SegmentColor::Yellow,
            bytes: ((m.inactive_pages + m.laundry_pages) * m.page_size) as u64,
        },
    ]
}

/// `MemSource` backed by `FreeBsdMemInfo`.
pub struct FreeBsdMemSource {
    /// The last successful reading.
    pub last: Option<FreeBsdMemInfo>,
}

impl FreeBsdMemSource {
    /// A source primed with a first reading from sysctl(3).
    pub fn new() -> (r: Result<FreeBsdMemSource, SysctlReadError>)
        ensures
            r matches Ok(s) ==> s.last is Some,
            r matches Err(e) ==> memory_sysctl_keys().contains(error_key(e)),
            r matches Err(SysctlReadError::NonNumeric { value, .. }) ==> parse_u64(trim(value@))
                is None,
    {
        let info = FreeBsdMemInfo::from_sysctl()?;
        Ok(FreeBsdMemSource { last: Some(info) })
    }

    /// The RAM-bar snapshot for the last reading, or `None` when there is
    /// none or it reports a zero page size or memory total.
    pub fn snapshot_of(&self, arc_segments: &[RamSegment]) -> (r: Option<MemSnapshot>)
        requires
            match self.last {
                Some(m) => m.total_bytes != 0 && m.page_size != 0 ==> reading_fits(
                    m,
                    arc_segments@,
                ),
                None => true,
            },
        ensures
            match self.last {
                Some(m) => if m.total_bytes == 0 || m.page_size == 0 {
                    r is None
                } else {
                    r matches Some(s) && s.total_bytes == m.total_bytes && s.segments@
                        == freebsd_segments(m, arc_segments@)
                },
                None => r is None,
            },
    {
        let m = match &self.last {
            Some(m) => m,
            None => {
                return None;
            },
        };
        if m.total_bytes == 0 || m.page_size == 0 {
            return None;
        }
        let mut arc_total: u64 = 0;
        let mut i: usize = 0;
        while i < arc_segments.len()
            invariant
                0 <= i <= arc_segments@.len(),
                arc_total == segments_total(arc_segments@.take(i as int)),
                segments_total(arc_segments@) <= u64::MAX,
            decreases arc_segments@.len() - i,
        {
            assert(arc_segments@.take(i + 1).drop_last() =~= arc_segments@.take(i as int));
            proof {
                lemma_segments_total_prefix(arc_segments@, i + 1);
            }
            arc_total = arc_total + arc_segments[i].bytes;
            i = i + 1;
        }
        assert(arc_segments@.take(i as int) =~= arc_segments@);
        let wired_bytes = m.wired_pages * m.page_size;
        let active_bytes = m.active_pages * m.page_size;
        let inactive_bytes = (m.inactive_pages + m.laundry_pages) * m.page_size;
        let mut segments: Vec<RamSegment> = Vec::new();
        segments.push(
            RamSegment {
                label: "Wired",
                color: SegmentColor::Cyan,
                bytes: wired_bytes.saturating_sub(arc_total),
            },
        );
        segments.push(RamSegment { label: "Active", color: SegmentColor::Green, bytes: active_bytes });
        let mut j: usize = 0;
        while j < arc_segments.len()
            invariant
                0 <= j <= arc_segments@.len(),
                segments@.len() == 2 + j,
                segments@.take(2) == freebsd_segments(*m, arc_segments@).take(2),
                segments@.skip(2) == arc_segments@.take(j as int),
            decreases arc_segments@.len() - j,
        {
            let ghost before = segments@;
            segments.push(arc_segments[j]);
            assert(segments@.take(2) =~= before.take(2));
            assert(segments@.skip(2) =~= arc_segments@.take(j + 1));
            j = j + 1;
        }
        segments.push(
            RamSegment { label: "Inactive", color: SegmentColor::Yellow, bytes: inactive_bytes },
        );
        assert(segments@ =~= freebsd_segments(*m, arc_segments@)) by {
            let f = freebsd_segments(*m, arc_segments@);
            assert(arc_segments@.take(arc_segments@.len() as int) =~= arc_segments@);
            assert forall|k: int| 0 <= k < f.len() implies segments@[k] == f[k] by {
                if k < 2 {
                    assert(segments@.take(2)[k] == f.take(2)[k]);
                } else if k < 2 + arc_segments@.len() {
                    assert(segments@.skip(2)[k - 2] == arc_segments@[k - 2]);
                }
            }
        }
        Some(MemSnapshot { total_bytes: m.total_bytes, segments })
    }
}

impl MemSource for FreeBsdMemSource {
    /// A successful refresh took a new reading; a failed one kept the last.
    open spec fn refreshed_from(&self, before: &Self, outcome: Result<(), String>) -> bool {
        match outcome {
            Ok(_) => self.last is Some,
            Err(_) => self.last == before.last,
        }
    }

    /// Takes a new reading from sysctl(3); on failure the last one stays.
    fn refresh(&mut self) -> (r: Result<(), String>)
        ensures
            r is Ok ==> final(self).last is Some,
            r is Err ==> final(self).last == old(self).last,
            r matches Err(m) ==> exists|e: SysctlReadError|
                memory_sysctl_keys().contains(error_key(e)) && m@ == #[trigger] sysctl_error_text(e),
    {
        match FreeBsdMemInfo::from_sysctl() {
            Ok(info) => {
                self.last = Some(info);
                Ok(())
            },
            Err(e) => Err(sysctl_error_message(&e)),
        }
    }

    /// As `snapshot_of`, for readings whose byte figures fit in a `u64`;
    /// a reading that does not (beyond any real machine) gives `None`.
    fn snapshot(&self, arc_segments: &[RamSegment]) -> (r: Option<MemSnapshot>)
        ensures
            match self.last {
                Some(m) => if m.total_bytes == 0 || m.page_size == 0 || !reading_fits(
                    m,
                    arc_segments@,
                ) {
                    r is None
                } else {
                    r matches Some(s) && s.total_bytes == m.total_bytes && s.segments@
                        == freebsd_segments(m, arc_segments@)
                },
                None => r is None,
            },
    {
        match &self.last {
            Some(m) => {
                if m.total_bytes == 0 || m.page_size == 0 {
                    return None;
                }
                if !reading_fits_exec(m, arc_segments) {
                    return None;
                }
                self.snapshot_of(arc_segments)
            },
            None => None,
        }
    }
}

fn reading_fits_exec(m: &FreeBsdMemInfo, arc_segments: &[RamSegment]) -> (b: bool)
    ensures
        b == reading_fits(*m, arc_segments@),
{
    let mut total: u64 = 0;
    let mut i: usize = 0;
    while i < arc_segments.len()
        invariant
            0 <= i <= arc_segments@.len(),
            total == segments_total(arc_segments@.take(i as int)),
        decreases arc_segments@.len() - i,
    {
        assert(arc_segments@.take(i + 1).drop_last() =~= arc_segments@.take(i as int));
        match total.checked_add(arc_segments[i].bytes) {
            Some(t) => {
                total = t;
            },
            None => {
                proof {
                    lemma_segments_total_prefix(arc_segments@, i + 1);
                }
                return false;
            },
        }
        i = i + 1;
    }
    assert(arc_segments@.take(i as int) =~= arc_segments@);
    let inactive = match m.inactive_pages.checked_add(m.laundry_pages) {
        Some(x) => x,
        None => {
            return false;
        },
    };
    m.wired_pages.checked_mul(m.page_size).is_some() && m.active_pages.checked_mul(
        m.page_size,
    ).is_some() && inactive.checked_mul(m.page_size).is_some()
}

/// What `format!("{:?}", s)` gives for a string: `str`'s `Debug`
/// rendering, the text in double quotes with quotes, backslashes and
/// non-printable characters escaped.
pub uninterp spec fn debug_str(s: Seq<char>) -> Seq<char>;

/// `<str as Debug>::fmt`, through `format!("{:?}")`. The rendering depends
/// on the text alone; it is named by `debug_str` rather than spelled out.
#[verifier::external_body]
fn debug_quoted(s: &str) -> (r: String)
    ensures
        r@ == debug_str(s@),
{
    format!("{s:?}")
}

/// The one-line description of a sysctl failure.
pub open spec fn sysctl_error_text(e: SysctlReadError) -> Seq<char> {
    match e {
        SysctlReadError::Open { key } => "failed to open sysctl "@ + key@,
        SysctlReadError::Read { key } => "failed to read sysctl "@ + key@,
        SysctlReadError::NonNumeric { key, value } => "sysctl "@ + key@
            + " returned non-numeric value: "@ + debug_str(value@),
    }
}

/// A one-line description of a sysctl failure.
pub fn sysctl_error_message(e: &SysctlReadError) -> (m: String)
    ensures
        m@ == sysctl_error_text(*e),
{
    match e {
        SysctlReadError::Open { key } => {
            let mut m = string_of("failed to open sysctl ");
            push_str(&mut m, key.as_str());
            m
        },
        SysctlReadError::Read { key } => {
            let mut m = string_of("failed to read sysctl ");
            push_str(&mut m, key.as_str());
            m
        },
        SysctlReadError::NonNumeric { key, value } => {
            let mut m = string_of("sysctl ");
            push_str(&mut m, key.as_str());
            push_str(&mut m, " returned non-numeric value: ");
            let quoted = debug_quoted(value.as_str());
            push_str(&mut m, quoted.as_str());
            m
        },
    }
}

} // verus!
