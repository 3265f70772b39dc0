//! One snapshot of the ARC counters (`arcstats` kstat on Linux,
//! `kstat.zfs.misc.arcstats` sysctls on FreeBSD).

use vstd::prelude::*;

use crate::kv::{lookup, lookup_all, LineStyle};
use crate::text::chars_of;

verus! {

#[derive(Clone, Copy, Debug)]
pub struct ArcStats {
    pub hits: u64,
    pub iohits: u64,
    pub misses: u64,
    pub demand_data_hits: u64,
    pub demand_data_iohits: u64,
    pub demand_data_misses: u64,
    pub demand_metadata_hits: u64,
    pub demand_metadata_iohits: u64,
    pub demand_metadata_misses: u64,
    pub prefetch_data_hits: u64,
    pub prefetch_data_iohits: u64,
    pub prefetch_data_misses: u64,
    pub prefetch_metadata_hits: u64,
    pub prefetch_metadata_iohits: u64,
    pub prefetch_metadata_misses: u64,
    pub size: u64,
    pub c: u64,
    pub c_min: u64,
    pub c_max: u64,
    pub data_size: u64,
    pub metadata_size: u64,
    pub anon_size: u64,
    pub overhead_size: u64,
    pub hdr_size: u64,
    pub dbuf_size: u64,
    pub dnode_size: u64,
    pub bonus_size: u64,
    pub mru_size: u64,
    pub mru_data: u64,
    pub mru_metadata: u64,
    pub mfu_size: u64,
    pub mfu_data: u64,
    pub mfu_metadata: u64,
    pub compressed_size: u64,
    pub uncompressed_size: u64,
    pub memory_all_bytes: u64,
    pub memory_free_bytes: u64,
    pub memory_available_bytes: u64,
    pub arc_meta_used: u64,
}

/// The counter `name` of a kstat file's text: the data of the last line
/// of that name, 0 when there is none.
pub open spec fn kstat_counter(content: Seq<char>, name: Seq<char>) -> u64 {
    match lookup(LineStyle::Kstat, content, name) {
        Some(v) => v,
        None => 0,
    }
}

/// The snapshot a Linux `arcstats` kstat file describes: each counter is
/// the line of the same name; a counter the file does not list (older
/// OpenZFS releases lack some) reads as 0.
pub open spec fn arcstats_of(content: Seq<char>) -> ArcStats {
    ArcStats {
        hits: kstat_counter(content, "hits"@),
        iohits: kstat_counter(content, "iohits"@),
        misses: kstat_counter(content, "misses"@),
        demand_data_hits: kstat_counter(content, "demand_data_hits"@),
        demand_data_iohits: kstat_counter(content, "demand_data_iohits"@),
        demand_data_misses: kstat_counter(content, "demand_data_misses"@),
        demand_metadata_hits: kstat_counter(content, "demand_metadata_hits"@),
        demand_metadata_iohits: kstat_counter(content, "demand_metadata_iohits"@),
        demand_metadata_misses: kstat_counter(content, "demand_metadata_misses"@),
        prefetch_data_hits: kstat_counter(content, "prefetch_data_hits"@),
        prefetch_data_iohits: kstat_counter(content, "prefetch_data_iohits"@),
        prefetch_data_misses: kstat_counter(content, "prefetch_data_misses"@),
        prefetch_metadata_hits: kstat_counter(content, "prefetch_metadata_hits"@),
        prefetch_metadata_iohits: kstat_counter(content, "prefetch_metadata_iohits"@),
        prefetch_metadata_misses: kstat_counter(content, "prefetch_metadata_misses"@),
        size: kstat_counter(content, "size"@),
        c: kstat_counter(content, "c"@),
        c_min: kstat_counter(content, "c_min"@),
        c_max: kstat_counter(content, "c_max"@),
        data_size: kstat_counter(content, "data_size"@),
        metadata_size: kstat_counter(content, "metadata_size"@),
        anon_size: kstat_counter(content, "anon_size"@),
        overhead_size: kstat_counter(content, "overhead_size"@),
        hdr_size: kstat_counter(content, "hdr_size"@),
        dbuf_size: kstat_counter(content, "dbuf_size"@),
        dnode_size: kstat_counter(content, "dnode_size"@),
        bonus_size: kstat_counter(content, "bonus_size"@),
        mru_size: kstat_counter(content, "mru_size"@),
        mru_data: kstat_counter(content, "mru_data"@),
        mru_metadata: kstat_counter(content, "mru_metadata"@),
        mfu_size: kstat_counter(content, "mfu_size"@),
        mfu_data: kstat_counter(content, "mfu_data"@),
        mfu_metadata: kstat_counter(content, "mfu_metadata"@),
        compressed_size: kstat_counter(content, "compressed_size"@),
        uncompressed_size: kstat_counter(content, "uncompressed_size"@),
        memory_all_bytes: kstat_counter(content, "memory_all_bytes"@),
        memory_free_bytes: kstat_counter(content, "memory_free_bytes"@),
        memory_available_bytes: kstat_counter(content, "memory_available_bytes"@),
        arc_meta_used: kstat_counter(content, "arc_meta_used"@),
    }
}

fn counter_or_zero(v: Option<u64>) -> (r: u64)
    ensures
        r == match v {
            Some(x) => x,
            None => 0,
        },
{
    match v {
        Some(x) => x,
        None => 0,
    }
}

/// Reads the counters of the Linux `arcstats` kstat file
/// (`/proc/spl/kstat/zfs/arcstats`) from its text.
#[verifier::spinoff_prover]
#[verifier::rlimit(60)]
pub fn parse_arcstats(content: &str) -> (r: ArcStats)
    ensures
        r == arcstats_of(content@),
{
    let text = chars_of(content);
    let mut keys: Vec<Vec<char>> = Vec::new();
    keys.push(chars_of("hits"));
    keys.push(chars_of("iohits"));
    keys.push(chars_of("misses"));
    keys.push(chars_of("demand_data_hits"));
    keys.push(chars_of("demand_data_iohits"));
    keys.push(chars_of("demand_data_misses"));
    keys.push(chars_of("demand_metadata_hits"));
    keys.push(chars_of("demand_metadata_iohits"));
    keys.push(chars_of("demand_metadata_misses"));
    keys.push(chars_of("prefetch_data_hits"));
    keys.push(chars_of("prefetch_data_iohits"));
    keys.push(chars_of("prefetch_data_misses"));
    keys.push(chars_of("prefetch_metadata_hits"));
    keys.push(chars_of("prefetch_metadata_iohits"));
    keys.push(chars_of("prefetch_metadata_misses"));
    keys.push(chars_of("size"));
    keys.push(chars_of("c"));
    keys.push(chars_of("c_min"));
    keys.push(chars_of("c_max"));
    keys.push(chars_of("data_size"));
    keys.push(chars_of("metadata_size"));
    keys.push(chars_of("anon_size"));
    keys.push(chars_of("overhead_size"));
    keys.push(chars_of("hdr_size"));
    keys.push(chars_of("dbuf_size"));
    keys.push(chars_of("dnode_size"));
    keys.push(chars_of("bonus_size"));
    keys.push(chars_of("mru_size"));
    keys.push(chars_of("mru_data"));
    keys.push(chars_of("mru_metadata"));
    keys.push(chars_of("mfu_size"));
    keys.push(chars_of("mfu_data"));
    keys.push(chars_of("mfu_metadata"));
    keys.push(chars_of("compressed_size"));
    keys.push(chars_of("uncompressed_size"));
    keys.push(chars_of("memory_all_bytes"));
    keys.push(chars_of("memory_free_bytes"));
    keys.push(chars_of("memory_available_bytes"));
    keys.push(chars_of("arc_meta_used"));
    let vals = lookup_all(LineStyle::Kstat, &text, &keys);
    assert(vals@[0] == lookup(LineStyle::Kstat, content@, "hits"@));
    assert(vals@[1] == lookup(LineStyle::Kstat, content@, "iohits"@));
    assert(vals@[2] == lookup(LineStyle::Kstat, content@, "misses"@));
    assert(vals@[3] == lookup(LineStyle::Kstat, content@, "demand_data_hits"@));
    assert(vals@[4] == lookup(LineStyle::Kstat, content@, "demand_data_iohits"@));
    assert(vals@[5] == lookup(LineStyle::Kstat, content@, "demand_data_misses"@));
    assert(vals@[6] == lookup(LineStyle::Kstat, content@, "demand_metadata_hits"@));
    assert(vals@[7] == lookup(LineStyle::Kstat, content@, "demand_metadata_iohits"@));
    assert(vals@[8] == lookup(LineStyle::Kstat, content@, "demand_metadata_misses"@));
    assert(vals@[9] == lookup(LineStyle::Kstat, content@, "prefetch_data_hits"@));
    assert(vals@[10] == lookup(LineStyle::Kstat, content@, "prefetch_data_iohits"@));
    assert(vals@[11] == lookup(LineStyle::Kstat, content@, "prefetch_data_misses"@));
    assert(vals@[12] == lookup(LineStyle::Kstat, content@, "prefetch_metadata_hits"@));
    assert(vals@[13] == lookup(LineStyle::Kstat, content@, "prefetch_metadata_iohits"@));
    assert(vals@[14] == lookup(LineStyle::Kstat, content@, "prefetch_metadata_misses"@));
    assert(vals@[15] == lookup(LineStyle::Kstat, content@, "size"@));
    assert(vals@[16] == lookup(LineStyle::Kstat, content@, "c"@));
    assert(vals@[17] == lookup(LineStyle::Kstat, content@, "c_min"@));
    assert(vals@[18] == lookup(LineStyle::Kstat, content@, "c_max"@));
    assert(vals@[19] == lookup(LineStyle::Kstat, content@, "data_size"@));
    assert(vals@[20] == lookup(LineStyle::Kstat, content@, "metadata_size"@));
    assert(vals@[21] == lookup(LineStyle::Kstat, content@, "anon_size"@));
    assert(vals@[22] == lookup(LineStyle::Kstat, content@, "overhead_size"@));
    assert(vals@[23] == lookup(LineStyle::Kstat, content@, "hdr_size"@));
    assert(vals@[24] == lookup(LineStyle::Kstat, content@, "dbuf_size"@));
    assert(vals@[25] == lookup(LineStyle::Kstat, content@, "dnode_size"@));
    assert(vals@[26] == lookup(LineStyle::Kstat, content@, "bonus_size"@));
    assert(vals@[27] == lookup(LineStyle::Kstat, content@, "mru_size"@));
    assert(vals@[28] == lookup(LineStyle::Kstat, content@, "mru_data"@));
    assert(vals@[29] == lookup(LineStyle::Kstat, content@, "mru_metadata"@));
    assert(vals@[30] == lookup(LineStyle::Kstat, content@, "mfu_size"@));
    assert(vals@[31] == lookup(LineStyle::Kstat, content@, "mfu_data"@));
    assert(vals@[32] == lookup(LineStyle::Kstat, content@, "mfu_metadata"@));
    assert(vals@[33] == lookup(LineStyle::Kstat, content@, "compressed_size"@));
    assert(vals@[34] == lookup(LineStyle::Kstat, content@, "uncompressed_size"@));
    assert(vals@[35] == lookup(LineStyle::Kstat, content@, "memory_all_bytes"@));
    assert(vals@[36] == lookup(LineStyle::Kstat, content@, "memory_free_bytes"@));
    assert(vals@[37] == lookup(LineStyle::Kstat, content@, "memory_available_bytes"@));
    assert(vals@[38] == lookup(LineStyle::Kstat, content@, "arc_meta_used"@));
    ArcStats {
        hits: counter_or_zero(vals[0]),
        iohits: counter_or_zero(vals[1]),
        misses: counter_or_zero(vals[2]),
        demand_data_hits: counter_or_zero(vals[3]),
        demand_data_iohits: counter_or_zero(vals[4]),
        demand_data_misses: counter_or_zero(vals[5]),
        demand_metadata_hits: counter_or_zero(vals[6]),
        demand_metadata_iohits: counter_or_zero(vals[7]),
        demand_metadata_misses: counter_or_zero(vals[8]),
        prefetch_data_hits: counter_or_zero(vals[9]),
        prefetch_data_iohits: counter_or_zero(vals[10]),
        prefetch_data_misses: counter_or_zero(vals[11]),
        prefetch_metadata_hits: counter_or_zero(vals[12]),
        prefetch_metadata_iohits: counter_or_zero(vals[13]),
        prefetch_metadata_misses: counter_or_zero(vals[14]),
        size: counter_or_zero(vals[15]),
        c: counter_or_zero(vals[16]),
        c_min: counter_or_zero(vals[17]),
        c_max: counter_or_zero(vals[18]),
        data_size: counter_or_zero(vals[19]),
        metadata_size: counter_or_zero(vals[20]),
        anon_size: counter_or_zero(vals[21]),
        overhead_size: counter_or_zero(vals[22]),
        hdr_size: counter_or_zero(vals[23]),
        dbuf_size: counter_or_zero(vals[24]),
        dnode_size: counter_or_zero(vals[25]),
        bonus_size: counter_or_zero(vals[26]),
        mru_size: counter_or_zero(vals[27]),
        mru_data: counter_or_zero(vals[28]),
        mru_metadata: counter_or_zero(vals[29]),
        mfu_size: counter_or_zero(vals[30]),
        mfu_data: counter_or_zero(vals[31]),
        mfu_metadata: counter_or_zero(vals[32]),
        compressed_size: counter_or_zero(vals[33]),
        uncompressed_size: counter_or_zero(vals[34]),
        memory_all_bytes: counter_or_zero(vals[35]),
        memory_free_bytes: counter_or_zero(vals[36]),
        memory_available_bytes: counter_or_zero(vals[37]),
        arc_meta_used: counter_or_zero(vals[38]),
    }
}

} // verus!
