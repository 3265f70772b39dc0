use zfstop::arcstats::parse_arcstats;
use zfstop::meminfo::freebsd::{
    arc_stats_from_counters, parse_sysctl_value, sysctl_error_message, FreeBsdMemInfo,
    FreeBsdMemSource, SysctlReadError,
};
use zfstop::meminfo::{linux_snapshot, MemInfo, MemSource, RamSegment, SegmentColor};

const MEMINFO: &str = "MemTotal:       32768000 kB
MemFree:         4096000 kB
MemAvailable:   18432000 kB
Buffers:          512000 kB
Cached:          2048000 kB
SwapCached:            0 kB
Active:          8192000 kB
Inactive:        4096000 kB
SReclaimable:    1024000 kB
SUnreclaim:       256000 kB
";

const VM_STATS: &str = "vm.stats.vm.v_page_size: 4096
vm.stats.vm.v_page_count: 1014032
vm.stats.vm.v_wire_count: 440983
vm.stats.vm.v_active_count: 81
vm.stats.vm.v_inactive_count: 11358
vm.stats.vm.v_laundry_count: 4002
vm.stats.vm.v_free_count: 26766
";

const HW_MEM: &str = "hw.physmem: 4250365952
hw.realmem: 4294967296
hw.pagesize: 4096
";

fn fixture() -> MemInfo {
    MemInfo::parse(MEMINFO).unwrap()
}

#[test]
fn parse_fixture_total() {
    let m = fixture();
    assert_eq!(m.total, 32768000);
}

#[test]
fn parse_fixture_free() {
    let m = fixture();
    assert_eq!(m.free, 4096000);
}

#[test]
fn parse_fixture_available() {
    let m = fixture();
    assert_eq!(m.available, 18432000);
}

#[test]
fn parse_fixture_buffers_cached() {
    let m = fixture();
    assert_eq!(m.buffers, 512000);
    assert_eq!(m.cached, 2048000);
}

#[test]
fn parse_fixture_sreclaimable() {
    let m = fixture();
    assert_eq!(m.s_reclaimable, 1024000);
}

#[test]
fn buf_cache_includes_sreclaimable() {
    let m = fixture();
    assert_eq!(m.buf_cache(), 512_000 + 2_048_000 + 1_024_000);
}

#[test]
fn app_used_subtracts_arc() {
    let m = fixture();
    let arc_bytes: u64 = 12_345_678_912;
    let arc_kb = arc_bytes / 1024;
    let expected = 32_768_000 - 4_096_000 - 3_584_000 - arc_kb;
    assert_eq!(m.app_used(arc_bytes), expected);
}

#[test]
fn missing_required_field_is_named() {
    let err = MemInfo::parse("MemTotal: 10 kB\nMemAvailable: 5 kB\n").unwrap_err();
    assert_eq!(err.key, "MemFree");
    assert_eq!(err.message(), "missing field 'MemFree' in meminfo");
    let ok = MemInfo::parse("MemTotal: 1\nMemFree: 2\nMemAvailable: 3\nBuffers: 4\nCached: 5\n").unwrap();
    assert_eq!(ok.s_reclaimable, 0);
}

#[test]
fn app_used_never_goes_below_zero() {
    let m = fixture();
    assert_eq!(m.app_used(u64::MAX), 0);
}

#[test]
fn linux_snapshot_places_arc_between_apps_and_cache() {
    let m = fixture();
    let arc = vec![
        RamSegment { label: "ARC", color: SegmentColor::Indexed(171), bytes: 1024 * 1024 * 1024 },
        RamSegment { label: "ARC ovh", color: SegmentColor::Magenta, bytes: 1024 * 1024 },
    ];
    let snap = linux_snapshot(&m, &arc).unwrap();
    assert_eq!(snap.total_bytes, 32_768_000 * 1024);
    let labels: Vec<&str> = snap.segments.iter().map(|s| s.label).collect();
    assert_eq!(labels, vec!["Apps", "ARC", "ARC ovh", "Buf/Cache"]);
    assert_eq!(snap.segments[0].bytes, m.app_used(1024 * 1024 * 1024 + 1024 * 1024) * 1024);
    assert_eq!(snap.segments[3].bytes, 3_584_000 * 1024);
    let mut zero = fixture();
    zero.total = 0;
    assert!(linux_snapshot(&zero, &arc).is_none());
}

fn bsd_fixture() -> FreeBsdMemInfo {
    FreeBsdMemInfo::parse_sysctl_text(VM_STATS, HW_MEM).unwrap()
}

#[test]
fn parse_fixture_pagesize_and_total() {
    let m = bsd_fixture();
    assert_eq!(m.page_size, 4096);
    assert_eq!(m.total_bytes, 4_250_365_952);
}

#[test]
fn parse_fixture_page_counts() {
    let m = bsd_fixture();
    assert_eq!(m.wired_pages, 440_983);
    assert_eq!(m.active_pages, 81);
    assert_eq!(m.inactive_pages, 11_358);
    assert_eq!(m.laundry_pages, 4_002);
    assert_eq!(m.free_pages, 26_766);
}

#[test]
fn missing_sysctl_is_named() {
    let err = FreeBsdMemInfo::parse_sysctl_text(VM_STATS, "hw.physmem: 1\n").unwrap_err();
    assert_eq!(err.key, "hw.pagesize");
    assert_eq!(err.message(), "missing sysctl 'hw.pagesize'");
}

#[test]
fn snapshot_segments_match_fixture() {
    let m = bsd_fixture();
    let src = FreeBsdMemSource { last: Some(m.clone()) };
    let arc_size: u64 = 1_400_000_000;
    let arc_ovh: u64 = 72_594_864;
    let arc_segs = vec![
        RamSegment { label: "ARC", color: SegmentColor::Magenta, bytes: arc_size },
        RamSegment { label: "ARC ovh", color: SegmentColor::Indexed(53), bytes: arc_ovh },
    ];

    let snap = src.snapshot(&arc_segs).unwrap();
    assert_eq!(snap.total_bytes, 4_250_365_952);
    assert_eq!(snap.segments.len(), 5);

    let wired_bytes = m.wired_pages * m.page_size;
    assert_eq!(snap.segments[0].label, "Wired");
    assert_eq!(snap.segments[0].bytes, wired_bytes - (arc_size + arc_ovh));

    assert_eq!(snap.segments[1].label, "Active");
    assert_eq!(snap.segments[1].bytes, 81 * 4096);

    assert_eq!(snap.segments[2].label, "ARC");
    assert_eq!(snap.segments[2].bytes, arc_size);
    assert_eq!(snap.segments[2].color, SegmentColor::Magenta);
    assert_eq!(snap.segments[3].label, "ARC ovh");
    assert_eq!(snap.segments[3].bytes, arc_ovh);
    assert_eq!(snap.segments[3].color, SegmentColor::Indexed(53));

    assert_eq!(snap.segments[4].label, "Inactive");
    assert_eq!(snap.segments[4].bytes, (11_358 + 4_002) * 4096);
}

#[test]
fn snapshot_underflow_saturates() {
    let m = FreeBsdMemInfo {
        page_size: 4096,
        total_bytes: 4_000_000_000,
        wired_pages: 100,
        active_pages: 50,
        inactive_pages: 50,
        laundry_pages: 0,
        free_pages: 100,
    };
    let src = FreeBsdMemSource { last: Some(m) };
    let arc_segs = vec![RamSegment { label: "ARC", color: SegmentColor::Magenta, bytes: 999_999_999 }];
    let snap = src.snapshot(&arc_segs).unwrap();
    assert_eq!(snap.segments[0].bytes, 0);
}

#[test]
fn snapshot_needs_a_reading_with_page_size_and_total() {
    let none = FreeBsdMemSource { last: None };
    assert!(none.snapshot(&[]).is_none());
    let mut m = bsd_fixture();
    m.page_size = 0;
    assert!(FreeBsdMemSource { last: Some(m) }.snapshot(&[]).is_none());
}

#[test]
fn sysctl_values_are_trimmed_and_parsed() {
    assert_eq!(parse_sysctl_value("hw.pagesize", " 4096\n").unwrap(), 4096);
    match parse_sysctl_value("hw.pagesize", "4k") {
        Err(e) => {
            assert_eq!(
                sysctl_error_message(&e),
                "sysctl hw.pagesize returned non-numeric value: \"4k\""
            );
        }
        Ok(v) => panic!("expected an error, got {v}"),
    }
}

#[test]
fn sysctl_error_messages_name_the_key() {
    let open = SysctlReadError::Open { key: "vm.x".into() };
    let read = SysctlReadError::Read { key: "vm.y".into() };
    let bad = SysctlReadError::NonNumeric { key: "vm.z".into(), value: "a\"b\n".into() };
    assert_eq!(sysctl_error_message(&open), "failed to open sysctl vm.x");
    assert_eq!(sysctl_error_message(&read), "failed to read sysctl vm.y");
    assert_eq!(sysctl_error_message(&bad), format!("sysctl vm.z returned non-numeric value: {:?}", "a\"b\n"));
}

#[test]
fn from_values_fills_fields_in_key_order() {
    let m = FreeBsdMemInfo::from_values(&vec![4096, 4_250_365_952, 440_983, 81, 11_358, 4_002, 26_766]);
    assert_eq!(m.page_size, 4096);
    assert_eq!(m.total_bytes, 4_250_365_952);
    assert_eq!(m.wired_pages, 440_983);
    assert_eq!(m.active_pages, 81);
    assert_eq!(m.inactive_pages, 11_358);
    assert_eq!(m.laundry_pages, 4_002);
    assert_eq!(m.free_pages, 26_766);
}

#[test]
fn values_read_one_by_one_agree_with_captured_text() {
    let parsed = FreeBsdMemInfo::parse_sysctl_text(VM_STATS, HW_MEM).unwrap();
    let built = FreeBsdMemInfo::from_values(&vec![4096, 4_250_365_952, 440_983, 81, 11_358, 4_002, 26_766]);
    assert_eq!(format!("{parsed:?}"), format!("{built:?}"));
}

const ARC_COUNTER_NAMES: [&str; 39] = ["hits", "iohits", "misses", "demand_data_hits", "demand_data_iohits", "demand_data_misses", "demand_metadata_hits", "demand_metadata_iohits", "demand_metadata_misses", "prefetch_data_hits", "prefetch_data_iohits", "prefetch_data_misses", "prefetch_metadata_hits", "prefetch_metadata_iohits", "prefetch_metadata_misses", "size", "c", "c_min", "c_max", "data_size", "metadata_size", "anon_size", "overhead_size", "hdr_size", "dbuf_size", "dnode_size", "bonus_size", "mru_size", "mru_data", "mru_metadata", "mfu_size", "mfu_data", "mfu_metadata", "compressed_size", "uncompressed_size", "memory_all_bytes", "memory_free_bytes", "memory_available_bytes", "arc_meta_used"];

#[test]
fn arc_counters_fill_fields_in_name_order() {
    let vals: Vec<u64> = (0..39).map(|i| 1000 + i as u64).collect();
    let s = arc_stats_from_counters(&vals);
    assert_eq!(s.hits, 1000);
    assert_eq!(s.iohits, 1001);
    assert_eq!(s.size, 1015);
    assert_eq!(s.overhead_size, 1022);
    assert_eq!(s.mru_data, 1028);
    assert_eq!(s.mru_metadata, 1029);
    assert_eq!(s.arc_meta_used, 1038);
}

#[test]
fn arc_counters_agree_with_kstat_text() {
    let vals: Vec<u64> = (0..39).map(|i| 7 * i as u64 + 3).collect();
    let mut text = String::from("13 1 0x01 147 39984 8297713436 2146473645413\nname type data\n");
    for (name, v) in ARC_COUNTER_NAMES.iter().zip(vals.iter()) {
        text.push_str(&format!("{name} 4 {v}\n"));
    }
    let from_text = parse_arcstats(&text);
    let from_counters = arc_stats_from_counters(&vals);
    assert_eq!(format!("{from_text:?}"), format!("{from_counters:?}"));
}
