use zfstop::arcstats::parse_arcstats;

const ARCSTATS: &str = "13 1 0x01 147 39984 8297713436 2146473645413
name                            type data
hits                            4    9000
iohits                          4    25
misses                          4    1000
demand_data_hits                4    5000
demand_data_misses              4    500
demand_metadata_hits            4    3000
demand_metadata_misses          4    300
prefetch_data_hits              4    800
prefetch_data_misses            4    150
prefetch_metadata_hits          4    200
prefetch_metadata_misses        4    50
size                            4    10737418240
c                               4    12884901888
c_min                           4    1073741824
c_max                           4    17179869184
overhead_size                   4    72594864
mfu_data                        4    4294967296
compressed_size                 4    8589934592
uncompressed_size               4    12884901888
memory_available_bytes          3    2147483648
";

#[test]
fn kstat_counters_are_read_by_name() {
    let s = parse_arcstats(ARCSTATS);
    assert_eq!(s.hits, 9000);
    assert_eq!(s.iohits, 25);
    assert_eq!(s.misses, 1000);
    assert_eq!(s.demand_data_hits, 5000);
    assert_eq!(s.prefetch_metadata_misses, 50);
    assert_eq!(s.size, 10_737_418_240);
    assert_eq!(s.c_max, 17_179_869_184);
    assert_eq!(s.overhead_size, 72_594_864);
    assert_eq!(s.mfu_data, 4_294_967_296);
    assert_eq!(s.uncompressed_size, 12_884_901_888);
    assert_eq!(s.memory_available_bytes, 2_147_483_648);
}

#[test]
fn counters_missing_from_the_file_read_as_zero() {
    let s = parse_arcstats(ARCSTATS);
    assert_eq!(s.anon_size, 0);
    assert_eq!(s.demand_data_iohits, 0);
    let empty = parse_arcstats("");
    assert_eq!(empty.hits, 0);
    assert_eq!(empty.size, 0);
}

#[test]
fn header_lines_and_malformed_rows_are_skipped() {
    let s = parse_arcstats("name type data\nhits 4 x\nmisses 4\nsize 4 77 trailing\n  c_max\t4\t88\n");
    assert_eq!(s.hits, 0);
    assert_eq!(s.misses, 0);
    assert_eq!(s.size, 77);
    assert_eq!(s.c_max, 88);
}
