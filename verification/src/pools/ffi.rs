//! Opaque libzfs handle types and the numeric layout of the libzfs arrays
//! that the decoders read (values from `sys/fs/zfs.h`).

use vstd::prelude::*;

verus! {

/// Opaque `libzfs_handle_t`; only ever used behind a pointer.
#[allow(non_camel_case_types)]
pub struct libzfs_handle_t {
    _private: [u8; 0],
}

/// Opaque `zpool_handle_t`; only ever used behind a pointer.
#[allow(non_camel_case_types)]
pub struct zpool_handle_t {
    _private: [u8; 0],
}

/// Opaque `nvlist_t`; only ever used behind a pointer.
#[allow(non_camel_case_types)]
pub struct nvlist_t {
    _private: [u8; 0],
}

/// Opaque `zfs_handle_t`; only ever used behind a pointer.
#[allow(non_camel_case_types)]
pub struct zfs_handle_t {
    _private: [u8; 0],
}

// vdev_state_t
pub const VDEV_STATE_UNKNOWN: u64 = 0;
pub const VDEV_STATE_CLOSED: u64 = 1;
pub const VDEV_STATE_OFFLINE: u64 = 2;
pub const VDEV_STATE_REMOVED: u64 = 3;
pub const VDEV_STATE_CANT_OPEN: u64 = 4;
pub const VDEV_STATE_FAULTED: u64 = 5;
pub const VDEV_STATE_DEGRADED: u64 = 6;
pub const VDEV_STATE_HEALTHY: u64 = 7;

// pool_scan_func_t
pub const POOL_SCAN_NONE: u64 = 0;
pub const POOL_SCAN_SCRUB: u64 = 1;
pub const POOL_SCAN_RESILVER: u64 = 2;

// dsl_scan_state_t
pub const DSS_NONE: u64 = 0;
pub const DSS_SCANNING: u64 = 1;
pub const DSS_FINISHED: u64 = 2;
pub const DSS_CANCELED: u64 = 3;

// pool_scan_stat_t fields. Indices 0..=8 are the on-disk prefix; 9..=14
// are the per-pass fields OpenZFS 0.8 added with sequential scrub.
pub const PSS_IDX_FUNC: usize = 0;
pub const PSS_IDX_STATE: usize = 1;
pub const PSS_IDX_START_TIME: usize = 2;
pub const PSS_IDX_END_TIME: usize = 3;
pub const PSS_IDX_TO_EXAMINE: usize = 4;
pub const PSS_IDX_EXAMINED: usize = 5;
pub const PSS_IDX_SKIPPED: usize = 6;
pub const PSS_IDX_PROCESSED: usize = 7;
pub const PSS_IDX_ERRORS: usize = 8;
pub const PSS_MIN_LEN: usize = 9;
pub const PSS_IDX_PASS_EXAM: usize = 9;
pub const PSS_IDX_PASS_START: usize = 10;
pub const PSS_IDX_PASS_SCRUB_PAUSE: usize = 11;
pub const PSS_IDX_PASS_SCRUB_SPENT_PAUSED: usize = 12;
pub const PSS_IDX_PASS_ISSUED: usize = 13;
pub const PSS_IDX_ISSUED: usize = 14;
pub const PSS_MIN_LEN_WITH_ISSUED: usize = 15;

// vdev_stat_t fields (VS_ZIO_TYPES = 6).
pub const VS_IDX_TIMESTAMP: usize = 0;
pub const VS_IDX_STATE: usize = 1;
pub const VS_IDX_AUX: usize = 2;
pub const VS_IDX_ALLOC: usize = 3;
pub const VS_IDX_SPACE: usize = 4;
pub const VS_IDX_DSPACE: usize = 5;
pub const VS_IDX_RSIZE: usize = 6;
pub const VS_IDX_ESIZE: usize = 7;
pub const VS_IDX_READ_ERRORS: usize = 20;
pub const VS_IDX_WRITE_ERRORS: usize = 21;
pub const VS_IDX_CHECKSUM_ERRORS: usize = 22;
pub const VS_MIN_LEN: usize = 23;

// zfs_type_t bits.
pub const ZFS_TYPE_FILESYSTEM: i32 = 1;
pub const ZFS_TYPE_VOLUME: i32 = 4;

// zfs_prop_t values of the properties the dataset view reads.
pub const ZFS_PROP_TYPE: i32 = 0;
pub const ZFS_PROP_CREATION: i32 = 1;
pub const ZFS_PROP_USED: i32 = 2;
pub const ZFS_PROP_AVAILABLE: i32 = 3;
pub const ZFS_PROP_REFERENCED: i32 = 4;
pub const ZFS_PROP_COMPRESSRATIO: i32 = 5;
pub const ZFS_PROP_QUOTA: i32 = 8;
pub const ZFS_PROP_RESERVATION: i32 = 9;
pub const ZFS_PROP_VOLBLOCKSIZE: i32 = 11;
pub const ZFS_PROP_RECORDSIZE: i32 = 12;
pub const ZFS_PROP_MOUNTPOINT: i32 = 13;
pub const ZFS_PROP_COMPRESSION: i32 = 16;
pub const ZFS_PROP_ATIME: i32 = 17;
pub const ZFS_PROP_SNAPDIR: i32 = 23;
pub const ZFS_PROP_COPIES: i32 = 32;
pub const ZFS_PROP_REFQUOTA: i32 = 40;
pub const ZFS_PROP_REFRESERVATION: i32 = 41;
pub const ZFS_PROP_DEDUP: i32 = 56;
pub const ZFS_PROP_SYNC: i32 = 58;
pub const ZFS_PROP_ENCRYPTION: i32 = 82;

// zprop_source_t bits: where a property's value comes from.
pub const ZPROP_SRC_NONE: i32 = 1;
pub const ZPROP_SRC_DEFAULT: i32 = 2;

} // verus!
