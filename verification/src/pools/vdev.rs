//! The decisions made while walking a pool's vdev tree: state codes,
//! `vdev_stats` decoding, how a vdev's config `type` maps to a kind, its
//! display name, and how a pool's summary is assembled from its root.

use vstd::prelude::*;
use crate::pools::ffi::{
    VDEV_STATE_CANT_OPEN, VDEV_STATE_CLOSED, VDEV_STATE_DEGRADED, VDEV_STATE_FAULTED,
    VDEV_STATE_HEALTHY, VDEV_STATE_OFFLINE, VDEV_STATE_REMOVED, VS_IDX_CHECKSUM_ERRORS,
    VS_IDX_READ_ERRORS, VS_IDX_SPACE, VS_IDX_STATE, VS_IDX_WRITE_ERRORS, VS_MIN_LEN,
};
use crate::pools::types::{
    tree_errors, ErrorCounts, PoolHealth, PoolInfo, ScrubState, VdevKind, VdevNode, VdevState,
};
use crate::text::{chars_of, has_prefix_at, str_eq, string_from_range, string_of};

verus! {

/// The `VdevState` a `vdev_state_t` code stands for.
pub open spec fn vdev_state_of(v: u64) -> VdevState {
    if v == VDEV_STATE_HEALTHY {
        VdevState::Online
    } else if v == VDEV_STATE_DEGRADED {
        VdevState::Degraded
    } else if v == VDEV_STATE_FAULTED || v == VDEV_STATE_CANT_OPEN {
        VdevState::Faulted
    } else if v == VDEV_STATE_OFFLINE || v == VDEV_STATE_CLOSED {
        VdevState::Offline
    } else if v == VDEV_STATE_REMOVED {
        VdevState::Removed
    } else {
        VdevState::Unavail
    }
}

pub fn map_vdev_state(v: u64) -> (r: VdevState)
    ensures
        r == vdev_state_of(v),
{
    if v == VDEV_STATE_HEALTHY {
        VdevState::Online
    } else if v == VDEV_STATE_DEGRADED {
        VdevState::Degraded
    } else if v == VDEV_STATE_FAULTED || v == VDEV_STATE_CANT_OPEN {
        VdevState::Faulted
    } else if v == VDEV_STATE_OFFLINE || v == VDEV_STATE_CLOSED {
        VdevState::Offline
    } else if v == VDEV_STATE_REMOVED {
        VdevState::Removed
    } else {
        VdevState::Unavail
    }
}

/// The pool health that a root vdev state means.
pub open spec fn health_of(state: VdevState) -> PoolHealth {
    match state {
        VdevState::Online => PoolHealth::Online,
        VdevState::Degraded => PoolHealth::Degraded,
        VdevState::Faulted => PoolHealth::Faulted,
        VdevState::Offline => PoolHealth::Offline,
        VdevState::Removed => PoolHealth::Removed,
        VdevState::Unavail => PoolHealth::Unavail,
    }
}

/// Pool-level health is the root vdev's state.
pub fn derive_pool_health(root: &VdevNode) -> (r: PoolHealth)
    ensures
        r == health_of(root.state),
{
    match root.state {
        VdevState::Online => PoolHealth::Online,
        VdevState::Degraded => PoolHealth::Degraded,
        VdevState::Faulted => PoolHealth::Faulted,
        VdevState::Offline => PoolHealth::Offline,
        VdevState::Removed => PoolHealth::Removed,
        VdevState::Unavail => PoolHealth::Unavail,
    }
}

/// State and error counters a `vdev_stats` array reports. A missing array
/// reads as an online vdev without errors; an array too short to hold the
/// error counters reports no errors.
pub open spec fn vdev_stats_view(stats: Option<Seq<u64>>) -> (VdevState, ErrorCounts) {
    match stats {
        None => (VdevState::Online, ErrorCounts { read: 0, write: 0, checksum: 0 }),
        Some(s) => (
            vdev_state_of(
                if s.len() > VS_IDX_STATE {
                    s[VS_IDX_STATE as int]
                } else {
                    0
                },
            ),
            if s.len() >= VS_MIN_LEN {
                ErrorCounts {
                    read: s[VS_IDX_READ_ERRORS as int],
                    write: s[VS_IDX_WRITE_ERRORS as int],
                    checksum: s[VS_IDX_CHECKSUM_ERRORS as int],
                }
            } else {
                ErrorCounts { read: 0, write: 0, checksum: 0 }
            },
        ),
    }
}

pub fn vdev_state_and_errors(stats: Option<&[u64]>) -> (r: (VdevState, ErrorCounts))
    ensures
        r == vdev_stats_view(
            match stats {
                Some(s) => Some(s@),
                None => None,
            },
        ),
{
    match stats {
        None => (VdevState::Online, ErrorCounts::default()),
        Some(s) => {
            let state_u64 = if s.len() > VS_IDX_STATE {
                s[VS_IDX_STATE]
            } else {
                0
            };
            let errors = if s.len() >= VS_MIN_LEN {
                ErrorCounts {
                    read: s[VS_IDX_READ_ERRORS],
                    write: s[VS_IDX_WRITE_ERRORS],
                    checksum: s[VS_IDX_CHECKSUM_ERRORS],
                }
            } else {
                ErrorCounts::default()
            };
            (map_vdev_state(state_u64), errors)
        },
    }
}

/// Whether `kind` is one of the `logs` / `cache` / `spares` headers.
pub open spec fn is_group_kind(kind: VdevKind) -> bool {
    kind == VdevKind::LogGroup || kind == VdevKind::CacheGroup || kind == VdevKind::SpareGroup
}

pub fn is_group(kind: VdevKind) -> (b: bool)
    ensures
        b == is_group_kind(kind),
{
    match kind {
        VdevKind::LogGroup | VdevKind::CacheGroup | VdevKind::SpareGroup => true,
        _ => false,
    }
}

/// Whether `kind` is a leaf backed by a device or a file.
pub open spec fn is_leaf_kind(kind: VdevKind) -> bool {
    kind == VdevKind::Disk || kind == VdevKind::File || kind == VdevKind::LogVdev || kind
        == VdevKind::CacheVdev || kind == VdevKind::SpareVdev
}

/// The kind of a non-root vdev with config `type` string `type_str`, below
/// the group header `parent_group` (if any). Unknown types read as disks.
pub open spec fn vdev_kind_of(parent_group: Option<VdevKind>, type_str: Seq<char>) -> VdevKind {
    if type_str == "mirror"@ || type_str == "replacing"@ {
        VdevKind::Mirror
    } else if type_str == "raidz"@ || type_str == "draid"@ {
        VdevKind::Raidz
    } else if (type_str == "disk"@ || type_str == "file"@) && parent_group == Some(
        VdevKind::LogGroup,
    ) {
        VdevKind::LogVdev
    } else if (type_str == "disk"@ || type_str == "file"@) && parent_group == Some(
        VdevKind::CacheGroup,
    ) {
        VdevKind::CacheVdev
    } else if (type_str == "disk"@ || type_str == "file"@) && parent_group == Some(
        VdevKind::SpareGroup,
    ) {
        VdevKind::SpareVdev
    } else if type_str == "file"@ {
        VdevKind::File
    } else {
        VdevKind::Disk
    }
}

pub fn classify_vdev(parent_group: Option<VdevKind>, type_str: &str) -> (r: VdevKind)
    ensures
        r == vdev_kind_of(parent_group, type_str@),
{
    let leaf = str_eq(type_str, "disk") || str_eq(type_str, "file");
    if str_eq(type_str, "mirror") || str_eq(type_str, "replacing") {
        VdevKind::Mirror
    } else if str_eq(type_str, "raidz") || str_eq(type_str, "draid") {
        VdevKind::Raidz
    } else if leaf && parent_group == Some(VdevKind::LogGroup) {
        VdevKind::LogVdev
    } else if leaf && parent_group == Some(VdevKind::CacheGroup) {
        VdevKind::CacheVdev
    } else if leaf && parent_group == Some(VdevKind::SpareGroup) {
        VdevKind::SpareVdev
    } else if str_eq(type_str, "file") {
        VdevKind::File
    } else {
        VdevKind::Disk
    }
}

/// The group context handed down to the children of a `kind` vdev.
pub open spec fn child_group_of(kind: VdevKind, parent_group: Option<VdevKind>) -> Option<
    VdevKind,
> {
    if is_group_kind(kind) {
        Some(kind)
    } else {
        parent_group
    }
}

pub fn child_group(kind: VdevKind, parent_group: Option<VdevKind>) -> (r: Option<VdevKind>)
    ensures
        r == child_group_of(kind, parent_group),
{
    if is_group(kind) {
        Some(kind)
    } else {
        parent_group
    }
}

/// `path` without a leading `/dev/`.
pub open spec fn strip_dev(path: Seq<char>) -> Seq<char> {
    if path.len() >= 5 && path.take(5) == "/dev/"@ {
        path.skip(5)
    } else {
        path
    }
}

/// Display name of a vdev: leaves show their device path without `/dev/`
/// (their type when the path is missing); every other vdev shows its type.
pub open spec fn vdev_name_of(kind: VdevKind, path: Option<Seq<char>>, type_str: Seq<char>) -> Seq<
    char,
> {
    if is_leaf_kind(kind) {
        match path {
            Some(p) => strip_dev(p),
            None => type_str,
        }
    } else {
        type_str
    }
}

pub fn vdev_display_name(kind: VdevKind, path: Option<&str>, type_str: &str) -> (r: String)
    ensures
        r@ == vdev_name_of(
            kind,
            match path {
                Some(p) => Some(p@),
                None => None,
            },
            type_str@,
        ),
{
    let leaf = match kind {
        VdevKind::Disk | VdevKind::File | VdevKind::LogVdev | VdevKind::CacheVdev
        | VdevKind::SpareVdev => true,
        _ => false,
    };
    if !leaf {
        return string_of(type_str);
    }
    match path {
        None => string_of(type_str),
        Some(p) => {
            let pv = chars_of(p);
            let dev = chars_of("/dev/");
            proof {
                reveal_strlit("/dev/");
            }
            if has_prefix_at(&pv, 0, &dev) {
                proof {
                    assert(pv@.subrange(0, 5) =~= pv@.take(5));
                }
                let n = pv.len();
                let r = string_from_range(&pv, 5, n);
                proof {
                    assert(pv@.subrange(5, n as int) =~= pv@.skip(5));
                }
                r
            } else {
                proof {
                    if pv@.len() >= 5 {
                        assert(pv@.subrange(0, 5) =~= pv@.take(5));
                    }
                }
                let n = pv.len();
                let r = string_from_range(&pv, 0, n);
                proof {
                    assert(pv@.subrange(0, n as int) =~= pv@);
                }
                r
            }
        },
    }
}

/// Size of a vdev: `vs_space` when the stats hold it; group headers have none.
pub open spec fn vdev_size_of(kind: VdevKind, stats: Option<Seq<u64>>) -> Option<u64> {
    if is_group_kind(kind) {
        None
    } else {
        match stats {
            Some(s) => if s.len() > VS_IDX_SPACE {
                Some(s[VS_IDX_SPACE as int])
            } else {
                None
            },
            None => None,
        }
    }
}

pub fn vdev_size(kind: VdevKind, stats: Option<&[u64]>) -> (r: Option<u64>)
    ensures
        r == vdev_size_of(
            kind,
            match stats {
                Some(s) => Some(s@),
                None => None,
            },
        ),
{
    if is_group(kind) {
        return None;
    }
    match stats {
        Some(s) => if s.len() > VS_IDX_SPACE {
            Some(s[VS_IDX_SPACE])
        } else {
            None
        },
        None => None,
    }
}

/// Fragmentation as a percentage; values above 100 are libzfs's
/// "unavailable" sentinel.
pub open spec fn fragmentation_of(raw: u64) -> Option<u8> {
    if raw <= 100 {
        Some(raw as u8)
    } else {
        None
    }
}

pub fn decode_fragmentation(raw: u64) -> (r: Option<u8>)
    ensures
        r == fragmentation_of(raw),
{
    if raw <= 100 {
        Some(raw as u8)
    } else {
        None
    }
}

/// The root of a pool's vdev tree: named after the pool, of kind `Root`,
/// with state, error counters and size read from its `vdev_stats` array
/// (`stats`), over the already walked top-level `children`.
pub fn root_vdev_node(pool_name: &str, stats: Option<&[u64]>, children: Vec<VdevNode>) -> (r: VdevNode)
    ensures
        r.name@ == pool_name@,
        r.kind == VdevKind::Root,
        (r.state, r.errors) == vdev_stats_view(
            match stats {
                Some(s) => Some(s@),
                None => None,
            },
        ),
        r.size_bytes == vdev_size_of(
            VdevKind::Root,
            match stats {
                Some(s) => Some(s@),
                None => None,
            },
        ),
        r.children == children,
{
    let (state, errors) = vdev_state_and_errors(stats);
    let size_bytes = vdev_size(VdevKind::Root, stats);
    VdevNode { name: string_of(pool_name), kind: VdevKind::Root, state, size_bytes, errors, children }
}

/// The summary of a pool built from its properties and walked root vdev:
/// health is the root's state, and the errors of the whole tree are summed
/// into `errors.read`.
pub fn assemble_pool_info(
    name: String,
    size_bytes: u64,
    allocated_bytes: u64,
    free_bytes: u64,
    fragmentation_raw: u64,
    scrub: ScrubState,
    root_vdev: VdevNode,
) -> (r: PoolInfo)
    requires
        tree_errors(root_vdev) <= u64::MAX,
    ensures
        r.name == name,
        r.health == health_of(root_vdev.state),
        r.allocated_bytes == allocated_bytes,
        r.size_bytes == size_bytes,
        r.free_bytes == free_bytes,
        r.fragmentation_pct == fragmentation_of(fragmentation_raw),
        r.scrub == scrub,
        r.errors == (ErrorCounts { read: tree_errors(root_vdev) as u64, write: 0, checksum: 0 }),
        r.root_vdev == root_vdev,
{
    let errors_sum = root_vdev.total_errors();
    let health = derive_pool_health(&root_vdev);
    PoolInfo {
        name,
        health,
        allocated_bytes,
        size_bytes,
        free_bytes,
        fragmentation_pct: decode_fragmentation(fragmentation_raw),
        scrub,
        errors: ErrorCounts { read: errors_sum, write: 0, checksum: 0 },
        root_vdev,
    }
}

/// A vdev's kind follows its config type under any parent group: "mirror"
/// and "replacing" vdevs are mirrors, "raidz" and "draid" vdevs are RAID-Z,
/// and no other type is either.
pub proof fn lemma_vdev_kind_by_type(parent_group: Option<VdevKind>, type_str: Seq<char>)
    ensures
        (vdev_kind_of(parent_group, type_str) == VdevKind::Mirror) <==> (type_str == "mirror"@
            || type_str == "replacing"@),
        (vdev_kind_of(parent_group, type_str) == VdevKind::Raidz) <==> (type_str == "raidz"@
            || type_str == "draid"@),
{
    reveal_strlit("mirror");
    reveal_strlit("replacing");
    reveal_strlit("raidz");
    reveal_strlit("draid");
    reveal_strlit("disk");
    reveal_strlit("file");
    assert("mirror"@ != "replacing"@) by { assert("mirror"@.len() != "replacing"@.len()); }
    assert("mirror"@ != "raidz"@) by { assert("mirror"@.len() != "raidz"@.len()); }
    assert("mirror"@ != "draid"@) by { assert("mirror"@.len() != "draid"@.len()); }
    assert("mirror"@ != "disk"@) by { assert("mirror"@.len() != "disk"@.len()); }
    assert("mirror"@ != "file"@) by { assert("mirror"@.len() != "file"@.len()); }
    assert("replacing"@ != "raidz"@) by { assert("replacing"@.len() != "raidz"@.len()); }
    assert("replacing"@ != "draid"@) by { assert("replacing"@.len() != "draid"@.len()); }
    assert("replacing"@ != "disk"@) by { assert("replacing"@.len() != "disk"@.len()); }
    assert("replacing"@ != "file"@) by { assert("replacing"@.len() != "file"@.len()); }
    assert("raidz"@ != "draid"@) by { assert("raidz"@[0] != "draid"@[0]); }
    assert("raidz"@ != "disk"@) by { assert("raidz"@.len() != "disk"@.len()); }
    assert("raidz"@ != "file"@) by { assert("raidz"@.len() != "file"@.len()); }
    assert("draid"@ != "disk"@) by { assert("draid"@.len() != "disk"@.len()); }
    assert("draid"@ != "file"@) by { assert("draid"@.len() != "file"@.len()); }
    assert("disk"@ != "file"@) by { assert("disk"@[0] != "file"@[0]); }
}

/// How libzfs's `vdev_state_t` codes read, and the pool health each gives:
/// 7 (healthy) is online, 6 degraded, 5 (faulted) and 4 (can't open)
/// faulted, 2 (offline) and 1 (closed) offline, 3 removed, anything else
/// unavailable.
pub proof fn lemma_vdev_state_codes(v: u64)
    ensures
        (vdev_state_of(v) == VdevState::Online) <==> v == 7,
        (vdev_state_of(v) == VdevState::Degraded) <==> v == 6,
        (vdev_state_of(v) == VdevState::Faulted) <==> (v == 5 || v == 4),
        (vdev_state_of(v) == VdevState::Offline) <==> (v == 2 || v == 1),
        (vdev_state_of(v) == VdevState::Removed) <==> v == 3,
        (vdev_state_of(v) == VdevState::Unavail) <==> (v == 0 || v > 7),
        (health_of(vdev_state_of(v)) == PoolHealth::Online) <==> v == 7,
        (health_of(vdev_state_of(v)) == PoolHealth::Degraded) <==> v == 6,
{
}

/// A full `vdev_stats` array (23 fields or more) gives the vdev's state
/// from field 1 and its read, write and checksum errors from fields 20, 21
/// and 22; any vdev but a group header is as large as field 4 says. With
/// no array the vdev reads as online, error-free and of unknown size.
pub proof fn lemma_vdev_stats_fields(kind: VdevKind, stats: Seq<u64>)
    ensures
        stats.len() >= 23 ==> vdev_stats_view(Some(stats)) == (
            vdev_state_of(stats[1]),
            ErrorCounts { read: stats[20], write: stats[21], checksum: stats[22] },
        ),
        stats.len() >= 5 && !is_group_kind(kind) ==> vdev_size_of(kind, Some(stats)) == Some(stats[4]),
        is_group_kind(kind) ==> vdev_size_of(kind, Some(stats)) is None,
        vdev_stats_view(None) == (VdevState::Online, ErrorCounts { read: 0, write: 0, checksum: 0 }),
        vdev_size_of(kind, None) is None,
{
}

/// A leaf vdev is named by its device path without the `/dev/` prefix; a
/// path elsewhere is shown whole; every other vdev is named by its type.
pub proof fn lemma_vdev_names(kind: VdevKind, path: Seq<char>, type_str: Seq<char>)
    ensures
        is_leaf_kind(kind) ==> vdev_name_of(kind, Some("/dev/"@ + path), type_str) == path,
        is_leaf_kind(kind) && !(path.len() >= 5 && path.take(5) == "/dev/"@) ==> vdev_name_of(
            kind,
            Some(path),
            type_str,
        ) == path,
        is_leaf_kind(kind) ==> vdev_name_of(kind, None, type_str) == type_str,
        !is_leaf_kind(kind) ==> vdev_name_of(kind, Some(path), type_str) == type_str,
{
    reveal_strlit("/dev/");
    let full = "/dev/"@ + path;
    assert(full.take(5) =~= "/dev/"@);
    assert(full.skip(5) =~= path);
}

} // verus!
