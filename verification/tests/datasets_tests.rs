use zfstop::datasets::{
    assemble_dataset_node, dataset_kind, find_dataset, sort_by_name, string_property,
    DatasetKind, DatasetNode, DatasetProperties, DatasetsSource, RawDatasetProperties,
};
use zfstop::pools::ffi;

fn fs(name: &str, children: Vec<DatasetNode>) -> DatasetNode {
    DatasetNode {
        name: name.into(),
        kind: DatasetKind::Filesystem,
        used_bytes: 0,
        refer_bytes: 0,
        available_bytes: 0,
        compression_ratio_x100: 100,
        properties: DatasetProperties::default(),
        children,
    }
}

fn zvol(name: &str) -> DatasetNode {
    DatasetNode {
        name: name.into(),
        kind: DatasetKind::Volume,
        used_bytes: 0,
        refer_bytes: 0,
        available_bytes: 0,
        compression_ratio_x100: 100,
        properties: DatasetProperties::default(),
        children: vec![],
    }
}

#[test]
fn has_children_true_for_filesystem_with_kids() {
    let n = fs("tank", vec![fs("tank/home", vec![])]);
    assert!(n.has_children());
}

#[test]
fn has_children_false_for_empty_filesystem() {
    let n = fs("tank/empty", vec![]);
    assert!(!n.has_children());
}

#[test]
fn has_children_false_for_zvol() {
    let n = zvol("tank/swap");
    assert!(!n.has_children());
}

#[test]
fn has_children_false_for_zvol_given_children() {
    let mut n = zvol("tank/swap");
    n.children.push(fs("tank/swap/odd", vec![]));
    assert!(!n.has_children());
}

struct FakeDatasetsSource {
    snapshot: Vec<DatasetNode>,
    next_refresh_error: Option<String>,
}

impl FakeDatasetsSource {
    fn new(roots: Vec<DatasetNode>) -> Self {
        Self { snapshot: roots, next_refresh_error: None }
    }

    fn fail_next_refresh(mut self, msg: &str) -> Self {
        self.next_refresh_error = Some(msg.into());
        self
    }
}

impl DatasetsSource for FakeDatasetsSource {
    fn refresh(&mut self) -> Result<(), String> {
        if let Some(e) = self.next_refresh_error.take() {
            return Err(e);
        }
        Ok(())
    }

    fn roots(&self) -> Vec<DatasetNode> {
        self.snapshot.clone()
    }
}

fn fs_sized(name: &str) -> DatasetNode {
    DatasetNode {
        name: name.into(),
        kind: DatasetKind::Filesystem,
        used_bytes: 100,
        refer_bytes: 100,
        available_bytes: 1000,
        compression_ratio_x100: 100,
        properties: DatasetProperties::default(),
        children: vec![],
    }
}

#[test]
fn refresh_then_roots_returns_seed() {
    let mut src = FakeDatasetsSource::new(vec![fs_sized("tank")]);
    src.refresh().expect("refresh");
    let roots = src.roots();
    assert_eq!(roots.len(), 1);
    assert_eq!(roots[0].name, "tank");
}

#[test]
fn fail_next_refresh_returns_err_then_recovers() {
    let mut src = FakeDatasetsSource::new(vec![fs_sized("tank")]).fail_next_refresh("boom");
    assert!(src.refresh().is_err());
    src.refresh().expect("recovers");
}

#[test]
fn volume_bit_selects_volume_kind() {
    assert_eq!(dataset_kind(ffi::ZFS_TYPE_VOLUME), DatasetKind::Volume);
    assert_eq!(dataset_kind(ffi::ZFS_TYPE_FILESYSTEM), DatasetKind::Filesystem);
    assert_eq!(dataset_kind(ffi::ZFS_TYPE_FILESYSTEM | ffi::ZFS_TYPE_VOLUME), DatasetKind::Volume);
}

#[test]
fn string_property_drops_failed_default_and_empty_reads() {
    assert_eq!(string_property(0, 4, "lz4".to_string()), Some("lz4".to_string()));
    assert_eq!(string_property(-1, 4, "lz4".to_string()), None);
    assert_eq!(string_property(0, ffi::ZPROP_SRC_NONE, "lz4".to_string()), None);
    assert_eq!(string_property(0, ffi::ZPROP_SRC_DEFAULT, "lz4".to_string()), None);
    assert_eq!(
        string_property(0, ffi::ZPROP_SRC_NONE | ffi::ZPROP_SRC_DEFAULT, "lz4".to_string()),
        None
    );
    assert_eq!(string_property(0, 8, String::new()), None);
}

fn raw_all_set() -> RawDatasetProperties {
    RawDatasetProperties {
        mountpoint: Some("/tank/home".into()),
        compression: Some("zstd".into()),
        atime: Some("off".into()),
        snapdir: Some("visible".into()),
        sync: Some("standard".into()),
        dedup: Some("verify".into()),
        encryption: Some("aes-256-gcm".into()),
        recordsize: 131072,
        volblocksize: 16384,
        quota: 1000,
        refquota: 0,
        reservation: 0,
        refreservation: 7,
        copies: 2,
        creation: 1_710_460_800,
    }
}

#[test]
fn properties_from_raw_for_filesystem() {
    let p = DatasetProperties::from_raw(DatasetKind::Filesystem, raw_all_set());
    assert_eq!(p.mountpoint.as_deref(), Some("/tank/home"));
    assert_eq!(p.compression_algorithm.as_deref(), Some("zstd"));
    assert_eq!(p.recordsize_bytes, Some(131072));
    assert_eq!(p.volblocksize_bytes, None);
    assert_eq!(p.atime_on, Some(false));
    assert_eq!(p.snapdir_visible, Some(true));
    assert_eq!(p.sync_mode.as_deref(), Some("standard"));
    assert_eq!(p.quota_bytes, Some(1000));
    assert_eq!(p.refquota_bytes, None);
    assert_eq!(p.reservation_bytes, None);
    assert_eq!(p.refreservation_bytes, Some(7));
    assert_eq!(p.dedup_on, Some(true));
    assert_eq!(p.copies, Some(2));
    assert_eq!(p.encryption_algorithm.as_deref(), Some("aes-256-gcm"));
    assert_eq!(p.creation_time, Some(1_710_460_800));
}

#[test]
fn properties_from_raw_for_volume_skip_filesystem_only_ones() {
    let p = DatasetProperties::from_raw(DatasetKind::Volume, raw_all_set());
    assert_eq!(p.mountpoint, None);
    assert_eq!(p.recordsize_bytes, None);
    assert_eq!(p.volblocksize_bytes, Some(16384));
    assert_eq!(p.atime_on, None);
    assert_eq!(p.snapdir_visible, None);
}

#[test]
fn none_and_legacy_mountpoints_are_hidden() {
    let mut raw = raw_all_set();
    raw.mountpoint = Some("legacy".into());
    assert_eq!(DatasetProperties::from_raw(DatasetKind::Filesystem, raw).mountpoint, None);
    let mut raw = raw_all_set();
    raw.mountpoint = Some("none".into());
    raw.dedup = Some("off".into());
    let p = DatasetProperties::from_raw(DatasetKind::Filesystem, raw);
    assert_eq!(p.mountpoint, None);
    assert_eq!(p.dedup_on, Some(false));
}

#[test]
fn sort_by_name_orders_like_string_cmp() {
    let names = ["tank/b", "tank/a", "tank/ab", "tank/B", "tank/é", "tank/z", "tank/a"];
    let nodes: Vec<DatasetNode> = names.iter().map(|n| fs(n, vec![])).collect();
    let sorted = sort_by_name(nodes);
    let got: Vec<String> = sorted.iter().map(|n| n.name.clone()).collect();
    let mut expected: Vec<String> = names.iter().map(|s| s.to_string()).collect();
    expected.sort();
    assert_eq!(got, expected);
}

#[test]
fn assemble_keeps_children_of_filesystems_only() {
    let node = assemble_dataset_node(
        "tank".into(),
        DatasetKind::Filesystem,
        1,
        2,
        3,
        142,
        DatasetProperties::default(),
        vec![fs("tank/z", vec![]), fs("tank/a", vec![])],
    );
    let names: Vec<&str> = node.children.iter().map(|c| c.name.as_str()).collect();
    assert_eq!(names, vec!["tank/a", "tank/z"]);
    assert_eq!(node.compression_ratio_x100, 142);
    let vol = assemble_dataset_node(
        "tank/swap".into(),
        DatasetKind::Volume,
        1,
        2,
        3,
        100,
        DatasetProperties::default(),
        vec![fs("tank/swap/x", vec![])],
    );
    assert!(vol.children.is_empty());
}

#[test]
fn find_dataset_walks_roots_in_preorder() {
    let roots = vec![
        fs("tank", vec![fs("tank/home", vec![fs("tank/home/alice", vec![])]), zvol("tank/swap")]),
        fs("backup", vec![]),
    ];
    assert_eq!(find_dataset(&roots, "tank/home/alice").map(|n| n.name.as_str()), Some("tank/home/alice"));
    assert_eq!(find_dataset(&roots, "tank/swap").map(|n| n.kind), Some(DatasetKind::Volume));
    assert_eq!(find_dataset(&roots, "backup").map(|n| n.name.as_str()), Some("backup"));
    assert!(find_dataset(&roots, "tank/home/bob").is_none());
    assert!(find_dataset(&[], "tank").is_none());
}
