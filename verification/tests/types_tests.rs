use zfstop::pools::{ErrorCounts, VdevKind, VdevNode, VdevState};

fn leaf(name: &str, errors: ErrorCounts) -> VdevNode {
    VdevNode {
        name: name.into(),
        kind: VdevKind::Disk,
        state: VdevState::Online,
        size_bytes: Some(1024 * 1024 * 1024),
        errors,
        children: vec![],
    }
}

#[test]
fn vdev_total_errors_sums_tree() {
    let node = VdevNode {
        name: "raidz2-0".into(),
        kind: VdevKind::Raidz,
        state: VdevState::Online,
        size_bytes: None,
        errors: ErrorCounts::default(),
        children: vec![
            leaf("sda", ErrorCounts { read: 1, write: 0, checksum: 0 }),
            leaf("sdb", ErrorCounts { read: 0, write: 2, checksum: 0 }),
            leaf("sdc", ErrorCounts { read: 0, write: 0, checksum: 3 }),
        ],
    };
    assert_eq!(node.total_errors(), 6);
}

#[test]
fn vdev_total_errors_nested() {
    let node = VdevNode {
        name: "tank".into(),
        kind: VdevKind::Root,
        state: VdevState::Online,
        size_bytes: None,
        errors: ErrorCounts::default(),
        children: vec![
            VdevNode {
                name: "raidz1-0".into(),
                kind: VdevKind::Raidz,
                state: VdevState::Online,
                size_bytes: Some(2 * 1024 * 1024 * 1024),
                errors: ErrorCounts::default(),
                children: vec![
                    leaf("sda", ErrorCounts { read: 1, ..Default::default() }),
                    leaf("sdb", ErrorCounts { write: 2, ..Default::default() }),
                ],
            },
            VdevNode {
                name: "logs".into(),
                kind: VdevKind::LogGroup,
                state: VdevState::Online,
                size_bytes: None,
                errors: ErrorCounts::default(),
                children: vec![leaf(
                    "nvme0n1p1",
                    ErrorCounts { checksum: 4, ..Default::default() },
                )],
            },
        ],
    };
    assert_eq!(node.total_errors(), 7);
}

#[test]
fn vdev_clone_keeps_the_error_total() {
    let node = VdevNode {
        name: "mirror-0".into(),
        kind: VdevKind::Mirror,
        state: VdevState::Degraded,
        size_bytes: None,
        errors: ErrorCounts { read: 2, write: 0, checksum: 0 },
        children: vec![leaf("sda", ErrorCounts { read: 0, write: 3, checksum: 1 })],
    };
    let copy = node.clone();
    assert_eq!(copy.total_errors(), node.total_errors());
    assert_eq!(copy.total_errors(), 6);
    assert_eq!(copy.name, "mirror-0");
}

#[test]
fn error_counts_sum_adds_the_three_counters() {
    let e = ErrorCounts { read: 1, write: 20, checksum: 300 };
    assert_eq!(e.sum(), 321);
    assert_eq!(ErrorCounts::default().sum(), 0);
}

#[test]
fn root_vdev_is_named_after_the_pool_and_reads_its_stats() {
    let mut stats = vec![0u64; 23];
    stats[1] = 6; // degraded
    stats[4] = 8_000_000_000;
    stats[20] = 2;
    stats[21] = 1;
    stats[22] = 4;
    let child = leaf("sda", ErrorCounts { read: 0, write: 0, checksum: 0 });
    let root = zfstop::pools::vdev::root_vdev_node("tank", Some(&stats), vec![child]);
    assert_eq!(root.name, "tank");
    assert_eq!(root.kind, VdevKind::Root);
    assert_eq!(root.state, VdevState::Degraded);
    assert_eq!(root.size_bytes, Some(8_000_000_000));
    assert_eq!(root.errors.read, 2);
    assert_eq!(root.errors.write, 1);
    assert_eq!(root.errors.checksum, 4);
    assert_eq!(root.children.len(), 1);
    assert_eq!(root.children[0].name, "sda");

    let bare = zfstop::pools::vdev::root_vdev_node("empty", None, vec![]);
    assert_eq!(bare.state, VdevState::Online);
    assert_eq!(bare.size_bytes, None);
}
