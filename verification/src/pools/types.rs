//! Snapshot of pool state as plain values. Nothing of libzfs shows
//! through: the app, the UI and the tests see only these shapes.

use vstd::prelude::*;

verus! {

#[derive(Clone, Debug)]
pub struct PoolInfo {
    pub name: String,
    pub health: PoolHealth,
    pub allocated_bytes: u64,
    pub size_bytes: u64,
    pub free_bytes: u64,
    /// Integer percentage `0..=100`; `None` when libzfs reports the
    /// "unavailable" sentinel.
    pub fragmentation_pct: Option<u8>,
    pub scrub: ScrubState,
    /// Errors summed over every vdev of the pool (kept in `read`).
    pub errors: ErrorCounts,
    pub root_vdev: VdevNode,
}

#[derive(Copy, Clone, Debug, PartialEq, Eq, Structural)]
pub enum PoolHealth {
    Online,
    Degraded,
    Faulted,
    Offline,
    Removed,
    Unavail,
}

#[derive(Clone, Debug)]
pub enum ScrubState {
    /// Never scrubbed, or libzfs returned no scan statistics.
    Never,
    /// A scrub or resilver is running.
    InProgress {
        progress_pct: u8,
        eta_seconds: Option<u64>,
        speed_bytes_per_sec: Option<u64>,
        is_resilver: bool,
    },
    /// The last scrub completed; `completed_at` is in seconds since the
    /// Unix epoch.
    Finished { completed_at: u64, errors_repaired: u64 },
    /// The last scrub errored or was canceled.
    Error,
}

#[derive(Copy, Clone, Debug, PartialEq, Eq, Structural)]
pub struct ErrorCounts {
    pub read: u64,
    pub write: u64,
    pub checksum: u64,
}

impl Default for ErrorCounts {
    fn default() -> (r: Self)
        ensures
            r.read == 0 && r.write == 0 && r.checksum == 0,
    {
        ErrorCounts { read: 0, write: 0, checksum: 0 }
    }
}

impl ErrorCounts {
    pub open spec fn total(self) -> nat {
        (self.read + self.write + self.checksum) as nat
    }

    /// Read + write + checksum errors.
    pub fn sum(&self) -> (r: u64)
        requires
            self.total() <= u64::MAX,
        ensures
            r == self.total(),
    {
        self.read + self.write + self.checksum
    }
}

#[derive(Debug)]
pub struct VdevNode {
    pub name: String,
    pub kind: VdevKind,
    pub state: VdevState,
    /// `None` for the `logs` / `cache` / `spares` group headers.
    pub size_bytes: Option<u64>,
    pub errors: ErrorCounts,
    pub children: Vec<VdevNode>,
}

/// Errors of `node` and of every vdev below it.
pub open spec fn tree_errors(node: VdevNode) -> nat
    decreases node, 0nat,
{
    node.errors.total() + forest_errors(node.children@, node.children@.len() as int)
}

/// Errors of the first `n` trees of `forest` and of everything below them.
pub open spec fn forest_errors(forest: Seq<VdevNode>, n: int) -> nat
    decreases forest, n,
{
    if n <= 0 || n > forest.len() {
        0
    } else {
        forest_errors(forest, n - 1) + tree_errors(forest[n - 1])
    }
}

proof fn lemma_forest_errors_monotone(forest: Seq<VdevNode>, m: int, n: int)
    requires
        0 <= m <= n <= forest.len(),
    ensures
        forest_errors(forest, m) <= forest_errors(forest, n),
    decreases n - m,
{
    if m < n {
        lemma_forest_errors_monotone(forest, m, n - 1);
    }
}

proof fn lemma_forest_errors_pointwise(a: Seq<VdevNode>, b: Seq<VdevNode>, n: int)
    requires
        a.len() == b.len(),
        0 <= n <= a.len(),
        forall|j: int| 0 <= j < a.len() ==> tree_errors(#[trigger] a[j]) == tree_errors(b[j]),
    ensures
        forest_errors(a, n) == forest_errors(b, n),
    decreases n,
{
    if n > 0 {
        lemma_forest_errors_pointwise(a, b, n - 1);
        assert(tree_errors(a[n - 1]) == tree_errors(b[n - 1]));
    }
}

impl Clone for VdevNode {
    /// A deep copy: every field of the node is kept, and each child is a
    /// copy of the same kind, so the tree's error total is unchanged.
    fn clone(&self) -> (r: Self)
        ensures
            r.name == self.name,
            r.kind == self.kind,
            r.state == self.state,
            r.size_bytes == self.size_bytes,
            r.errors == self.errors,
            r.children@.len() == self.children@.len(),
            forall|j: int|
                0 <= j < r.children@.len() ==> tree_errors(#[trigger] r.children@[j])
                    == tree_errors(self.children@[j]),
            tree_errors(r) == tree_errors(*self),
        decreases *self,
    {
        let mut children: Vec<VdevNode> = Vec::new();
        let n = self.children.len();
        let mut i: usize = 0;
        while i < n
            invariant
                n == self.children@.len(),
                0 <= i <= n,
                children@.len() == i,
                forall|j: int|
                    0 <= j < i ==> tree_errors(#[trigger] children@[j]) == tree_errors(
                        self.children@[j],
                    ),
            decreases n - i,
        {
            proof {
                assert(decreases_to!(*self => self.children));
                assert(decreases_to!(self.children => self.children@));
            }
            let c = self.children[i].clone();
            children.push(c);
            i = i + 1;
        }
        proof {
            lemma_forest_errors_pointwise(children@, self.children@, n as int);
        }
        VdevNode {
            name: self.name.clone(),
            kind: self.kind,
            state: self.state,
            size_bytes: self.size_bytes,
            errors: self.errors,
            children,
        }
    }
}

impl VdevNode {
    /// Errors summed over this node and every descendant.
    pub fn total_errors(&self) -> (r: u64)
        requires
            tree_errors(*self) <= u64::MAX,
        ensures
            r == tree_errors(*self),
        decreases *self,
    {
        let here = self.errors.sum();
        let mut kids: u64 = 0;
        let n = self.children.len();
        let mut i: usize = 0;
        while i < n
            invariant
                n == self.children@.len(),
                0 <= i <= n,
                kids == forest_errors(self.children@, i as int),
                tree_errors(*self) <= u64::MAX,
                here == self.errors.total(),
            decreases n - i,
        {
            proof {
                lemma_forest_errors_monotone(self.children@, i + 1, n as int);
                assert(decreases_to!(*self => self.children));
                assert(decreases_to!(self.children => self.children@));
            }
            let c = self.children[i].total_errors();
            kids = kids + c;
            i = i + 1;
        }
        here + kids
    }
}

} // verus!
verus! {

#[derive(Copy, Clone, Debug, PartialEq, Eq, Structural)]
pub enum VdevState {
    Online,
    Degraded,
    Faulted,
    Offline,
    Removed,
    Unavail,
}

#[derive(Copy, Clone, Debug, PartialEq, Eq, Structural)]
pub enum VdevKind {
    /// The pool's root vdev, parent of every top-level vdev.
    Root,
    /// RAID-Z (any parity) or dRAID.
    Raidz,
    Mirror,
    /// Leaf backed by a block device.
    Disk,
    /// Leaf backed by a regular file.
    File,
    /// Wrapper under the root grouping the log vdevs.
    LogGroup,
    LogVdev,
    /// Wrapper under the root grouping the L2ARC cache vdevs.
    CacheGroup,
    CacheVdev,
    /// Wrapper under the root grouping the spares.
    SpareGroup,
    SpareVdev,
}

impl VdevNode {
    /// Errors summed over this node and every descendant, or `None` when
    /// the sum does not fit in a `u64`.
    pub fn checked_total_errors(&self) -> (r: Option<u64>)
        ensures
            r == (if tree_errors(*self) <= u64::MAX {
                Some(tree_errors(*self) as u64)
            } else {
                None
            }),
        decreases *self,
    {
        let here = match self.errors.read.checked_add(self.errors.write) {
            Some(x) => match x.checked_add(self.errors.checksum) {
                Some(y) => y,
                None => {
                    proof {
                        lemma_forest_errors_monotone(self.children@, 0, self.children@.len() as int);
                    }
                    return None;
                },
            },
            None => {
                proof {
                    lemma_forest_errors_monotone(self.children@, 0, self.children@.len() as int);
                }
                return None;
            },
        };
        let mut kids: u64 = 0;
        let n = self.children.len();
        let mut i: usize = 0;
        while i < n
            invariant
                n == self.children@.len(),
                0 <= i <= n,
                kids == forest_errors(self.children@, i as int),
                here == self.errors.total(),
            decreases n - i,
        {
            proof {
                assert(decreases_to!(*self => self.children));
                assert(decreases_to!(self.children => self.children@));
            }
            let c = match self.children[i].checked_total_errors() {
                Some(c) => c,
                None => {
                    proof {
                        lemma_forest_errors_monotone(self.children@, i + 1, n as int);
                    }
                    return None;
                },
            };
            kids = match kids.checked_add(c) {
                Some(k) => k,
                None => {
                    proof {
                        lemma_forest_errors_monotone(self.children@, i + 1, n as int);
                    }
                    return None;
                },
            };
            i = i + 1;
        }
        match here.checked_add(kids) {
            Some(t) => Some(t),
            None => None,
        }
    }
}

} // verus!
