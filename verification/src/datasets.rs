//! Dataset hierarchy as plain values: one tree per imported pool, its
//! nodes' space accounting and the native properties the detail view
//! shows. The decisions the libzfs walk makes on what libzfs returns
//! (which type bit means a volume, which property sources count as
//! "unset", how children are ordered) are functions here; the walk
//! itself performs the calls and hands the raw values in.

use vstd::prelude::*;
use vstd::seq_lib::*;

use crate::pools::ffi::{ZFS_TYPE_VOLUME, ZPROP_SRC_DEFAULT, ZPROP_SRC_NONE};
use crate::text::{chars_of, str_eq};

verus! {

broadcast use vstd::multiset::group_multiset_axioms;

#[derive(Copy, Clone, Debug, PartialEq, Eq, Structural)]
pub enum DatasetKind {
    Filesystem,
    Volume,
}

/// Native ZFS properties shown in the detail drilldown. A field is `None`
/// when libzfs reports the property as inherited-from-default, "none",
/// or does not apply to the dataset's kind.
#[derive(Debug)]
pub struct DatasetProperties {
    pub mountpoint: Option<String>,
    pub compression_algorithm: Option<String>,
    pub recordsize_bytes: Option<u64>,
    pub volblocksize_bytes: Option<u64>,
    pub atime_on: Option<bool>,
    pub sync_mode: Option<String>,
    pub snapdir_visible: Option<bool>,
    pub quota_bytes: Option<u64>,
    pub refquota_bytes: Option<u64>,
    pub reservation_bytes: Option<u64>,
    pub refreservation_bytes: Option<u64>,
    pub dedup_on: Option<bool>,
    pub copies: Option<u8>,
    pub encryption_algorithm: Option<String>,
    /// Creation time in seconds since the Unix epoch.
    pub creation_time: Option<u64>,
}

impl DatasetProperties {
    /// Every property is unset.
    pub open spec fn is_unset(self) -> bool {
        &&& self.mountpoint is None
        &&& self.compression_algorithm is None
        &&& self.recordsize_bytes is None
        &&& self.volblocksize_bytes is None
        &&& self.atime_on is None
        &&& self.sync_mode is None
        &&& self.snapdir_visible is None
        &&& self.quota_bytes is None
        &&& self.refquota_bytes is None
        &&& self.reservation_bytes is None
        &&& self.refreservation_bytes is None
        &&& self.dedup_on is None
        &&& self.copies is None
        &&& self.encryption_algorithm is None
        &&& self.creation_time is None
    }
}

fn clone_text(t: &Option<String>) -> (r: Option<String>)
    ensures
        r == *t,
{
    match t {
        Some(s) => Some(s.clone()),
        None => None,
    }
}

impl Clone for DatasetProperties {
    /// A field-by-field copy.
    fn clone(&self) -> (r: Self)
        ensures
            r == *self,
    {
        DatasetProperties {
            mountpoint: clone_text(&self.mountpoint),
            compression_algorithm: clone_text(&self.compression_algorithm),
            recordsize_bytes: self.recordsize_bytes,
            volblocksize_bytes: self.volblocksize_bytes,
            atime_on: self.atime_on,
            sync_mode: clone_text(&self.sync_mode),
            snapdir_visible: self.snapdir_visible,
            quota_bytes: self.quota_bytes,
            refquota_bytes: self.refquota_bytes,
            reservation_bytes: self.reservation_bytes,
            refreservation_bytes: self.refreservation_bytes,
            dedup_on: self.dedup_on,
            copies: self.copies,
            encryption_algorithm: clone_text(&self.encryption_algorithm),
            creation_time: self.creation_time,
        }
    }
}

impl Default for DatasetProperties {
    fn default() -> (r: Self)
        ensures
            r.is_unset(),
    {
        DatasetProperties {
            mountpoint: None,
            compression_algorithm: None,
            recordsize_bytes: None,
            volblocksize_bytes: None,
            atime_on: None,
            sync_mode: None,
            snapdir_visible: None,
            quota_bytes: None,
            refquota_bytes: None,
            reservation_bytes: None,
            refreservation_bytes: None,
            dedup_on: None,
            copies: None,
            encryption_algorithm: None,
            creation_time: None,
        }
    }
}

#[derive(Debug)]
pub struct DatasetNode {
    /// Full ZFS name, e.g. `tank/home/alice`.
    pub name: String,
    pub kind: DatasetKind,
    pub used_bytes: u64,
    pub refer_bytes: u64,
    pub available_bytes: u64,
    /// Compression ratio as libzfs reports it, in hundredths: 142 is a
    /// 1.42x ratio, 100 no savings, 0 the "unavailable" sentinel.
    pub compression_ratio_x100: u64,
    pub properties: DatasetProperties,
    /// Sorted by name. Empty for volumes and for filesystems without
    /// nested datasets.
    pub children: Vec<DatasetNode>,
}

impl Clone for DatasetNode {
    /// A deep copy: the node's name, kind and space figures are kept, and
    /// each child is a copy of the same name.
    fn clone(&self) -> (r: Self)
        ensures
            r.name@ == self.name@,
            r.kind == self.kind,
            r.used_bytes == self.used_bytes,
            r.refer_bytes == self.refer_bytes,
            r.available_bytes == self.available_bytes,
            r.compression_ratio_x100 == self.compression_ratio_x100,
            r.properties == self.properties,
            r.children@.len() == self.children@.len(),
            forall|j: int|
                0 <= j < r.children@.len() ==> (#[trigger] r.children@[j]).name@
                    == self.children@[j].name@,
        decreases *self,
    {
        let mut children: Vec<DatasetNode> = Vec::new();
        let n = self.children.len();
        let mut i: usize = 0;
        while i < n
            invariant
                n == self.children@.len(),
                0 <= i <= n,
                children@.len() == i,
                forall|j: int|
                    0 <= j < i ==> (#[trigger] children@[j]).name@ == self.children@[j].name@,
            decreases n - i,
        {
            proof {
                assert(decreases_to!(*self => self.children));
                assert(decreases_to!(self.children => self.children@));
            }
            let c = self.children[i].clone();
            children.push(c);
            i = i + 1;
        }
        DatasetNode {
            name: self.name.clone(),
            kind: self.kind,
            used_bytes: self.used_bytes,
            refer_bytes: self.refer_bytes,
            available_bytes: self.available_bytes,
            compression_ratio_x100: self.compression_ratio_x100,
            properties: self.properties.clone(),
            children,
        }
    }
}

impl DatasetNode {
    /// True if this node has children to expand into: always false for
    /// volumes, whether the children list is empty for filesystems.
    pub fn has_children(&self) -> (b: bool)
        ensures
            b == (self.kind == DatasetKind::Filesystem && self.children@.len() > 0),
    {
        self.kind == DatasetKind::Filesystem && self.children.len() > 0
    }
}

/// A source of dataset trees; the real one wraps libzfs.
pub trait DatasetsSource {
    /// Re-reads the dataset trees. Errors are not fatal: the caller keeps
    /// the last good snapshot and shows the message.
    fn refresh(&mut self) -> Result<(), String>;

    /// One root per imported pool.
    fn roots(&self) -> Vec<DatasetNode>;
}

/// The kind a `zfs_type_t` value names: volume when its volume bit is set.
pub open spec fn kind_of_type(raw_type: i32) -> DatasetKind {
    if raw_type & ZFS_TYPE_VOLUME != 0 {
        DatasetKind::Volume
    } else {
        DatasetKind::Filesystem
    }
}

/// Maps the `zfs_get_type` result to a dataset kind.
pub fn dataset_kind(raw_type: i32) -> (k: DatasetKind)
    ensures
        k == kind_of_type(raw_type),
{
    if raw_type & ZFS_TYPE_VOLUME != 0 {
        DatasetKind::Volume
    } else {
        DatasetKind::Filesystem
    }
}

/// A string property counts as set when `zfs_prop_get` succeeded, its
/// source is not only "none" and/or "default", and its text is not empty.
pub open spec fn string_property_set(rc: i32, source: i32, text: Seq<char>) -> bool {
    &&& rc == 0
    &&& source != ZPROP_SRC_NONE
    &&& source != ZPROP_SRC_DEFAULT
    &&& source != (ZPROP_SRC_NONE | ZPROP_SRC_DEFAULT)
    &&& text.len() > 0
}

/// The value of a string property read with `zfs_prop_get`: `rc` is the
/// call's return code, `source` the `zprop_source_t` it reported and
/// `text` the property text it wrote.
pub fn string_property(rc: i32, source: i32, text: String) -> (r: Option<String>)
    ensures
        r is Some <==> string_property_set(rc, source, text@),
        r matches Some(s) ==> s@ == text@,
{
    if rc != 0 {
        return None;
    }
    let only_unset = source == ZPROP_SRC_NONE || source == ZPROP_SRC_DEFAULT || source == (
    ZPROP_SRC_NONE | ZPROP_SRC_DEFAULT);
    if only_unset {
        return None;
    }
    if text.as_str().is_empty() {
        None
    } else {
        Some(text)
    }
}

/// The properties of one dataset as libzfs reports them: the string ones
/// already filtered by `string_property`, the integer ones raw
/// (`0` meaning unset).
pub struct RawDatasetProperties {
    pub mountpoint: Option<String>,
    pub compression: Option<String>,
    pub atime: Option<String>,
    pub snapdir: Option<String>,
    pub sync: Option<String>,
    pub dedup: Option<String>,
    pub encryption: Option<String>,
    pub recordsize: u64,
    pub volblocksize: u64,
    pub quota: u64,
    pub refquota: u64,
    pub reservation: u64,
    pub refreservation: u64,
    pub copies: u64,
    pub creation: u64,
}

/// `Some(v)` for a set (non-zero) integer property.
pub open spec fn set_int(v: u64) -> Option<u64> {
    if v > 0 {
        Some(v)
    } else {
        None
    }
}

fn set_int_exec(v: u64) -> (r: Option<u64>)
    ensures
        r == set_int(v),
{
    if v > 0 {
        Some(v)
    } else {
        None
    }
}

/// A mountpoint is shown unless libzfs reports `none` or `legacy`.
pub open spec fn shown_mountpoint(m: Seq<char>) -> bool {
    m != "none"@ && m != "legacy"@
}

/// `Some(f(text))` for a set string property, read by its view.
pub open spec fn flag_of(p: Option<String>, on: Seq<char>, positive: bool) -> Option<bool> {
    match p {
        Some(s) => Some((s@ == on) == positive),
        None => None,
    }
}

fn flag_exec(p: &Option<String>, on: &str, positive: bool) -> (r: Option<bool>)
    ensures
        r == flag_of(*p, on@, positive),
{
    match p {
        Some(s) => Some(str_eq(s.as_str(), on) == positive),
        None => None,
    }
}

impl DatasetProperties {
    /// Builds the shown properties from what libzfs reported for a dataset
    /// of `kind`: mountpoint, atime, snapdir and recordsize only apply to
    /// filesystems, volblocksize only to volumes; `atime` is on when its
    /// text is `on`, `snapdir` visible when `visible`, dedup on unless
    /// `off`.
    pub fn from_raw(kind: DatasetKind, raw: RawDatasetProperties) -> (p: DatasetProperties)
        ensures
            p.mountpoint is Some <==> (kind == DatasetKind::Filesystem && raw.mountpoint is Some
                && shown_mountpoint(raw.mountpoint->0@)),
            p.mountpoint matches Some(m) ==> m@ == raw.mountpoint->0@,
            p.compression_algorithm == raw.compression,
            p.recordsize_bytes == (if kind == DatasetKind::Filesystem {
                set_int(raw.recordsize)
            } else {
                None
            }),
            p.volblocksize_bytes == (if kind == DatasetKind::Volume {
                set_int(raw.volblocksize)
            } else {
                None
            }),
            p.atime_on == (if kind == DatasetKind::Filesystem {
                flag_of(raw.atime, "on"@, true)
            } else {
                None
            }),
            p.snapdir_visible == (if kind == DatasetKind::Filesystem {
                flag_of(raw.snapdir, "visible"@, true)
            } else {
                None
            }),
            p.sync_mode == raw.sync,
            p.quota_bytes == set_int(raw.quota),
            p.refquota_bytes == set_int(raw.refquota),
            p.reservation_bytes == set_int(raw.reservation),
            p.refreservation_bytes == set_int(raw.refreservation),
            p.dedup_on == flag_of(raw.dedup, "off"@, false),
            p.copies == (if raw.copies > 0 {
                Some(raw.copies as u8)
            } else {
                None
            }),
            p.encryption_algorithm == raw.encryption,
            p.creation_time == set_int(raw.creation),
    {
        let is_fs = kind == DatasetKind::Filesystem;
        let mountpoint = if is_fs {
            match raw.mountpoint {
                Some(m) => {
                    if !str_eq(m.as_str(), "none") && !str_eq(m.as_str(), "legacy") {
                        Some(m)
                    } else {
                        None
                    }
                },
                None => None,
            }
        } else {
            None
        };
        let atime_on = if is_fs {
            flag_exec(&raw.atime, "on", true)
        } else {
            None
        };
        let snapdir_visible = if is_fs {
            flag_exec(&raw.snapdir, "visible", true)
        } else {
            None
        };
        let recordsize_bytes = if is_fs {
            set_int_exec(raw.recordsize)
        } else {
            None
        };
        let volblocksize_bytes = if is_fs {
            None
        } else {
            set_int_exec(raw.volblocksize)
        };
        let dedup_on = flag_exec(&raw.dedup, "off", false);
        let copies = if raw.copies > 0 {
            Some(raw.copies as u8)
        } else {
            None
        };
        DatasetProperties {
            mountpoint,
            compression_algorithm: raw.compression,
            recordsize_bytes,
            volblocksize_bytes,
            atime_on,
            sync_mode: raw.sync,
            snapdir_visible,
            quota_bytes: set_int_exec(raw.quota),
            refquota_bytes: set_int_exec(raw.refquota),
            reservation_bytes: set_int_exec(raw.reservation),
            refreservation_bytes: set_int_exec(raw.refreservation),
            dedup_on,
            copies,
            encryption_algorithm: raw.encryption,
            creation_time: set_int_exec(raw.creation),
        }
    }
}

/// `a` sorts no later than `b`: lexicographic order on code points, which
/// is the byte order `String`'s `Ord` uses on their UTF-8 encodings.
pub open spec fn name_le(a: Seq<char>, b: Seq<char>) -> bool
    decreases a.len(),
{
    if a.len() == 0 {
        true
    } else if b.len() == 0 {
        false
    } else if a[0] != b[0] {
        a[0] < b[0]
    } else {
        name_le(a.drop_first(), b.drop_first())
    }
}

/// Any two names are ordered one way or the other.
pub proof fn lemma_name_le_total(a: Seq<char>, b: Seq<char>)
    ensures
        name_le(a, b) || name_le(b, a),
    decreases a.len(),
{
    if a.len() > 0 && b.len() > 0 && a[0] == b[0] {
        lemma_name_le_total(a.drop_first(), b.drop_first());
    }
}

/// The order is transitive.
pub proof fn lemma_name_le_trans(a: Seq<char>, b: Seq<char>, c: Seq<char>)
    requires
        name_le(a, b),
        name_le(b, c),
    ensures
        name_le(a, c),
    decreases a.len(),
{
    if a.len() > 0 && b.len() > 0 && c.len() > 0 && a[0] == b[0] && b[0] == c[0] {
        lemma_name_le_trans(a.drop_first(), b.drop_first(), c.drop_first());
    }
}

proof fn lemma_name_le_after_common_prefix(a: Seq<char>, b: Seq<char>, i: int)
    requires
        0 <= i <= a.len(),
        i <= b.len(),
        a.subrange(0, i) == b.subrange(0, i),
    ensures
        name_le(a, b) == name_le(a.subrange(i, a.len() as int), b.subrange(i, b.len() as int)),
    decreases i,
{
    if i > 0 {
        assert(a[0] == a.subrange(0, i)[0]);
        assert(b[0] == b.subrange(0, i)[0]);
        assert(a.drop_first().subrange(0, i - 1) =~= a.subrange(0, i).drop_first());
        assert(b.drop_first().subrange(0, i - 1) =~= b.subrange(0, i).drop_first());
        lemma_name_le_after_common_prefix(a.drop_first(), b.drop_first(), i - 1);
        assert(a.drop_first().subrange(i - 1, a.len() - 1) =~= a.subrange(i, a.len() as int));
        assert(b.drop_first().subrange(i - 1, b.len() - 1) =~= b.subrange(i, b.len() as int));
    } else {
        assert(a.subrange(0, a.len() as int) =~= a);
        assert(b.subrange(0, b.len() as int) =~= b);
    }
}

/// `a` sorts strictly before `b`.
pub fn name_lt(a: &str, b: &str) -> (r: bool)
    ensures
        r == !name_le(b@, a@),
{
    let av = chars_of(a);
    let bv = chars_of(b);
    let mut i: usize = 0;
    while i < av.len() && i < bv.len()
        invariant
            av@ == a@,
            bv@ == b@,
            0 <= i <= av@.len(),
            i <= bv@.len(),
            av@.subrange(0, i as int) == bv@.subrange(0, i as int),
        decreases av@.len() - i,
    {
        if av[i] != bv[i] {
            proof {
                lemma_name_le_after_common_prefix(bv@, av@, i as int);
                let bs = bv@.subrange(i as int, bv@.len() as int);
                let as_ = av@.subrange(i as int, av@.len() as int);
                assert(bs[0] == bv@[i as int]);
                assert(as_[0] == av@[i as int]);
            }
            return av[i] < bv[i];
        }
        assert(av@.subrange(0, i + 1) =~= av@.subrange(0, i as int).push(av@[i as int]));
        assert(bv@.subrange(0, i + 1) =~= bv@.subrange(0, i as int).push(bv@[i as int]));
        i = i + 1;
    }
    proof {
        lemma_name_le_after_common_prefix(bv@, av@, i as int);
    }
    av.len() < bv.len()
}

/// Every name in `s` sorts no later than the names after it.
pub open spec fn sorted_by_name(s: Seq<DatasetNode>) -> bool {
    forall|i: int, j: int|
        0 <= i < j < s.len() ==> name_le(#[trigger] s[i].name@, #[trigger] s[j].name@)
}

/// The nodes of `nodes`, reordered by name (as `sort_by` on the name
/// orders them).
pub fn sort_by_name(nodes: Vec<DatasetNode>) -> (r: Vec<DatasetNode>)
    ensures
        r@.to_multiset() == nodes@.to_multiset(),
        sorted_by_name(r@),
{
    let mut rest = nodes;
    let mut out: Vec<DatasetNode> = Vec::new();
    proof {
        to_multiset_len(out@);
        vstd::multiset::lemma_multiset_empty_len(out@.to_multiset());
        assert(out@.to_multiset().add(rest@.to_multiset()) =~= nodes@.to_multiset());
    }
    while rest.len() > 0
        invariant
            out@.to_multiset().add(rest@.to_multiset()) == nodes@.to_multiset(),
            sorted_by_name(out@),
        decreases rest@.len(),
    {
        let ghost before = rest@;
        let x = rest.remove(0);
        proof {
            to_multiset_remove(before, 0);
            to_multiset_contains(before, x);
            assert(before.contains(x)) by {
                assert(before[0] == x);
            }
        }
        let mut p: usize = 0;
        while p < out.len()
            invariant
                0 <= p <= out@.len(),
                forall|j: int| 0 <= j < p ==> name_le(#[trigger] out@[j].name@, x.name@),
            ensures
                0 <= p <= out@.len(),
                forall|j: int| 0 <= j < p ==> name_le(#[trigger] out@[j].name@, x.name@),
                p < out@.len() ==> name_le(x.name@, out@[p as int].name@),
            decreases out@.len() - p,
        {
            if name_lt(x.name.as_str(), out[p].name.as_str()) {
                proof {
                    lemma_name_le_total(x.name@, out@[p as int].name@);
                }
                break;
            }
            p = p + 1;
        }
        let ghost old_out = out@;
        proof {
            assert forall|i: int, j: int|
                0 <= i < j < old_out.len() + 1 implies name_le(
                #[trigger] old_out.insert(p as int, x)[i].name@,
                #[trigger] old_out.insert(p as int, x)[j].name@,
            ) by {
                let s = old_out.insert(p as int, x);
                if j < p {
                    assert(s[i] == old_out[i] && s[j] == old_out[j]);
                    assert(name_le(old_out[i].name@, old_out[j].name@));
                } else if j == p {
                    assert(s[i] == old_out[i] && s[j] == x);
                    assert(name_le(old_out[i].name@, x.name@));
                } else if i == p {
                    assert(s[i] == x && s[j] == old_out[j - 1]);
                    if p < j - 1 {
                        assert(name_le(old_out[p as int].name@, old_out[j - 1].name@));
                        lemma_name_le_trans(x.name@, old_out[p as int].name@, old_out[j - 1].name@);
                    }
                } else if i < p {
                    assert(s[i] == old_out[i] && s[j] == old_out[j - 1]);
                    assert(name_le(old_out[i].name@, old_out[j - 1].name@));
                } else {
                    assert(s[i] == old_out[i - 1] && s[j] == old_out[j - 1]);
                    assert(name_le(old_out[i - 1].name@, old_out[j - 1].name@));
                }
            }
            to_multiset_insert(old_out, p as int, x);
        }
        out.insert(p, x);
        proof {
            assert(out@.to_multiset().add(rest@.to_multiset()) =~= nodes@.to_multiset());
        }
    }
    proof {
        to_multiset_len(rest@);
        vstd::multiset::lemma_multiset_empty_len(rest@.to_multiset());
        assert(out@.to_multiset().add(rest@.to_multiset()) =~= out@.to_multiset());
    }
    out
}

/// A dataset tree node put together from what the libzfs walk read:
/// only filesystems keep children, and those are ordered by name.
pub fn assemble_dataset_node(
    name: String,
    kind: DatasetKind,
    used_bytes: u64,
    refer_bytes: u64,
    available_bytes: u64,
    compression_ratio_x100: u64,
    properties: DatasetProperties,
    children: Vec<DatasetNode>,
) -> (r: DatasetNode)
    ensures
        r.name == name,
        r.kind == kind,
        r.used_bytes == used_bytes,
        r.refer_bytes == refer_bytes,
        r.available_bytes == available_bytes,
        r.compression_ratio_x100 == compression_ratio_x100,
        r.properties == properties,
        kind == DatasetKind::Filesystem ==> r.children@.to_multiset() == children@.to_multiset(),
        kind == DatasetKind::Volume ==> r.children@.len() == 0,
        sorted_by_name(r.children@),
{
    let children = if kind == DatasetKind::Filesystem {
        sort_by_name(children)
    } else {
        Vec::new()
    };
    DatasetNode {
        name,
        kind,
        used_bytes,
        refer_bytes,
        available_bytes,
        compression_ratio_x100,
        properties,
        children,
    }
}

/// The first node named `t` in a preorder walk of `n`'s tree.
pub open spec fn find_in_tree(n: DatasetNode, t: Seq<char>) -> Option<DatasetNode>
    decreases n, 0nat,
{
    if n.name@ == t {
        Some(n)
    } else {
        find_in_forest(n.children@, t, 0)
    }
}

/// The first node named `t` in a preorder walk of the trees `f[i..]`.
pub open spec fn find_in_forest(f: Seq<DatasetNode>, t: Seq<char>, i: int) -> Option<DatasetNode>
    decreases f, f.len() - i,
{
    if i < 0 || i >= f.len() {
        None
    } else {
        match find_in_tree(f[i], t) {
            Some(found) => Some(found),
            None => find_in_forest(f, t, i + 1),
        }
    }
}

fn find_in_node<'a>(node: &'a DatasetNode, target: &str) -> (r: Option<&'a DatasetNode>)
    ensures
        r is Some <==> find_in_tree(*node, target@) is Some,
        r matches Some(x) ==> find_in_tree(*node, target@) == Some(*x),
    decreases *node,
{
    if str_eq(node.name.as_str(), target) {
        return Some(node);
    }
    let n = node.children.len();
    let mut i: usize = 0;
    while i < n
        invariant
            n == node.children@.len(),
            0 <= i <= n,
            node.name@ != target@,
            find_in_tree(*node, target@) == find_in_forest(node.children@, target@, i as int),
        decreases n - i,
    {
        proof {
            assert(decreases_to!(*node => node.children));
            assert(decreases_to!(node.children => node.children@));
        }
        let c = &node.children[i];
        match find_in_node(c, target) {
            Some(found) => {
                return Some(found);
            },
            None => {},
        }
        i = i + 1;
    }
    None
}

/// The first dataset named `target` in a preorder walk of the trees
/// `roots`, each root before its children and children in order.
pub fn find_dataset<'a>(roots: &'a [DatasetNode], target: &str) -> (r: Option<&'a DatasetNode>)
    ensures
        r is Some <==> find_in_forest(roots@, target@, 0) is Some,
        r matches Some(x) ==> find_in_forest(roots@, target@, 0) == Some(*x),
{
    let n = roots.len();
    let mut i: usize = 0;
    while i < n
        invariant
            n == roots@.len(),
            0 <= i <= n,
            find_in_forest(roots@, target@, 0) == find_in_forest(roots@, target@, i as int),
        decreases n - i,
    {
        match find_in_node(&roots[i], target) {
            Some(found) => {
                return Some(found);
            },
            None => {},
        }
        i = i + 1;
    }
    None
}

} // verus!
