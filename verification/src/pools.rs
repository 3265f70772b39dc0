//! Pool observability: plain domain types for pools and their vdev trees,
//! the decoders that turn libzfs `uint64` arrays into them, and the
//! `PoolsSource` interface a libzfs-backed source implements.

pub mod ffi;
pub mod scan;
pub mod types;
pub mod vdev;

pub use self::types::{ErrorCounts, PoolHealth, PoolInfo, ScrubState, VdevKind, VdevNode, VdevState};

use vstd::prelude::*;

verus! {

/// A source of pool data; the real one wraps libzfs.
pub trait PoolsSource {
    /// Whether `self` is what one `refresh` that returned `outcome` can
    /// make of `before`. Every
    /// source states this of its own `refresh`; a source that says no more
    /// is taken to allow any outcome.
    closed spec fn refreshed_from(&self, before: &Self, outcome: Result<(), String>) -> bool {
        true
    }

    /// Re-reads pool state. Errors are not fatal: the app keeps the last
    /// good snapshot and shows the message.
    fn refresh(&mut self) -> (r: Result<(), String>)
        ensures
            final(self).refreshed_from(old(self), r),
    ;

    /// The pools as of the last successful refresh.
    fn pools(&self) -> Vec<PoolInfo>;
}

/// The pools that were built, in order; those that failed are skipped.
pub open spec fn built_pools(built: Seq<Result<PoolInfo, String>>) -> Seq<PoolInfo>
    decreases built.len(),
{
    if built.len() == 0 {
        Seq::empty()
    } else {
        let rest = built_pools(built.drop_last());
        match built.last() {
            Ok(p) => rest.push(p),
            Err(_) => rest,
        }
    }
}

/// The snapshot a refresh keeps from the pools it tried to build: every
/// pool that was built, in order; a pool that failed does not spoil the
/// others.
pub fn collect_pools(built: Vec<Result<PoolInfo, String>>) -> (r: Vec<PoolInfo>)
    ensures
        r@ == built_pools(built@),
{
    let ghost all = built@;
    assert(all.len() == built.len());
    let mut rest = built;
    let mut out: Vec<PoolInfo> = Vec::new();
    let mut k: usize = 0;
    while rest.len() > 0
        invariant
            k + rest@.len() == all.len(),
            all.len() <= usize::MAX,
            rest@ == all.skip(k as int),
            out@ == built_pools(all.take(k as int)),
        decreases rest@.len(),
    {
        let item = rest.remove(0);
        assert(all.take(k + 1).drop_last() =~= all.take(k as int));
        assert(all.take(k + 1).last() == item);
        match item {
            Ok(p) => out.push(p),
            Err(_) => {},
        }
        assert(rest@ =~= all.skip(k + 1));
        k = k + 1;
    }
    assert(all.take(k as int) =~= all);
    out
}

} // verus!
