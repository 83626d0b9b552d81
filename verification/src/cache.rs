//! The concurrently shared unit cache.
//!
//! A [`UnitCache`] holds one [`UnitStore`] behind a verified reader/writer
//! lock: describe calls take the write lock, lookups and registrations take
//! the read lock, so arbitrarily many threads may call in at once. The lock
//! itself guarantees that every reader sees a whole store value left by one
//! completed writer — the mapping can never be observed in a torn state —
//! and the store's own contracts say what each operation does to the
//! mapping. No operation here can fail or panic, so the lock can never be
//! left in a broken state that a later caller would have to recover from.

use vstd::prelude::*;
use vstd::rwlock::{RwLock, RwLockPredicate};

use crate::handle::{Handle, MetricKey};
use crate::store::UnitStore;
use crate::units::{MetricUnit, Unit};

verus! {

/// The lock's value predicate: every store value is acceptable, since the
/// store keeps no internal side conditions — the lock is there for exclusion
/// alone.
pub struct AnyStore;

impl RwLockPredicate<UnitStore> for AnyStore {
    open spec fn inv(self, v: UnitStore) -> bool {
        true
    }
}

/// The name-to-unit cache of one metric kind, shared across threads.
pub struct UnitCache {
    lock: RwLock<UnitStore, AnyStore>,
}

impl UnitCache {
    /// A cache with nothing described yet.
    pub fn new() -> (c: UnitCache) {
        UnitCache { lock: RwLock::new(UnitStore::new(), Ghost(AnyStore)) }
    }

    /// Applies one describe call to the store under the write lock.
    /// [`UnitStore::describe`] is the contract for what happens to the
    /// mapping; a lookup racing this call sees the mapping before or after
    /// it, never in between.
    pub fn describe(&self, name: &str, unit: Option<Unit>) {
        let (mut store, write_handle) = self.lock.acquire_write();
        store.describe(name, unit);
        write_handle.release_write(store);
    }

    /// Reads the unit the name was last described with, under the read
    /// lock. [`UnitStore::lookup`] is the contract against the store value
    /// the lock hands out.
    pub fn lookup(&self, name: &str) -> (r: Option<MetricUnit>) {
        let read_handle = self.lock.acquire_read();
        let r = read_handle.borrow().lookup(name);
        read_handle.release_read();
        r
    }

    /// Takes the one registration-time snapshot: builds a handle from the
    /// store value the read lock hands out, per [`Handle::new`]. Describe
    /// calls after this one change the cache, not the returned handle.
    pub fn register(&self, key: MetricKey) -> (h: Handle)
        ensures
            h.key == key,
    {
        let read_handle = self.lock.acquire_read();
        let h = Handle::new(key, read_handle.borrow());
        read_handle.release_read();
        h
    }
}

} // verus!
