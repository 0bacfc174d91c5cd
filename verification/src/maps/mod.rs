//! The allow map and the block map, and the policy by which they are
//! reloaded.
//!
//! Each of the two maps is kept in a store of its own, together with the
//! time at which it was last reloaded. Which of the two a store is, its
//! owner knows: the functions of this module take the store they are about.
//! A store is replaced as a whole, never merged, and only by a mapping that
//! was parsed in full: a reload that fails leaves the store as it was.
//!
//! This module reads no file and no clock, and it parses nothing. The caller
//! reads and parses, with [`map_parser::MapParser`], while it holds no store,
//! and hands in what it has: a parsed mapping, or a [`Probe`] when a reload
//! may be due. A reload changes no store in place: it gives the store that
//! is to take the place of the old one, so that the owner of the stores has
//! nothing to do under its lock but the swap.

pub mod address_map;
pub mod map_parser;

use crate::error::Error;
use crate::maps::address_map::{lookup_spec, AddressMap, Mapping};
use crate::time::{Timestamp, NANOS_PER_SEC};
use vstd::prelude::*;

verus! {

/// Whether the reload interval has passed: at least `reload_interval`
/// seconds lie between `last_updated` and `now`. With `last_updated` after
/// `now`, as under a skewed clock, it has not.
pub open spec fn interval_elapsed_spec(
    now: Timestamp,
    last_updated: Timestamp,
    reload_interval: u64,
) -> bool {
    now@ - last_updated@ >= reload_interval * NANOS_PER_SEC
}

/// Whether a map is to be reloaded: the reload interval has passed, and the
/// file's modification time is known and lies after `last_updated`.
pub open spec fn should_update_spec(
    now: Timestamp,
    last_updated: Timestamp,
    reload_interval: u64,
    modified: Option<Timestamp>,
) -> bool {
    &&& interval_elapsed_spec(now, last_updated, reload_interval)
    &&& modified matches Some(m) && m@ > last_updated@
}

/// Whether the reload interval has passed since `last_updated`. Only then
/// is the modification time of the map file of any interest.
pub fn interval_elapsed(now: Timestamp, last_updated: Timestamp, reload_interval: u64) -> (due:
    bool)
    ensures
        due == interval_elapsed_spec(now, last_updated, reload_interval),
        last_updated@ > now@ ==> !due,
{
    now.is_at_least_secs_after(last_updated, reload_interval)
}

/// Whether a map is to be reloaded. `modified` is the modification time of
/// its file, or `None` where the file's metadata could not be read.
pub fn should_update(
    now: Timestamp,
    last_updated: Timestamp,
    reload_interval: u64,
    modified: Option<Timestamp>,
) -> (due: bool)
    ensures
        due == should_update_spec(now, last_updated, reload_interval, modified),
        now@ - last_updated@ < reload_interval * NANOS_PER_SEC ==> !due,
        modified matches Some(m) && m@ <= last_updated@ ==> !due,
        modified.is_none() ==> !due,
        last_updated@ > now@ ==> !due,
{
    if interval_elapsed(now, last_updated, reload_interval) {
        match modified {
            Some(m) => m.is_after(last_updated),
            None => false,
        }
    } else {
        false
    }
}

/// What a caller found out about one map file when it checked whether the
/// map is to be reloaded.
///
/// The later fields are looked at only where the earlier ones leave the
/// question open: a caller for whom `interval_elapsed` answered `false` may
/// leave `modified` at `None`, and one for whom `should_update` answered
/// `false` may leave `map` at `None`.
pub struct Probe {
    /// The time at which the check began.
    pub checked_at: Timestamp,
    /// The modification time of the file; `None` where its metadata could
    /// not be read.
    pub modified: Option<Timestamp>,
    /// The mapping that was parsed from the file; `None` where the file
    /// could not be read.
    pub map: Option<AddressMap>,
    /// The time at which the file had been read and parsed.
    pub loaded_at: Timestamp,
}

/// One map with the time of its last reload.
pub struct MapStore {
    map: AddressMap,
    last_updated: Timestamp,
}

/// What a store holds.
pub struct StoreView {
    /// The mapping.
    pub map: Mapping,
    /// The time of the last reload.
    pub last_updated: Timestamp,
}

impl View for MapStore {
    type V = StoreView;

    closed spec fn view(&self) -> StoreView {
        StoreView { map: self.map@, last_updated: self.last_updated }
    }
}

impl MapStore {
    /// Whether `probe` leads to a reload of this store.
    pub open spec fn reloads_on(&self, reload_interval: u64, probe: Probe) -> bool {
        &&& should_update_spec(
            probe.checked_at,
            self@.last_updated,
            reload_interval,
            probe.modified,
        )
        &&& probe.map.is_some()
    }

    /// Whether `next` is what a reload by `probe` gives for this store: where
    /// the probe leads to a reload, a store with the mapping of the probe,
    /// last reloaded at the time at which that was loaded; else nothing.
    pub open spec fn reloads_to(
        &self,
        next: Option<MapStore>,
        reload_interval: u64,
        probe: Probe,
    ) -> bool {
        &&& next.is_some() == self.reloads_on(reload_interval, probe)
        &&& next matches Some(store) ==> {
            &&& store@.map == probe.map.unwrap()@
            &&& store@.last_updated == probe.loaded_at
        }
    }

    /// An empty store, last reloaded at `now`: the state at process start,
    /// before the first load.
    pub fn new(now: Timestamp) -> (store: MapStore)
        ensures
            store@.map == Mapping::empty(),
            store@.last_updated == now,
    {
        MapStore { map: AddressMap::new(), last_updated: now }
    }

    /// The time of the last reload.
    pub fn last_updated(&self) -> (t: Timestamp)
        ensures
            t == self@.last_updated,
    {
        self.last_updated
    }

    /// The number of keys of the map.
    pub fn len(&self) -> (n: usize)
        ensures
            n == self@.map.len(),
    {
        self.map.len()
    }

    /// Replaces the map by the one that was parsed from its file. `parsed`
    /// is that mapping, or the error with which reading the file failed:
    /// then the store stays as it was and the error is handed back. The time
    /// of the last reload stays in either case.
    pub fn load(&mut self, parsed: Result<AddressMap, Error>) -> (r: Result<(), Error>)
        ensures
            final(self)@.last_updated == old(self)@.last_updated,
            match parsed {
                Ok(map) => r.is_ok() && final(self)@.map == map@,
                Err(e) => r == Err::<(), Error>(e) && final(self)@ == old(self)@,
            },
    {
        match parsed {
            Ok(map) => {
                self.map = map;
                Ok(())
            },
            Err(e) => Err(e),
        }
    }

    /// The store that is to take the place of this one, where `probe` shows
    /// that a reload is due and the file could be read; `None` where this
    /// store is to stay.
    pub fn reload_if_due(&self, reload_interval: u64, probe: Probe) -> (next: Option<MapStore>)
        ensures
            self.reloads_to(next, reload_interval, probe),
            probe.checked_at@ - self@.last_updated@ < reload_interval * NANOS_PER_SEC
                ==> next.is_none(),
            probe.modified matches Some(m) && m@ <= self@.last_updated@ ==> next.is_none(),
            self@.last_updated@ > probe.checked_at@ ==> next.is_none(),
    {
        if !should_update(probe.checked_at, self.last_updated, reload_interval, probe.modified) {
            return None;
        }
        match probe.map {
            Some(map) => Some(MapStore { map, last_updated: probe.loaded_at }),
            None => None,
        }
    }

    /// Whether `candidate` is listed for `key` in the map.
    pub fn lookup(&self, key: &str, candidate: &str) -> (found: bool)
        ensures
            found == lookup_spec(self@.map, key@, candidate@),
    {
        self.map.lookup(key, candidate)
    }
}

/// Loads the allow map: puts the mapping that was parsed from its file in
/// the place of the one held so far. Where `parsed` is the error with which
/// reading failed, nothing changes and the error is handed back.
pub fn load_allow_map(allow: &mut MapStore, parsed: Result<AddressMap, Error>) -> (r: Result<
    (),
    Error,
>)
    ensures
        final(allow)@.last_updated == old(allow)@.last_updated,
        match parsed {
            Ok(map) => r.is_ok() && final(allow)@.map == map@,
            Err(e) => r == Err::<(), Error>(e) && final(allow)@ == old(allow)@,
        },
{
    allow.load(parsed)
}

/// Loads the block map: puts the mapping that was parsed from its file in
/// the place of the one held so far. Where `parsed` is the error with which
/// reading failed, nothing changes and the error is handed back.
pub fn load_block_map(block: &mut MapStore, parsed: Result<AddressMap, Error>) -> (r: Result<
    (),
    Error,
>)
    ensures
        final(block)@.last_updated == old(block)@.last_updated,
        match parsed {
            Ok(map) => r.is_ok() && final(block)@.map == map@,
            Err(e) => r == Err::<(), Error>(e) && final(block)@ == old(block)@,
        },
{
    block.load(parsed)
}

/// The stores that are to take the place of the two stores: `allow` and
/// `block` each hold the new store of that map, or `None` where the map
/// stays as it is.
pub struct Reloaded {
    pub allow: Option<MapStore>,
    pub block: Option<MapStore>,
}

/// Reloads each map whose probe shows that a reload is due: the reload
/// interval has passed since its last reload, its file was modified after
/// that, and the file could be read. A map that is not reloaded stays as it
/// is, with the time of its last reload.
pub fn load_maps_if_changed(
    allow: &MapStore,
    block: &MapStore,
    reload_interval: u64,
    allow_probe: Probe,
    block_probe: Probe,
) -> (next: Reloaded)
    ensures
        allow.reloads_to(next.allow, reload_interval, allow_probe),
        block.reloads_to(next.block, reload_interval, block_probe),
{
    Reloaded {
        allow: allow.reload_if_due(reload_interval, allow_probe),
        block: block.reload_if_due(reload_interval, block_probe),
    }
}

/// Whether `recipient` has blocked `sender`, by the block map.
pub fn is_blocked(block: &MapStore, recipient: &str, sender: &str) -> (blocked: bool)
    ensures
        blocked == lookup_spec(block@.map, recipient@, sender@),
{
    block.lookup(recipient, sender)
}

/// Whether `recipient` has `sender` on the allow list, by the allow map.
pub fn is_allowed(allow: &MapStore, recipient: &str, sender: &str) -> (allowed: bool)
    ensures
        allowed == lookup_spec(allow@.map, recipient@, sender@),
{
    allow.lookup(recipient, sender)
}

/// The time at which the allow map was last reloaded.
pub fn allow_last_updated(allow: &MapStore) -> (t: Timestamp)
    ensures
        t == allow@.last_updated,
{
    allow.last_updated()
}

/// The time at which the block map was last reloaded.
pub fn block_last_updated(block: &MapStore) -> (t: Timestamp)
    ensures
        t == block@.last_updated,
{
    block.last_updated()
}

/// The time of the last reload only moves forward, as long as the clock of
/// the caller does: as long as the file was not loaded before the check
/// began.
pub proof fn last_reload_moves_forward(
    store: MapStore,
    next: MapStore,
    reload_interval: u64,
    probe: Probe,
)
    requires
        store.reloads_to(Some(next), reload_interval, probe),
        probe.loaded_at@ >= probe.checked_at@,
    ensures
        next@.last_updated@ >= store@.last_updated@,
{
}

/// There is no reload before the reload interval has passed, whatever the
/// modification time of the file and whatever the file holds.
pub proof fn no_reload_before_interval(
    store: MapStore,
    next: Option<MapStore>,
    reload_interval: u64,
    probe: Probe,
)
    requires
        store.reloads_to(next, reload_interval, probe),
        probe.checked_at@ - store@.last_updated@ < reload_interval * NANOS_PER_SEC,
    ensures
        next.is_none(),
{
}

/// There is no reload where the file was not modified after the last
/// reload, however long ago that was.
pub proof fn no_reload_of_unmodified_file(
    store: MapStore,
    next: Option<MapStore>,
    reload_interval: u64,
    probe: Probe,
)
    requires
        store.reloads_to(next, reload_interval, probe),
        probe.modified matches Some(m) ==> m@ <= store@.last_updated@,
    ensures
        next.is_none(),
{
}

/// There is no reload where the last reload lies in the future, as under a
/// skewed clock.
pub proof fn no_reload_under_clock_skew(
    store: MapStore,
    next: Option<MapStore>,
    reload_interval: u64,
    probe: Probe,
)
    requires
        store.reloads_to(next, reload_interval, probe),
        store@.last_updated@ > probe.checked_at@,
    ensures
        next.is_none(),
{
}

} // verus!
