use vstd::prelude::*;

use crate::clock::wall_clock_millis;
use crate::event::Location;
use crate::table::{entry_of, KeyedTable, TableKey};

verus! {

/// How long a resolved reporting point stays valid, in milliseconds.
pub const DEFAULT_CACHE_TTL: i64 = 300_000;

/// A reporting point of a region.
#[derive(Clone, Copy, Debug, PartialEq, Eq, Structural)]
pub struct LocationKey {
    pub region: i64,
    pub reporting_point: i32,
}

impl TableKey for LocationKey {
    fn same(&self, other: &Self) -> (r: bool) {
        self.region == other.region && self.reporting_point == other.reporting_point
    }
}

/// The cache key of a reporting point.
pub open spec fn location_key(region: i64, reporting_point: i32) -> LocationKey {
    LocationKey { region, reporting_point }
}

/// A resolved position and when it was loaded, in milliseconds since the epoch.
#[derive(Clone, Copy, Debug, PartialEq, Eq, Structural)]
pub struct CachedLocation {
    pub location: Location,
    pub load_time: i64,
}

/// A cache entry for `location` loaded at `load_time`.
pub open spec fn cached_at(location: Location, load_time: i64) -> CachedLocation {
    CachedLocation { location, load_time }
}

/// An entry loaded at `load_time` is still valid at `now`.
pub open spec fn is_fresh(load_time: i64, now: i64, ttl: i64) -> bool {
    now - load_time < ttl
}

/// What the cache `m` answers for `k` at `now`: a position only from a fresh entry.
pub open spec fn cached_answer(
    m: Map<LocationKey, CachedLocation>,
    k: LocationKey,
    now: i64,
    ttl: i64,
) -> Option<Location> {
    match entry_of(m, k) {
        Some(c) => if is_fresh(c.load_time, now, ttl) {
            Some(c.location)
        } else {
            None
        },
        None => None,
    }
}

/// A position cached at `loaded` is answered without asking the store while
/// it is younger than the lifetime; from then on the cache answers nothing,
/// so the store is queried again.
pub proof fn lemma_cache_lifetime(
    m: Map<LocationKey, CachedLocation>,
    k: LocationKey,
    loc: Location,
    loaded: i64,
    now: i64,
    ttl: i64,
)
    ensures
        now - loaded < ttl ==> cached_answer(
            m.insert(k, (CachedLocation { location: loc, load_time: loaded })),
            k,
            now,
            ttl,
        ) == Some(loc),
        now - loaded >= ttl ==> cached_answer(
            m.insert(k, (CachedLocation { location: loc, load_time: loaded })),
            k,
            now,
            ttl,
        ) is None,
{
}

/// A time-bounded cache of reporting-point positions. A miss is resolved by
/// the caller against the backing store and handed to `record_at`.
pub struct LocationCache {
    entries: KeyedTable<LocationKey, CachedLocation>,
    ttl: i64,
}

impl View for LocationCache {
    type V = Map<LocationKey, CachedLocation>;

    closed spec fn view(&self) -> Map<LocationKey, CachedLocation> {
        self.entries@
    }
}

impl LocationCache {
    pub closed spec fn wf(&self) -> bool {
        self.entries.wf()
    }

    /// Lifetime of an entry in milliseconds.
    pub closed spec fn ttl(&self) -> i64 {
        self.ttl
    }

    pub fn new() -> (c: LocationCache)
        ensures
            c.wf(),
            c@ == Map::<LocationKey, CachedLocation>::empty(),
            c.ttl() == DEFAULT_CACHE_TTL,
    {
        LocationCache { entries: KeyedTable::new(), ttl: DEFAULT_CACHE_TTL }
    }

    /// The cached position of `(region, reporting_point)` if its entry is
    /// younger than the lifetime at `now`; `None` asks the caller to query
    /// the store.
    pub fn lookup_at(&self, region: i64, reporting_point: i32, now: i64) -> (r: Option<Location>)
        requires
            self.wf(),
        ensures
            r == cached_answer(self@, location_key(region, reporting_point), now, self.ttl()),
    {
        let k = LocationKey { region, reporting_point };
        match self.entries.get(&k) {
            Some(c) => {
                if (now as i128) - (c.load_time as i128) < self.ttl as i128 {
                    Some(c.location)
                } else {
                    None
                }
            },
            None => None,
        }
    }

    /// Takes the store's answer for `(region, reporting_point)` at `now`: a
    /// found position is cached as loaded at `now` and returned; on a failed
    /// lookup the cache, stale entry included, is left untouched.
    pub fn record_at(
        &mut self,
        region: i64,
        reporting_point: i32,
        fetched: Option<Location>,
        now: i64,
    ) -> (r: Option<Location>)
        requires
            old(self).wf(),
        ensures
            final(self).wf(),
            final(self).ttl() == old(self).ttl(),
            r == fetched,
            match fetched {
                Some(loc) => final(self)@ == old(self)@.insert(
                    location_key(region, reporting_point),
                    (CachedLocation { location: loc, load_time: now }),
                ),
                None => final(self)@ == old(self)@,
            },
    {
        match fetched {
            Some(loc) => {
                self.entries.set(
                    LocationKey { region, reporting_point },
                    CachedLocation { location: loc, load_time: now },
                );
                Some(loc)
            },
            None => None,
        }
    }

    /// `lookup_at` on the wall clock: a returned position is the one cached
    /// for the key.
    pub fn lookup(&self, region: i64, reporting_point: i32) -> (r: Option<Location>)
        requires
            self.wf(),
        ensures
            r.is_some() ==> self@.contains_key(location_key(region, reporting_point)) && r == Some(
                self@[location_key(region, reporting_point)].location,
            ),
    {
        let now = wall_clock_millis();
        self.lookup_at(region, reporting_point, now)
    }

    /// `record_at` on the wall clock.
    pub fn record(&mut self, region: i64, reporting_point: i32, fetched: Option<Location>) -> (r:
        Option<Location>)
        requires
            old(self).wf(),
        ensures
            final(self).wf(),
            final(self).ttl() == old(self).ttl(),
            r == fetched,
            match fetched {
                Some(loc) => exists|t: i64|
                    t >= 0 && final(self)@ == old(self)@.insert(
                        location_key(region, reporting_point),
                        (CachedLocation { location: loc, load_time: t }),
                    ),
                None => final(self)@ == old(self)@,
            },
    {
        let now = wall_clock_millis();
        self.record_at(region, reporting_point, fetched, now)
    }
}

} // verus!
