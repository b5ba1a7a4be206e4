use vstd::prelude::*;

use crate::cache::{cached_answer, cached_at, location_key, LocationCache};
use crate::clock::wall_clock_millis;
use crate::event::{gps_waypoint_spec, r09_waypoint_spec, GpsPoint, Location, R09Telegram, Waypoint};
use crate::queue::TimeQueue;
use crate::table::entry_of;
use crate::vehicles::{
    gps_delay, r09_forwarded, state_after_gps, table_after_r09, vehicle_key, VehicleTable,
};

verus! {

/// What is to be done with a popped R09 telegram.
#[derive(Clone, Copy, Debug, PartialEq, Eq, Structural)]
pub enum R09Action {
    /// nothing is forwarded
    Drop,
    /// forward this waypoint, placed from the cache
    Emit(Waypoint),
    /// the reporting point is not cached: query the store and hand the
    /// answer to `State::on_resolved_at`
    Resolve { region: i64, reporting_point: i32 },
}

/// The action for telegram `t`: `forwarded` says whether it is forwarded at
/// all, `cached` what the cache answers for its reporting point.
pub open spec fn r09_action(t: R09Telegram, forwarded: bool, cached: Option<Location>) -> R09Action {
    if !forwarded {
        R09Action::Drop
    } else {
        match cached {
            Some(loc) => match r09_waypoint_spec(t, loc) {
                Some(w) => R09Action::Emit(w),
                None => R09Action::Drop,
            },
            None => R09Action::Resolve { region: t.region, reporting_point: t.reporting_point },
        }
    }
}

/// The fusion engine's own state: the vehicles seen so far and the cache of
/// reporting-point positions. It decides, event by event, what is forwarded.
pub struct State {
    pub vehicles: VehicleTable,
    pub cache: LocationCache,
}

impl State {
    pub open spec fn wf(&self) -> bool {
        self.vehicles.wf() && self.cache.wf()
    }

    pub fn new() -> (s: State)
        ensures
            s.wf(),
            s.vehicles@ == Map::<crate::vehicles::VehicleKey, crate::vehicles::VehicleState>::empty(),
            s.vehicles.discard_r09_time() == crate::vehicles::DISCARD_R09_TIME,
            s.vehicles.accept_delay() == crate::vehicles::ACCEPT_DELAY,
            s.cache@ == Map::<crate::cache::LocationKey, crate::cache::CachedLocation>::empty(),
            s.cache.ttl() == crate::cache::DEFAULT_CACHE_TTL,
    {
        State { vehicles: VehicleTable::new(), cache: LocationCache::new() }
    }

    /// Handles a popped GPS sample: returns its waypoint, which is always
    /// forwarded.
    pub fn on_gps(&mut self, p: &GpsPoint) -> (w: Waypoint)
        requires
            old(self).wf(),
        ensures
            final(self).wf(),
            final(self).cache == old(self).cache,
            final(self).vehicles.discard_r09_time() == old(self).vehicles.discard_r09_time(),
            final(self).vehicles.accept_delay() == old(self).vehicles.accept_delay(),
            ({
                let k = vehicle_key(p.region, p.line, p.run);
                let prev = entry_of(old(self).vehicles@, k);
                &&& final(self).vehicles@ == old(self).vehicles@.insert(k, state_after_gps(prev, *p))
                &&& w == gps_waypoint_spec(
                    *p,
                    gps_delay(prev, p.time, old(self).vehicles.accept_delay()),
                )
            }),
    {
        self.vehicles.handle_gps(p)
    }

    /// Handles a popped R09 telegram at `now` (milliseconds since the
    /// epoch): updates the vehicle, and when the telegram is to be forwarded
    /// places it from the cache or asks for the store to be queried.
    pub fn on_r09_at(&mut self, t: &R09Telegram, gps_queue: &TimeQueue<GpsPoint>, now: i64) -> (r:
        R09Action)
        requires
            old(self).wf(),
        ensures
            final(self).wf(),
            final(self).cache == old(self).cache,
            final(self).vehicles.discard_r09_time() == old(self).vehicles.discard_r09_time(),
            final(self).vehicles.accept_delay() == old(self).vehicles.accept_delay(),
            final(self).vehicles@ == table_after_r09(old(self).vehicles@, *t),
            r == r09_action(
                *t,
                r09_forwarded(
                    old(self).vehicles@,
                    *t,
                    old(self).vehicles.discard_r09_time(),
                    gps_queue@,
                ),
                cached_answer(
                    old(self).cache@,
                    location_key(t.region, t.reporting_point),
                    now,
                    old(self).cache.ttl(),
                ),
            ),
    {
        if !self.vehicles.handle_r09(t, gps_queue) {
            return R09Action::Drop;
        }
        match self.cache.lookup_at(t.region, t.reporting_point, now) {
            Some(loc) => match Waypoint::from_r09(t, loc) {
                Some(w) => R09Action::Emit(w),
                None => R09Action::Drop,
            },
            None => R09Action::Resolve { region: t.region, reporting_point: t.reporting_point },
        }
    }

    /// Takes the store's answer for the reporting point of `t`, asked for by
    /// `on_r09_at`: a found position is cached at `now` and the telegram's
    /// waypoint returned; on a failed lookup nothing is forwarded and the
    /// cache stays as it is.
    pub fn on_resolved_at(&mut self, t: &R09Telegram, fetched: Option<Location>, now: i64) -> (r:
        Option<Waypoint>)
        requires
            old(self).wf(),
        ensures
            final(self).wf(),
            final(self).vehicles == old(self).vehicles,
            final(self).cache.ttl() == old(self).cache.ttl(),
            match fetched {
                Some(loc) => final(self).cache@ == old(self).cache@.insert(
                    location_key(t.region, t.reporting_point),
                    cached_at(loc, now),
                ) && r == r09_waypoint_spec(*t, loc),
                None => final(self).cache@ == old(self).cache@ && r.is_none(),
            },
    {
        match self.cache.record_at(t.region, t.reporting_point, fetched, now) {
            Some(loc) => Waypoint::from_r09(t, loc),
            None => None,
        }
    }

    /// `on_r09_at` on the wall clock.
    pub fn on_r09(&mut self, t: &R09Telegram, gps_queue: &TimeQueue<GpsPoint>) -> (r: R09Action)
        requires
            old(self).wf(),
        ensures
            final(self).wf(),
            final(self).cache == old(self).cache,
            final(self).vehicles.discard_r09_time() == old(self).vehicles.discard_r09_time(),
            final(self).vehicles.accept_delay() == old(self).vehicles.accept_delay(),
            final(self).vehicles@ == table_after_r09(old(self).vehicles@, *t),
            exists|now: i64|
                r == r09_action(
                    *t,
                    r09_forwarded(
                        old(self).vehicles@,
                        *t,
                        old(self).vehicles.discard_r09_time(),
                        gps_queue@,
                    ),
                    #[trigger] cached_answer(
                        old(self).cache@,
                        location_key(t.region, t.reporting_point),
                        now,
                        old(self).cache.ttl(),
                    ),
                ),
    {
        let now = wall_clock_millis();
        let r = self.on_r09_at(t, gps_queue, now);
        assert(r == r09_action(
            *t,
            r09_forwarded(old(self).vehicles@, *t, old(self).vehicles.discard_r09_time(), gps_queue@),
            cached_answer(
                old(self).cache@,
                location_key(t.region, t.reporting_point),
                now,
                old(self).cache.ttl(),
            ),
        ));
        r
    }

    /// `on_resolved_at` on the wall clock.
    pub fn on_resolved(&mut self, t: &R09Telegram, fetched: Option<Location>) -> (r: Option<
        Waypoint,
    >)
        requires
            old(self).wf(),
        ensures
            final(self).wf(),
            final(self).vehicles == old(self).vehicles,
            final(self).cache.ttl() == old(self).cache.ttl(),
            match fetched {
                Some(loc) => (exists|now: i64|
                    final(self).cache@ == old(self).cache@.insert(
                        location_key(t.region, t.reporting_point),
                        #[trigger] cached_at(loc, now),
                    )) && r == r09_waypoint_spec(*t, loc),
                None => final(self).cache@ == old(self).cache@ && r.is_none(),
            },
    {
        let now = wall_clock_millis();
        let r = self.on_resolved_at(t, fetched, now);
        if let Some(loc) = fetched {
            assert(final(self).cache@ == old(self).cache@.insert(
                location_key(t.region, t.reporting_point),
                cached_at(loc, now),
            ));
        }
        r
    }
}

} // verus!
