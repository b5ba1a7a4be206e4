use vstd::prelude::*;

use crate::event::{
    convert_delay, delay_seconds, gps_waypoint_spec, r09_waypoint_spec, GpsPoint, Location,
    R09Telegram, Waypoint, WaypointSource,
};
use crate::queue::TimeQueue;
use crate::table::{entry_of, KeyedTable, TableKey};

verus! {

/// Age in milliseconds that the last GPS sample of a vehicle must exceed
/// before its R09 telegrams are forwarded as positions.
pub const DISCARD_R09_TIME: u64 = 60_000;

/// Age in milliseconds up to which the last R09 delay of a vehicle is
/// attached to its GPS waypoints.
pub const ACCEPT_DELAY: u64 = 90_000;

/// One tracked vehicle.
#[derive(Clone, Copy, Debug, PartialEq, Eq, Structural)]
pub struct VehicleKey {
    pub region: i64,
    pub line: i32,
    pub run: i32,
}

impl TableKey for VehicleKey {
    fn same(&self, other: &Self) -> (r: bool) {
        self.region == other.region && self.line == other.line && self.run == other.run
    }
}

/// The key of vehicle `(region, line, run)`.
pub open spec fn vehicle_key(region: i64, line: i32, run: i32) -> VehicleKey {
    VehicleKey { region, line, run }
}

/// What is remembered of a vehicle; times are milliseconds since the epoch,
/// zero where that stream was never seen.
#[derive(Clone, Copy, Debug, PartialEq, Eq, Structural)]
pub struct VehicleState {
    pub last_r09_update: u64,
    pub last_gps_update: u64,
    /// schedule deviation in seconds from the last R09 telegram
    pub delay: Option<i64>,
}

/// A telegram at `time` is forwarded as a position: the vehicle is new, or
/// its last GPS sample is older than `discard`.
pub open spec fn r09_fallback(prev: Option<VehicleState>, time: u64, discard: u64) -> bool {
    match prev {
        Some(s) => time - s.last_gps_update > discard,
        None => true,
    }
}

/// `q` holds a GPS sample of the vehicle running `line` / `run`.
pub open spec fn gps_queued_for(q: Seq<GpsPoint>, line: i32, run: i32) -> bool {
    exists|i: int| 0 <= i < q.len() && q[i].line == line && q[i].run == run
}

/// A vehicle's state after telegram `t`.
pub open spec fn state_after_r09(prev: Option<VehicleState>, t: R09Telegram) -> VehicleState {
    VehicleState {
        last_r09_update: t.time,
        last_gps_update: match prev {
            Some(s) => s.last_gps_update,
            None => 0,
        },
        delay: delay_seconds(t.delay),
    }
}

/// The table after telegram `t`; one without line or run changes nothing.
pub open spec fn table_after_r09(m: Map<VehicleKey, VehicleState>, t: R09Telegram) -> Map<
    VehicleKey,
    VehicleState,
> {
    match (t.line, t.run) {
        (Some(line), Some(run)) => {
            let k = vehicle_key(t.region, line, run);
            m.insert(k, state_after_r09(entry_of(m, k), t))
        },
        _ => m,
    }
}

/// Telegram `t`, taken against table `m` while `queued` waits in the GPS
/// queue, is forwarded as a position.
pub open spec fn r09_forwarded(
    m: Map<VehicleKey, VehicleState>,
    t: R09Telegram,
    discard: u64,
    queued: Seq<GpsPoint>,
) -> bool {
    match (t.line, t.run) {
        (Some(line), Some(run)) => r09_fallback(
            entry_of(m, vehicle_key(t.region, line, run)),
            t.time,
            discard,
        ) && !gps_queued_for(queued, line, run),
        _ => false,
    }
}

/// A vehicle's state after GPS sample `p`.
pub open spec fn state_after_gps(prev: Option<VehicleState>, p: GpsPoint) -> VehicleState {
    match prev {
        Some(s) => VehicleState {
            last_r09_update: s.last_r09_update,
            last_gps_update: p.time,
            delay: s.delay,
        },
        None => VehicleState { last_r09_update: 0, last_gps_update: p.time, delay: None },
    }
}

/// The delay attached to a GPS sample at `time`: the vehicle's last R09
/// delay while that telegram is younger than `accept`.
pub open spec fn gps_delay(prev: Option<VehicleState>, time: u64, accept: u64) -> Option<i64> {
    match prev {
        Some(s) => if time - s.last_r09_update < accept {
            s.delay
        } else {
            None
        },
        None => None,
    }
}

/// A GPS sample and then an R09 telegram of the same vehicle at most
/// `discard` later: the telegram is not forwarded as a position, yet it sets
/// the vehicle's R09 time and delay.
pub proof fn lemma_gps_then_r09(
    m: Map<VehicleKey, VehicleState>,
    p: GpsPoint,
    t: R09Telegram,
    discard: u64,
)
    requires
        t.region == p.region,
        t.line == Some(p.line),
        t.run == Some(p.run),
        t.time - p.time <= discard,
    ensures
        ({
            let k = vehicle_key(p.region, p.line, p.run);
            let seen = entry_of(m.insert(k, state_after_gps(entry_of(m, k), p)), k);
            &&& !r09_fallback(seen, t.time, discard)
            &&& state_after_r09(seen, t).last_r09_update == t.time
            &&& state_after_r09(seen, t).delay == delay_seconds(t.delay)
            &&& state_after_r09(seen, t).last_gps_update == p.time
        }),
{
}

/// An R09 telegram of a vehicle whose GPS was not seen within `discard`, and
/// of which no GPS sample is queued, is forwarded as an R09 waypoint at the
/// position resolved for its reporting point.
pub proof fn lemma_r09_without_gps(
    m: Map<VehicleKey, VehicleState>,
    t: R09Telegram,
    line: i32,
    run: i32,
    discard: u64,
    queued: Seq<GpsPoint>,
    loc: Location,
)
    requires
        t.line == Some(line),
        t.run == Some(run),
        entry_of(m, vehicle_key(t.region, line, run)) matches Some(s) ==> t.time - s.last_gps_update
            > discard,
        !gps_queued_for(queued, line, run),
    ensures
        r09_fallback(entry_of(m, vehicle_key(t.region, line, run)), t.time, discard),
        r09_waypoint_spec(t, loc) matches Some(w) && w.source == WaypointSource::R09
            && w.location == loc && w.region == t.region && w.line == line && w.run == run,
{
}

/// A GPS waypoint carries the vehicle's delay while its last R09 telegram is
/// younger than `accept`, and no delay after that.
pub proof fn lemma_gps_delay_window(s: VehicleState, p: GpsPoint, accept: u64)
    ensures
        p.time - s.last_r09_update < accept ==> gps_waypoint_spec(
            p,
            gps_delay(Some(s), p.time, accept),
        ).delay == s.delay,
        p.time - s.last_r09_update >= accept ==> gps_waypoint_spec(
            p,
            gps_delay(Some(s), p.time, accept),
        ).delay is None,
{
}

/// The arbitration state of every vehicle seen so far, and the decisions
/// taken on each event of either stream.
pub struct VehicleTable {
    vehicles: KeyedTable<VehicleKey, VehicleState>,
    discard_r09_time: u64,
    accept_delay: u64,
}

impl View for VehicleTable {
    type V = Map<VehicleKey, VehicleState>;

    closed spec fn view(&self) -> Map<VehicleKey, VehicleState> {
        self.vehicles@
    }
}

impl VehicleTable {
    pub closed spec fn wf(&self) -> bool {
        self.vehicles.wf()
    }

    pub closed spec fn discard_r09_time(&self) -> u64 {
        self.discard_r09_time
    }

    pub closed spec fn accept_delay(&self) -> u64 {
        self.accept_delay
    }

    /// An empty table with the default windows.
    pub fn new() -> (t: VehicleTable)
        ensures
            t.wf(),
            t@ == Map::<VehicleKey, VehicleState>::empty(),
            t.discard_r09_time() == DISCARD_R09_TIME,
            t.accept_delay() == ACCEPT_DELAY,
    {
        VehicleTable::with_limits(DISCARD_R09_TIME, ACCEPT_DELAY)
    }

    /// An empty table with the given windows, in milliseconds.
    pub fn with_limits(discard_r09_time: u64, accept_delay: u64) -> (t: VehicleTable)
        ensures
            t.wf(),
            t@ == Map::<VehicleKey, VehicleState>::empty(),
            t.discard_r09_time() == discard_r09_time,
            t.accept_delay() == accept_delay,
    {
        VehicleTable { vehicles: KeyedTable::new(), discard_r09_time, accept_delay }
    }

    /// Number of vehicles tracked.
    pub fn len(&self) -> (r: usize)
        requires
            self.wf(),
        ensures
            r == self@.len(),
    {
        self.vehicles.len()
    }

    /// The state of vehicle `(region, line, run)`, if it was ever seen.
    pub fn get(&self, region: i64, line: i32, run: i32) -> (r: Option<VehicleState>)
        requires
            self.wf(),
        ensures
            r == entry_of(self@, vehicle_key(region, line, run)),
    {
        self.vehicles.get(&VehicleKey { region, line, run })
    }

    /// Takes telegram `t` into account and says whether it is to be forwarded
    /// as a position. A telegram without line or run changes nothing. Else the
    /// vehicle's R09 time and delay are updated, and the telegram is forwarded
    /// when the vehicle is new or its GPS is stale, unless `gps_queue` still
    /// holds a sample of the same line and run.
    pub fn handle_r09(&mut self, t: &R09Telegram, gps_queue: &TimeQueue<GpsPoint>) -> (emit: bool)
        requires
            old(self).wf(),
        ensures
            final(self).wf(),
            final(self).discard_r09_time() == old(self).discard_r09_time(),
            final(self).accept_delay() == old(self).accept_delay(),
            final(self)@ == table_after_r09(old(self)@, *t),
            emit == r09_forwarded(old(self)@, *t, old(self).discard_r09_time(), gps_queue@),
    {
        let (line, run) = match (t.line, t.run) {
            (Some(line), Some(run)) => (line, run),
            _ => return false,
        };
        let k = VehicleKey { region: t.region, line, run };
        let prev = self.vehicles.get(&k);
        let fallback = match prev {
            Some(s) => t.time > s.last_gps_update && t.time - s.last_gps_update
                > self.discard_r09_time,
            None => true,
        };
        let last_gps_update = match prev {
            Some(s) => s.last_gps_update,
            None => 0,
        };
        self.vehicles.set(
            k,
            VehicleState { last_r09_update: t.time, last_gps_update, delay: convert_delay(t.delay) },
        );
        let same_vehicle = |p: &GpsPoint| -> (b: bool)
            ensures
                b == (p.line == line && p.run == run),
            { p.line == line && p.run == run };
        let queued = gps_queue.find(same_vehicle);
        fallback && !queued
    }

    /// Takes GPS sample `p` into account and returns its waypoint, annotated
    /// with the vehicle's delay while the last R09 telegram is recent enough.
    pub fn handle_gps(&mut self, p: &GpsPoint) -> (w: Waypoint)
        requires
            old(self).wf(),
        ensures
            final(self).wf(),
            final(self).discard_r09_time() == old(self).discard_r09_time(),
            final(self).accept_delay() == old(self).accept_delay(),
            ({
                let k = vehicle_key(p.region, p.line, p.run);
                let prev = entry_of(old(self)@, k);
                &&& final(self)@ == old(self)@.insert(k, state_after_gps(prev, *p))
                &&& w == gps_waypoint_spec(*p, gps_delay(prev, p.time, old(self).accept_delay()))
            }),
    {
        let k = VehicleKey { region: p.region, line: p.line, run: p.run };
        let (next, delay) = match self.vehicles.get(&k) {
            Some(s) => {
                let fresh = p.time < s.last_r09_update || p.time - s.last_r09_update
                    < self.accept_delay;
                (
                    VehicleState {
                        last_r09_update: s.last_r09_update,
                        last_gps_update: p.time,
                        delay: s.delay,
                    },
                    if fresh {
                        s.delay
                    } else {
                        None
                    },
                )
            },
            None => (VehicleState { last_r09_update: 0, last_gps_update: p.time, delay: None }, None),
        };
        self.vehicles.set(k, next);
        Waypoint::from_gps(p, delay)
    }
}

} // verus!
