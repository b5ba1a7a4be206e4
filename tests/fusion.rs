use chemo::event::convert_delay;
use chemo::queue::DEFAULT_TIME_BUFFER;
use chemo::vehicles::{ACCEPT_DELAY, DISCARD_R09_TIME};
use chemo::{
    GpsPoint, Location, LocationCache, Outcome, Phase, R09Telegram, Scheduler, Step, Stream,
    TimeQueue, VehicleTable, Waypoint, WaypointSource,
};

const T: u64 = 1_700_000_000_000;

fn loc(lat: f64, lon: f64) -> Location {
    Location { lat_bits: lat.to_bits(), lon_bits: lon.to_bits() }
}

fn r09(region: i64, line: Option<i32>, run: Option<i32>, time: u64, rp: i32, delay: Option<i32>) -> R09Telegram {
    R09Telegram {
        region,
        line,
        run,
        time,
        delay,
        reporting_point: rp,
        destination_number: None,
    }
}

fn gps(region: i64, line: i32, run: i32, time: u64, lat: f64, lon: f64) -> GpsPoint {
    GpsPoint { region, line, run, time, location: loc(lat, lon) }
}

fn gps_at(time: u64) -> GpsPoint {
    gps(1, 1, 1, time, 0.0, 0.0)
}

#[test]
fn pops_come_out_in_time_order() {
    let mut q = TimeQueue::new();
    for t in [500u64, 100, 300, 100, 200] {
        q.insert(gps_at(t));
    }
    let now = 1_000_000u128;
    let mut seen = Vec::new();
    while let Some(p) = q.pop_at(now) {
        seen.push(p.time);
    }
    assert_eq!(seen, vec![100, 100, 200, 300, 500]);
    assert_eq!(q.len(), 0);
}

#[test]
fn equal_timestamps_keep_insertion_order() {
    let mut q = TimeQueue::new();
    q.insert(gps(1, 1, 1, 100, 0.0, 0.0));
    q.insert(gps(1, 2, 2, 100, 0.0, 0.0));
    assert_eq!(q.pop_at(10_000).unwrap().line, 1);
    assert_eq!(q.pop_at(10_000).unwrap().line, 2);
}

#[test]
fn nothing_leaves_before_the_buffer_elapses() {
    let mut q = TimeQueue::new();
    q.insert(gps_at(10_000));
    assert_eq!(q.pop_at(10_000 + DEFAULT_TIME_BUFFER - 1), None);
    assert_eq!(q.len(), 1);
    assert_eq!(q.pop_at(9_000), None);
    assert_eq!(q.pop_at(10_000 + DEFAULT_TIME_BUFFER).unwrap().time, 10_000);
}

#[test]
fn empty_queue_pops_nothing() {
    let mut q: TimeQueue<GpsPoint> = TimeQueue::new();
    assert_eq!(q.pop_at(u128::MAX), None);
    assert_eq!(q.most_recent_event_at(0), DEFAULT_TIME_BUFFER);
}

#[test]
fn stale_elements_are_admitted() {
    let mut q = TimeQueue::new();
    q.insert(gps_at(0));
    assert_eq!(q.len(), 1);
    assert_eq!(q.pop().unwrap().time, 0);
}

#[test]
fn pop_on_the_clock_holds_back_future_elements() {
    let mut q = TimeQueue::new();
    q.insert(gps_at(u64::MAX));
    assert_eq!(q.pop(), None);
    assert_eq!(q.len(), 1);
}

#[test]
fn wait_until_the_oldest_ripens() {
    let mut q = TimeQueue::new();
    q.insert(gps_at(10_000));
    q.insert(gps_at(11_000));
    assert_eq!(q.most_recent_event_at(10_500), 1_500);
    assert_eq!(q.most_recent_event_at(12_000), 0);
    assert_eq!(q.most_recent_event_at(20_000), 0);
    assert_eq!(q.most_recent_event_at(9_000), 3_000);
    assert_eq!(q.most_recent_event(), 0);
}

#[test]
fn find_sees_queued_elements_without_taking_them() {
    let mut q = TimeQueue::new();
    q.insert(gps(1, 10, 5, 100, 0.0, 0.0));
    q.insert(gps(1, 11, 6, 200, 0.0, 0.0));
    assert!(q.find(|p: &GpsPoint| p.line == 11 && p.run == 6));
    assert!(!q.find(|p: &GpsPoint| p.line == 12));
    assert_eq!(q.len(), 2);
    q.pop_at(1_000_000);
    assert!(!q.find(|p: &GpsPoint| p.line == 10));
    assert!(q.find(|p: &GpsPoint| p.line == 11));
}

#[test]
fn delay_code_is_minutes() {
    assert_eq!(convert_delay(Some(3)), Some(180));
    assert_eq!(convert_delay(Some(-2)), Some(-120));
    assert_eq!(convert_delay(None), None);
}

#[test]
fn scenario_r09_alone_is_forwarded() {
    let mut table = VehicleTable::new();
    let mut cache = LocationCache::new();
    let gps_queue: TimeQueue<GpsPoint> = TimeQueue::new();
    let t = r09(1, Some(10), Some(5), T, 42, None);
    assert!(table.handle_r09(&t, &gps_queue));
    let now = T as i64;
    assert_eq!(cache.lookup_at(1, 42, now), None);
    let resolved = cache.record_at(1, 42, Some(loc(52.5, 13.4)), now).unwrap();
    let w = Waypoint::from_r09(&t, resolved).unwrap();
    assert_eq!(w.source, WaypointSource::R09);
    assert_eq!((w.region, w.line, w.run), (1, 10, 5));
    assert_eq!(f64::from_bits(w.location.lat_bits), 52.5);
    assert_eq!(f64::from_bits(w.location.lon_bits), 13.4);
    assert_eq!(w.delay, None);
    assert_eq!(w.reporting_point, Some(42));
    assert_eq!(w.time, T);
}

#[test]
fn scenario_gps_then_r09_emits_only_gps() {
    let mut table = VehicleTable::new();
    let gps_queue: TimeQueue<GpsPoint> = TimeQueue::new();
    let w = table.handle_gps(&gps(1, 10, 5, T, 52.51, 13.41));
    assert_eq!(w.source, WaypointSource::Gps);
    assert_eq!(w.reporting_point, None);
    assert_eq!(w.destination_number, None);
    assert_eq!(f64::from_bits(w.location.lat_bits), 52.51);
    let t = r09(1, Some(10), Some(5), T + 1000, 42, Some(2));
    assert!(!table.handle_r09(&t, &gps_queue));
    let s = table.get(1, 10, 5).unwrap();
    assert_eq!(s.last_r09_update, T + 1000);
    assert_eq!(s.last_gps_update, T);
    assert_eq!(s.delay, Some(120));
}

#[test]
fn scenario_telegram_without_run_is_dropped() {
    let mut table = VehicleTable::new();
    let gps_queue: TimeQueue<GpsPoint> = TimeQueue::new();
    assert!(!table.handle_r09(&r09(1, Some(10), None, T, 42, None), &gps_queue));
    assert!(!table.handle_r09(&r09(1, None, Some(5), T, 42, None), &gps_queue));
    assert_eq!(table.len(), 0);
    assert_eq!(table.get(1, 10, 5), None);
}

#[test]
fn r09_after_stale_gps_is_forwarded() {
    let mut table = VehicleTable::new();
    let gps_queue: TimeQueue<GpsPoint> = TimeQueue::new();
    table.handle_gps(&gps(1, 10, 5, T, 0.0, 0.0));
    let at_limit = r09(1, Some(10), Some(5), T + DISCARD_R09_TIME, 42, None);
    assert!(!table.handle_r09(&at_limit, &gps_queue));
    let past_limit = r09(1, Some(10), Some(5), T + DISCARD_R09_TIME + 1, 42, None);
    assert!(table.handle_r09(&past_limit, &gps_queue));
}

#[test]
fn repeated_r09_without_gps_keeps_forwarding() {
    let mut table = VehicleTable::new();
    let gps_queue: TimeQueue<GpsPoint> = TimeQueue::new();
    assert!(table.handle_r09(&r09(1, Some(10), Some(5), T, 42, None), &gps_queue));
    assert!(table.handle_r09(&r09(1, Some(10), Some(5), T + 5, 43, None), &gps_queue));
    assert_eq!(table.len(), 1);
}

#[test]
fn queued_gps_suppresses_r09() {
    let mut table = VehicleTable::new();
    let mut gps_queue = TimeQueue::new();
    gps_queue.insert(gps(1, 10, 5, T + 10, 0.0, 0.0));
    let t = r09(1, Some(10), Some(5), T, 42, Some(1));
    assert!(!table.handle_r09(&t, &gps_queue));
    assert_eq!(table.get(1, 10, 5).unwrap().delay, Some(60));
    let other = r09(1, Some(10), Some(6), T, 42, None);
    assert!(table.handle_r09(&other, &gps_queue));
}

#[test]
fn regions_are_kept_apart() {
    let mut table = VehicleTable::new();
    let gps_queue: TimeQueue<GpsPoint> = TimeQueue::new();
    table.handle_gps(&gps(1, 10, 5, T, 0.0, 0.0));
    assert!(table.handle_r09(&r09(2, Some(10), Some(5), T + 10, 42, None), &gps_queue));
    assert_eq!(table.len(), 2);
}

#[test]
fn gps_carries_recent_delay_only() {
    let mut table = VehicleTable::new();
    let gps_queue: TimeQueue<GpsPoint> = TimeQueue::new();
    table.handle_r09(&r09(1, Some(10), Some(5), T, 42, Some(2)), &gps_queue);
    let w = table.handle_gps(&gps(1, 10, 5, T + ACCEPT_DELAY - 1, 0.0, 0.0));
    assert_eq!(w.delay, Some(120));
    let w = table.handle_gps(&gps(1, 10, 5, T + ACCEPT_DELAY, 0.0, 0.0));
    assert_eq!(w.delay, None);
    let s = table.get(1, 10, 5).unwrap();
    assert_eq!(s.last_gps_update, T + ACCEPT_DELAY);
    assert_eq!(s.delay, Some(120));
}

#[test]
fn first_gps_has_no_delay() {
    let mut table = VehicleTable::new();
    let w = table.handle_gps(&gps(3, 1, 2, T, 1.0, 2.0));
    assert_eq!(w.delay, None);
    assert_eq!(table.get(3, 1, 2).unwrap().last_r09_update, 0);
}

#[test]
fn configured_windows_apply() {
    let mut table = VehicleTable::with_limits(10, 10);
    let gps_queue: TimeQueue<GpsPoint> = TimeQueue::new();
    table.handle_gps(&gps(1, 1, 1, 1_000, 0.0, 0.0));
    assert!(table.handle_r09(&r09(1, Some(1), Some(1), 1_011, 7, Some(1)), &gps_queue));
    assert_eq!(table.handle_gps(&gps(1, 1, 1, 1_020, 0.0, 0.0)).delay, Some(60));
    assert_eq!(table.handle_gps(&gps(1, 1, 1, 1_021, 0.0, 0.0)).delay, None);
}

#[test]
fn cache_answers_within_lifetime_only() {
    let mut cache = LocationCache::new();
    assert_eq!(cache.record_at(1, 42, Some(loc(52.5, 13.4)), 1_000), Some(loc(52.5, 13.4)));
    assert_eq!(cache.lookup_at(1, 42, 1_000), Some(loc(52.5, 13.4)));
    assert_eq!(cache.lookup_at(1, 42, 300_999), Some(loc(52.5, 13.4)));
    assert_eq!(cache.lookup_at(1, 42, 301_000), None);
    assert_eq!(cache.lookup_at(2, 42, 1_000), None);
    assert_eq!(cache.lookup_at(1, 43, 1_000), None);
}

#[test]
fn failed_store_lookup_keeps_stale_entry() {
    let mut cache = LocationCache::new();
    cache.record_at(1, 42, Some(loc(1.0, 2.0)), 0);
    assert_eq!(cache.record_at(1, 42, None, 400_000), None);
    assert_eq!(cache.lookup_at(1, 42, 400_000), None);
    assert_eq!(cache.lookup_at(1, 42, 10), Some(loc(1.0, 2.0)));
    cache.record_at(1, 42, Some(loc(3.0, 4.0)), 400_000);
    assert_eq!(cache.lookup_at(1, 42, 400_001), Some(loc(3.0, 4.0)));
}

#[test]
fn cache_on_the_clock() {
    let mut cache = LocationCache::new();
    assert_eq!(cache.lookup(1, 42), None);
    cache.record(1, 42, Some(loc(52.5, 13.4)));
    assert_eq!(cache.lookup(1, 42), Some(loc(52.5, 13.4)));
}

#[test]
fn scheduler_cycle() {
    let mut s = Scheduler::new();
    assert_eq!(s.step(Outcome::Empty, 0, 700, 300), Step::Sleep { millis: 300 });
    assert_eq!(s.step(Outcome::Slept, 1_000, 0, 0), Step::Pop { stream: Stream::Gps });
    assert_eq!(s.step(Outcome::Popped, 1_010, 0, 0), Step::Pop { stream: Stream::Gps });
    assert_eq!(s.step(Outcome::Empty, 1_020, 0, 0), Step::Pop { stream: Stream::R09 });
    assert_eq!(s.phase, Phase::Draining { stream: Stream::R09, start: 1_020 });
    assert_eq!(s.step(Outcome::Empty, 1_030, 5, 2_000), Step::Sleep { millis: 5 });
    assert_eq!(s.phase, Phase::Waiting);
}

#[test]
fn scheduler_slice_bounds_each_stream() {
    let mut s = Scheduler::new();
    s.step(Outcome::Slept, 1_000, 0, 0);
    assert_eq!(s.step(Outcome::Popped, 1_049, 0, 0), Step::Pop { stream: Stream::Gps });
    assert_eq!(s.step(Outcome::Popped, 1_050, 0, 0), Step::Pop { stream: Stream::R09 });
    assert_eq!(s.step(Outcome::Popped, 1_100, 40, 50), Step::Sleep { millis: 40 });
}

#[test]
fn state_resolves_then_serves_from_cache() {
    let mut state = chemo::State::new();
    let gps_queue: TimeQueue<GpsPoint> = TimeQueue::new();
    let t = r09(1, Some(10), Some(5), T, 42, None);
    let now = T as i64;
    assert_eq!(
        state.on_r09_at(&t, &gps_queue, now),
        chemo::R09Action::Resolve { region: 1, reporting_point: 42 }
    );
    let w = state.on_resolved_at(&t, Some(loc(52.5, 13.4)), now).unwrap();
    assert_eq!(w.source, WaypointSource::R09);
    assert_eq!((w.region, w.line, w.run, w.delay), (1, 10, 5, None));
    assert_eq!(w.location, loc(52.5, 13.4));
    let again = r09(1, Some(10), Some(5), T + 100, 42, Some(1));
    match state.on_r09_at(&again, &gps_queue, now + 100) {
        chemo::R09Action::Emit(w) => {
            assert_eq!(w.location, loc(52.5, 13.4));
            assert_eq!(w.delay, Some(60));
        }
        other => panic!("unexpected action {:?}", other),
    }
}

#[test]
fn state_drops_unresolvable_telegram() {
    let mut state = chemo::State::new();
    let gps_queue: TimeQueue<GpsPoint> = TimeQueue::new();
    let t = r09(1, Some(10), Some(5), T, 42, Some(4));
    assert_eq!(
        state.on_r09(&t, &gps_queue),
        chemo::R09Action::Resolve { region: 1, reporting_point: 42 }
    );
    assert_eq!(state.on_resolved(&t, None), None);
    assert_eq!(state.vehicles.get(1, 10, 5).unwrap().delay, Some(240));
    assert_eq!(state.cache.lookup_at(1, 42, T as i64), None);
}

#[test]
fn state_gps_then_r09_only_gps() {
    let mut state = chemo::State::new();
    let gps_queue: TimeQueue<GpsPoint> = TimeQueue::new();
    let w = state.on_gps(&gps(1, 10, 5, T, 52.51, 13.41));
    assert_eq!(w.source, WaypointSource::Gps);
    let t = r09(1, Some(10), Some(5), T + 1000, 42, None);
    assert_eq!(state.on_r09_at(&t, &gps_queue, T as i64), chemo::R09Action::Drop);
    assert_eq!(state.vehicles.get(1, 10, 5).unwrap().last_r09_update, T + 1000);
}
