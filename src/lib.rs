//! Fusion of R09 beacon telegrams and GPS samples into one waypoint feed.
//!
//! The library holds the verified core: a time-ordered release buffer per
//! input stream, the per-vehicle arbitration table, the reporting-point
//! location cache and the scheduler that decides when to wait and which
//! stream to drain.

mod clock;
pub mod event;
pub mod queue;
pub mod table;
pub mod cache;
pub mod vehicles;
pub mod scheduler;
pub mod state;

pub use event::{GpsPoint, Location, R09Telegram, Waypoint, WaypointSource};
pub use queue::{GetTime, TimeQueue};
pub use cache::{CachedLocation, LocationCache, LocationKey};
pub use vehicles::{VehicleKey, VehicleState, VehicleTable};
pub use scheduler::{Outcome, Phase, Scheduler, Step, Stream};
pub use state::{R09Action, State};
