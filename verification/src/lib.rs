//! Discrete-time energy-balance simulator for a photovoltaic-plus-battery
//! system.
//!
//! Given a nominal solar capacity, a constant load, a latitude, a battery
//! capacity and a day-of-year range, the simulator produces a time series of
//! battery state of charge, solar output and daylight duration.
//!
//! All quantities are Q32.32 fixed-point integers (see [`fixq`]) and all
//! timestamps are whole seconds on a reference-year timeline where day `d`
//! of the year begins at second `(d - 1) * 86400`, so every result is an
//! exact integer function of the inputs. The transcendental parts of the
//! astronomical model come from a fixed-point CORDIC library through the
//! trusted wrappers in [`trig`].

pub mod astro;
pub mod curve;
pub mod fixq;
pub mod interval;
pub mod power;
pub mod sim;
pub mod state;
pub mod timeline;
pub mod trig;

pub use astro::{daylight_hours, sunrise, sunset};
pub use curve::solar_production_curve;
pub use fixq::Q_ONE;
pub use interval::{bounded_daylight_duration, bounded_daylight_hours};
pub use power::{net_energy, solar_power};
pub use sim::{run_simulation, step, ParamError};
pub use state::SimState;
pub use timeline::{earlier_of, later_of, time_hours};
