//! A scalable, marking-rate-adaptive congestion controller.
//!
//! The smoothed marking fraction and the smoothing gain are held in fixed
//! point with `ALPHA_ONE` standing for 1.0; every scaling rounds toward zero.
//! Timestamps are opaque monotonic ticks that are only ever compared.

mod config;
mod model;
mod prague;
mod controller;
pub mod laws;

pub use config::{PragueConfig, ALPHA_ONE, BASE_DATAGRAM_SIZE, DEFAULT_GAIN, DEFAULT_INITIAL_WINDOW};
pub use model::{
    account, ack_step, congestion_step, in_slow_start, is_fresh, marking_fraction, max_nat,
    minimum_window, mtu_step, reduced_ssthresh, saturate, scaled_window, smoothed_alpha,
    ControllerModel,
};
pub use prague::{ControllerMetrics, Prague};
pub use controller::{Controller, ControllerFactory};
