use vstd::prelude::*;
use std::sync::Arc;
use crate::config::{PragueConfig, ALPHA_ONE};
use crate::model::{ack_step, congestion_step, mtu_step, ControllerModel};
use crate::prague::{ControllerMetrics, Prague};

verus! {

/// What every congestion controller offers the connection that owns it.
/// Timestamps are monotonic ticks; `rtt` is the current smoothed round-trip
/// estimate, which variants that pace may use.
pub trait Controller: Sized {
    /// `bytes` of data sent at `sent` were newly acknowledged at `now`.
    fn on_ack(&mut self, now: u64, sent: u64, bytes: u64, app_limited: bool, rtt: u64);

    /// A congestion or loss signal at `now` for `bytes_affected` bytes sent at `sent`.
    fn on_congestion_event(
        &mut self,
        now: u64,
        sent: u64,
        is_persistent_congestion: bool,
        bytes_affected: u64,
    );

    /// The datagram size changed.
    fn on_mtu_update(&mut self, new_mtu: u16);

    /// Bytes that may be in flight.
    fn window(&self) -> u64;

    /// Observability snapshot.
    fn metrics(&self) -> ControllerMetrics;

    /// The window a controller of this configuration starts with.
    fn initial_window(&self) -> u64;

    /// An independent copy of this controller.
    fn duplicate(&self) -> Self;
}

/// Builds a controller from a shared configuration.
pub trait ControllerFactory: Sized {
    type Built: Controller;

    fn build(config: Arc<Self>, now: u64, current_mtu: u16) -> Self::Built;
}

impl Controller for Prague {
    fn on_ack(&mut self, now: u64, sent: u64, bytes: u64, app_limited: bool, rtt: u64)
        ensures
            final(self)@ == ack_step(old(self)@, sent as nat, bytes as nat, app_limited),
    {
        Prague::on_ack(self, now, sent, bytes, app_limited, rtt)
    }

    fn on_congestion_event(
        &mut self,
        now: u64,
        sent: u64,
        is_persistent_congestion: bool,
        bytes_affected: u64,
    )
        ensures
            final(self)@ == congestion_step(
                old(self)@,
                now as nat,
                sent as nat,
                is_persistent_congestion,
                bytes_affected as nat,
            ),
    {
        Prague::on_congestion_event(self, now, sent, is_persistent_congestion, bytes_affected)
    }

    fn on_mtu_update(&mut self, new_mtu: u16)
        ensures
            final(self)@ == mtu_step(old(self)@, new_mtu as nat),
    {
        Prague::on_mtu_update(self, new_mtu)
    }

    fn window(&self) -> (r: u64)
        ensures
            r == self@.window,
    {
        Prague::window(self)
    }

    fn metrics(&self) -> (r: ControllerMetrics)
        ensures
            r == (ControllerMetrics {
                congestion_window: self@.window as u64,
                ssthresh: Some(self@.ssthresh as u64),
                pacing_rate: None,
            }),
    {
        Prague::metrics(self)
    }

    fn initial_window(&self) -> (r: u64)
        ensures
            r == self@.initial_window,
    {
        Prague::initial_window(self)
    }

    fn duplicate(&self) -> (r: Self)
        ensures
            r@ == self@,
    {
        Prague::duplicate(self)
    }
}

impl ControllerFactory for PragueConfig {
    type Built = Prague;

    fn build(config: Arc<Self>, now: u64, current_mtu: u16) -> (r: Prague)
        ensures
            r@ == (ControllerModel {
                current_mtu: current_mtu as nat,
                window: config.spec_initial_window(),
                ssthresh: u64::MAX as nat,
                recovery_start_time: now as nat,
                bytes_acked: 0,
                bytes_marked: 0,
                alpha: ALPHA_ONE as nat,
                initial_window: config.spec_initial_window(),
                gain: config.spec_gain(),
            }),
    {
        Prague::new(config, now, current_mtu)
    }
}

} // verus!
