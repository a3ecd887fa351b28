use vstd::prelude::*;
use std::sync::Arc;
use crate::config::{PragueConfig, ALPHA_ONE};
use crate::model::{
    ack_step, congestion_step, marking_fraction, minimum_window, mtu_step, smoothed_alpha,
    scaled_window, reduced_ssthresh, ControllerModel,
};

verus! {

/// Relies on `Arc::clone`: the new handle points at the same configuration.
#[verifier::external_body]
fn share_config(config: &Arc<PragueConfig>) -> (r: Arc<PragueConfig>)
    ensures
        *r == **config,
{
    Arc::clone(config)
}

/// Observability snapshot of a controller.
#[derive(Debug, Clone, Copy, PartialEq, Eq, Structural)]
pub struct ControllerMetrics {
    pub congestion_window: u64,
    pub ssthresh: Option<u64>,
    pub pacing_rate: Option<u64>,
}

/// A scalable congestion controller.
#[derive(Debug)]
pub struct Prague {
    config: Arc<PragueConfig>,
    current_mtu: u16,
    /// Maximum number of bytes in flight that may be sent.
    window: u64,
    /// Slow start threshold in bytes: below it the window grows by the
    /// number of bytes acknowledged.
    ssthresh: u64,
    /// Time of the most recent accepted congestion reaction; events for data
    /// sent at or before it belong to the previous epoch.
    recovery_start_time: u64,
    /// Bytes acknowledged since the last additive increase.
    bytes_acked: u64,
    /// Bytes reported in congestion signals since the last fraction update.
    bytes_marked: u64,
    /// Smoothed marking fraction in fixed point.
    alpha: u64,
}

impl View for Prague {
    type V = ControllerModel;

    closed spec fn view(&self) -> ControllerModel {
        ControllerModel {
            current_mtu: self.current_mtu as nat,
            window: self.window as nat,
            ssthresh: self.ssthresh as nat,
            recovery_start_time: self.recovery_start_time as nat,
            bytes_acked: self.bytes_acked as nat,
            bytes_marked: self.bytes_marked as nat,
            alpha: self.alpha as nat,
            initial_window: self.config.spec_initial_window(),
            gain: self.config.spec_gain(),
        }
    }
}

impl Prague {
    /// A controller in slow start with the configured initial window.
    pub fn new(config: Arc<PragueConfig>, now: u64, current_mtu: u16) -> (r: Self)
        ensures
            r@ == (ControllerModel {
                current_mtu: current_mtu as nat,
                window: config.spec_initial_window(),
                ssthresh: u64::MAX as nat,
                recovery_start_time: now as nat,
                bytes_acked: 0,
                bytes_marked: 0,
                alpha: ALPHA_ONE as nat,
                initial_window: config.spec_initial_window(),
                gain: config.spec_gain(),
            }),
    {
        Prague {
            window: config.window_size(),
            ssthresh: u64::MAX,
            recovery_start_time: now,
            current_mtu,
            config,
            bytes_acked: 0,
            bytes_marked: 0,
            alpha: ALPHA_ONE,
        }
    }

    /// Every count of a controller fits a `u64` and its datagram size a `u16`.
    pub proof fn lemma_view_fits(&self)
        ensures
            self@.current_mtu <= u16::MAX,
            self@.window <= u64::MAX,
            self@.ssthresh <= u64::MAX,
            self@.recovery_start_time <= u64::MAX,
            self@.bytes_acked <= u64::MAX,
            self@.bytes_marked <= u64::MAX,
            self@.alpha <= u64::MAX,
    {
    }

    fn minimum_window(&self) -> (r: u64)
        ensures
            r == minimum_window(self@.current_mtu),
    {
        2 * (self.current_mtu as u64)
    }

    fn update_marking_fraction(&mut self)
        ensures
            final(self)@ == (ControllerModel {
                alpha: smoothed_alpha(
                    old(self)@.alpha,
                    old(self)@.gain,
                    marking_fraction(old(self)@.bytes_marked, old(self)@.bytes_acked),
                ),
                ..old(self)@
            }),
            final(self).current_mtu == old(self).current_mtu,
    {
        let gain = self.config.gain();
        let fraction: u64 = if self.bytes_acked == 0 {
            0
        } else {
            let marked = self.bytes_marked;
            proof {
                assert(marked * ALPHA_ONE <= u64::MAX * ALPHA_ONE) by (nonlinear_arith)
                    requires
                        marked <= u64::MAX,
                ;
            }
            let q: u128 = (self.bytes_marked as u128) * (ALPHA_ONE as u128) / (self.bytes_acked as u128);
            if q > u64::MAX as u128 {
                u64::MAX
            } else {
                q as u64
            }
        };
        let alpha = self.alpha;
        proof {
            assert(alpha * (ALPHA_ONE - gain) <= u64::MAX * ALPHA_ONE) by (nonlinear_arith)
                requires
                    alpha <= u64::MAX,
                    0 < gain <= ALPHA_ONE,
            ;
            assert(gain * fraction <= u64::MAX * ALPHA_ONE) by (nonlinear_arith)
                requires
                    fraction <= u64::MAX,
                    0 < gain <= ALPHA_ONE,
            ;
        }
        let keep: u128 = (alpha as u128) * ((ALPHA_ONE - gain) as u128);
        let add: u128 = (gain as u128) * (fraction as u128);
        proof {
            let m = u64::MAX as int;
            assert(keep + add <= ALPHA_ONE * m) by (nonlinear_arith)
                requires
                    keep == alpha * (ALPHA_ONE - gain),
                    add == gain * fraction,
                    0 < gain <= ALPHA_ONE,
                    alpha <= m,
                    fraction <= m,
            ;
            assert(alpha * ALPHA_ONE + gain * (fraction - alpha) == keep + add) by (nonlinear_arith)
                requires
                    keep == alpha * (ALPHA_ONE - gain),
                    add == gain * fraction,
            ;
        }
        let next: u128 = (keep + add) / (ALPHA_ONE as u128);
        self.alpha = next as u64;
    }

    /// Reacts to `bytes` newly acknowledged bytes of data sent at `sent`.
    /// App-limited acknowledgments and those for data sent at or before the
    /// start of the current recovery epoch change nothing.
    pub fn on_ack(&mut self, _now: u64, sent: u64, bytes: u64, app_limited: bool, _rtt: u64)
        ensures
            final(self)@ == ack_step(old(self)@, sent as nat, bytes as nat, app_limited),
    {
        if app_limited || sent <= self.recovery_start_time {
            return ;
        }
        if self.window < self.ssthresh {
            // Slow start: grow one-to-one with the acknowledged bytes.
            self.window = self.window.saturating_add(bytes);
            if self.bytes_marked > 0 || self.window >= self.ssthresh {
                // Leaving slow start: the overshoot past the threshold
                // already counts toward congestion avoidance.
                self.bytes_acked = self.window.saturating_sub(self.ssthresh);
                self.bytes_marked = self.bytes_marked.saturating_sub(self.ssthresh);
                self.update_marking_fraction();
            }
        } else {
            // Congestion avoidance: one datagram per window of acknowledged bytes.
            self.bytes_acked = self.bytes_acked.saturating_add(bytes);
            if self.bytes_acked >= self.window {
                self.bytes_acked = self.bytes_acked - self.window;
                self.bytes_marked = self.bytes_marked.saturating_sub(self.window);
                self.update_marking_fraction();
                self.window = self.window.saturating_add(self.current_mtu as u64);
            }
        }
    }

    /// Reacts to a congestion signal at `now` for `bytes_affected` bytes of
    /// data sent at `sent`. The marked bytes always count; the window is cut
    /// only once per recovery epoch.
    pub fn on_congestion_event(
        &mut self,
        now: u64,
        sent: u64,
        is_persistent_congestion: bool,
        bytes_affected: u64,
    )
        ensures
            final(self)@ == congestion_step(
                old(self)@,
                now as nat,
                sent as nat,
                is_persistent_congestion,
                bytes_affected as nat,
            ),
    {
        self.bytes_marked = self.bytes_marked.saturating_add(bytes_affected);
        if sent <= self.recovery_start_time {
            return ;
        }
        self.recovery_start_time = now;
        let scaled = scale_window(self.window, self.alpha);
        let min = self.minimum_window();
        self.window = if scaled >= min {
            scaled
        } else {
            min
        };
        self.ssthresh = reduce_ssthresh(self.window, self.alpha);
        if is_persistent_congestion {
            self.window = min;
        }
    }

    /// Takes a new datagram size and raises the window to the new minimum.
    pub fn on_mtu_update(&mut self, new_mtu: u16)
        ensures
            final(self)@ == mtu_step(old(self)@, new_mtu as nat),
    {
        self.current_mtu = new_mtu;
        let min = self.minimum_window();
        if self.window < min {
            self.window = min;
        }
    }

    /// The current congestion window, in bytes.
    pub fn window(&self) -> (r: u64)
        ensures
            r == self@.window,
    {
        self.window
    }

    /// The slow start threshold, in bytes.
    pub fn ssthresh(&self) -> (r: u64)
        ensures
            r == self@.ssthresh,
    {
        self.ssthresh
    }

    /// The datagram size the controller currently works with.
    pub fn current_mtu(&self) -> (r: u16)
        ensures
            r == self@.current_mtu,
    {
        self.current_mtu
    }

    /// Start of the current recovery epoch.
    pub fn recovery_start_time(&self) -> (r: u64)
        ensures
            r == self@.recovery_start_time,
    {
        self.recovery_start_time
    }

    /// Bytes acknowledged since the last additive increase.
    pub fn bytes_acked(&self) -> (r: u64)
        ensures
            r == self@.bytes_acked,
    {
        self.bytes_acked
    }

    /// Marked bytes since the last fraction update.
    pub fn bytes_marked(&self) -> (r: u64)
        ensures
            r == self@.bytes_marked,
    {
        self.bytes_marked
    }

    /// The smoothed marking fraction, in fixed point.
    pub fn alpha(&self) -> (r: u64)
        ensures
            r == self@.alpha,
    {
        self.alpha
    }

    /// The window this controller started with.
    pub fn initial_window(&self) -> (r: u64)
        ensures
            r == self@.initial_window,
    {
        self.config.window_size()
    }

    /// Window and threshold; this controller computes no pacing rate.
    pub fn metrics(&self) -> (r: ControllerMetrics)
        ensures
            r == (ControllerMetrics {
                congestion_window: self@.window as u64,
                ssthresh: Some(self@.ssthresh as u64),
                pacing_rate: None,
            }),
    {
        ControllerMetrics {
            congestion_window: self.window(),
            ssthresh: Some(self.ssthresh),
            pacing_rate: None,
        }
    }

    /// An independent copy with the same state, sharing the configuration.
    pub fn duplicate(&self) -> (r: Self)
        ensures
            r@ == self@,
    {
        Prague {
            config: share_config(&self.config),
            current_mtu: self.current_mtu,
            window: self.window,
            ssthresh: self.ssthresh,
            recovery_start_time: self.recovery_start_time,
            bytes_acked: self.bytes_acked,
            bytes_marked: self.bytes_marked,
            alpha: self.alpha,
        }
    }
}

/// `window * alpha` in fixed point, rounded toward zero, saturating.
fn scale_window(window: u64, alpha: u64) -> (r: u64)
    ensures
        r == scaled_window(window as nat, alpha as nat),
{
    proof {
        assert(window * alpha <= u64::MAX * u64::MAX) by (nonlinear_arith)
            requires
                window <= u64::MAX,
                alpha <= u64::MAX,
        ;
    }
    let q: u128 = (window as u128) * (alpha as u128) / (ALPHA_ONE as u128);
    if q > u64::MAX as u128 {
        u64::MAX
    } else {
        q as u64
    }
}

/// `(1 - alpha / 2) * window`, rounded toward zero, zero once `alpha >= 2`.
fn reduce_ssthresh(window: u64, alpha: u64) -> (r: u64)
    ensures
        r == reduced_ssthresh(window as nat, alpha as nat),
{
    if alpha >= 2 * ALPHA_ONE {
        0
    } else {
        let keep: u64 = 2 * ALPHA_ONE - alpha;
        proof {
            assert(window * keep <= u64::MAX * (2 * ALPHA_ONE)) by (nonlinear_arith)
                requires
                    window <= u64::MAX,
                    keep <= 2 * ALPHA_ONE,
            ;
            assert(window * keep / (2 * ALPHA_ONE) as int <= window) by (nonlinear_arith)
                requires
                    keep <= 2 * ALPHA_ONE,
            ;
        }
        let q: u128 = (window as u128) * (keep as u128) / ((2 * ALPHA_ONE) as u128);
        q as u64
    }
}

} // verus!
