use vstd::prelude::*;
use crate::config::ALPHA_ONE;

verus! {

/// The abstract state of a scalable controller, with every count in bytes,
/// timestamps in ticks and the marking fraction in fixed point.
pub struct ControllerModel {
    pub current_mtu: nat,
    pub window: nat,
    pub ssthresh: nat,
    pub recovery_start_time: nat,
    pub bytes_acked: nat,
    pub bytes_marked: nat,
    pub alpha: nat,
    pub initial_window: nat,
    pub gain: nat,
}

/// `x` brought into the range of `u64`: negative values floor at zero and
/// values past the top stick at `u64::MAX`.
pub open spec fn saturate(x: int) -> nat {
    if x <= 0 {
        0
    } else if x > u64::MAX {
        u64::MAX as nat
    } else {
        x as nat
    }
}

/// The smallest window a controller may hold: two datagrams.
pub open spec fn minimum_window(mtu: nat) -> nat {
    2 * mtu
}

pub open spec fn max_nat(a: nat, b: nat) -> nat {
    if a >= b {
        a
    } else {
        b
    }
}

/// Instantaneous marking fraction `marked / acked` in fixed point, zero when
/// nothing has been acknowledged.
pub open spec fn marking_fraction(marked: nat, acked: nat) -> nat {
    if acked == 0 {
        0
    } else {
        saturate((marked * ALPHA_ONE) as int / acked as int)
    }
}

/// One step of the moving average `alpha + gain * (fraction - alpha)`,
/// rounded toward zero.
pub open spec fn smoothed_alpha(alpha: nat, gain: nat, fraction: nat) -> nat {
    ((alpha * ALPHA_ONE + gain * (fraction - alpha)) / ALPHA_ONE as int) as nat
}

/// `window * alpha`, rounded toward zero, saturating at `u64::MAX`.
pub open spec fn scaled_window(window: nat, alpha: nat) -> nat {
    saturate((window * alpha) as int / ALPHA_ONE as int)
}

/// `(1 - alpha / 2) * window`, rounded toward zero, zero once `alpha >= 2`.
pub open spec fn reduced_ssthresh(window: nat, alpha: nat) -> nat {
    if alpha >= 2 * ALPHA_ONE {
        0
    } else {
        (window * (2 * ALPHA_ONE - alpha) / (2 * ALPHA_ONE) as int) as nat
    }
}

/// Resets the byte counters to `acked` and `marked` and folds the new
/// marking fraction into `alpha`.
pub open spec fn account(s: ControllerModel, acked: nat, marked: nat) -> ControllerModel {
    ControllerModel {
        bytes_acked: acked,
        bytes_marked: marked,
        alpha: smoothed_alpha(s.alpha, s.gain, marking_fraction(marked, acked)),
        ..s
    }
}

/// Whether an event for data sent at `sent` belongs to the current epoch.
pub open spec fn is_fresh(s: ControllerModel, sent: nat) -> bool {
    sent > s.recovery_start_time
}

/// Whether the window grows in slow start.
pub open spec fn in_slow_start(s: ControllerModel) -> bool {
    s.window < s.ssthresh
}

/// The state after `bytes` of data sent at `sent` are acknowledged.
pub open spec fn ack_step(s: ControllerModel, sent: nat, bytes: nat, app_limited: bool) -> ControllerModel {
    if app_limited || !is_fresh(s, sent) {
        s
    } else if in_slow_start(s) {
        let grown = ControllerModel { window: saturate(s.window + bytes as int), ..s };
        if s.bytes_marked > 0 || grown.window >= s.ssthresh {
            account(
                grown,
                saturate(grown.window - s.ssthresh),
                saturate(s.bytes_marked - s.ssthresh),
            )
        } else {
            grown
        }
    } else {
        let acked = saturate(s.bytes_acked + bytes as int);
        if acked >= s.window {
            ControllerModel {
                window: saturate(s.window + s.current_mtu as int),
                ..account(s, (acked - s.window) as nat, saturate(s.bytes_marked - s.window))
            }
        } else {
            ControllerModel { bytes_acked: acked, ..s }
        }
    }
}

/// The state after a congestion signal at `now` for `bytes_affected` bytes
/// of data sent at `sent`.
pub open spec fn congestion_step(
    s: ControllerModel,
    now: nat,
    sent: nat,
    is_persistent_congestion: bool,
    bytes_affected: nat,
) -> ControllerModel {
    let marked = saturate(s.bytes_marked + bytes_affected as int);
    if !is_fresh(s, sent) {
        ControllerModel { bytes_marked: marked, ..s }
    } else {
        let w = max_nat(scaled_window(s.window, s.alpha), minimum_window(s.current_mtu));
        ControllerModel {
            bytes_marked: marked,
            recovery_start_time: now,
            window: if is_persistent_congestion {
                minimum_window(s.current_mtu)
            } else {
                w
            },
            ssthresh: reduced_ssthresh(w, s.alpha),
            ..s
        }
    }
}

/// The state after the datagram size changes to `new_mtu`.
pub open spec fn mtu_step(s: ControllerModel, new_mtu: nat) -> ControllerModel {
    ControllerModel {
        current_mtu: new_mtu,
        window: max_nat(s.window, minimum_window(new_mtu)),
        ..s
    }
}

} // verus!
