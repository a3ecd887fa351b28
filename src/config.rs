use vstd::prelude::*;

verus! {

/// Fixed-point representation of 1.0 for the marking fraction and the gain.
pub const ALPHA_ONE: u64 = 1048576;

/// Default smoothing gain: 1/16 in fixed point.
pub const DEFAULT_GAIN: u64 = 65536;

/// The smallest datagram size every path supports, in bytes.
pub const BASE_DATAGRAM_SIZE: u64 = 1200;

/// The window the default initial window is derived from, in bytes.
pub const DEFAULT_INITIAL_WINDOW: u64 = 14720;

/// `x` clamped into `[lo, hi]` (for `lo <= hi`).
pub open spec fn clamp_spec(x: nat, lo: nat, hi: nat) -> nat {
    if x < lo {
        lo
    } else if x > hi {
        hi
    } else {
        x
    }
}

/// Configuration shared read-only by every controller built from it.
#[derive(Debug, Clone, Copy)]
pub struct PragueConfig {
    initial_window: u64,
    gain: u64,
}

impl PragueConfig {
    /// The window, in bytes, a controller built from this configuration starts with.
    pub closed spec fn spec_initial_window(&self) -> nat {
        self.initial_window as nat
    }

    /// The smoothing gain in fixed point (`ALPHA_ONE` is 1.0).
    pub closed spec fn spec_gain(&self) -> nat {
        self.gain as nat
    }

    /// The gain lies in `(0, 1]`.
    #[verifier::type_invariant]
    spec fn gain_in_range(&self) -> bool {
        0 < self.gain <= ALPHA_ONE
    }

    /// Sets the window a controller starts with.
    pub fn initial_window(&mut self, value: u64) -> (r: &mut Self)
        ensures
            r.spec_initial_window() == value,
            r.spec_gain() == old(self).spec_gain(),
            *final(self) == *final(r),
    {
        proof {
            use_type_invariant(&*self);
        }
        self.initial_window = value;
        self
    }

    /// The gain, in fixed point.
    pub fn gain(&self) -> (r: u64)
        ensures
            r == self.spec_gain(),
            0 < r <= ALPHA_ONE,
    {
        proof {
            use_type_invariant(self);
        }
        self.gain
    }

    /// The configured initial window, in bytes.
    pub fn window_size(&self) -> (r: u64)
        ensures
            r == self.spec_initial_window(),
    {
        self.initial_window
    }
}

impl Default for PragueConfig {
    /// The initial window is `DEFAULT_INITIAL_WINDOW` clamped into
    /// `[2, 10]` base datagrams; the gain is 1/16.
    fn default() -> (r: Self)
        ensures
            r.spec_initial_window() == clamp_spec(
                DEFAULT_INITIAL_WINDOW as nat,
                2 * BASE_DATAGRAM_SIZE as nat,
                10 * BASE_DATAGRAM_SIZE as nat,
            ),
            r.spec_gain() == DEFAULT_GAIN,
    {
        let lo: u64 = 2 * BASE_DATAGRAM_SIZE;
        let hi: u64 = 10 * BASE_DATAGRAM_SIZE;
        let w: u64 = if DEFAULT_INITIAL_WINDOW < lo {
            lo
        } else if DEFAULT_INITIAL_WINDOW > hi {
            hi
        } else {
            DEFAULT_INITIAL_WINDOW
        };
        PragueConfig { initial_window: w, gain: DEFAULT_GAIN }
    }
}

} // verus!
