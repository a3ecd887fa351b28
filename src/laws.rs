use vstd::prelude::*;
use crate::config::ALPHA_ONE;
use crate::model::{
    ack_step, congestion_step, in_slow_start, is_fresh, max_nat, minimum_window, mtu_step,
    saturate, scaled_window, ControllerModel,
};

verus! {

/// One call into a controller, as the model sees it.
pub enum Event {
    Ack { sent: nat, bytes: nat, app_limited: bool },
    Congestion { now: nat, sent: nat, is_persistent_congestion: bool, bytes_affected: nat },
    MtuUpdate { new_mtu: nat },
}

/// The state after one event.
pub open spec fn step(s: ControllerModel, e: Event) -> ControllerModel {
    match e {
        Event::Ack { sent, bytes, app_limited } => ack_step(s, sent, bytes, app_limited),
        Event::Congestion { now, sent, is_persistent_congestion, bytes_affected } => {
            congestion_step(s, now, sent, is_persistent_congestion, bytes_affected)
        },
        Event::MtuUpdate { new_mtu } => mtu_step(s, new_mtu),
    }
}

/// The state after a sequence of events, in order.
pub open spec fn run(s: ControllerModel, events: Seq<Event>) -> ControllerModel
    decreases events.len(),
{
    if events.len() == 0 {
        s
    } else {
        run(step(s, events[0]), events.drop_first())
    }
}

/// The datagram size fits a `u16` and the window a `u64`.
pub open spec fn sizes_fit(s: ControllerModel) -> bool {
    s.current_mtu <= u16::MAX && s.window <= u64::MAX
}

/// An event whose datagram size fits a `u16`.
pub open spec fn event_fits(e: Event) -> bool {
    match e {
        Event::MtuUpdate { new_mtu } => new_mtu <= u16::MAX,
        _ => true,
    }
}

/// The window holds at least two datagrams.
pub open spec fn has_minimum_window(s: ControllerModel) -> bool {
    s.window >= minimum_window(s.current_mtu)
}

/// Any single operation leaves the window at or above two datagrams if it
/// was there before.
pub proof fn lemma_step_keeps_minimum_window(s: ControllerModel, e: Event)
    requires
        sizes_fit(s),
        event_fits(e),
        has_minimum_window(s),
    ensures
        sizes_fit(step(s, e)),
        has_minimum_window(step(s, e)),
{
}

/// For any sequence of operations the window stays at or above two
/// datagrams after every call, once it starts there.
pub proof fn lemma_minimum_window_invariant(s: ControllerModel, events: Seq<Event>)
    requires
        sizes_fit(s),
        forall|i: int| 0 <= i < events.len() ==> event_fits(#[trigger] events[i]),
        has_minimum_window(s),
    ensures
        sizes_fit(run(s, events)),
        has_minimum_window(run(s, events)),
    decreases events.len(),
{
    if events.len() > 0 {
        assert(event_fits(events[0]));
        lemma_step_keeps_minimum_window(s, events[0]);
        let rest = events.drop_first();
        assert forall|i: int| 0 <= i < rest.len() implies event_fits(#[trigger] rest[i]) by {
            assert(rest[i] == events[i + 1]);
        }
        lemma_minimum_window_invariant(step(s, events[0]), rest);
    }
}

/// In slow start an accepted acknowledgment of `bytes` grows the window by
/// exactly `bytes` and leaves the threshold alone.
pub proof fn lemma_slow_start_additivity(s: ControllerModel, sent: nat, bytes: nat)
    requires
        in_slow_start(s),
        is_fresh(s, sent),
        s.window + bytes <= u64::MAX,
    ensures
        ack_step(s, sent, bytes, false).window == s.window + bytes,
        ack_step(s, sent, bytes, false).ssthresh == s.ssthresh,
{
}

/// Total of the byte counts of a sequence of acknowledgments, each given as
/// its send time and its byte count.
pub open spec fn total(acks: Seq<(nat, nat)>) -> nat
    decreases acks.len(),
{
    if acks.len() == 0 {
        0
    } else {
        acks[0].1 + total(acks.drop_first())
    }
}

/// The state after each of `acks`, none app-limited, in order.
pub open spec fn ack_all(s: ControllerModel, acks: Seq<(nat, nat)>) -> ControllerModel
    decreases acks.len(),
{
    if acks.len() == 0 {
        s
    } else {
        ack_all(ack_step(s, acks[0].0, acks[0].1, false), acks.drop_first())
    }
}

/// Every acknowledgment is for data sent after the start of the epoch.
pub open spec fn all_fresh(s: ControllerModel, acks: Seq<(nat, nat)>) -> bool {
    forall|i: int| 0 <= i < acks.len() ==> is_fresh(s, #[trigger] acks[i].0)
}

proof fn lemma_all_fresh_rest(s: ControllerModel, t: ControllerModel, acks: Seq<(nat, nat)>)
    requires
        acks.len() > 0,
        all_fresh(s, acks),
        t.recovery_start_time == s.recovery_start_time,
    ensures
        is_fresh(s, acks[0].0),
        all_fresh(t, acks.drop_first()),
{
    assert(is_fresh(s, acks[0].0));
    let rest = acks.drop_first();
    assert forall|i: int| 0 <= i < rest.len() implies is_fresh(t, #[trigger] rest[i].0) by {
        assert(rest[i] == acks[i + 1]);
        assert(is_fresh(s, acks[i + 1].0));
    }
}

/// Acknowledgments that do not fill the window only add to the byte count.
proof fn lemma_ack_all_below_window(s: ControllerModel, acks: Seq<(nat, nat)>)
    requires
        !in_slow_start(s),
        all_fresh(s, acks),
        s.bytes_acked + total(acks) < s.window,
        s.window <= u64::MAX,
    ensures
        ack_all(s, acks) == (ControllerModel { bytes_acked: s.bytes_acked + total(acks), ..s }),
    decreases acks.len(),
{
    if acks.len() > 0 {
        let t = ack_step(s, acks[0].0, acks[0].1, false);
        lemma_all_fresh_rest(s, s, acks);
        assert(t == (ControllerModel { bytes_acked: s.bytes_acked + acks[0].1, ..s }));
        lemma_ack_all_below_window(t, acks.drop_first());
    }
}

/// Acknowledgments that fill the window exactly once grow it by one
/// datagram and keep the rest of the bytes counted.
proof fn lemma_ack_all_crosses_once(s: ControllerModel, acks: Seq<(nat, nat)>)
    requires
        !in_slow_start(s),
        all_fresh(s, acks),
        s.bytes_acked < s.window,
        s.window <= s.bytes_acked + total(acks),
        s.bytes_acked + total(acks) < 2 * s.window + s.current_mtu,
        s.bytes_acked + total(acks) <= u64::MAX,
        s.window + s.current_mtu <= u64::MAX,
    ensures
        ack_all(s, acks).window == s.window + s.current_mtu,
        ack_all(s, acks).bytes_acked == s.bytes_acked + total(acks) - s.window,
        ack_all(s, acks).ssthresh == s.ssthresh,
    decreases acks.len(),
{
    let t = ack_step(s, acks[0].0, acks[0].1, false);
    let rest = acks.drop_first();
    lemma_all_fresh_rest(s, t, acks);
    if s.bytes_acked + acks[0].1 >= s.window {
        assert(t.window == s.window + s.current_mtu);
        assert(t.bytes_acked == s.bytes_acked + acks[0].1 - s.window);
        lemma_ack_all_below_window(t, rest);
    } else {
        assert(t == (ControllerModel { bytes_acked: s.bytes_acked + acks[0].1, ..s }));
        lemma_ack_all_crosses_once(t, rest);
    }
}

/// In congestion avoidance, acknowledgments totalling exactly one window,
/// each for data sent after the start of the epoch, grow the window by
/// exactly one datagram and leave in the byte count what it held before.
pub proof fn lemma_one_mtu_per_window(s: ControllerModel, acks: Seq<(nat, nat)>)
    requires
        !in_slow_start(s),
        all_fresh(s, acks),
        s.bytes_acked < s.window,
        total(acks) == s.window,
        s.bytes_acked + s.window <= u64::MAX,
        s.window + s.current_mtu <= u64::MAX,
    ensures
        ack_all(s, acks).window == s.window + s.current_mtu,
        ack_all(s, acks).bytes_acked == s.bytes_acked,
        ack_all(s, acks).ssthresh == s.ssthresh,
{
    lemma_ack_all_crosses_once(s, acks);
}

/// A fresh congestion event opens a new epoch and cuts the window to at
/// most its old size while the marking fraction is at most one; a second
/// event for the same send time leaves window, threshold and epoch as they
/// are and only adds its bytes to the marked count, which stops at
/// `u64::MAX`.
pub proof fn lemma_single_reaction_per_epoch(
    s: ControllerModel,
    sent: nat,
    now1: nat,
    persistent1: bool,
    bytes1: nat,
    now2: nat,
    persistent2: bool,
    bytes2: nat,
)
    requires
        is_fresh(s, sent),
        sent <= now1,
    ensures
        ({
            let s1 = congestion_step(s, now1, sent, persistent1, bytes1);
            let s2 = congestion_step(s1, now2, sent, persistent2, bytes2);
            &&& s1.recovery_start_time == now1
            &&& s1.window == if persistent1 {
                minimum_window(s.current_mtu)
            } else {
                max_nat(scaled_window(s.window, s.alpha), minimum_window(s.current_mtu))
            }
            &&& (s.alpha <= ALPHA_ONE && has_minimum_window(s) ==> s1.window <= s.window)
            &&& s2.window == s1.window
            &&& s2.ssthresh == s1.ssthresh
            &&& s2.recovery_start_time == s1.recovery_start_time
            &&& s2.bytes_marked == saturate(s1.bytes_marked + bytes2 as int)
            &&& (s1.bytes_marked + bytes2 <= u64::MAX ==> s2.bytes_marked == s1.bytes_marked + bytes2)
        }),
{
    let w = s.window;
    let a = s.alpha;
    if a <= ALPHA_ONE {
        assert(w * a <= w * ALPHA_ONE) by (nonlinear_arith)
            requires
                a <= ALPHA_ONE,
        ;
        assert((w * a) as int / ALPHA_ONE as int <= w) by (nonlinear_arith)
            requires
                w * a <= w * ALPHA_ONE,
        ;
    }
}

/// A fresh congestion event that signals persistent congestion leaves the
/// window at exactly two datagrams, whatever the marking fraction.
pub proof fn lemma_persistent_congestion_forces_minimum(
    s: ControllerModel,
    now: nat,
    sent: nat,
    bytes_affected: nat,
)
    requires
        is_fresh(s, sent),
    ensures
        congestion_step(s, now, sent, true, bytes_affected).window == minimum_window(s.current_mtu),
{
}

/// After a change of datagram size the window holds at least two datagrams
/// of the new size, and is unchanged if it already did.
pub proof fn lemma_mtu_update_keeps_minimum(s: ControllerModel, new_mtu: nat)
    ensures
        has_minimum_window(mtu_step(s, new_mtu)),
        s.window >= minimum_window(new_mtu) ==> mtu_step(s, new_mtu).window == s.window,
{
}

} // verus!
