use std::sync::Arc;

use prague::{
    Controller, ControllerFactory, ControllerMetrics, Prague, PragueConfig, ALPHA_ONE,
    DEFAULT_GAIN,
};

const MAX: u64 = u64::MAX;

fn config_with_window(window: u64) -> Arc<PragueConfig> {
    let mut config = PragueConfig::default();
    config.initial_window(window);
    Arc::new(config)
}

fn fresh() -> Prague {
    Prague::new(config_with_window(14720), 100, 1200)
}

/// Slow start left after a stale mark, then one fresh reaction:
/// window 14737, ssthresh 7829, epoch 102, alpha 15/16.
fn after_first_reaction() -> Prague {
    let mut p = fresh();
    p.on_congestion_event(100, 100, false, 3000);
    p.on_ack(101, 101, 1000, false, 0);
    p.on_congestion_event(102, 102, false, 0);
    p
}

#[test]
fn default_config_clamps_initial_window() {
    let config = PragueConfig::default();
    assert_eq!(config.window_size(), 12000);
    assert_eq!(config.gain(), DEFAULT_GAIN);
    assert_eq!(DEFAULT_GAIN * 16, ALPHA_ONE);
    let p = Prague::new(Arc::new(config), 0, 1200);
    assert_eq!(p.initial_window(), 12000);
    assert_eq!(p.window(), 12000);
}

#[test]
fn setter_overrides_initial_window() {
    let mut config = PragueConfig::default();
    config.initial_window(30000).initial_window(14720);
    assert_eq!(config.window_size(), 14720);
    assert_eq!(config.gain(), DEFAULT_GAIN);
}

#[test]
fn new_controller_starts_in_slow_start() {
    let p = fresh();
    assert_eq!(p.window(), 14720);
    assert_eq!(p.ssthresh(), MAX);
    assert_eq!(p.recovery_start_time(), 100);
    assert_eq!(p.current_mtu(), 1200);
    assert_eq!(p.bytes_acked(), 0);
    assert_eq!(p.bytes_marked(), 0);
    assert_eq!(p.alpha(), ALPHA_ONE);
}

#[test]
fn scenario_ack_then_congestion() {
    let mut p = fresh();
    p.on_ack(101, 101, 5000, false, 0);
    assert_eq!(p.window(), 19720);
    assert_eq!(p.ssthresh(), MAX);
    p.on_congestion_event(102, 101, false, 1000);
    assert_eq!(p.window(), 19720);
    assert_eq!(p.ssthresh(), 9860);
    assert_eq!(p.recovery_start_time(), 102);
    assert_eq!(p.bytes_marked(), 1000);
}

#[test]
fn slow_start_grows_by_acked_bytes() {
    let mut p = fresh();
    p.on_ack(101, 101, 1, false, 0);
    assert_eq!(p.window(), 14721);
    p.on_ack(102, 102, 2999, false, 0);
    assert_eq!(p.window(), 17720);
    assert_eq!(p.ssthresh(), MAX);
    assert_eq!(p.alpha(), ALPHA_ONE);
}

#[test]
fn app_limited_ack_is_ignored() {
    let mut p = fresh();
    p.on_ack(101, 101, 5000, true, 0);
    assert_eq!(p.window(), 14720);
    assert_eq!(p.bytes_acked(), 0);
}

#[test]
fn stale_ack_is_ignored() {
    let mut p = fresh();
    p.on_ack(101, 100, 5000, false, 0);
    assert_eq!(p.window(), 14720);
    p.on_ack(101, 99, 5000, false, 0);
    assert_eq!(p.window(), 14720);
}

#[test]
fn marking_ends_slow_start_with_empty_fraction() {
    let mut p = fresh();
    p.on_congestion_event(100, 100, false, 3000);
    assert_eq!(p.window(), 14720);
    assert_eq!(p.bytes_marked(), 3000);
    assert_eq!(p.recovery_start_time(), 100);
    p.on_ack(101, 101, 1000, false, 0);
    assert_eq!(p.window(), 15720);
    // window - ssthresh and bytes_marked - ssthresh both floor at zero
    assert_eq!(p.bytes_acked(), 0);
    assert_eq!(p.bytes_marked(), 0);
    // fraction 0 with nothing acked: alpha moves by one gain step toward 0
    assert_eq!(p.alpha(), ALPHA_ONE - DEFAULT_GAIN);
}

#[test]
fn reaction_scales_window_by_alpha() {
    let p = after_first_reaction();
    assert_eq!(p.window(), 14737);
    assert_eq!(p.ssthresh(), 7829);
    assert_eq!(p.recovery_start_time(), 102);
    assert_eq!(p.alpha(), 983040);
}

#[test]
fn congestion_avoidance_one_mtu_per_window() {
    let mut p = after_first_reaction();
    p.on_ack(103, 103, 5000, false, 0);
    assert_eq!(p.window(), 14737);
    assert_eq!(p.bytes_acked(), 5000);
    p.on_ack(104, 103, 5000, false, 0);
    assert_eq!(p.bytes_acked(), 10000);
    p.on_ack(105, 103, 4737, false, 0);
    assert_eq!(p.window(), 14737 + 1200);
    assert_eq!(p.bytes_acked(), 0);
    assert_eq!(p.ssthresh(), 7829);
    assert_eq!(p.alpha(), 921600);
}

#[test]
fn congestion_avoidance_keeps_remainder() {
    let mut p = after_first_reaction();
    p.on_ack(103, 103, 10000, false, 0);
    p.on_ack(104, 103, 6000, false, 0);
    assert_eq!(p.window(), 15937);
    assert_eq!(p.bytes_acked(), 16000 - 14737);
}

#[test]
fn single_reaction_per_epoch() {
    let mut p = fresh();
    p.on_congestion_event(100, 100, false, 3000);
    p.on_ack(101, 101, 1000, false, 0);
    assert_eq!(p.window(), 15720);
    p.on_congestion_event(102, 101, false, 500);
    assert_eq!(p.window(), 14737);
    assert!(p.window() < 15720);
    let ssthresh = p.ssthresh();
    p.on_congestion_event(103, 101, false, 700);
    assert_eq!(p.window(), 14737);
    assert_eq!(p.ssthresh(), ssthresh);
    assert_eq!(p.recovery_start_time(), 102);
    assert_eq!(p.bytes_marked(), 1200);
}

#[test]
fn persistent_congestion_forces_minimum() {
    let mut p = fresh();
    p.on_ack(101, 101, 5000, false, 0);
    p.on_congestion_event(102, 101, true, 1000);
    assert_eq!(p.window(), 2400);
    assert_eq!(p.ssthresh(), 9860);
    assert_eq!(p.recovery_start_time(), 102);
}

#[test]
fn stale_persistent_congestion_changes_only_marks() {
    let mut p = fresh();
    p.on_congestion_event(101, 100, true, 1000);
    assert_eq!(p.window(), 14720);
    assert_eq!(p.ssthresh(), MAX);
    assert_eq!(p.bytes_marked(), 1000);
}

#[test]
fn mtu_shrink_keeps_window() {
    let mut p = fresh();
    p.on_mtu_update(1000);
    assert_eq!(p.current_mtu(), 1000);
    assert_eq!(p.window(), 14720);
    assert!(p.window() >= 2 * 1000);
}

#[test]
fn mtu_growth_raises_window_to_minimum() {
    let mut p = fresh();
    p.on_mtu_update(9000);
    assert_eq!(p.window(), 18000);
    assert_eq!(p.ssthresh(), MAX);
    p.on_mtu_update(1200);
    assert_eq!(p.window(), 18000);
}

#[test]
fn reaction_clamps_to_minimum_window() {
    let mut p = Prague::new(config_with_window(2400), 0, 1200);
    // stale mark, then leave slow start with alpha at 15/16
    p.on_congestion_event(0, 0, false, 10);
    p.on_ack(1, 1, 100, false, 0);
    assert_eq!(p.window(), 2500);
    p.on_congestion_event(2, 2, false, 0);
    // 2500 * 15/16 = 2343 is below two datagrams
    assert_eq!(p.window(), 2400);
}

#[test]
fn minimum_window_holds_over_a_sequence() {
    let mut p = Prague::new(config_with_window(3000), 0, 1200);
    let mut t: u64 = 1;
    for i in 0..50u64 {
        match i % 5 {
            0 => p.on_ack(t, t, 700 * i, false, 0),
            1 => p.on_congestion_event(t, t - 1, i % 3 == 0, 1500),
            2 => p.on_mtu_update((1000 + 37 * i) as u16),
            3 => p.on_congestion_event(t, t - 5, false, 40000),
            _ => p.on_ack(t, t - 1, 3 * i, i % 4 == 0, 0),
        }
        assert!(p.window() >= 2 * p.current_mtu() as u64);
        t += 1;
    }
}

#[test]
fn marking_fraction_above_one_grows_window() {
    let mut p = fresh();
    p.on_congestion_event(101, 101, false, 0);
    assert_eq!(p.window(), 14720);
    assert_eq!(p.ssthresh(), 7360);
    p.on_congestion_event(101, 101, false, 100000);
    p.on_ack(102, 102, 15720, false, 0);
    assert_eq!(p.window(), 15920);
    assert_eq!(p.bytes_acked(), 1000);
    assert_eq!(p.bytes_marked(), 85280);
    assert_eq!(p.alpha(), 6571950);
    assert!(p.alpha() > ALPHA_ONE);
    // with alpha above one a reaction grows the window, and past two the
    // threshold floors at zero
    p.on_congestion_event(103, 103, false, 0);
    assert_eq!(p.window(), 99778);
    assert_eq!(p.ssthresh(), 0);
}

#[test]
fn slow_start_saturates_at_largest_window() {
    let mut p = Prague::new(config_with_window(MAX - 10), 0, 1200);
    p.on_ack(1, 1, 100, false, 0);
    assert_eq!(p.window(), MAX);
    assert_eq!(p.bytes_acked(), 0);
}

#[test]
fn metrics_report_window_and_threshold() {
    let mut p = fresh();
    p.on_ack(101, 101, 5000, false, 0);
    p.on_congestion_event(102, 101, false, 1000);
    assert_eq!(
        p.metrics(),
        ControllerMetrics { congestion_window: 19720, ssthresh: Some(9860), pacing_rate: None }
    );
}

#[test]
fn duplicate_is_independent() {
    let mut p = fresh();
    p.on_ack(101, 101, 5000, false, 0);
    let mut q = p.duplicate();
    assert_eq!(q.window(), 19720);
    assert_eq!(q.initial_window(), 14720);
    q.on_congestion_event(102, 101, true, 1000);
    assert_eq!(q.window(), 2400);
    assert_eq!(p.window(), 19720);
    assert_eq!(p.bytes_marked(), 0);
    p.on_mtu_update(1500);
    assert_eq!(q.current_mtu(), 1200);
}

fn drive<C: Controller>(c: &mut C) {
    c.on_ack(101, 101, 5000, false, 0);
    c.on_congestion_event(102, 101, false, 1000);
    c.on_mtu_update(1300);
}

#[test]
fn factory_builds_controller() {
    let mut c = PragueConfig::build(config_with_window(14720), 100, 1200);
    assert_eq!(Controller::initial_window(&c), 14720);
    drive(&mut c);
    assert_eq!(Controller::window(&c), 19720);
    assert_eq!(Controller::metrics(&c).ssthresh, Some(9860));
    let d = Controller::duplicate(&c);
    assert_eq!(d.current_mtu(), 1300);
}

#[test]
fn one_mtu_per_window_with_distinct_send_times() {
    let mut p = after_first_reaction();
    p.on_ack(110, 103, 4000, false, 0);
    p.on_ack(111, 107, 6000, false, 0);
    assert_eq!(p.window(), 14737);
    p.on_ack(112, 109, 4737, false, 0);
    assert_eq!(p.window(), 14737 + 1200);
    assert_eq!(p.bytes_acked(), 0);
    assert_eq!(p.ssthresh(), 7829);
}

#[test]
fn factory_result_matches_new() {
    let c = PragueConfig::build(config_with_window(14720), 100, 1200);
    assert_eq!(c.window(), 14720);
    assert_eq!(c.initial_window(), 14720);
    assert_eq!(c.recovery_start_time(), 100);
    assert_eq!(c.current_mtu(), 1200);
    assert_eq!(c.alpha(), ALPHA_ONE);
    assert_eq!(
        Controller::metrics(&c),
        ControllerMetrics { congestion_window: 14720, ssthresh: Some(MAX), pacing_rate: None }
    );
}
