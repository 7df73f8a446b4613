use sysmaster_core::limit::{RateLimit, StartLimit};

#[test]
fn test_ratelimit() {
    let mut tmp = RateLimit::new(0, 0);
    assert!(tmp.ratelimit_below());

    let mut tmp2 = RateLimit::new(3, 2);
    assert!(tmp2.ratelimit_below());
    assert!(tmp2.ratelimit_below());
    assert!(!tmp2.ratelimit_below());
}

#[test]
fn ratelimit_window_resets_after_interval() {
    let mut rl = RateLimit::new(3, 2);
    assert!(rl.ratelimit_below_at(100));
    assert!(rl.ratelimit_below_at(101));
    assert!(!rl.ratelimit_below_at(102));
    assert!(rl.ratelimit_below_at(104));
    assert_eq!(rl.nums, 1);
    assert_eq!(rl.begin, Some(104));
}

#[test]
fn ratelimit_disabled_admits_everything() {
    let mut rl = RateLimit::new(0, 5);
    assert!(!rl.ratelimit_enabled());
    for _ in 0..10 {
        assert!(rl.ratelimit_below_at(7));
    }
    let mut rl2 = RateLimit::new(5, 0);
    assert!(!rl2.ratelimit_enabled());
    assert!(rl2.ratelimit_below_at(7));
}

#[test]
fn ratelimit_init_from_config_keeps_window() {
    let mut rl = RateLimit::new(3, 2);
    assert!(rl.ratelimit_below_at(10));
    rl.init_from_config(60, 9);
    assert_eq!(rl.interval, 60);
    assert_eq!(rl.burst, 9);
    assert_eq!(rl.begin, Some(10));
    assert_eq!(rl.nums, 1);
}

#[test]
fn start_limit_hit_flag() {
    let mut sl = StartLimit::new();
    assert!(!sl.hit());
    sl.set_hit(true);
    assert!(sl.hit());
    sl.init_from_config(3, 2);
    assert!(sl.ratelimit_below_at(5));
    assert!(sl.ratelimit_below_at(5));
    assert!(!sl.ratelimit_below_at(5));
}
