use philosophers::timing::{eat_millis, think_millis, wait_millis};

#[test]
fn think_scaling_exact_values() {
    assert_eq!(think_millis(0), 0);
    assert_eq!(think_millis(126), 0);
    assert_eq!(think_millis(127), 1);
    assert_eq!(think_millis(130), 1);
    assert_eq!(think_millis(253), 1);
    assert_eq!(think_millis(254), 2);
    assert_eq!(think_millis(255), 2);
}

#[test]
fn eat_scaling_matches_think_scaling() {
    assert_eq!(eat_millis(0), 0);
    assert_eq!(eat_millis(127), 1);
    assert_eq!(eat_millis(255), 2);
}

#[test]
fn wait_scaling_exact_values() {
    assert_eq!(wait_millis(0), 0);
    assert_eq!(wait_millis(6), 0);
    assert_eq!(wait_millis(7), 1);
    assert_eq!(wait_millis(8), 1);
    assert_eq!(wait_millis(70), 10);
    assert_eq!(wait_millis(255), 36);
}

#[test]
fn scaling_keeps_only_the_low_byte() {
    assert_eq!(think_millis(256), 0);
    assert_eq!(think_millis(0xFFFF_FF00), 0);
    assert_eq!(think_millis(0xFFFF_FF82), 1);
    assert_eq!(think_millis(0xFFFF_FFFF), 2);
    assert_eq!(wait_millis(0xFFFF_FFFF), 36);
    assert_eq!(wait_millis(0x0000_0107), 1);
}

#[test]
fn scaled_durations_stay_in_their_ranges() {
    let mut x: u32 = 0x1234_5678;
    let mut i = 0;
    while i < 1000 {
        x ^= x << 13;
        x ^= x >> 17;
        x ^= x << 5;
        assert!(think_millis(x) <= 2);
        assert!(eat_millis(x) <= 2);
        assert!(wait_millis(x) <= 36);
        i += 1;
    }
}
