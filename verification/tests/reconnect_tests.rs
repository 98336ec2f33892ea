use server_fn::reconnect::ReconnectConfig;

#[test]
fn default_policy_has_documented_values() {
    let config = ReconnectConfig::default();
    assert_eq!(config.base_delay_ms, 500);
    assert_eq!(config.max_delay_ms, 30_000);
    assert_eq!(config.jitter_permille, 300);
    assert_eq!(config.max_attempts, None);
    assert_eq!(ReconnectConfig::new(), config);
}

#[test]
fn builders_set_one_field_each() {
    let config = ReconnectConfig::new().base_delay(100).max_delay(5_000).jitter(250).max_attempts(7);
    assert_eq!(config.base_delay_ms, 100);
    assert_eq!(config.max_delay_ms, 5_000);
    assert_eq!(config.jitter_permille, 250);
    assert_eq!(config.max_attempts, Some(7));
}

#[test]
fn jitter_is_clamped_to_one_whole() {
    assert_eq!(ReconnectConfig::new().jitter(1_500).jitter_permille, 1_000);
    assert_eq!(ReconnectConfig::new().jitter(1_000).jitter_permille, 1_000);
    assert_eq!(ReconnectConfig::new().jitter(0).jitter_permille, 0);
}

#[test]
fn delay_doubles_until_the_cap() {
    let config = ReconnectConfig::default();
    assert_eq!(config.delay_for_attempt(0, 0), 500);
    assert_eq!(config.delay_for_attempt(1, 0), 1_000);
    assert_eq!(config.delay_for_attempt(2, 0), 2_000);
    assert_eq!(config.delay_for_attempt(5, 0), 16_000);
    assert_eq!(config.delay_for_attempt(6, 0), 30_000);
    assert_eq!(config.delay_for_attempt(20, 0), 30_000);
    assert_eq!(config.delay_for_attempt(u32::MAX, 0), 30_000);
}

#[test]
fn jitter_adds_a_share_of_the_capped_delay() {
    let config = ReconnectConfig::default();
    // half of the span: half of 30% of 500
    assert_eq!(config.delay_for_attempt(0, 1 << 31), 575);
    // the largest draw stays just below the whole share
    assert_eq!(config.delay_for_attempt(0, u32::MAX), 649);
    assert_eq!(config.delay_for_attempt(10, u32::MAX), 38_999);
    assert_eq!(config.jitter(1_000).delay_for_attempt(1, 1 << 31), 1_500);
}

#[test]
fn delay_stays_within_bounds_for_attempts_up_to_twenty() {
    let config = ReconnectConfig::default();
    for attempt in 0..=20u32 {
        for random in [0u32, 1, 12_345, 1 << 31, u32::MAX] {
            let delay = config.delay_for_attempt(attempt, random);
            assert!(delay >= config.base_delay_ms);
            assert!(delay as u64 * 1_000 <= config.max_delay_ms as u64 * 1_300);
        }
    }
}

#[test]
fn delay_never_shrinks_with_the_attempt_for_one_draw() {
    let config = ReconnectConfig::new().base_delay(3).max_delay(10_000).jitter(777);
    for random in [0u32, 99, 1 << 20, u32::MAX] {
        let mut last = 0;
        for attempt in 0..40u32 {
            let delay = config.delay_for_attempt(attempt, random);
            assert!(delay >= last);
            last = delay;
        }
    }
}

#[test]
fn zero_base_never_waits() {
    let config = ReconnectConfig::new().base_delay(0);
    assert_eq!(config.delay_for_attempt(0, u32::MAX), 0);
    assert_eq!(config.delay_for_attempt(2_000, u32::MAX), 0);
}

#[test]
fn delay_saturates_at_the_largest_value() {
    let config = ReconnectConfig::new().base_delay(u32::MAX).max_delay(u32::MAX).jitter(1_000);
    assert_eq!(config.delay_for_attempt(0, 0), u32::MAX);
    assert_eq!(config.delay_for_attempt(3, u32::MAX), u32::MAX);
}

#[test]
fn base_above_the_cap_is_capped() {
    let config = ReconnectConfig::new().base_delay(500).max_delay(100).jitter(0);
    assert_eq!(config.delay_for_attempt(0, 0), 100);
}
