use rlimit_pool::limits::{
    capacity_from_probe, choose_ceiling, effective_capacity, DescriptorLimitPair,
    FALLBACK_MINIMUM, QUERY_FAILURE_CEILING, RESERVED_MARGIN,
};

#[test]
fn query_failure_uses_conservative_ceiling() {
    assert_eq!(choose_ceiling(None, false), QUERY_FAILURE_CEILING);
    assert_eq!(choose_ceiling(None, true), QUERY_FAILURE_CEILING);
    assert_eq!(capacity_from_probe(None, false), 195);
}

#[test]
fn query_failure_capacity_at_least_minimum() {
    assert!(capacity_from_probe(None, false) >= FALLBACK_MINIMUM);
    assert!(capacity_from_probe(None, true) >= FALLBACK_MINIMUM);
}

#[test]
fn restricted_system_capacity_at_least_minimum() {
    let tight = DescriptorLimitPair { soft: 8, hard: 8 };
    assert_eq!(capacity_from_probe(Some(tight), false), FALLBACK_MINIMUM);
    let zero = DescriptorLimitPair { soft: 0, hard: 0 };
    assert_eq!(capacity_from_probe(Some(zero), false), FALLBACK_MINIMUM);
}

#[test]
fn hard_at_soft_is_a_no_op_raise() {
    let pair = DescriptorLimitPair { soft: 1000, hard: 1000 };
    assert!(!pair.should_raise());
    assert_eq!(choose_ceiling(Some(pair), true), 1000);
    assert_eq!(choose_ceiling(Some(pair), false), 1000);
    assert_eq!(capacity_from_probe(Some(pair), true), 995);
    assert_eq!(capacity_from_probe(Some(pair), false), 995);
}

#[test]
fn hard_below_soft_uses_soft() {
    let pair = DescriptorLimitPair { soft: 500, hard: 100 };
    assert!(!pair.should_raise());
    assert_eq!(choose_ceiling(Some(pair), true), 500);
    assert_eq!(capacity_from_probe(Some(pair), false), 495);
}

#[test]
fn raise_success_uses_hard() {
    let pair = DescriptorLimitPair { soft: 100, hard: 4096 };
    assert!(pair.should_raise());
    assert_eq!(choose_ceiling(Some(pair), true), 4096);
    assert_eq!(capacity_from_probe(Some(pair), true), 4091);
}

#[test]
fn raise_failure_keeps_previous_soft() {
    let pair = DescriptorLimitPair { soft: 100, hard: 4096 };
    assert_eq!(choose_ceiling(Some(pair), false), 100);
    assert_eq!(capacity_from_probe(Some(pair), false), 95);
}

#[test]
fn capacity_floor_boundaries() {
    assert_eq!(effective_capacity(0), FALLBACK_MINIMUM);
    assert_eq!(effective_capacity(FALLBACK_MINIMUM), FALLBACK_MINIMUM);
    assert_eq!(
        effective_capacity(FALLBACK_MINIMUM + RESERVED_MARGIN),
        FALLBACK_MINIMUM
    );
    assert_eq!(
        effective_capacity(FALLBACK_MINIMUM + RESERVED_MARGIN + 1),
        FALLBACK_MINIMUM + 1
    );
    assert_eq!(effective_capacity(QUERY_FAILURE_CEILING), 195);
}
