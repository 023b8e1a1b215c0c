use pine_indicator::{
    coalesce, crossover, crossunder, ConfigError, Observation, Phase, PineIndicator, RollingBuffer,
    Signal,
};
use pine_indicator::signal::classify;

fn bar(close: i64) -> Observation {
    Observation { close, high: close + 1, low: close - 1 }
}

#[test]
fn test_initialization() {
    let indicator = PineIndicator::new(14).unwrap();
    assert!(!indicator.initialized());
    assert_eq!(indicator.value(), 0);
}

// Prices are fixed-point with one decimal: 10 stands for 1.0.
#[test]
fn test_crossover() {
    assert!(crossover(10, 5, 4, 5));
    assert!(!crossover(4, 5, 4, 5));
}

// `None` stands for a sample that is not a number.
#[test]
fn test_nz() {
    assert_eq!(coalesce(None, 0), 0);
    assert_eq!(coalesce(Some(5), 0), 5);
}

#[test]
fn fresh_instance_is_empty() {
    for period in [1usize, 2, 3, 14, 200] {
        let ind = PineIndicator::new(period).unwrap();
        assert!(!ind.has_inputs());
        assert!(!ind.initialized());
        assert_eq!(ind.value(), 0);
        assert_eq!(ind.prev_value(), 0);
        assert_eq!(ind.signal(), Signal::Neutral);
        assert!(ind.closes().is_empty());
        assert_eq!(ind.period(), period);
    }
}

#[test]
fn zero_period_is_rejected() {
    assert!(matches!(PineIndicator::new(0), Err(ConfigError::ZeroPeriod)));
    assert!(matches!(RollingBuffer::<i64>::new(0), Err(ConfigError::ZeroPeriod)));
}

#[test]
fn warm_up_keeps_uninitialized() {
    let mut ind = PineIndicator::new(5).unwrap();
    for i in 0..4 {
        ind.update(bar(100 + i));
        assert!(ind.has_inputs());
        assert!(!ind.initialized());
        assert_eq!(ind.value(), 0);
        assert_eq!(ind.signal(), Signal::Neutral);
    }
}

#[test]
fn windows_stay_bounded() {
    let mut ind = PineIndicator::new(4).unwrap();
    for i in 0..100 {
        ind.update(bar(i));
        if i >= 3 {
            assert!(ind.initialized());
            assert_eq!(ind.closes().len(), 4);
            assert_eq!(ind.highs().len(), 4);
            assert_eq!(ind.lows().len(), 4);
        }
    }
    assert_eq!(ind.closes(), vec![96, 97, 98, 99]);
    assert_eq!(ind.highs(), vec![97, 98, 99, 100]);
    assert_eq!(ind.lows(), vec![95, 96, 97, 98]);
}

#[test]
fn reset_restores_fresh_state() {
    let mut ind = PineIndicator::new(3).unwrap();
    for c in [50, 80, 90, 95, 99] {
        ind.update(bar(c));
    }
    assert!(ind.initialized());
    ind.reset();
    let fresh = PineIndicator::new(3).unwrap();
    assert_eq!(ind.has_inputs(), fresh.has_inputs());
    assert_eq!(ind.initialized(), fresh.initialized());
    assert_eq!(ind.value(), fresh.value());
    assert_eq!(ind.prev_value(), fresh.prev_value());
    assert_eq!(ind.signal(), fresh.signal());
    assert_eq!(ind.closes(), fresh.closes());
    assert_eq!(ind.highs(), fresh.highs());
    assert_eq!(ind.lows(), fresh.lows());
    assert_eq!(ind.period(), 3);
    ind.reset();
    assert!(!ind.has_inputs());
    assert_eq!(ind.value(), 0);
}

#[test]
fn crossings_are_exclusive() {
    let vals = [-2i64, 0, 1, 5];
    for a in vals {
        for b in vals {
            for pa in vals {
                for pb in vals {
                    assert!(!(crossover(a, b, pa, pb) && crossunder(a, b, pa, pb)));
                }
            }
        }
    }
    assert!(crossover(10, 5, 4, 5));
    assert!(!crossover(4, 5, 4, 5));
}

#[test]
fn crossunder_needs_strict_drop() {
    assert!(crossunder(4, 5, 6, 5));
    assert!(crossunder(4, 5, 5, 5));
    assert!(!crossunder(5, 5, 6, 5));
    assert!(!crossunder(4, 5, 4, 5));
}

#[test]
fn coalesce_keeps_present_values() {
    assert_eq!(coalesce(None, 7), 7);
    assert_eq!(coalesce(Some(-3), 7), -3);
    assert_eq!(coalesce(Some(0), 7), 0);
}

#[test]
fn window_evicts_oldest() {
    let mut ind = PineIndicator::new(3).unwrap();
    ind.update(bar(1));
    ind.update(bar(2));
    ind.update(bar(3));
    assert!(ind.initialized());
    assert_eq!(ind.closes(), vec![1, 2, 3]);
    assert_eq!(ind.value(), 2);
    ind.update(bar(4));
    assert_eq!(ind.closes(), vec![2, 3, 4]);
    assert_eq!(ind.value(), 3);
}

#[test]
fn prev_value_skips_warm_up() {
    let mut ind = PineIndicator::new(2).unwrap();
    ind.update(bar(40));
    assert_eq!(ind.prev_value(), 0);
    ind.update(bar(60));
    assert_eq!(ind.value(), 50);
    assert_eq!(ind.prev_value(), 0);
    ind.update(bar(80));
    assert_eq!(ind.value(), 70);
    assert_eq!(ind.prev_value(), 50);
    ind.update(bar(100));
    assert_eq!(ind.value(), 90);
    assert_eq!(ind.prev_value(), 70);
}

#[test]
fn mean_rounds_toward_negative_infinity() {
    let mut ind = PineIndicator::new(2).unwrap();
    ind.update(bar(-1));
    ind.update(bar(-2));
    assert_eq!(ind.value(), -2);
    ind.update(bar(4));
    assert_eq!(ind.value(), 1);
}

#[test]
fn mean_of_extreme_prices() {
    let mut ind = PineIndicator::new(2).unwrap();
    ind.update(Observation { close: i64::MAX, high: i64::MAX, low: i64::MAX });
    ind.update(Observation { close: i64::MAX, high: i64::MAX, low: i64::MAX });
    assert_eq!(ind.value(), i64::MAX);
    ind.update(Observation { close: i64::MIN, high: i64::MIN, low: i64::MIN });
    assert_eq!(ind.value(), -1);
}

#[test]
fn signal_follows_thresholds() {
    assert_eq!(classify(71), Signal::Sell);
    assert_eq!(classify(70), Signal::Neutral);
    assert_eq!(classify(30), Signal::Neutral);
    assert_eq!(classify(29), Signal::Buy);
    let mut ind = PineIndicator::new(1).unwrap();
    ind.update(bar(90));
    assert_eq!(ind.signal(), Signal::Sell);
    ind.update(bar(10));
    assert_eq!(ind.signal(), Signal::Buy);
    ind.update(bar(50));
    assert_eq!(ind.signal(), Signal::Neutral);
}

#[test]
fn signal_default_and_order() {
    assert_eq!(Signal::default(), Signal::Neutral);
    let order = [Signal::StrongSell, Signal::Sell, Signal::Neutral, Signal::Buy, Signal::StrongBuy];
    for (i, s) in order.iter().enumerate() {
        assert_eq!(s.strength() as i64, i as i64 - 2);
    }
}

#[test]
fn name_encodes_period() {
    assert_eq!(PineIndicator::new(14).unwrap().name(), "PineIndicator(14)");
    assert_eq!(PineIndicator::new(1).unwrap().name(), "PineIndicator(1)");
}

#[test]
fn rolling_buffer_push_and_sum() {
    let mut buf = RollingBuffer::<i64>::new(3).unwrap();
    assert_eq!(buf.capacity(), 3);
    assert_eq!(buf.len(), 0);
    buf.push(5);
    buf.push(-2);
    assert!(!buf.is_full());
    buf.push(10);
    assert!(buf.is_full());
    assert_eq!(buf.sum(), 13);
    buf.push(1);
    assert_eq!(buf.to_vec(), vec![-2, 10, 1]);
    assert_eq!(buf.get(0), -2);
    assert_eq!(buf.sum(), 9);
    buf.clear();
    assert_eq!(buf.len(), 0);
    assert_eq!(buf.sum(), 0);
}

#[test]
fn phases_follow_the_state_machine() {
    let mut ind = PineIndicator::new(2).unwrap();
    assert_eq!(ind.phase(), Phase::Empty);
    ind.update(bar(1));
    assert_eq!(ind.phase(), Phase::WarmingUp);
    ind.update(bar(2));
    assert_eq!(ind.phase(), Phase::Ready);
    ind.update(bar(3));
    assert_eq!(ind.phase(), Phase::Ready);
    ind.reset();
    assert_eq!(ind.phase(), Phase::Empty);
}
