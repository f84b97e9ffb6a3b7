use fan_control::policy::temp_to_duty_cycle;

#[test]
fn fan_off_below_fifty_degrees() {
    assert_eq!(temp_to_duty_cycle(49999), 0);
    assert_eq!(temp_to_duty_cycle(0), 0);
    assert_eq!(temp_to_duty_cycle(-40000), 0);
    assert_eq!(temp_to_duty_cycle(i64::MIN), 0);
}

#[test]
fn breakpoints_take_the_higher_tier() {
    assert_eq!(temp_to_duty_cycle(50000), 20);
    assert_eq!(temp_to_duty_cycle(55000), 50);
    assert_eq!(temp_to_duty_cycle(63000), 70);
    assert_eq!(temp_to_duty_cycle(70000), 100);
}

#[test]
fn just_below_full_speed() {
    assert_eq!(temp_to_duty_cycle(69999), 70);
    assert_eq!(temp_to_duty_cycle(70000), 100);
}

#[test]
fn tiers_between_breakpoints() {
    assert_eq!(temp_to_duty_cycle(52500), 20);
    assert_eq!(temp_to_duty_cycle(54999), 20);
    assert_eq!(temp_to_duty_cycle(60000), 50);
    assert_eq!(temp_to_duty_cycle(62999), 50);
    assert_eq!(temp_to_duty_cycle(65000), 70);
}

#[test]
fn duty_never_decreases_and_stays_in_range() {
    let samples: Vec<i64> = vec![
        i64::MIN, -1_000_000, -1, 0, 45000, 49999, 50000, 54999, 55000, 62999, 63000, 69999,
        70000, 100000, 250000, i64::MAX,
    ];
    let mut last: u8 = 0;
    for t in samples {
        let p = temp_to_duty_cycle(t);
        assert!(p <= 100);
        assert!([0u8, 20, 50, 70, 100].contains(&p));
        assert!(p >= last);
        last = p;
    }
}
