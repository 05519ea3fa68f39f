use bms_sim::mode::HysteresisModeSelector;
use bms_sim::schedule::{plan_tick, DebugLog, SimulationClock, COOLING_THRESHOLD_CENTI_C};

#[test]
fn clock_finishes_at_duration() {
    // 60 s of 0.5 s ticks
    let mut c = SimulationClock::new(120);
    for _ in 0..119 {
        assert!(!c.advance());
    }
    assert_eq!(c.elapsed_ticks(), 119);
    assert!(c.advance());
    assert_eq!(c.elapsed_ticks(), 120);
    assert_eq!(c.duration_ticks(), 120);
    assert!(c.advance());
}

#[test]
fn clock_with_zero_duration_finishes_at_once() {
    let mut c = SimulationClock::new(0);
    assert!(c.advance());
}

#[test]
fn debug_log_keeps_most_recent_lines() {
    let mut log = DebugLog::new(3);
    for i in 0..5 {
        log.push(format!("line {}", i));
    }
    assert_eq!(log.len(), 3);
    assert_eq!(log.lines(), &vec!["line 2".to_string(), "line 3".to_string(), "line 4".to_string()]);
}

#[test]
fn debug_log_below_capacity_keeps_all() {
    let mut log = DebugLog::new(120);
    log.push("a".to_string());
    log.push("b".to_string());
    assert_eq!(log.lines(), &vec!["a".to_string(), "b".to_string()]);
}

#[test]
fn debug_log_with_zero_capacity_stays_empty() {
    let mut log = DebugLog::new(0);
    log.push("a".to_string());
    assert_eq!(log.len(), 0);
}

#[test]
fn plan_tick_sets_cooling_strictly_above_threshold() {
    let mut s = HysteresisModeSelector::new(6500, 7500).unwrap();
    assert_eq!(COOLING_THRESHOLD_CENTI_C, 4400);
    assert!(plan_tick(&mut s, 10000, 4401).cooling_active);
    assert!(!plan_tick(&mut s, 10000, 4400).cooling_active);
    assert!(!plan_tick(&mut s, 10000, 2000).cooling_active);
}

#[test]
fn plan_tick_follows_selector() {
    let mut s = HysteresisModeSelector::new(6500, 7500).unwrap();
    let p = plan_tick(&mut s, 6000, 4500);
    assert!(p.charging_mode);
    assert!(p.cooling_active);
    assert!(s.is_charging());
    let p = plan_tick(&mut s, 7000, 4500);
    assert!(p.charging_mode);
    let p = plan_tick(&mut s, 7600, 3000);
    assert!(!p.charging_mode);
    assert!(!p.cooling_active);
    assert!(!s.is_charging());
}
