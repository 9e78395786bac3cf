//! End-to-end tests of the blinker against the mock hardware boundary: the
//! system is initialized from fresh mock devices and driven by simulated
//! alarm expiries and interrupt deliveries.

use alarm_blink::device_cell::DeviceCell;
use alarm_blink::handler::ToggleHandler;
use alarm_blink::hardware::AlarmChannel;
use alarm_blink::hardware::DeviceHandle;
use alarm_blink::hardware::OutputPin;
use alarm_blink::system::BlinkSystem;
use alarm_blink::ALARM_INTERVAL_US;
use alarm_blink::DIVIDER_THRESHOLD;

/// Simulate one hardware firing: the armed deadline elapses and the
/// interrupt is delivered.
fn fire(sys: &mut BlinkSystem) {
    sys.alarm_expired();
    sys.on_alarm_firing();
}

/// Withdraw the handle, inspect it, and put it back.
fn inspect<R>(sys: &mut BlinkSystem, look: impl FnOnce(&DeviceHandle) -> R) -> R {
    let handle = sys.cell.withdraw().expect("cell should hold the devices");
    let r = look(&handle);
    sys.cell.restore(handle);
    r
}

#[test]
fn constants_match_design() {
    assert_eq!(ALARM_INTERVAL_US, 10_000);
    assert_eq!(DIVIDER_THRESHOLD, 9);
}

#[test]
fn startup_orders_install_before_unmask() {
    let mut sys = BlinkSystem::init(OutputPin::new(false), AlarmChannel::new());
    // By the time the interrupt line is unmasked, the devices are installed,
    // the first interval armed, and the notification enabled.
    assert!(sys.irq_unmasked);
    assert!(sys.cell.is_occupied());
    assert!(inspect(&mut sys, |h| h.alarm.interrupt_enabled));
    assert_eq!(inspect(&mut sys, |h| h.alarm.scheduled), Some(ALARM_INTERVAL_US));
    assert_eq!(inspect(&mut sys, |h| h.alarm.schedule_requests), 1);
    assert_eq!(sys.handler.count, 0);
}

#[test]
fn every_firing_rearms_exactly_once() {
    let mut sys = BlinkSystem::init(OutputPin::new(false), AlarmChannel::new());
    for n in 1..=25u64 {
        fire(&mut sys);
        // One request from startup, then exactly one per firing, regardless
        // of the divider counter's value.
        assert_eq!(inspect(&mut sys, |h| h.alarm.schedule_requests), 1 + n);
        assert_eq!(inspect(&mut sys, |h| h.alarm.scheduled), Some(ALARM_INTERVAL_US));
        assert!(!inspect(&mut sys, |h| h.alarm.pending));
    }
}

#[test]
fn divider_counts_ten_firings_per_toggle() {
    let mut sys = BlinkSystem::init(OutputPin::new(false), AlarmChannel::new());
    for n in 1..=35u64 {
        fire(&mut sys);
        assert_eq!(inspect(&mut sys, |h| h.pin.toggle_requests), n / 10);
        assert_eq!(u64::from(sys.handler.count), n % 10);
    }
}

#[test]
fn nine_firings_no_toggle_tenth_toggles() {
    let mut sys = BlinkSystem::init(OutputPin::new(false), AlarmChannel::new());
    for _ in 0..9 {
        fire(&mut sys);
    }
    assert_eq!(inspect(&mut sys, |h| h.pin.toggle_requests), 0);
    assert!(!inspect(&mut sys, |h| h.pin.level));
    assert_eq!(sys.handler.count, 9);
    fire(&mut sys);
    assert_eq!(inspect(&mut sys, |h| h.pin.toggle_requests), 1);
    assert!(inspect(&mut sys, |h| h.pin.level));
    assert_eq!(sys.handler.count, 0);
}

#[test]
fn hundred_firings_toggle_ten_times() {
    let mut sys = BlinkSystem::init(OutputPin::new(false), AlarmChannel::new());
    for _ in 0..100 {
        fire(&mut sys);
    }
    assert_eq!(inspect(&mut sys, |h| h.pin.toggle_requests), 10);
    assert_eq!(sys.handler.count, 0);
    // Ten toggles from a low start: the level is back at low.
    assert!(!inspect(&mut sys, |h| h.pin.level));
}

#[test]
fn handle_always_restored() {
    let mut sys = BlinkSystem::init(OutputPin::new(true), AlarmChannel::new());
    for _ in 0..17 {
        fire(&mut sys);
        assert!(sys.cell.is_occupied());
    }
}

#[test]
fn second_withdraw_finds_nothing() {
    let mut cell = DeviceCell::empty();
    cell.install(DeviceHandle { pin: OutputPin::new(false), alarm: AlarmChannel::new() });
    // A second withdrawal — a forced re-entrant claim — can never succeed
    // while the first holds the handle.
    let first = cell.withdraw();
    let second = cell.withdraw();
    assert!(first.is_some());
    assert!(second.is_none());
    assert!(!cell.is_occupied());
}

#[test]
fn install_into_occupied_cell_is_a_noop() {
    let mut cell = DeviceCell::empty();
    cell.install(DeviceHandle { pin: OutputPin::new(true), alarm: AlarmChannel::new() });
    cell.install(DeviceHandle { pin: OutputPin::new(false), alarm: AlarmChannel::new() });
    let handle = cell.withdraw().expect("cell should hold the first handle");
    assert!(handle.pin.level);
}

#[test]
fn service_with_empty_cell_is_a_noop() {
    let mut cell = DeviceCell::empty();
    let mut handler = ToggleHandler::new();
    handler.service(&mut cell);
    assert_eq!(handler.count, 0);
    assert!(!cell.is_occupied());
}

#[test]
fn expiry_latches_and_servicing_clears() {
    let mut sys = BlinkSystem::init(OutputPin::new(false), AlarmChannel::new());
    sys.alarm_expired();
    assert!(inspect(&mut sys, |h| h.alarm.pending));
    assert_eq!(inspect(&mut sys, |h| h.alarm.scheduled), None);
    sys.on_alarm_firing();
    assert!(!inspect(&mut sys, |h| h.alarm.pending));
    assert_eq!(inspect(&mut sys, |h| h.alarm.scheduled), Some(ALARM_INTERVAL_US));
}

#[test]
fn rejected_schedule_still_completes_servicing() {
    // The alarm rejects every schedule request: the system starts degraded
    // (never armed) and every servicing still runs to completion.
    let mut sys = BlinkSystem::init(OutputPin::new(false), AlarmChannel::failing());
    assert_eq!(inspect(&mut sys, |h| h.alarm.scheduled), None);
    assert_eq!(inspect(&mut sys, |h| h.alarm.schedule_requests), 1);
    for n in 1..=12u64 {
        fire(&mut sys);
        assert!(sys.cell.is_occupied());
        assert!(!inspect(&mut sys, |h| h.alarm.pending));
        assert_eq!(inspect(&mut sys, |h| h.alarm.schedule_requests), 1 + n);
        assert_eq!(u64::from(sys.handler.count), n % 10);
        assert_eq!(inspect(&mut sys, |h| h.pin.toggle_requests), n / 10);
    }
}

#[test]
fn failed_toggle_is_discarded() {
    let mut sys = BlinkSystem::init(OutputPin::failing(false), AlarmChannel::new());
    for _ in 0..10 {
        fire(&mut sys);
    }
    // The toggle was requested once and rejected: the level never changed
    // and the system kept running.
    assert_eq!(inspect(&mut sys, |h| h.pin.toggle_requests), 1);
    assert!(!inspect(&mut sys, |h| h.pin.level));
    assert_eq!(sys.handler.count, 0);
    assert!(sys.cell.is_occupied());
}

#[test]
fn schedule_replaces_armed_interval() {
    let mut alarm = AlarmChannel::new();
    assert!(alarm.schedule(5_000).is_ok());
    assert!(alarm.schedule(7_000).is_ok());
    assert_eq!(alarm.scheduled, Some(7_000));
    assert_eq!(alarm.schedule_requests, 2);
}

#[test]
fn failing_alarm_reports_the_rejection() {
    let mut alarm = AlarmChannel::failing();
    assert!(alarm.schedule(5_000).is_err());
    assert_eq!(alarm.scheduled, None);
}

#[test]
fn failing_pin_reports_the_rejection() {
    let mut pin = OutputPin::failing(true);
    assert!(pin.toggle().is_err());
    assert!(pin.level);
    let mut ok_pin = OutputPin::new(true);
    assert!(ok_pin.toggle().is_ok());
    assert!(!ok_pin.level);
}

#[test]
fn expiry_without_armed_schedule_changes_nothing() {
    let mut alarm = AlarmChannel::new();
    alarm.expire();
    assert!(!alarm.pending);
    assert_eq!(alarm.scheduled, None);
}
