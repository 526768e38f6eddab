use supreme_server::battery::battery_stats_from_registers;
use supreme_server::battery::BatteryMonitor;
use supreme_server::battery::millivolts_from_registers;
use supreme_server::battery::shutdown_sequence;
use supreme_server::battery::soc_percent_from_registers;
use supreme_server::battery::BatteryReading;
use supreme_server::battery::BatteryStats;
use supreme_server::battery::SequencerStep;
use supreme_server::battery::SHUTDOWN_MILLIVOLTS;
use supreme_server::indicator::low_battery_pattern;
use supreme_server::indicator::off_pattern;

#[test]
fn soc_register_scales_by_one_over_256_rounded_and_clamped() {
    // raw 12800 = 50 * 256: exactly 50 percent
    assert_eq!(soc_percent_from_registers(0x32, 0x00), 50);
    // raw 12928 = 50.5 * 256: rounds half up to 51
    assert_eq!(soc_percent_from_registers(0x32, 0x80), 51);
    // raw 12927: just below half, rounds down to 50
    assert_eq!(soc_percent_from_registers(0x32, 0x7F), 50);
    assert_eq!(soc_percent_from_registers(0x00, 0x00), 0);
    // raw 25600 = 100 * 256: exactly full
    assert_eq!(soc_percent_from_registers(0x64, 0x00), 100);
    // raw 25728 = 100.5 * 256 would round to 101: clamped to 100
    assert_eq!(soc_percent_from_registers(0x64, 0x80), 100);
    // a gauge reporting past full never leaves the 0..100 range
    assert_eq!(soc_percent_from_registers(0xFF, 0xFF), 100);
}

#[test]
fn vcell_register_scales_by_78125_nanovolts_rounded_to_millivolts() {
    // raw 43520 * 78.125 uV = 3400.0 mV exactly
    assert_eq!(millivolts_from_registers(0xAA, 0x00), 3400);
    // raw 51200 * 78.125 uV = 4000.0 mV exactly
    assert_eq!(millivolts_from_registers(0xC8, 0x00), 4000);
    // raw 43526 * 78.125 uV = 3400.46875 mV: rounds down
    assert_eq!(millivolts_from_registers(0xAA, 0x06), 3400);
    // raw 43527 * 78.125 uV = 3400.546875 mV: rounds up
    assert_eq!(millivolts_from_registers(0xAA, 0x07), 3401);
    assert_eq!(millivolts_from_registers(0x00, 0x00), 0);
}

#[test]
fn stats_combine_both_registers() {
    let stats = battery_stats_from_registers(0x32, 0x00, 0xC8, 0x00);
    assert_eq!(stats.state_of_charge_percent, 50);
    assert_eq!(stats.cell_millivolts, 4000);
}

#[test]
fn startup_reading_is_invalid_sentinel() {
    let reading = BatteryReading::startup();
    assert_eq!(reading.state_of_charge_percent, 100);
    assert_eq!(reading.cell_millivolts, 4000);
    assert!(!reading.valid);
}

#[test]
fn successful_poll_overwrites_and_validates() {
    let mut reading = BatteryReading::startup();
    reading.apply_poll(Some(BatteryStats { state_of_charge_percent: 72, cell_millivolts: 3900 }));
    assert_eq!(reading.state_of_charge_percent, 72);
    assert_eq!(reading.cell_millivolts, 3900);
    assert!(reading.valid);
}

#[test]
fn failed_poll_keeps_values_and_clears_validity() {
    let mut reading = BatteryReading::startup();
    reading.apply_poll(Some(BatteryStats { state_of_charge_percent: 72, cell_millivolts: 3900 }));
    reading.apply_poll(None);
    assert_eq!(reading.state_of_charge_percent, 72);
    assert_eq!(reading.cell_millivolts, 3900);
    assert!(!reading.valid);
    // a later success validates again
    reading.apply_poll(Some(BatteryStats { state_of_charge_percent: 71, cell_millivolts: 3890 }));
    assert!(reading.valid);
    assert_eq!(reading.state_of_charge_percent, 71);
}

#[test]
fn shutdown_fires_only_on_a_successful_low_reading() {
    assert_eq!(SHUTDOWN_MILLIVOLTS, 3400);
    let mut reading = BatteryReading::startup();
    // sentinel is invalid: no shutdown even though unknown
    assert!(!reading.should_shutdown());
    reading.apply_poll(Some(BatteryStats { state_of_charge_percent: 40, cell_millivolts: 3401 }));
    assert!(!reading.should_shutdown());
    reading.apply_poll(Some(BatteryStats { state_of_charge_percent: 40, cell_millivolts: 3400 }));
    assert!(reading.should_shutdown());
    reading.apply_poll(Some(BatteryStats { state_of_charge_percent: 5, cell_millivolts: 3100 }));
    assert!(reading.should_shutdown());
    // a failed read never triggers, whatever the last known voltage
    reading.apply_poll(None);
    assert!(!reading.should_shutdown());
}

#[test]
fn shutdown_sequence_holds_its_safety_order() {
    let steps = shutdown_sequence();
    assert_eq!(steps.len(), 5);
    assert_eq!(steps[0], SequencerStep::ShowPattern(off_pattern()));
    assert_eq!(steps[1], SequencerStep::ShowPattern(low_battery_pattern()));
    assert_eq!(steps[2], SequencerStep::Hold { milliseconds: 3000 });
    assert_eq!(steps[3], SequencerStep::ShowPattern(off_pattern()));
    assert_eq!(steps[4], SequencerStep::RequestPowerOff);
}

#[test]
fn monitor_cycle_hands_out_the_sequence_exactly_on_trigger() {
    let mut monitor = BatteryMonitor::startup();
    let calm = monitor.cycle(Some(BatteryStats {
        state_of_charge_percent: 80,
        cell_millivolts: 3900,
    }));
    assert!(calm.is_none());
    let triggered = monitor.cycle(Some(BatteryStats {
        state_of_charge_percent: 10,
        cell_millivolts: 3350,
    }));
    let steps = triggered.unwrap();
    assert_eq!(steps.len(), 5);
    assert_eq!(steps[4], SequencerStep::RequestPowerOff);
    // a failed poll right after: values stale, no trigger
    let after_failure = monitor.cycle(None);
    assert!(after_failure.is_none());
    assert_eq!(monitor.reading.cell_millivolts, 3350);
}

#[test]
fn sustained_low_reading_acts_exactly_once() {
    let mut monitor = BatteryMonitor::startup();
    let low = BatteryStats { state_of_charge_percent: 10, cell_millivolts: 3300 };
    assert!(monitor.cycle(Some(low)).is_some());
    // the same sustained low reading never hands the sequence out again
    assert!(monitor.cycle(Some(low)).is_none());
    assert!(monitor.cycle(Some(low)).is_none());
    assert!(monitor.shutdown_requested);
}
