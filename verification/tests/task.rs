use mouse_core::hid::{HIDClass, UsbError};
use mouse_core::pmw3360::{Pmw3360, SensorModel};
use mouse_core::task::{
    build_report, ceiling_priority, handle_write_result, next_deadline, read_loop,
    truncate_delta, Step,
};
use mouse_core::timing::ClockConfig;

#[test]
fn deadline_is_now_plus_period() {
    assert_eq!(next_deadline(0, 8000), 8000);
    assert_eq!(next_deadline(100, 8000), 8100);
    // Independent of how long processing took: only the observed tick counts.
    assert_eq!(next_deadline(123_456, 8000), 131_456);
}

#[test]
fn deadline_wraps_with_the_tick_counter() {
    assert_eq!(next_deadline(u32::MAX, 1), 0);
    assert_eq!(next_deadline(u32::MAX - 10, 8000), 7989);
}

#[test]
fn report_serialization_truncates_deltas() {
    assert_eq!(build_report(0, -1, 1), vec![0x00, 0xff, 0x01]);
    assert_eq!(build_report(0, 300, -300), vec![0x00, 44, 212]);
    assert_eq!(build_report(0, 127, -127), vec![0x00, 0x7f, 0x81]);
    assert_eq!(truncate_delta(-32768), 0x00);
    assert_eq!(truncate_delta(32767), 0xff);
}

#[test]
fn report_buttons_keep_only_three_bits() {
    assert_eq!(build_report(0xff, 0, 0)[0], 0x07);
    assert_eq!(build_report(0x05, 0, 0)[0], 0x05);
}

#[test]
fn would_block_is_dropped_not_fatal() {
    assert_eq!(handle_write_result(&Err(UsbError::WouldBlock)), Step::Continue);
    assert_eq!(handle_write_result(&Ok(3)), Step::Continue);
}

#[test]
fn overflow_and_unspecified_errors_are_fatal() {
    assert_eq!(handle_write_result(&Err(UsbError::BufferOverflow)), Step::Fatal);
    assert_eq!(handle_write_result(&Err(UsbError::Unspecified)), Step::Fatal);
}

#[test]
fn firing_rearms_samples_and_writes() {
    let mut bus = SensorModel::new();
    let mut pmw = Pmw3360::new();
    let mut hid = HIDClass::new(0);
    pmw.power_up(&mut bus);
    bus.reads.clear();
    bus.set_register(0x02, 0x80);
    bus.set_register(0x03, 0xfe); // dx = -2
    bus.set_register(0x04, 0xff);
    let (deadline, step) = read_loop(&mut pmw, &mut bus, &mut hid, 1000, 8000);
    assert_eq!(deadline, 9000);
    assert_eq!(step, Step::Continue);
    assert!(hid.report_ep.busy); // the report went out
    assert_eq!(hid.report_ep.in_flight, vec![0x00, 0xfe, 0x00]);
    assert_eq!(bus.reads, vec![0x02, 0x03, 0x04, 0x05, 0x06]);
}

#[test]
fn would_block_report_is_lost_until_next_firing() {
    let mut bus = SensorModel::new();
    let mut pmw = Pmw3360::new();
    let mut hid = HIDClass::new(0);
    bus.set_register(0x02, 0x80);
    bus.set_register(0x05, 0x01); // dy = 1
    let (d1, s1) = read_loop(&mut pmw, &mut bus, &mut hid, 0, 8000);
    assert_eq!((d1, s1), (8000, Step::Continue));
    // The endpoint is still draining at the next firing: the report is
    // dropped there, with no retry and no escalation.
    bus.set_register(0x02, 0x80);
    let (d2, s2) = read_loop(&mut pmw, &mut bus, &mut hid, 8000, 8000);
    assert_eq!((d2, s2), (16000, Step::Continue));
    assert!(hid.report_ep.busy);
    // After the host collects the report, the next firing writes again.
    hid.report_ep.complete();
    bus.set_register(0x02, 0x80);
    let (d3, s3) = read_loop(&mut pmw, &mut bus, &mut hid, 16000, 8000);
    assert_eq!((d3, s3), (24000, Step::Continue));
    assert!(hid.report_ep.busy);
}

#[test]
fn ceiling_lock_raises_to_the_ceiling() {
    assert_eq!(ceiling_priority(1, 2), 2);
    assert_eq!(ceiling_priority(2, 2), 2);
    assert_eq!(ceiling_priority(3, 2), 3);
}

#[test]
fn timing_scales_with_the_clock() {
    let clock = ClockConfig::new(8);
    assert_eq!(clock.cycles_160us(), 1280);
    assert_eq!(clock.cycles_50ms(), 400_000);
    assert_eq!(clock.read_period(), 8000);
    let faster = ClockConfig::new(48);
    assert_eq!(faster.cycles_160us(), 7680);
    assert_eq!(faster.read_period(), 48_000);
}
