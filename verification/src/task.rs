//! Scheduling decisions of the periodic sample-and-report task: deadline
//! re-arming, report serialization, the classification of report-write
//! outcomes into dropped and fatal ones, and the priority-ceiling rule for
//! the shared resources.

use vstd::prelude::*;
use vstd::arithmetic::div_mod::lemma_mod_multiples_vanish;
use crate::hid::{HIDClass, UsbError};
use crate::pmw3360::{i16_from_le, Pmw3360, SensorModel};

verus! {

/// What the periodic task does after a report-write attempt: carry on to
/// the next firing, or abort so the supervisor resets the device.
#[derive(Clone, Copy, PartialEq, Eq, Structural, Debug)]
pub enum Step {
    Continue,
    Fatal,
}

/// The next deadline after a firing observed at tick `now`: always
/// `now + period` in the tick counter's wrapping arithmetic, independent
/// of how long the firing's processing takes. Jitter therefore
/// accumulates without correction; that is a design property, not a bug.
pub fn next_deadline(now: u32, period: u32) -> (d: u32)
    ensures
        now + period <= u32::MAX ==> d == now + period,
        now + period > u32::MAX ==> d == now + period - 0x1_0000_0000,
{
    now.wrapping_add(period)
}

/// The low byte of a signed 16-bit delta: its value modulo 256, the
/// two's-complement truncation the report format calls for. Overflow
/// beyond what 8 bits hold wraps silently.
pub open spec fn low_byte(x: i16) -> int {
    (x as int) % 256
}

/// Serializes one report: byte 0 carries the button bitmap (bits 0 to 2;
/// the rest are reserved and stay zero), bytes 1 and 2 the horizontal and
/// vertical deltas truncated to signed 8 bits.
pub fn build_report(buttons: u8, dx: i16, dy: i16) -> (r: Vec<u8>)
    ensures
        r@.len() == 3,
        r@[0] == buttons & 0x07,
        r@[1] as int == low_byte(dx),
        r@[2] as int == low_byte(dy),
{
    let mut r: Vec<u8> = Vec::new();
    r.push(buttons & 0x07);
    r.push(truncate_delta(dx));
    r.push(truncate_delta(dy));
    r
}

/// Truncates a signed 16-bit delta to its low byte.
pub fn truncate_delta(x: i16) -> (b: u8)
    ensures
        b as int == low_byte(x),
{
    let w: i32 = (x as i32) + 0x10000;
    let b: u8 = (w % 256) as u8;
    proof {
        lemma_mod_multiples_vanish(256, x as int, 256);
        assert(w as int == 256 * 256 + x as int);
    }
    b
}

/// Classifies the outcome of the ceiling-locked report write. A busy
/// endpoint is expected backpressure: the report is dropped and is not
/// retried until the task's next firing. A report beyond the endpoint's
/// capacity, or any unspecified transport error, is an unrecoverable
/// protocol violation: the task aborts and the device resets.
pub fn handle_write_result(r: &Result<usize, UsbError>) -> (a: Step)
    ensures
        a == Step::Continue <==> (r is Ok || *r == Err::<usize, UsbError>(UsbError::WouldBlock)),
        a == Step::Fatal <==> (*r == Err::<usize, UsbError>(UsbError::BufferOverflow)
            || *r == Err::<usize, UsbError>(UsbError::Unspecified)),
{
    match r {
        Ok(_) => Step::Continue,
        Err(UsbError::WouldBlock) => Step::Continue,
        Err(UsbError::BufferOverflow) => Step::Fatal,
        Err(UsbError::Unspecified) => Step::Fatal,
    }
}

/// One firing of the periodic sample-and-report task, against the sensor
/// and endpoint models: re-arms the deadline first, samples the sensor,
/// truncates the deltas into a 3-byte report, and attempts a single
/// non-blocking write through the HID transport. The returned deadline is
/// `now + period` (wrapping) whatever the firing did; a busy endpoint
/// costs this period's report and nothing else; a fatal outcome is handed
/// up, never absorbed.
pub fn read_loop(
    pmw: &mut Pmw3360,
    bus: &mut SensorModel,
    hid: &mut HIDClass,
    now: u32,
    period: u32,
) -> (r: (u32, Step))
    requires
        old(bus).wf(),
        old(bus).idle(),
        old(hid).report_ep.max_packet_size >= 3,
    ensures
        final(bus).wf(),
        final(bus).idle(),
        final(bus).regs@ == old(bus).regs@,
        final(hid).report_if == old(hid).report_if,
        final(hid).report_ep.max_packet_size == old(hid).report_ep.max_packet_size,
        now + period <= u32::MAX ==> r.0 == now + period,
        now + period > u32::MAX ==> r.0 == now + period - 0x1_0000_0000,
        r.1 == Step::Continue,
        old(hid).report_ep.busy ==> *final(hid) == *old(hid),
        (!old(hid).report_ep.busy ==> {
            &&& final(hid).report_ep.busy
            &&& final(hid).report_ep.in_flight@.len() == 3
            &&& final(hid).report_ep.in_flight@[0] == 0u8
            &&& (old(bus).regs@[2] & 0x80 == 0 ==> final(hid).report_ep.in_flight@[1] == 0u8
                && final(hid).report_ep.in_flight@[2] == 0u8)
            &&& (old(bus).regs@[2] & 0x80 != 0 ==> {
                &&& final(hid).report_ep.in_flight@[1] as int
                    == i16_from_le(old(bus).regs@[3], old(bus).regs@[4]) % 256
                &&& final(hid).report_ep.in_flight@[2] as int
                    == i16_from_le(old(bus).regs@[5], old(bus).regs@[6]) % 256
            })
        }),
{
    let deadline: u32 = next_deadline(now, period);
    let sample: (i16, i16) = pmw.read_dx_dy(bus);
    let report: Vec<u8> = build_report(0, sample.0, sample.1);
    let outcome: Result<usize, UsbError> = hid.write(report.as_slice());
    let step: Step = handle_write_result(&outcome);
    proof {
        assert(0u8 & 0x07 == 0u8) by (bit_vector);
    }
    (deadline, step)
}

/// The priority-ceiling rule: while the lower-priority task touches a
/// shared resource, it runs at the resource's ceiling — the highest
/// priority among the tasks that contend for it — so no contender can
/// observe a partially updated resource.
pub fn ceiling_priority(task_priority: u8, ceiling: u8) -> (p: u8)
    ensures
        p >= task_priority,
        p >= ceiling,
        p == task_priority || p == ceiling,
{
    if task_priority >= ceiling {
        task_priority
    } else {
        ceiling
    }
}

} // verus!
