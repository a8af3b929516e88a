//! Sensor protocol driver: the register address table, a loop-back model
//! of the sensor's serial bus, the register read/write framing, and the
//! motion-sampling algorithm.

use vstd::prelude::*;

verus! {

/// The named registers of the motion sensor. Each maps to a fixed one-byte
/// address; the table is immutable and known at compile time.
#[derive(Clone, Copy, PartialEq, Eq, Structural, Debug)]
pub enum Register {
    ProductId,
    RevisionId,
    Motion,
    DeltaXL,
    DeltaXH,
    DeltaYL,
    DeltaYH,
    SQUAL,
    RawDataSum,
    MaximumRawData,
    MinimumRawData,
    ShutterLower,
    ShutterUpper,
    Control,
    Config1,
    Config2,
    AngleTune,
    FrameCapture,
    SromEnable,
    RunDownshift,
    Rest1RateLower,
    Rest1RateUpper,
    Rest1Downshift,
    Rest2RateLower,
    Rest2RateUpper,
    Rest2Downshift,
    Rest3RateLower,
    Rest3RateUpper,
    Observation,
    DataOutLower,
    DataOutUpper,
    RawDataDump,
    SromId,
    MinSqRun,
    RawDataThreshold,
    Config5,
    PowerUpReset,
    Shutdown,
    InverseProductId,
    LiftCutoffTune3,
    AngleSnap,
    LiftCutoffTune1,
    MotionBurst,
    LiftCutoffTuneTimeout,
    LiftCutoffTuneMinLength,
    SromLoadBurst,
    LiftConfig,
    RawDataBurst,
    LiftCutoffTune2,
}

impl Register {
    /// The one-byte bus address of this register.
    pub open spec fn addr(self) -> u8 {
        match self {
            Register::ProductId => 0x00,
            Register::RevisionId => 0x01,
            Register::Motion => 0x02,
            Register::DeltaXL => 0x03,
            Register::DeltaXH => 0x04,
            Register::DeltaYL => 0x05,
            Register::DeltaYH => 0x06,
            Register::SQUAL => 0x07,
            Register::RawDataSum => 0x08,
            Register::MaximumRawData => 0x09,
            Register::MinimumRawData => 0x0a,
            Register::ShutterLower => 0x0b,
            Register::ShutterUpper => 0x0c,
            Register::Control => 0x0d,
            Register::Config1 => 0x0f,
            Register::Config2 => 0x10,
            Register::AngleTune => 0x11,
            Register::FrameCapture => 0x12,
            Register::SromEnable => 0x13,
            Register::RunDownshift => 0x14,
            Register::Rest1RateLower => 0x15,
            Register::Rest1RateUpper => 0x16,
            Register::Rest1Downshift => 0x17,
            Register::Rest2RateLower => 0x18,
            Register::Rest2RateUpper => 0x19,
            Register::Rest2Downshift => 0x1a,
            Register::Rest3RateLower => 0x1b,
            Register::Rest3RateUpper => 0x1c,
            Register::Observation => 0x24,
            Register::DataOutLower => 0x25,
            Register::DataOutUpper => 0x26,
            Register::RawDataDump => 0x29,
            Register::SromId => 0x2a,
            Register::MinSqRun => 0x2b,
            Register::RawDataThreshold => 0x2c,
            Register::Config5 => 0x2f,
            Register::PowerUpReset => 0x3a,
            Register::Shutdown => 0x3b,
            Register::InverseProductId => 0x3f,
            Register::LiftCutoffTune3 => 0x41,
            Register::AngleSnap => 0x42,
            Register::LiftCutoffTune1 => 0x4a,
            Register::MotionBurst => 0x50,
            Register::LiftCutoffTuneTimeout => 0x58,
            Register::LiftCutoffTuneMinLength => 0x5a,
            Register::SromLoadBurst => 0x62,
            Register::LiftConfig => 0x63,
            Register::RawDataBurst => 0x64,
            Register::LiftCutoffTune2 => 0x65,
        }
    }

    /// Every register address is below 0x80, so the top bit of a command
    /// byte is free to carry the write-direction mark.
    pub proof fn lemma_addr_in_range(self)
        ensures
            self.addr() < 0x80,
    {
    }

    /// Returns the register's bus address.
    pub fn value(&self) -> (r: u8)
        ensures
            r == self.addr(),
            r < 0x80,
    {
        match self {
            Register::ProductId => 0x00,
            Register::RevisionId => 0x01,
            Register::Motion => 0x02,
            Register::DeltaXL => 0x03,
            Register::DeltaXH => 0x04,
            Register::DeltaYL => 0x05,
            Register::DeltaYH => 0x06,
            Register::SQUAL => 0x07,
            Register::RawDataSum => 0x08,
            Register::MaximumRawData => 0x09,
            Register::MinimumRawData => 0x0a,
            Register::ShutterLower => 0x0b,
            Register::ShutterUpper => 0x0c,
            Register::Control => 0x0d,
            Register::Config1 => 0x0f,
            Register::Config2 => 0x10,
            Register::AngleTune => 0x11,
            Register::FrameCapture => 0x12,
            Register::SromEnable => 0x13,
            Register::RunDownshift => 0x14,
            Register::Rest1RateLower => 0x15,
            Register::Rest1RateUpper => 0x16,
            Register::Rest1Downshift => 0x17,
            Register::Rest2RateLower => 0x18,
            Register::Rest2RateUpper => 0x19,
            Register::Rest2Downshift => 0x1a,
            Register::Rest3RateLower => 0x1b,
            Register::Rest3RateUpper => 0x1c,
            Register::Observation => 0x24,
            Register::DataOutLower => 0x25,
            Register::DataOutUpper => 0x26,
            Register::RawDataDump => 0x29,
            Register::SromId => 0x2a,
            Register::MinSqRun => 0x2b,
            Register::RawDataThreshold => 0x2c,
            Register::Config5 => 0x2f,
            Register::PowerUpReset => 0x3a,
            Register::Shutdown => 0x3b,
            Register::InverseProductId => 0x3f,
            Register::LiftCutoffTune3 => 0x41,
            Register::AngleSnap => 0x42,
            Register::LiftCutoffTune1 => 0x4a,
            Register::MotionBurst => 0x50,
            Register::LiftCutoffTuneTimeout => 0x58,
            Register::LiftCutoffTuneMinLength => 0x5a,
            Register::SromLoadBurst => 0x62,
            Register::LiftConfig => 0x63,
            Register::RawDataBurst => 0x64,
            Register::LiftCutoffTune2 => 0x65,
        }
    }
}

/// A loop-back model of the sensor end of the serial bus: a register file
/// plus the one byte of shift-register state that a full-duplex transfer
/// exposes. The driver below is verified against this model; on hardware
/// the same frames go to the real part.
///
/// Semantics of one full-duplex transfer, in the order the sensor applies
/// them: the byte shifted out is whatever was loaded beforehand; a byte
/// following a write command stores its value at the commanded address; a
/// byte with the top bit set opens a write to the address in its low seven
/// bits; a byte clocked right after a read command is a dummy and is
/// ignored; any other byte is a read command and loads the addressed
/// register into the shift register.
pub struct SensorModel {
    /// The register file, indexed by bus address (the full seven-bit space).
    pub regs: Vec<u8>,
    /// Address opened by a write command, awaiting its data byte.
    pub pending_write: Option<u8>,
    /// Byte that the next transfer shifts out.
    pub shift_out: u8,
    /// Whether the shift register holds a freshly loaded read result, so
    /// that the next incoming byte is a dummy.
    pub loaded: bool,
    /// Addresses read so far, oldest first: the model's observation log.
    pub reads: Vec<u8>,
}

impl SensorModel {
    /// The model is well formed: the register file covers the seven-bit
    /// address space and any pending write stays inside it.
    pub open spec fn wf(self) -> bool {
        &&& self.regs@.len() == 0x80
        &&& (self.pending_write matches Some(a) ==> a < 0x80)
    }

    /// The bus is between transactions: no write half open, no read result
    /// waiting to be clocked out.
    pub open spec fn idle(self) -> bool {
        self.pending_write is None && !self.loaded
    }

    /// A fresh sensor model with every register zero.
    pub fn new() -> (m: SensorModel)
        ensures
            m.wf(),
            m.idle(),
            m.regs@ == Seq::new(0x80, |i: int| 0u8),
            m.reads@ == Seq::<u8>::empty(),
    {
        let mut regs: Vec<u8> = Vec::new();
        while regs.len() < 0x80
            invariant
                regs@ =~= Seq::new(regs@.len(), |i: int| 0u8),
                regs@.len() <= 0x80,
            decreases 0x80 - regs@.len(),
        {
            regs.push(0);
        }
        proof {
            assert(regs@ =~= Seq::new(0x80, |i: int| 0u8));
        }
        SensorModel { regs, pending_write: None, shift_out: 0, loaded: false, reads: Vec::new() }
    }

    /// Sets one register from the sensor's side, the way the part itself
    /// updates its motion and delta registers between transfers.
    pub fn set_register(&mut self, addr: u8, value: u8)
        requires
            old(self).wf(),
            addr < 0x80,
        ensures
            final(self).wf(),
            final(self).regs@ == old(self).regs@.update(addr as int, value),
            final(self).pending_write == old(self).pending_write,
            final(self).shift_out == old(self).shift_out,
            final(self).loaded == old(self).loaded,
            final(self).reads@ == old(self).reads@,
            old(self).idle() ==> final(self).idle(),
    {
        self.regs.set(addr as usize, value);
    }

    /// One full-duplex transfer: shifts `mosi` in and returns the byte
    /// shifted out.
    pub fn transfer(&mut self, mosi: u8) -> (miso: u8)
        requires
            old(self).wf(),
        ensures
            final(self).wf(),
            miso == old(self).shift_out,
            final(self).reads@.len() >= old(self).reads@.len(),
            (old(self).pending_write matches Some(a) ==> {
                &&& final(self).regs@ == old(self).regs@.update(a as int, mosi)
                &&& final(self).pending_write is None
                &&& final(self).shift_out == old(self).shift_out
                &&& final(self).loaded == old(self).loaded
                &&& final(self).reads@ == old(self).reads@
            }),
            (old(self).pending_write is None && old(self).loaded ==> {
                &&& final(self).regs@ == old(self).regs@
                &&& final(self).pending_write is None
                &&& final(self).shift_out == old(self).shift_out
                &&& !final(self).loaded
                &&& final(self).reads@ == old(self).reads@
            }),
            (old(self).pending_write is None && !old(self).loaded && mosi >= 0x80 ==> {
                &&& final(self).regs@ == old(self).regs@
                &&& final(self).pending_write == Some((mosi & 0x7f) as u8)
                &&& final(self).shift_out == old(self).shift_out
                &&& !final(self).loaded
                &&& final(self).reads@ == old(self).reads@
            }),
            (old(self).pending_write is None && !old(self).loaded && mosi < 0x80 ==> {
                &&& final(self).regs@ == old(self).regs@
                &&& final(self).pending_write is None
                &&& final(self).shift_out == old(self).regs@[mosi as int]
                &&& final(self).loaded
                &&& final(self).reads@ == old(self).reads@.push(mosi)
            }),
    {
        let miso: u8 = self.shift_out;
        let pending: Option<u8> = self.pending_write;
        match pending {
            Some(a) => {
                self.regs.set(a as usize, mosi);
                self.pending_write = None;
            }
            None => {
                if self.loaded {
                    self.loaded = false;
                } else if mosi >= 0x80 {
                    assert(mosi & 0x7f < 0x80) by (bit_vector);
                    let a: u8 = mosi & 0x7f;
                    self.pending_write = Some(a);
                } else {
                    self.shift_out = self.regs[mosi as usize];
                    self.loaded = true;
                    self.reads.push(mosi);
                }
            }
        }
        miso
    }
}

/// Outcome of one attempt to hand a byte to the serial transmit primitive.
#[derive(Clone, Copy, PartialEq, Eq, Structural, Debug)]
pub enum SpiSendEvent {
    /// The byte was accepted.
    Sent,
    /// The bus is still busy; the attempt must be repeated.
    NotReady,
    /// Any other bus error.
    Failed,
}

/// Outcome of one attempt to take a byte from the serial receive primitive.
#[derive(Clone, Copy, PartialEq, Eq, Structural, Debug)]
pub enum SpiReadEvent {
    /// A byte arrived.
    Received(u8),
    /// Nothing has arrived yet; the attempt must be repeated.
    NotReady,
    /// Any other bus error.
    Failed,
}

/// What the busy-poll loop does after one attempt.
#[derive(Clone, Copy, PartialEq, Eq, Structural, Debug)]
pub enum ByteAction {
    /// The byte went through; leave the loop.
    Done,
    /// Try again at once.
    Retry,
    /// Unrecoverable bus error: abort, the supervisor resets the device.
    Abort,
}

/// What the receive busy-poll loop does after one attempt.
#[derive(Clone, Copy, PartialEq, Eq, Structural, Debug)]
pub enum ReadByteAction {
    /// The byte arrived; leave the loop with it.
    Done(u8),
    /// Try again at once.
    Retry,
    /// Unrecoverable bus error: abort, the supervisor resets the device.
    Abort,
}

/// The sensor protocol driver. It owns the diagnostic status line, mirrored
/// here as a level; the serial bus itself is handed to each operation.
pub struct Pmw3360 {
    /// Level of the diagnostic line: high when the bus answered the last
    /// byte at once, low while a transmit attempt is being repeated.
    pub indicator: bool,
}

impl Pmw3360 {
    pub fn new() -> (s: Pmw3360)
        ensures
            !s.indicator,
    {
        Pmw3360 { indicator: false }
    }

    /// One round of the transmit busy-poll loop: a send was attempted and
    /// `ev` came back. An accepted byte ends the loop with the line high; a
    /// busy bus means another attempt, with the line low; anything else is
    /// fatal — there is no bounded retry, and no error is absorbed.
    pub fn write_byte_step(&mut self, ev: &SpiSendEvent) -> (a: ByteAction)
        ensures
            ev is Sent ==> a == ByteAction::Done && final(self).indicator,
            ev is NotReady ==> a == ByteAction::Retry && !final(self).indicator,
            ev is Failed ==> a == ByteAction::Abort
                && final(self).indicator == old(self).indicator,
    {
        match ev {
            SpiSendEvent::Sent => {
                self.indicator = true;
                ByteAction::Done
            }
            SpiSendEvent::NotReady => {
                self.indicator = false;
                ByteAction::Retry
            }
            SpiSendEvent::Failed => ByteAction::Abort,
        }
    }

    /// One round of the receive busy-poll loop: a read was attempted and
    /// `ev` came back. A byte ends the loop with the line high; an empty
    /// bus means another attempt, with the line left as it is; anything
    /// else is fatal.
    pub fn read_byte_step(&mut self, ev: &SpiReadEvent) -> (a: ReadByteAction)
        ensures
            (*ev matches SpiReadEvent::Received(v) ==>
                a == ReadByteAction::Done(v) && final(self).indicator),
            ev is NotReady ==> a == ReadByteAction::Retry
                && final(self).indicator == old(self).indicator,
            ev is Failed ==> a == ReadByteAction::Abort
                && final(self).indicator == old(self).indicator,
    {
        match ev {
            SpiReadEvent::Received(v) => {
                self.indicator = true;
                ReadByteAction::Done(*v)
            }
            SpiReadEvent::NotReady => ReadByteAction::Retry,
            SpiReadEvent::Failed => ReadByteAction::Abort,
        }
    }

    /// Writes `value` to `register`: one atomic two-byte transfer whose
    /// first byte carries the address with the top bit marking the write
    /// direction.
    pub fn write(&mut self, bus: &mut SensorModel, register: Register, value: u8)
        requires
            old(bus).wf(),
            old(bus).idle(),
        ensures
            final(bus).wf(),
            final(bus).idle(),
            final(bus).regs@ == old(bus).regs@.update(register.addr() as int, value),
            final(bus).reads@ == old(bus).reads@,
            final(self).indicator == old(self).indicator,
    {
        let addr: u8 = register.value();
        let cmd: u8 = 0x80 | addr;
        assert((0x80u8 | addr) >= 0x80 && (0x80u8 | addr) & 0x7f == addr) by (bit_vector)
            requires
                addr < 0x80,
        ;
        let _ = bus.transfer(cmd);
        let _ = bus.transfer(value);
    }

    /// Reads `register`: sends the address (write bit clear), discards the
    /// byte shifted back during that transfer, and — after the settle
    /// interval the caller owes the part — clocks one dummy byte and
    /// returns what came back.
    pub fn read(&mut self, bus: &mut SensorModel, register: Register) -> (v: u8)
        requires
            old(bus).wf(),
            old(bus).idle(),
        ensures
            final(bus).wf(),
            final(bus).idle(),
            v == old(bus).regs@[register.addr() as int],
            final(bus).regs@ == old(bus).regs@,
            final(bus).reads@ == old(bus).reads@.push(register.addr()),
            final(self).indicator,
    {
        let addr: u8 = register.value();
        // Address byte; what shifts back during this transfer is a
        // full-duplex artifact and is discarded.
        let _ = bus.transfer(addr);
        // The settle interval (ClockConfig::cycles_160us) passes here on
        // hardware. Dummy byte to clock the value out:
        let v: u8 = bus.transfer(0);
        self.indicator = true;
        v
    }

    /// Samples motion: reads the Motion status register, and only when its
    /// high bit (motion pending) is set reads the four delta registers and
    /// reassembles the two little-endian two's-complement deltas.
    pub fn read_dx_dy(&mut self, bus: &mut SensorModel) -> (r: (i16, i16))
        requires
            old(bus).wf(),
            old(bus).idle(),
        ensures
            final(bus).wf(),
            final(bus).idle(),
            final(bus).regs@ == old(bus).regs@,
            final(self).indicator,
            (old(bus).regs@[2] & 0x80 == 0 ==> {
                &&& r == (0i16, 0i16)
                &&& final(bus).reads@ == old(bus).reads@.push(2)
            }),
            (old(bus).regs@[2] & 0x80 != 0 ==> {
                &&& r.0 as int == i16_from_le(old(bus).regs@[3], old(bus).regs@[4])
                &&& r.1 as int == i16_from_le(old(bus).regs@[5], old(bus).regs@[6])
                &&& final(bus).reads@ == old(bus).reads@ + seq![2u8, 3u8, 4u8, 5u8, 6u8]
            }),
    {
        let motion: u8 = self.read(bus, Register::Motion);
        if motion & 0x80 != 0 {
            let dxl: u8 = self.read(bus, Register::DeltaXL);
            let dxh: u8 = self.read(bus, Register::DeltaXH);
            let dyl: u8 = self.read(bus, Register::DeltaYL);
            let dyh: u8 = self.read(bus, Register::DeltaYH);
            let dx: i16 = assemble_delta(dxl, dxh);
            let dy: i16 = assemble_delta(dyl, dyh);
            proof {
                assert(final(bus).reads@ =~= old(bus).reads@ + seq![2u8, 3u8, 4u8, 5u8, 6u8]);
            }
            (dx, dy)
        } else {
            (0, 0)
        }
    }

    /// Powers the part up: writes the reset register with the magic value,
    /// waits the long settle interval (ClockConfig::cycles_50ms, owed by
    /// the caller), drains the Motion and four delta registers, and clears
    /// Motion to arm future sampling. Runs exactly once, before the
    /// periodic task starts.
    pub fn power_up(&mut self, bus: &mut SensorModel)
        requires
            old(bus).wf(),
            old(bus).idle(),
        ensures
            final(bus).wf(),
            final(bus).idle(),
            final(bus).regs@ == old(bus).regs@.update(0x3a, 0x5a).update(2, 0),
            final(bus).reads@ == old(bus).reads@ + seq![2u8, 3u8, 4u8, 5u8, 6u8],
            final(self).indicator,
    {
        self.write(bus, Register::PowerUpReset, 0x5a);
        // The long settle interval passes here on hardware.
        let _ = self.read(bus, Register::Motion);
        let _ = self.read(bus, Register::DeltaXL);
        let _ = self.read(bus, Register::DeltaXH);
        let _ = self.read(bus, Register::DeltaYL);
        let _ = self.read(bus, Register::DeltaYH);
        self.write(bus, Register::Motion, 0x00);
        proof {
            assert(final(bus).reads@ =~= old(bus).reads@ + seq![2u8, 3u8, 4u8, 5u8, 6u8]);
        }
    }
}

/// The value of a little-endian pair of delta bytes under the standard
/// two's-complement interpretation of a signed 16-bit integer.
pub open spec fn i16_from_le(lo: u8, hi: u8) -> int {
    let v = (hi as int) * 256 + (lo as int);
    if v >= 0x8000 {
        v - 0x10000
    } else {
        v
    }
}

/// Reassembles one signed 16-bit delta from its low and high bytes.
pub fn assemble_delta(lo: u8, hi: u8) -> (d: i16)
    ensures
        d as int == i16_from_le(lo, hi),
{
    let low: u16 = lo as u16;
    let high: u16 = hi as u16;
    assert((high << 8) | low == high * 256 + low) by (bit_vector)
        requires
            low < 256 && high < 256,
    ;
    let v: u16 = (high << 8) | low;
    if v >= 0x8000 {
        ((v as i32) - 0x10000) as i16
    } else {
        v as i16
    }
}

/// On a loop-back bus, reading a register back right after writing it
/// yields the written value: a register write leaves the register file
/// updated at the register's address, and a register read returns the file
/// at that address.
pub proof fn lemma_write_then_read_round_trip(regs: Seq<u8>, r: Register, v: u8)
    requires
        regs.len() == 0x80,
    ensures
        regs.update(r.addr() as int, v)[r.addr() as int] == v,
{
    r.lemma_addr_in_range();
}

} // verus!
