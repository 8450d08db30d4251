//! The flat 64 KiB address space that the processor reads and writes, with the
//! timer behind four of its addresses and a debug serial port behind one.

use crate::cpu::timer::RaiseInterruptFlag;
use crate::cpu::timer::TimerController;
use crate::cpu::timer::TimerState;
use vstd::prelude::*;

verus! {

pub const DIV_CLOCK_REGISTER: u16 = 0xFF04;

pub const TIMA_CLOCK_REGISTER: u16 = 0xFF05;

pub const TMA_CLOCK_REGISTER: u16 = 0xFF06;

pub const TAC_CLOCK_REGISTER: u16 = 0xFF07;

/// The data register of the debug serial port.
pub const SERIAL_DATA_REGISTER: u16 = 0xFF01;

/// The control register of the debug serial port.
pub const SERIAL_CONTROL_REGISTER: u16 = 0xFF02;

/// The byte that, written to the serial control register, sends the data register.
pub const SERIAL_TRANSMIT: u8 = 0x81;

/// The interrupt flags (IF).
pub const INTERRUPT_FLAG_REGISTER: u16 = 0xFF0F;

/// The interrupt enable register (IE).
pub const INTERRUPT_ENABLE_REGISTER: u16 = 0xFFFF;

/// The number of addresses.
pub const MEMORY_SIZE: usize = 0x10000;

/// The address space as contracts see it.
pub struct MemoryState {
    /// The stored bytes, one for each address.
    pub bytes: Seq<u8>,
    pub timer: TimerState,
    /// The bytes sent through the debug serial port, oldest first.
    pub serial: Seq<u8>,
}

impl MemoryState {
    /// There is one stored byte for each of the 65536 addresses.
    pub open spec fn wf(self) -> bool {
        self.bytes.len() == 0x10000
    }

    /// The byte that a read of `addr` sees: a register of the timer at its four
    /// addresses, the stored byte elsewhere.
    pub open spec fn read(self, addr: u16) -> u8 {
        if TimerState::maps(addr) {
            self.timer.read(addr)
        } else {
            self.bytes[addr as int]
        }
    }

    /// The address space after a write. A write of 0x81 to the serial control
    /// register sends the byte in the serial data register and stores nothing;
    /// a write to a timer address goes to the timer; any other write stores
    /// the byte.
    pub open spec fn write(self, addr: u16, value: u8) -> MemoryState {
        if addr == 0xFF02 && value == 0x81 {
            MemoryState { serial: self.serial.push(self.bytes[0xFF01]), ..self }
        } else if TimerState::maps(addr) {
            MemoryState { timer: self.timer.write(addr, value), ..self }
        } else {
            MemoryState { bytes: self.bytes.update(addr as int, value), ..self }
        }
    }

    /// Whether a write of `value` to `addr` stores the byte, so that a read of
    /// `addr` sees it afterwards: every write but one to DIV and one that sends
    /// the serial data register.
    pub open spec fn stores(addr: u16, value: u8) -> bool {
        addr != 0xFF04 && !(addr == 0xFF02 && value == 0x81)
    }

    /// The interrupt flags with the Timer bit set.
    pub open spec fn timer_requested(flags: u8) -> u8 {
        if flags / 4 % 2 == 1 {
            flags
        } else {
            (flags + 4) as u8
        }
    }

    /// The address space after `cycles` more cycles: the timer goes on, and
    /// where TIMA passes 0xFF the Timer bit of the interrupt flags is set.
    pub open spec fn update_timer(self, cycles: nat) -> MemoryState {
        let advanced = MemoryState { timer: self.timer.advance(cycles), ..self };
        if self.timer.overflows(cycles) {
            advanced.write(0xFF0F, Self::timer_requested(advanced.read(0xFF0F)))
        } else {
            advanced
        }
    }

    /// The address space with the bytes of a cartridge stored from address 0 on.
    pub open spec fn load(self, cartridge: Seq<u8>) -> MemoryState {
        MemoryState {
            bytes: Seq::new(
                self.bytes.len(),
                |i: int|
                    if i < cartridge.len() {
                        cartridge[i]
                    } else {
                        self.bytes[i]
                    },
            ),
            ..self
        }
    }

    /// The address space at power-up: zero everywhere but at 0xFF02, 0xFF07 and
    /// 0xFF44, the timer at rest, nothing sent.
    pub open spec fn boot() -> MemoryState {
        MemoryState {
            bytes: Seq::new(0x10000, |i: int| 0u8).update(0xFF07, 0xF8).update(0xFF44, 0xFF).update(
                0xFF02,
                0xFF,
            ),
            timer: TimerState::boot(),
            serial: Seq::empty(),
        }
    }

    /// A stored byte is read back, and a write leaves every other address as it was.
    pub proof fn lemma_read_after_write(self, addr: u16, value: u8, other: u16)
        requires
            self.wf(),
        ensures
            self.write(addr, value).wf(),
            Self::stores(addr, value) ==> self.write(addr, value).read(addr) == value,
            other != addr ==> self.write(addr, value).read(other) == self.read(other),
    {
    }
}

/// The address space.
pub struct Memory {
    bytes: [u8; 0x10000],
    timer_controller: TimerController,
    serial_output: Vec<u8>,
}

impl View for Memory {
    type V = MemoryState;

    closed spec fn view(&self) -> MemoryState {
        MemoryState {
            bytes: self.bytes@,
            timer: self.timer_controller@,
            serial: self.serial_output@,
        }
    }
}

impl Default for Memory {
    fn default() -> (memory: Memory)
        ensures
            memory@ == MemoryState::boot(),
            memory@.wf(),
    {
        let mut bytes: [u8; 0x10000] = [0x00u8; 0x10000];
        bytes[0xFF07] = 0xF8;
        bytes[0xFF44] = 0xFF;
        bytes[0xFF02] = 0xFF;
        assert(bytes@ =~= MemoryState::boot().bytes);
        Memory { bytes, timer_controller: TimerController::new(), serial_output: Vec::new() }
    }
}

impl Memory {
    /// The stored bytes, one for each address. At the four timer addresses
    /// these are not what a read sees.
    pub fn get_mem_slice(&self) -> (slice: &[u8])
        ensures
            slice@ == self@.bytes,
            self@.wf(),
    {
        self.bytes.as_slice()
    }

    /// Lets `elapsed_cycles` more cycles pass on the timer and, where TIMA
    /// passes 0xFF, sets the Timer bit of the interrupt flags.
    pub fn update_timer(&mut self, elapsed_cycles: usize)
        ensures
            final(self)@ == old(self)@.update_timer(elapsed_cycles as nat),
            final(self)@.wf(),
    {
        let timer_overflow = self.timer_controller.update(elapsed_cycles);
        match timer_overflow {
            RaiseInterruptFlag::CustomTimerOverflowed => self.set_timer_ie(),
            RaiseInterruptFlag::NoChanges => (),
        }
    }

    fn set_timer_ie(&mut self)
        ensures
            final(self)@ == old(self)@.write(
                0xFF0F,
                MemoryState::timer_requested(old(self)@.read(0xFF0F)),
            ),
            final(self)@.wf(),
    {
        let if_reg = self.read(INTERRUPT_FLAG_REGISTER);
        assert(if_reg | 0x04 == if if_reg / 4 % 2 == 1 {
            if_reg as int
        } else {
            if_reg + 4
        }) by (bit_vector);
        let if_reg = if_reg | 0x04;
        self.write(INTERRUPT_FLAG_REGISTER, if_reg);
    }

    /// Stores the bytes of a cartridge from address 0 on.
    pub fn load_cartridge(&mut self, bytes: &[u8])
        requires
            bytes@.len() <= 0x10000,
        ensures
            final(self)@ == old(self)@.load(bytes@),
            final(self)@.wf(),
    {
        let mut i: usize = 0;
        while i < bytes.len()
            invariant
                i <= bytes@.len() <= 0x10000,
                self.timer_controller == old(self).timer_controller,
                self.serial_output == old(self).serial_output,
                forall|k: int| 0 <= k < i ==> self.bytes[k] == bytes[k],
                forall|k: int| i <= k < 0x10000 ==> self.bytes[k] == old(self).bytes[k],
            decreases bytes.len() - i,
        {
            self.bytes[i] = bytes[i];
            i = i + 1;
        }
        assert(self.bytes@ =~= old(self)@.load(bytes@).bytes);
    }

    /// The byte at `addr`.
    pub fn read(&self, addr: u16) -> (value: u8)
        ensures
            value == self@.read(addr),
            self@.wf(),
    {
        if 0xFF04 <= addr && addr <= 0xFF07 {
            self.timer_controller.read(addr)
        } else {
            self.read_generic(addr)
        }
    }

    /// Writes a byte to `addr`.
    pub fn write(&mut self, addr: u16, value: u8)
        ensures
            final(self)@ == old(self)@.write(addr, value),
            final(self)@.wf(),
    {
        if addr == SERIAL_CONTROL_REGISTER {
            self.serial_write_debug(value);
        } else if addr == DIV_CLOCK_REGISTER {
            self.timer_controller.timer_reset();
        } else if addr == TIMA_CLOCK_REGISTER || addr == TMA_CLOCK_REGISTER || addr
            == TAC_CLOCK_REGISTER {
            self.timer_controller.write(addr, value);
        } else {
            self.write_generic(addr, value);
        }
    }

    /// The bytes sent through the debug serial port so far, oldest first.
    pub fn serial_output(&self) -> (sent: &[u8])
        ensures
            sent@ == self@.serial,
    {
        self.serial_output.as_slice()
    }

    /// Forgets the bytes sent through the debug serial port so far.
    pub fn clear_serial_output(&mut self)
        ensures
            final(self)@ == (MemoryState { serial: Seq::empty(), ..old(self)@ }),
            final(self)@.wf(),
    {
        self.serial_output.clear();
    }

    fn read_generic(&self, addr: u16) -> (value: u8)
        ensures
            value == self@.bytes[addr as int],
    {
        self.bytes[addr as usize]
    }

    fn write_generic(&mut self, addr: u16, value: u8)
        ensures
            final(self)@ == (MemoryState {
                bytes: old(self)@.bytes.update(addr as int, value),
                ..old(self)@
            }),
            final(self)@.wf(),
    {
        self.bytes[addr as usize] = value;
    }

    fn serial_write_debug(&mut self, value: u8)
        ensures
            final(self)@ == old(self)@.write(0xFF02, value),
            final(self)@.wf(),
    {
        if value == SERIAL_TRANSMIT {
            let byte = self.bytes[SERIAL_DATA_REGISTER as usize];
            self.serial_output.push(byte);
        } else {
            self.bytes[SERIAL_CONTROL_REGISTER as usize] = value;
        }
    }
}

impl MemoryState {
    /// Where TIMA passes 0xFF, the Timer bit is set in the interrupt flags and
    /// TIMA holds what its steps from TMA on leave; else the interrupt flags
    /// stay as they are.
    pub proof fn lemma_timer_overflow_requests_interrupt(self, cycles: nat)
        requires
            self.wf(),
        ensures
            self.update_timer(cycles).wf(),
            self.update_timer(cycles).timer == self.timer.advance(cycles),
            self.timer.overflows(cycles) ==> self.update_timer(cycles).read(0xFF0F) / 4 % 2 == 1,
            !self.timer.overflows(cycles) ==> self.update_timer(cycles).read(0xFF0F) == self.read(
                0xFF0F,
            ),
    {
    }
}

} // verus!
