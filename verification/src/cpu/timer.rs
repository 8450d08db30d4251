//! The timer: a free-running divider (DIV) and a counter (TIMA) that steps at a
//! rate chosen by its control register (TAC) and reloads from TMA when it
//! passes 0xFF.

use vstd::prelude::*;

verus! {

pub const DIV_ADDRESS: u16 = 0xFF04;

pub const TIMA_ADDRESS: u16 = 0xFF05;

pub const TMA_ADDRESS: u16 = 0xFF06;

pub const TAC_ADDRESS: u16 = 0xFF07;

/// What an update of the timer asks of its caller.
#[derive(Copy, Clone, PartialEq, Eq, Debug, Structural)]
pub enum RaiseInterruptFlag {
    /// TIMA passed 0xFF: the Timer bit of the interrupt flags is to be set.
    CustomTimerOverflowed,
    NoChanges,
}

/// The timer as contracts see it.
pub struct TimerState {
    /// The free-running counter whose high byte is DIV.
    pub div_counter: u16,
    pub tima: u8,
    pub tma: u8,
    pub tac: u8,
    /// Cycles counted towards the next step of TIMA.
    pub pending: nat,
}

/// Whether the control register lets TIMA count: its bit 2.
pub open spec fn tac_enabled(tac: u8) -> bool {
    tac / 4 % 2 == 1
}

/// The cycles per step of TIMA that the two low bits of the control register select.
pub open spec fn tac_divisor(tac: u8) -> nat {
    if tac % 4 == 0 {
        1024
    } else if tac % 4 == 1 {
        16
    } else if tac % 4 == 2 {
        64
    } else {
        256
    }
}

/// TIMA one step on: past 0xFF it takes the value of TMA.
pub open spec fn tima_next(tima: u8, tma: u8) -> u8 {
    if tima == 0xFF {
        tma
    } else {
        (tima + 1) as u8
    }
}

/// TIMA after `steps` steps.
pub open spec fn tima_after(tima: u8, tma: u8, steps: nat) -> u8
    decreases steps,
{
    if steps == 0 {
        tima
    } else {
        tima_after(tima_next(tima, tma), tma, (steps - 1) as nat)
    }
}

/// Whether TIMA passes 0xFF within `steps` steps.
pub open spec fn tima_overflows(tima: u8, tma: u8, steps: nat) -> bool
    decreases steps,
{
    if steps == 0 {
        false
    } else {
        tima == 0xFF || tima_overflows(tima_next(tima, tma), tma, (steps - 1) as nat)
    }
}

/// The steps TIMA takes within `elapsed` more cycles, with `pending` cycles
/// counted before: none while it is disabled, else one for every full divisor.
pub open spec fn steps_within(tac: u8, pending: nat, elapsed: nat) -> nat {
    if tac_enabled(tac) {
        (pending + elapsed) / tac_divisor(tac)
    } else {
        0
    }
}

/// The cycles that stay counted towards the next step after `elapsed` more cycles.
pub open spec fn pending_after(tac: u8, pending: nat, elapsed: nat) -> nat {
    if tac_enabled(tac) {
        (pending + elapsed) % tac_divisor(tac)
    } else {
        pending
    }
}

impl TimerState {
    /// Whether `addr` is one of the four addresses of the timer.
    pub open spec fn maps(addr: u16) -> bool {
        0xFF04 <= addr <= 0xFF07
    }

    /// The byte read at one of the four addresses. DIV is the high byte of the
    /// free-running counter.
    pub open spec fn read(self, addr: u16) -> u8 {
        if addr == 0xFF04 {
            (self.div_counter / 256) as u8
        } else if addr == 0xFF05 {
            self.tima
        } else if addr == 0xFF06 {
            self.tma
        } else {
            self.tac
        }
    }

    /// The timer after its free-running counter was reset. TIMA, TMA and TAC stay.
    pub open spec fn reset(self) -> TimerState {
        TimerState { div_counter: 0, ..self }
    }

    /// The timer after a byte was written to one of the four addresses. Any
    /// write to DIV resets the free-running counter.
    pub open spec fn write(self, addr: u16, value: u8) -> TimerState {
        if addr == 0xFF04 {
            self.reset()
        } else if addr == 0xFF05 {
            TimerState { tima: value, ..self }
        } else if addr == 0xFF06 {
            TimerState { tma: value, ..self }
        } else {
            TimerState { tac: value, ..self }
        }
    }

    /// The timer after `elapsed` more cycles. The free-running counter always
    /// goes on. TIMA counts only while it is enabled: then it takes one step
    /// for every full divisor of cycles, and the rest stays pending.
    pub open spec fn advance(self, elapsed: nat) -> TimerState {
        TimerState {
            div_counter: ((self.div_counter + elapsed) % 0x10000) as u16,
            tima: tima_after(self.tima, self.tma, steps_within(self.tac, self.pending, elapsed)),
            pending: pending_after(self.tac, self.pending, elapsed),
            ..self
        }
    }

    /// Whether TIMA passes 0xFF within `elapsed` more cycles.
    pub open spec fn overflows(self, elapsed: nat) -> bool {
        tima_overflows(self.tima, self.tma, steps_within(self.tac, self.pending, elapsed))
    }

    /// The timer at power-up: all zero, so TIMA is disabled.
    pub open spec fn boot() -> TimerState {
        TimerState { div_counter: 0, tima: 0, tma: 0, tac: 0, pending: 0 }
    }
}

/// The free-running divider.
#[derive(Debug)]
pub struct DivRegister {
    internal_timer: u16,
}

impl DivRegister {
    pub closed spec fn counter(&self) -> u16 {
        self.internal_timer
    }

    pub fn new() -> (div: DivRegister)
        ensures
            div.counter() == 0,
    {
        DivRegister { internal_timer: 0 }
    }

    pub fn reset(&mut self)
        ensures
            final(self).counter() == 0,
    {
        self.internal_timer = 0;
    }

    /// The byte that reads of DIV see: the high byte of the counter.
    pub fn visible(&self) -> (byte: u8)
        ensures
            byte == self.counter() / 256,
    {
        (self.internal_timer / 256) as u8
    }

    /// Counts `t_cycles` more cycles, wrapping past 0xFFFF.
    pub fn tick(&mut self, t_cycles: usize)
        ensures
            final(self).counter() == (old(self).counter() + t_cycles) % 0x10000,
    {
        self.internal_timer = ((self.internal_timer as u128 + t_cycles as u128) % 0x10000) as u16;
    }
}

/// The configurable counter with its reload value and its control register.
#[derive(Debug)]
pub struct TimaRegister {
    tima_reg: u8,
    pending_cycles: u16,
    tac_reg: u8,
    tma_reg: u8,
}

impl TimaRegister {
    #[verifier::type_invariant]
    spec fn well_formed(self) -> bool {
        self.pending_cycles < 1024
    }

    pub closed spec fn tima(&self) -> u8 {
        self.tima_reg
    }

    pub closed spec fn tma(&self) -> u8 {
        self.tma_reg
    }

    pub closed spec fn tac(&self) -> u8 {
        self.tac_reg
    }

    pub closed spec fn pending(&self) -> nat {
        self.pending_cycles as nat
    }

    pub fn new() -> (tima: TimaRegister)
        ensures
            tima.tima() == 0,
            tima.tma() == 0,
            tima.tac() == 0,
            tima.pending() == 0,
    {
        TimaRegister { tima_reg: 0x00, pending_cycles: 0, tac_reg: 0x00, tma_reg: 0x00 }
    }

    pub fn set_tima(&mut self, value: u8)
        ensures
            final(self).tima() == value,
            final(self).tma() == old(self).tma(),
            final(self).tac() == old(self).tac(),
            final(self).pending() == old(self).pending(),
    {
        proof {
            use_type_invariant(&*self);
        }
        self.tima_reg = value;
    }

    pub fn set_tma(&mut self, value: u8)
        ensures
            final(self).tima() == old(self).tima(),
            final(self).tma() == value,
            final(self).tac() == old(self).tac(),
            final(self).pending() == old(self).pending(),
    {
        proof {
            use_type_invariant(&*self);
        }
        self.tma_reg = value;
    }

    pub fn set_tac(&mut self, value: u8)
        ensures
            final(self).tima() == old(self).tima(),
            final(self).tma() == old(self).tma(),
            final(self).tac() == value,
            final(self).pending() == old(self).pending(),
    {
        proof {
            use_type_invariant(&*self);
        }
        self.tac_reg = value;
    }

    /// Counts `elapsed` more cycles and says whether TIMA passed 0xFF.
    pub fn tick(&mut self, elapsed: usize) -> (raised: RaiseInterruptFlag)
        ensures
            final(self).tima() == tima_after(
                old(self).tima(),
                old(self).tma(),
                steps_within(old(self).tac(), old(self).pending(), elapsed as nat),
            ),
            final(self).pending() == pending_after(
                old(self).tac(),
                old(self).pending(),
                elapsed as nat,
            ),
            final(self).tma() == old(self).tma(),
            final(self).tac() == old(self).tac(),
            raised == RaiseInterruptFlag::CustomTimerOverflowed <==> tima_overflows(
                old(self).tima(),
                old(self).tma(),
                steps_within(old(self).tac(), old(self).pending(), elapsed as nat),
            ),
    {
        proof {
            use_type_invariant(&*self);
            lemma_tac_bits(self.tac_reg);
        }
        let enabled = (self.tac_reg >> 2) & 0x01 == 0x01;
        let mut interrupt_requested = false;
        if enabled {
            let div_index = self.tac_reg & 0x03;
            let timer_resolution: u128 = if div_index == 0 {
                1024
            } else if div_index == 1 {
                16
            } else if div_index == 2 {
                64
            } else {
                256
            };
            let counted: u128 = self.pending_cycles as u128 + elapsed as u128;
            let steps: u128 = counted / timer_resolution;
            let rest: u16 = (counted % timer_resolution) as u16;
            let ghost first = self.tima_reg;
            let ghost tma = self.tma_reg;
            let mut tima: u8 = self.tima_reg;
            let mut done: u128 = 0;
            while done < steps
                invariant
                    done <= steps,
                    tma == self.tma_reg,
                    tima_after(first, tma, steps as nat) == tima_after(
                        tima,
                        tma,
                        (steps - done) as nat,
                    ),
                    tima_overflows(first, tma, steps as nat) == (interrupt_requested
                        || tima_overflows(tima, tma, (steps - done) as nat)),
                decreases steps - done,
            {
                if tima == 0xFF {
                    tima = self.tma_reg;
                    interrupt_requested = true;
                } else {
                    tima = tima + 1;
                }
                done = done + 1;
            }
            self.tima_reg = tima;
            self.pending_cycles = rest;
        }
        if interrupt_requested {
            RaiseInterruptFlag::CustomTimerOverflowed
        } else {
            RaiseInterruptFlag::NoChanges
        }
    }
}

proof fn lemma_tac_bits(tac: u8)
    by (bit_vector)
    ensures
        ((tac >> 2) & 0x01 == 0x01) == (tac / 4 % 2 == 1),
        tac & 0x03 == tac % 4,
{
}

/// The timer: the divider and the counter behind the four timer addresses.
#[derive(Debug)]
pub struct TimerController {
    div: DivRegister,
    tima: TimaRegister,
}

impl View for TimerController {
    type V = TimerState;

    closed spec fn view(&self) -> TimerState {
        TimerState {
            div_counter: self.div.counter(),
            tima: self.tima.tima(),
            tma: self.tima.tma(),
            tac: self.tima.tac(),
            pending: self.tima.pending(),
        }
    }
}

impl TimerController {
    pub fn new() -> (timer: TimerController)
        ensures
            timer@ == TimerState::boot(),
    {
        TimerController { div: DivRegister::new(), tima: TimaRegister::new() }
    }

    /// Resets the free-running counter, as any write to DIV does.
    pub fn timer_reset(&mut self)
        ensures
            final(self)@ == old(self)@.reset(),
    {
        self.div.reset();
    }

    /// The byte at one of the four timer addresses.
    pub fn read(&self, addr: u16) -> (value: u8)
        requires
            TimerState::maps(addr),
        ensures
            value == self@.read(addr),
    {
        if addr == DIV_ADDRESS {
            self.div.visible()
        } else if addr == TIMA_ADDRESS {
            self.tima.tima_reg
        } else if addr == TMA_ADDRESS {
            self.tima.tma_reg
        } else {
            self.tima.tac_reg
        }
    }

    /// Writes a byte to one of the four timer addresses.
    pub fn write(&mut self, addr: u16, value: u8)
        requires
            TimerState::maps(addr),
        ensures
            final(self)@ == old(self)@.write(addr, value),
    {
        if addr == DIV_ADDRESS {
            self.timer_reset();
        } else if addr == TIMA_ADDRESS {
            self.tima.set_tima(value);
        } else if addr == TMA_ADDRESS {
            self.tima.set_tma(value);
        } else {
            self.tima.set_tac(value);
        }
    }

    /// Lets `elapsed_cycles` more cycles pass and says whether TIMA passed 0xFF,
    /// in which case the caller is to set the Timer bit of the interrupt flags.
    pub fn update(&mut self, elapsed_cycles: usize) -> (raised: RaiseInterruptFlag)
        ensures
            final(self)@ == old(self)@.advance(elapsed_cycles as nat),
            raised == RaiseInterruptFlag::CustomTimerOverflowed <==> old(self)@.overflows(
                elapsed_cycles as nat,
            ),
    {
        self.div.tick(elapsed_cycles);
        self.tima.tick(elapsed_cycles)
    }
}

impl TimerState {
    /// While TIMA is enabled, as many cycles as its divisor make it take
    /// exactly one step, whatever was pending below the divisor: with the
    /// 1024-cycle divisor, 1024 cycles raise TIMA by one, or past 0xFF reload
    /// it from TMA and report the overflow. The free-running counter goes on by
    /// the same cycles.
    pub proof fn lemma_one_step_per_divisor(self)
        requires
            tac_enabled(self.tac),
            self.pending < tac_divisor(self.tac),
        ensures
            self.advance(tac_divisor(self.tac)).tima == tima_next(self.tima, self.tma),
            self.advance(tac_divisor(self.tac)).pending == self.pending,
            self.advance(tac_divisor(self.tac)).tma == self.tma,
            self.advance(tac_divisor(self.tac)).tac == self.tac,
            self.overflows(tac_divisor(self.tac)) <==> self.tima == 0xFF,
            self.tima < 0xFF ==> self.advance(tac_divisor(self.tac)).tima == self.tima + 1,
            self.tima == 0xFF ==> self.advance(tac_divisor(self.tac)).tima == self.tma,
    {
        let divisor = tac_divisor(self.tac);
        assert(steps_within(self.tac, self.pending, divisor) == 1);
        reveal_with_fuel(tima_after, 2);
        reveal_with_fuel(tima_overflows, 2);
    }

    /// While TIMA is disabled it does not move, however many cycles pass.
    pub proof fn lemma_disabled_timer_rests(self, elapsed: nat)
        requires
            !tac_enabled(self.tac),
        ensures
            self.advance(elapsed).tima == self.tima,
            self.advance(elapsed).pending == self.pending,
            !self.overflows(elapsed),
    {
    }
}

} // verus!
