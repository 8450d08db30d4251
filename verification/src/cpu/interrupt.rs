//! Interrupts: the five sources, their fixed priority and their vectors.
//!
//! A source asks for service by its bit in the interrupt flags (IF, at 0xFF0F)
//! and is listened to if the same bit is set in the interrupt enable register
//! (IE, at 0xFFFF).

use crate::memory::Memory;
use crate::memory::MemoryState;
use crate::memory::INTERRUPT_ENABLE_REGISTER;
use crate::memory::INTERRUPT_FLAG_REGISTER;
use vstd::prelude::*;

verus! {

/// The five interrupt sources, highest priority first.
#[derive(Copy, Clone, PartialEq, Eq, Debug, Structural)]
pub enum InterruptSource {
    VBlank,
    LcdStat,
    Timer,
    Serial,
    Joypad,
}

impl InterruptSource {
    /// The weight of the source's bit in IF and IE: 1 for bit 0 up to 16 for bit 4.
    pub open spec fn mask(self) -> u8 {
        match self {
            InterruptSource::VBlank => 1,
            InterruptSource::LcdStat => 2,
            InterruptSource::Timer => 4,
            InterruptSource::Serial => 8,
            InterruptSource::Joypad => 16,
        }
    }

    /// The address that the processor jumps to when it serves the source.
    pub open spec fn vector(self) -> u16 {
        match self {
            InterruptSource::VBlank => 0x0040,
            InterruptSource::LcdStat => 0x0048,
            InterruptSource::Timer => 0x0050,
            InterruptSource::Serial => 0x0058,
            InterruptSource::Joypad => 0x0060,
        }
    }

    /// Whether the source's bit is set in a register.
    pub open spec fn set_in(self, register: u8) -> bool {
        register / self.mask() % 2 == 1
    }

    /// Whether the source asks for service and is listened to.
    pub open spec fn requested(self, flags: u8, enabled: u8) -> bool {
        self.set_in(flags) && self.set_in(enabled)
    }

    /// The interrupt flags with the source's bit cleared.
    pub open spec fn cleared_in(self, flags: u8) -> u8 {
        if self.set_in(flags) {
            (flags - self.mask()) as u8
        } else {
            flags
        }
    }

    /// The weight of the source's bit.
    fn bit_mask(self) -> (mask: u8)
        ensures
            mask == self.mask(),
    {
        match self {
            InterruptSource::VBlank => 1,
            InterruptSource::LcdStat => 2,
            InterruptSource::Timer => 4,
            InterruptSource::Serial => 8,
            InterruptSource::Joypad => 16,
        }
    }

    /// Whether the source asks for service and is listened to.
    fn is_requested(self, flags: u8, enabled: u8) -> (requested: bool)
        ensures
            requested == self.requested(flags, enabled),
    {
        let mask = self.bit_mask();
        flags / mask % 2 == 1 && enabled / mask % 2 == 1
    }
}

/// The source to serve first: the one of highest priority among those that ask
/// for service and are listened to, if there is one.
pub open spec fn pending_source(flags: u8, enabled: u8) -> Option<InterruptSource> {
    if InterruptSource::VBlank.requested(flags, enabled) {
        Some(InterruptSource::VBlank)
    } else if InterruptSource::LcdStat.requested(flags, enabled) {
        Some(InterruptSource::LcdStat)
    } else if InterruptSource::Timer.requested(flags, enabled) {
        Some(InterruptSource::Timer)
    } else if InterruptSource::Serial.requested(flags, enabled) {
        Some(InterruptSource::Serial)
    } else if InterruptSource::Joypad.requested(flags, enabled) {
        Some(InterruptSource::Joypad)
    } else {
        None
    }
}

/// Reads and answers the interrupt registers.
pub struct InterruptController;

impl InterruptController {
    /// The source to serve first, if any asks for service and is listened to.
    pub fn pending(memory: &Memory) -> (source: Option<InterruptSource>)
        ensures
            source == pending_source(memory@.read(0xFF0F), memory@.read(0xFFFF)),
    {
        let flags = memory.read(INTERRUPT_FLAG_REGISTER);
        let enabled = memory.read(INTERRUPT_ENABLE_REGISTER);
        if InterruptSource::VBlank.is_requested(flags, enabled) {
            Some(InterruptSource::VBlank)
        } else if InterruptSource::LcdStat.is_requested(flags, enabled) {
            Some(InterruptSource::LcdStat)
        } else if InterruptSource::Timer.is_requested(flags, enabled) {
            Some(InterruptSource::Timer)
        } else if InterruptSource::Serial.is_requested(flags, enabled) {
            Some(InterruptSource::Serial)
        } else if InterruptSource::Joypad.is_requested(flags, enabled) {
            Some(InterruptSource::Joypad)
        } else {
            None
        }
    }

    /// Clears the source's bit in the interrupt flags.
    pub fn acknowledge(memory: &mut Memory, source: InterruptSource)
        ensures
            final(memory)@ == acknowledged(old(memory)@, source),
            final(memory)@.wf(),
    {
        let flags = memory.read(INTERRUPT_FLAG_REGISTER);
        let mask = source.bit_mask();
        let cleared = if flags / mask % 2 == 1 {
            flags - mask
        } else {
            flags
        };
        memory.write(INTERRUPT_FLAG_REGISTER, cleared);
    }

    /// The address that the processor jumps to when it serves the source.
    pub fn vector_for(source: InterruptSource) -> (vector: u16)
        ensures
            vector == source.vector(),
    {
        match source {
            InterruptSource::VBlank => 0x0040,
            InterruptSource::LcdStat => 0x0048,
            InterruptSource::Timer => 0x0050,
            InterruptSource::Serial => 0x0058,
            InterruptSource::Joypad => 0x0060,
        }
    }
}

/// The address space after the source's bit was cleared in the interrupt flags.
pub open spec fn acknowledged(memory: MemoryState, source: InterruptSource) -> MemoryState {
    memory.write(0xFF0F, source.cleared_in(memory.read(0xFF0F)))
}

/// The source that is served is the first, in the order VBlank, LCD-STAT,
/// Timer, Serial, Joypad, whose bit is set in both registers; none is served
/// exactly if no source has its bit set in both.
pub proof fn lemma_priority(flags: u8, enabled: u8, source: InterruptSource)
    ensures
        pending_source(flags, enabled) is None <==> forall|any: InterruptSource|
            !any.requested(flags, enabled),
        pending_source(flags, enabled) == Some(source) ==> source.requested(flags, enabled)
            && forall|other: InterruptSource|
            other.mask() < source.mask() ==> !other.requested(flags, enabled),
{
}

/// A source whose bit was cleared asks for service no more.
pub proof fn lemma_cleared_bit(source: InterruptSource, flags: u8)
    ensures
        !source.set_in(source.cleared_in(flags)),
{
    let set = source.set_in(flags);
    let cleared = source.cleared_in(flags);
    match source {
        InterruptSource::VBlank => {
            assert(set ==> cleared == flags - 1);
            assert((flags - 1) / 1 == flags / 1 - 1);
        },
        InterruptSource::LcdStat => {
            assert(set ==> cleared == flags - 2);
            assert((flags - 2) / 2 == flags / 2 - 1);
        },
        InterruptSource::Timer => {
            assert(set ==> cleared == flags - 4);
            assert((flags - 4) / 4 == flags / 4 - 1);
        },
        InterruptSource::Serial => {
            assert(set ==> cleared == flags - 8);
            assert((flags - 8) / 8 == flags / 8 - 1);
        },
        InterruptSource::Joypad => {
            assert(set ==> cleared == flags - 16);
            assert((flags - 16) / 16 == flags / 16 - 1);
        },
    }
}

} // verus!
