//! The debugger: a processor and its address space, driven step by step,
//! with breakpoints and with the state as text for display.
//!
//! The address space that the views show:
//!
//! | Start  | End    | Size  | Description                 |
//! |--------|--------|-------|-----------------------------|
//! | 0x0000 | 0x3FFF | 16 KB | ROM bank 0                  |
//! | 0x4000 | 0x7FFF | 16 KB | ROM bank 1, switchable      |
//! | 0x8000 | 0x9FFF | 8 KB  | video memory                |
//! | 0xA000 | 0xBFFF | 8 KB  | external memory             |
//! | 0xC000 | 0xCFFF | 4 KB  | working RAM                 |
//! | 0xD000 | 0xDFFF | 4 KB  | working RAM, switchable     |
//! | 0xE000 | 0xFDFF | 8 KB  | mirror of 0xC000 to 0xDFFF  |

use crate::cpu::machine::CpuError;
use crate::cpu::machine::Machine;
use crate::cpu::register::make_word;
use crate::cpu::register::word_of;
use crate::cpu::register::RegByte;
use crate::cpu::register::RegWord;
use crate::cpu::timer::tac_divisor;
use crate::cpu::Cpu;
use crate::disassembler::AssemblyDesc;
use crate::memory::Memory;
use crate::memory::MemoryState;
use crate::text::decimal3_text;
use crate::text::decimal4_text;
use crate::text::format_decimal3;
use crate::text::format_decimal4;
use crate::text::format_hex_byte;
use crate::text::format_hex_word;
use crate::text::hex_byte_text;
use crate::text::hex_word_text;
use std::collections::HashMap;
use std::collections::HashSet;
use vstd::prelude::*;

verus! {

/// The clock cycles of one machine cycle.
pub const CLOCKS_PER_MACHINE_CYCLE: usize = 4;

/// The debugger as contracts see it.
pub struct DebuggerState {
    pub machine: Machine,
    pub breakpoints: Set<u16>,
    /// The machine cycles that have passed, one for each step taken.
    pub machine_cycles: usize,
}

/// The byte at an address of the stored bytes, and 0 past their end.
pub open spec fn byte_at(bytes: Seq<u8>, addr: int) -> u8 {
    if 0 <= addr < bytes.len() {
        bytes[addr]
    } else {
        0
    }
}

/// The instruction that begins at an address of the stored bytes.
pub open spec fn instruction_at(bytes: Seq<u8>, start: int) -> AssemblyDesc {
    AssemblyDesc::of(
        start as u16,
        byte_at(bytes, start),
        byte_at(bytes, start + 1),
        byte_at(bytes, start + 2),
    )
}

/// The instructions from an address on, each beginning where the one before
/// it ends, up to the last that begins below 0xFFFF.
pub open spec fn listing(bytes: Seq<u8>, start: int) -> Seq<AssemblyDesc>
    decreases 0x10002 - start,
        when start >= 0
{
    if start >= 0xFFFF {
        Seq::empty()
    } else {
        proof {
            AssemblyDesc::lemma_size_agrees(
                start as u16,
                byte_at(bytes, start),
                byte_at(bytes, start + 1),
                byte_at(bytes, start + 2),
            );
        }
        seq![instruction_at(bytes, start)] + listing(
            bytes,
            start + instruction_at(bytes, start).size,
        )
    }
}

/// The bytes of an instruction: as many as its size says and the stored bytes
/// hold, then nothing.
pub open spec fn hexdump(bytes: Seq<u8>, instr: AssemblyDesc) -> Seq<Option<u8>> {
    Seq::new(
        3,
        |i: int|
            if i < instr.size && instr.offset + i < bytes.len() {
                Some(bytes[instr.offset + i])
            } else {
                None
            },
    )
}

/// The addresses that the view of the stack shows: every second address from
/// 8 below SP, where there are that many, to below 8 above SP.
pub open spec fn stack_rows(sp: u16) -> Seq<u16> {
    let lower = if sp < 8 {
        0int
    } else {
        sp - 8
    };
    let upper = if sp > 0xFFFF - 8 {
        0xFFFFint
    } else {
        sp + 8
    };
    Seq::new(((upper - lower + 1) / 2) as nat, |k: int| (lower + 2 * k) as u16)
}

impl DebuggerState {
    /// The debugger after one step. Every step lets one machine cycle pass on
    /// the timer, whether it executes an instruction, serves an interrupt or
    /// finds the processor waiting. A step that meets an unknown opcode
    /// changes nothing.
    pub open spec fn step(self) -> DebuggerState {
        if self.machine.step_result() is Ok {
            DebuggerState {
                machine: Machine {
                    cpu: self.machine.step().cpu,
                    mem: self.machine.step().mem.update_timer(4),
                },
                machine_cycles: if self.machine_cycles < usize::MAX {
                    (self.machine_cycles + 1) as usize
                } else {
                    self.machine_cycles
                },
                ..self
            }
        } else {
            self
        }
    }

    /// Whether a run stops before it takes a step: at a breakpoint, or at an
    /// unknown opcode.
    pub open spec fn stops(self) -> bool {
        self.breakpoints.contains(self.machine.cpu.pc) || self.machine.step_result() is Err
    }

    /// The debugger after a run of at most `budget` steps.
    pub open spec fn run(self, budget: nat) -> DebuggerState
        decreases budget,
    {
        if budget == 0 || self.stops() {
            self
        } else {
            self.step().run((budget - 1) as nat)
        }
    }

    /// The steps that a run of at most `budget` steps takes.
    pub open spec fn steps(self, budget: nat) -> nat
        decreases budget,
    {
        if budget == 0 || self.stops() {
            0
        } else {
            1 + self.step().steps((budget - 1) as nat)
        }
    }

    /// What a run of at most `budget` steps reports: the error of the step
    /// that it could not take, if it took fewer than `budget` steps and ended
    /// at no breakpoint; else the number of steps it took.
    pub open spec fn outcome(self, budget: nat) -> Result<usize, CpuError> {
        let end = self.run(budget);
        match end.machine.step_result() {
            Err(error) => if self.steps(budget) < budget && !end.breakpoints.contains(
                end.machine.cpu.pc,
            ) {
                Err(error)
            } else {
                Ok(self.steps(budget) as usize)
            },
            Ok(_) => Ok(self.steps(budget) as usize),
        }
    }
}

pub struct Debugger {
    cpu: Cpu,
    memory: Memory,
    breakpoints: HashSet<u16>,
    machine_cycles: usize,
}

impl View for Debugger {
    type V = DebuggerState;

    closed spec fn view(&self) -> DebuggerState {
        DebuggerState {
            machine: self.cpu.on(&self.memory),
            breakpoints: self.breakpoints@,
            machine_cycles: self.machine_cycles,
        }
    }
}

impl Debugger {
    pub fn new() -> (debugger: Debugger)
        ensures
            debugger@.machine.cpu == crate::cpu::machine::CpuState::boot(),
            debugger@.machine.mem == MemoryState::boot(),
            debugger@.breakpoints == Set::<u16>::empty(),
            debugger@.machine_cycles == 0,
    {
        Debugger {
            cpu: Cpu::default(),
            memory: Memory::default(),
            breakpoints: HashSet::new(),
            machine_cycles: 0,
        }
    }

    /// Stores the bytes of a cartridge from address 0 on.
    pub fn load_cartridge(&mut self, bytes: &[u8])
        requires
            bytes@.len() <= 0x10000,
        ensures
            final(self)@ == (DebuggerState {
                machine: Machine { mem: old(self)@.machine.mem.load(bytes@), ..old(self)@.machine },
                ..old(self)@
            }),
    {
        self.memory.load_cartridge(bytes);
    }

    /// The bytes of an instruction for display.
    pub fn generate_hexdump(instr: &AssemblyDesc, memory: &[u8]) -> (dump: [Option<u8>; 3])
        ensures
            dump@ == hexdump(memory@, *instr),
    {
        let offset = instr.offset as usize;
        let mut dump: [Option<u8>; 3] = [None, None, None];
        let mut i: usize = 0;
        while i < 3
            invariant
                i <= 3,
                offset == instr.offset,
                forall|k: int| 0 <= k < i ==> dump@[k] == hexdump(memory@, *instr)[k],
                forall|k: int| i <= k < 3 ==> dump@[k] == None::<u8>,
            decreases 3 - i,
        {
            if i < instr.size as usize && offset + i < memory.len() {
                dump[i] = Some(memory[offset + i]);
            }
            i = i + 1;
        }
        assert(dump@ =~= hexdump(memory@, *instr));
        dump
    }

    /// Disassembles the stored bytes from address 0 on: `disassembly_cache`
    /// gets the instructions in their order, each with its bytes, and
    /// `disassembly_map` gets, for the address of each instruction and for no
    /// other address, the instruction's place in the cache.
    pub fn disassemble(
        &self,
        disassembly_cache: &mut Vec<([Option<u8>; 3], AssemblyDesc)>,
        disassembly_map: &mut HashMap<u16, usize>,
    )
        ensures
            final(disassembly_cache)@.len() == listing(self@.machine.mem.bytes, 0).len(),
            forall|i: int|
                0 <= i < final(disassembly_cache)@.len() ==> {
                    &&& (#[trigger] final(disassembly_cache)@[i]).1 == listing(
                        self@.machine.mem.bytes,
                        0,
                    )[i]
                    &&& final(disassembly_cache)@[i].0@ == hexdump(
                        self@.machine.mem.bytes,
                        final(disassembly_cache)@[i].1,
                    )
                    &&& final(disassembly_map)@.contains_key(final(disassembly_cache)@[i].1.offset)
                    &&& final(disassembly_map)@[final(disassembly_cache)@[i].1.offset] == i
                },
            forall|addr: u16| #[trigger]
                final(disassembly_map)@.contains_key(addr) ==> {
                    &&& final(disassembly_map)@[addr] < final(disassembly_cache)@.len()
                    &&& final(disassembly_cache)@[final(disassembly_map)@[addr] as int].1.offset
                        == addr
                },
    {
        broadcast use vstd::std_specs::hash::group_hash_axioms;

        disassembly_cache.clear();
        disassembly_map.clear();
        let memory = self.memory.get_mem_slice();
        let ghost bytes = memory@;
        let ghost all = listing(bytes, 0);
        let mut start: usize = 0x0000;
        while start < 0xFFFF
            invariant
                bytes == memory@,
                bytes == self@.machine.mem.bytes,
                bytes.len() == 0x10000,
                all == listing(bytes, 0),
                start <= 0x10001,
                all =~= Seq::new(disassembly_cache@.len(), |i: int| disassembly_cache@[i].1)
                    + listing(bytes, start as int),
                forall|i: int|
                    0 <= i < disassembly_cache@.len() ==> {
                        &&& (#[trigger] disassembly_cache@[i]).1.offset < start
                        &&& disassembly_cache@[i].0@ == hexdump(bytes, disassembly_cache@[i].1)
                        &&& disassembly_map@.contains_key(disassembly_cache@[i].1.offset)
                        &&& disassembly_map@[disassembly_cache@[i].1.offset] == i
                    },
                forall|addr: u16| #[trigger]
                    disassembly_map@.contains_key(addr) ==> {
                        &&& disassembly_map@[addr] < disassembly_cache@.len()
                        &&& disassembly_cache@[disassembly_map@[addr] as int].1.offset == addr
                    },
            decreases 0x10001 - start,
        {
            let opcode = memory[start];
            let arg_lo = if start + 1 < memory.len() {
                memory[start + 1]
            } else {
                0
            };
            let arg_hi = if start + 2 < memory.len() {
                memory[start + 2]
            } else {
                0
            };
            let instruction = AssemblyDesc::disassemble(start as u16, opcode, arg_lo, arg_hi);
            proof {
                AssemblyDesc::lemma_size_agrees(start as u16, opcode, arg_lo, arg_hi);
                assert(instruction == instruction_at(bytes, start as int));
            }
            let ghost listed = Seq::new(
                disassembly_cache@.len(),
                |i: int| disassembly_cache@[i].1,
            );
            let ghost cache_before = disassembly_cache@;
            let ghost map_before = disassembly_map@;
            let dump = Self::generate_hexdump(&instruction, memory);
            disassembly_cache.push((dump, instruction));
            disassembly_map.insert(instruction.offset, disassembly_cache.len() - 1);
            proof {
                assert(disassembly_cache@ == cache_before.push((dump, instruction)));
                assert(disassembly_map@ == map_before.insert(
                    instruction.offset,
                    cache_before.len() as usize,
                ));
                assert(!map_before.contains_key(instruction.offset));
                assert(Seq::new(disassembly_cache@.len(), |i: int| disassembly_cache@[i].1)
                    =~= listed.push(instruction));
                assert(listed.push(instruction) + listing(
                    bytes,
                    start as int + instruction.size,
                ) =~= listed + listing(bytes, start as int));
                assert forall|i: int| 0 <= i < disassembly_cache@.len() implies {
                    &&& (#[trigger] disassembly_cache@[i]).1.offset < start + instruction.size
                    &&& disassembly_cache@[i].0@ == hexdump(bytes, disassembly_cache@[i].1)
                    &&& disassembly_map@.contains_key(disassembly_cache@[i].1.offset)
                    &&& disassembly_map@[disassembly_cache@[i].1.offset] == i
                } by {
                    if i < cache_before.len() {
                        assert(disassembly_cache@[i] == cache_before[i]);
                    }
                }
                assert forall|addr: u16| #[trigger]
                    disassembly_map@.contains_key(addr) implies {
                    &&& disassembly_map@[addr] < disassembly_cache@.len()
                    &&& disassembly_cache@[disassembly_map@[addr] as int].1.offset == addr
                } by {
                    if addr != instruction.offset {
                        assert(map_before.contains_key(addr));
                        assert(disassembly_cache@[map_before[addr] as int]
                            == cache_before[map_before[addr] as int]);
                    }
                }
            }
            start += instruction.size as usize;
        }
        proof {
            assert(listing(bytes, start as int) =~= Seq::<AssemblyDesc>::empty());
            assert(all =~= Seq::new(disassembly_cache@.len(), |i: int| disassembly_cache@[i].1));
        }
    }

    /// The view of the stack: for every second address around SP whether SP
    /// points there, the address, and the word there, low byte first.
    pub fn stack_data(&self) -> (rows: Vec<(bool, u16, u16)>)
        ensures
            rows@.len() == stack_rows(self@.machine.cpu.sp).len(),
            forall|k: int|
                0 <= k < rows@.len() ==> {
                    let at = stack_rows(self@.machine.cpu.sp)[k];
                    #[trigger] rows@[k] == (
                        at == self@.machine.cpu.sp,
                        at,
                        word_of(
                            self@.machine.mem.read((at + 1) as u16),
                            self@.machine.mem.read(at),
                        ),
                    )
                },
    {
        let mut result: Vec<(bool, u16, u16)> = Vec::new();
        let lower_stack_bound = self.cpu.sp.saturating_sub(8);
        let upper_stack_bound = self.cpu.sp.saturating_add(8);
        let ghost expected = stack_rows(self.cpu.sp);
        let mut next: u32 = lower_stack_bound as u32;
        while next < upper_stack_bound as u32
            invariant
                expected == stack_rows(self.cpu.sp),
                lower_stack_bound == if self.cpu.sp < 8 {
                    0int
                } else {
                    self.cpu.sp - 8
                },
                upper_stack_bound == if self.cpu.sp > 0xFFFF - 8 {
                    0xFFFFint
                } else {
                    self.cpu.sp + 8
                },
                lower_stack_bound <= next <= upper_stack_bound + 1,
                next == lower_stack_bound + 2 * result@.len(),
                forall|k: int|
                    0 <= k < result@.len() ==> #[trigger] result@[k] == (
                        expected[k] == self.cpu.sp,
                        expected[k],
                        word_of(
                            self@.machine.mem.read((expected[k] + 1) as u16),
                            self@.machine.mem.read(expected[k]),
                        ),
                    ),
            decreases upper_stack_bound + 1 - next,
        {
            let stackptr = next as u16;
            let low_byte = self.memory.read(stackptr);
            let high_byte = self.memory.read(stackptr + 1);
            let word = make_word(high_byte, low_byte);
            let top = self.cpu.sp == stackptr;
            result.push((top, stackptr, word));
            next = next + 2;
        }
        result
    }

    /// Sets a breakpoint at an address, or removes the one that is there.
    pub fn toggle_breakpoint(&mut self, offset: u16)
        ensures
            final(self)@ == (DebuggerState {
                breakpoints: if old(self)@.breakpoints.contains(offset) {
                    old(self)@.breakpoints.remove(offset)
                } else {
                    old(self)@.breakpoints.insert(offset)
                },
                ..old(self)@
            }),
    {
        broadcast use vstd::std_specs::hash::group_hash_axioms;

        if self.is_registered_breakpoint(offset) {
            self.breakpoints.remove(&offset);
        } else {
            self.breakpoints.insert(offset);
        }
    }

    pub fn is_registered_breakpoint(&self, offset: u16) -> (registered: bool)
        ensures
            registered == self@.breakpoints.contains(offset),
    {
        broadcast use vstd::std_specs::hash::group_hash_axioms;

        self.breakpoints.contains(&offset)
    }

    /// A register pair as four hexadecimal digits.
    pub fn get_register_word(&self, reg: RegWord) -> (text: String)
        ensures
            text@ == hex_word_text(self@.machine.cpu.regs.get16(reg)),
    {
        format_hex_word(self.cpu.regs.read_value16_from(reg))
    }

    /// A register as two hexadecimal digits.
    pub fn get_register_byte(&self, reg: RegByte) -> (text: String)
        ensures
            text@ == hex_byte_text(self@.machine.cpu.regs.get8(reg)),
    {
        format_hex_byte(self.cpu.regs.read_value8_from(reg))
    }

    pub fn get_pc_string(&self) -> (text: String)
        ensures
            text@ == hex_word_text(self@.machine.cpu.pc),
    {
        format_hex_word(self.cpu.pc)
    }

    pub fn get_sp_string(&self) -> (text: String)
        ensures
            text@ == hex_word_text(self@.machine.cpu.sp),
    {
        format_hex_word(self.cpu.sp)
    }

    /// DIV as three decimal digits.
    pub fn get_div_timer(&self) -> (text: String)
        ensures
            text@ == decimal3_text(self@.machine.mem.read(0xFF04) as int),
    {
        format_decimal3(self.memory.read(0xFF04))
    }

    /// TIMA as three decimal digits.
    pub fn get_custom_timer(&self) -> (text: String)
        ensures
            text@ == decimal3_text(self@.machine.mem.read(0xFF05) as int),
    {
        format_decimal3(self.memory.read(0xFF05))
    }

    /// The cycles per step of TIMA that TAC selects, as four decimal digits.
    pub fn get_custom_timer_tick_rate(&self) -> (text: String)
        ensures
            text@ == decimal4_text(tac_divisor(self@.machine.mem.read(0xFF07)) as int),
    {
        let tac_value = self.memory.read(0xFF07);
        let div_index = tac_value % 4;
        let current_tick_rate: u16 = match div_index {
            0 => 1024,
            1 => 16,
            2 => 64,
            _ => 256,
        };
        format_decimal4(current_tick_rate)
    }

    /// TMA as three decimal digits.
    pub fn get_timer_reset(&self) -> (text: String)
        ensures
            text@ == decimal3_text(self@.machine.mem.read(0xFF06) as int),
    {
        format_decimal3(self.memory.read(0xFF06))
    }

    /// Takes steps until PC stands at a breakpoint, a step meets an unknown
    /// opcode or `budget` steps were taken. Gives the error of the step that
    /// met an unknown opcode, and else the number of steps taken: so a run
    /// whose budget ends just before an unknown opcode gives the number.
    pub fn run(&mut self, budget: usize) -> (result: Result<usize, CpuError>)
        ensures
            final(self)@ == old(self)@.run(budget as nat),
            result == old(self)@.outcome(budget as nat),
            old(self)@.steps(budget as nat) <= budget,
            result is Err <==> final(self)@.machine.step_result() is Err && old(self)@.steps(
                budget as nat,
            ) < budget && !final(self)@.breakpoints.contains(final(self)@.machine.cpu.pc),
            result matches Ok(steps) ==> steps == old(self)@.steps(budget as nat),
            result matches Err(error) ==> final(self)@.machine.step_result() == Err::<
                usize,
                CpuError,
            >(error),
    {
        let mut steps: usize = 0;
        while steps < budget
            invariant
                steps <= budget,
                self@.run((budget - steps) as nat) == old(self)@.run(budget as nat),
                steps + self@.steps((budget - steps) as nat) == old(self)@.steps(budget as nat),
            decreases budget - steps,
        {
            if self.is_registered_breakpoint(self.cpu.pc) {
                return Ok(steps);
            }
            match self.step() {
                Ok(_) => {},
                Err(error) => {
                    return Err(error);
                },
            }
            steps = steps + 1;
        }
        Ok(steps)
    }

    /// Takes one step and lets one machine cycle pass on the timer. Gives the
    /// number of instructions executed, or the unknown opcode that was met.
    pub fn step(&mut self) -> (result: Result<usize, CpuError>)
        ensures
            final(self)@ == old(self)@.step(),
            result == old(self)@.machine.step_result(),
    {
        let result = self.cpu.cycle(&mut self.memory);
        if result.is_ok() {
            self.memory.update_timer(CLOCKS_PER_MACHINE_CYCLE);
            self.machine_cycles = self.machine_cycles.saturating_add(1);
        }
        result
    }

    pub fn get_program_counter(&self) -> (pc: usize)
        ensures
            pc == self@.machine.cpu.pc,
    {
        self.cpu.pc as usize
    }

    /// The machine cycles that have passed.
    pub fn get_machine_cycles(&self) -> (cycles: usize)
        ensures
            cycles == self@.machine_cycles,
    {
        self.machine_cycles
    }

    /// Gives the bytes sent through the debug serial port since the last call,
    /// oldest first, and forgets them.
    pub fn take_serial_output(&mut self) -> (sent: Vec<u8>)
        ensures
            sent@ == old(self)@.machine.mem.serial,
            final(self)@ == (DebuggerState {
                machine: Machine {
                    mem: MemoryState { serial: Seq::empty(), ..old(self)@.machine.mem },
                    ..old(self)@.machine
                },
                ..old(self)@
            }),
    {
        let sent = vstd::slice::slice_to_vec(self.memory.serial_output());
        self.memory.clear_serial_output();
        sent
    }

    /// The processor.
    pub fn cpu(&self) -> (cpu: &Cpu)
        ensures
            cpu@ == self@.machine.cpu,
    {
        &self.cpu
    }

    /// The address space.
    pub fn memory(&self) -> (memory: &Memory)
        ensures
            memory@ == self@.machine.mem,
    {
        &self.memory
    }
}

} // verus!
