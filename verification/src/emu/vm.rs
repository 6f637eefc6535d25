//! The execution engine: registers, memory, call stack and timers, and the step that
//! fetches, decodes and executes one instruction.

use crate::emu::font::{sprite_address, FONT_SET, FONT_SIZE};
use crate::emu::gpu::{blank_screen, blit, erases, marks, Gpu};
use crate::emu::input::{lowest_pressed, no_keys, Input};
use crate::emu::instruction::{decode, Instruction, RegisterValuePair, TargetSourcePair};
use crate::emu::iter::be_word;
use crate::emu::opcode::{instruction_of, opcode_of, Opcode};
use byteorder::{BigEndian, ByteOrder};
use vstd::prelude::*;

verus! {

/// The address at which programs are loaded and start.
pub const INITIAL_PROGRAM_COUNTER: u16 = 0x200;

/// Number of bytes of memory.
pub const MEMORY_SIZE: usize = 4096;

/// The first address of the program area.
pub const MEMORY_START: usize = 512;

/// Number of general registers.
pub const REGISTER_SIZE: usize = 16;

/// Number of return addresses that the call stack holds.
pub const STACK_SIZE: usize = 16;

/// Where execution goes on after an instruction.
#[derive(Debug, Clone, Copy, PartialEq, Eq, Structural)]
pub enum ProgramCounter {
    /// At the next instruction.
    Next,
    /// At the instruction after the next.
    Skip,
    /// At the given address.
    Jump(u16),
}

/// What the driver is to do after a step.
#[derive(Debug, Clone, Copy, PartialEq, Eq, Structural)]
pub enum ProgramState {
    /// Step again.
    Continue,
    /// Stop stepping. No instruction asks for it; it is for the driver's own use.
    Stop,
}

/// Why an instruction cannot be executed.
#[derive(Debug, Clone, Copy, PartialEq, Eq, Structural)]
pub enum Fault {
    /// A call with sixteen return addresses on the stack.
    StackOverflow,
    /// A return with no return address on the stack.
    StackUnderflow,
    /// An address beyond the end of memory, or beyond 16 bits.
    OutOfBounds,
    /// A key code above 15.
    InvalidKey,
}

/// The machine.
pub struct Vm {
    pub gpu: Gpu,
    pub input: Input,
    pub memory: [u8; 4096],
    pub registers: [u8; 16],
    pub stack: [u16; 16],
    pub stack_pointer: usize,
    pub index: u16,
    pub program_counter: u16,
    pub delay_timer: u8,
    pub sound_timer: u8,
    /// The register that waits for a key, while the machine waits for one.
    pub wait_for_key: Option<u8>,
    /// Raised by a draw instruction; lowered at the start of each step that executes one.
    pub should_draw: bool,
    /// The byte that the next random instruction draws. The driver may change it at any
    /// time; the machine never does.
    pub random_byte: u8,
}

/// The machine as a mathematical value.
pub struct Machine {
    pub memory: Seq<u8>,
    pub registers: Seq<u8>,
    pub stack: Seq<u16>,
    pub stack_pointer: int,
    pub index: u16,
    pub program_counter: u16,
    pub delay_timer: u8,
    pub sound_timer: u8,
    pub wait_for_key: Option<u8>,
    pub should_draw: bool,
    pub random_byte: u8,
    pub screen: Seq<bool>,
    pub pending_draw: bool,
    pub keys: Seq<bool>,
}

/// The flag value of a condition: 1 if it holds, 0 if not.
pub open spec fn flag(condition: bool) -> u8 {
    if condition {
        1
    } else {
        0
    }
}

/// `Skip` if the condition holds, `Next` if not.
pub open spec fn skip_when(condition: bool) -> ProgramCounter {
    if condition {
        ProgramCounter::Skip
    } else {
        ProgramCounter::Next
    }
}

/// Memory at power-on: the font at address 0, zero elsewhere.
pub open spec fn initial_memory() -> Seq<u8> {
    Seq::new(
        4096,
        |a: int|
            if a < 80 {
                FONT_SET@[a]
            } else {
                0u8
            },
    )
}

/// Memory after a program was loaded: its bytes from address 0x200 on, the rest as before.
pub open spec fn loaded_memory(memory: Seq<u8>, program: Seq<u8>) -> Seq<u8> {
    Seq::new(
        4096,
        |a: int|
            if 512 <= a < 512 + program.len() {
                program[a - 512]
            } else {
                memory[a]
            },
    )
}

/// Memory after a reset: the program area zeroed, the area below it as before.
pub open spec fn reset_memory(memory: Seq<u8>) -> Seq<u8> {
    Seq::new(
        4096,
        |a: int|
            if a < 512 {
                memory[a]
            } else {
                0u8
            },
    )
}

/// Sixteen zero bytes.
pub open spec fn zero_registers() -> Seq<u8> {
    Seq::new(16, |r: int| 0u8)
}

/// Sixteen zero words.
pub open spec fn empty_stack() -> Seq<u16> {
    Seq::new(16, |i: int| 0u16)
}

/// The timer after one tick: one less, and zero stays zero.
pub open spec fn ticked(timer: u8) -> u8 {
    if timer > 0 {
        (timer - 1) as u8
    } else {
        0
    }
}

impl Machine {
    /// The parts have their sizes, the stack pointer is within the stack, and a register that
    /// waits for a key is a register.
    pub open spec fn wf(self) -> bool {
        &&& self.memory.len() == 4096
        &&& self.registers.len() == 16
        &&& self.stack.len() == 16
        &&& self.screen.len() == 2048
        &&& self.keys.len() == 16
        &&& 0 <= self.stack_pointer <= 16
        &&& match self.wait_for_key {
            Some(register) => register < 16,
            None => true,
        }
    }

    /// The machine at power-on.
    pub open spec fn initial() -> Machine {
        Machine {
            memory: initial_memory(),
            registers: zero_registers(),
            stack: empty_stack(),
            stack_pointer: 0,
            index: 0,
            program_counter: 0x200,
            delay_timer: 0,
            sound_timer: 0,
            wait_for_key: None,
            should_draw: false,
            random_byte: 0x5D,
            screen: blank_screen(),
            pending_draw: false,
            keys: no_keys(),
        }
    }

    /// The machine after a program was loaded.
    pub open spec fn loaded(self, program: Seq<u8>) -> Machine {
        Machine { memory: loaded_memory(self.memory, program), ..self }
    }

    /// The machine after a reset. Registers, stack, index, program counter, program
    /// memory, screen and both draw flags are as at power-on and the machine waits for no
    /// key; the memory below the program area, the timers, the keys and the random byte are
    /// kept.
    pub open spec fn reset(self) -> Machine {
        Machine {
            memory: reset_memory(self.memory),
            registers: zero_registers(),
            stack: empty_stack(),
            stack_pointer: 0,
            index: 0,
            program_counter: 0x200,
            wait_for_key: None,
            should_draw: false,
            screen: blank_screen(),
            pending_draw: false,
            ..self
        }
    }

    /// The machine after a timer tick.
    pub open spec fn ticked(self) -> Machine {
        Machine {
            delay_timer: ticked(self.delay_timer),
            sound_timer: ticked(self.sound_timer),
            ..self
        }
    }

    /// The register `Vx`.
    pub open spec fn v(self, x: u8) -> u8 {
        self.registers[x as int]
    }

    /// The machine with `value` in the register `Vx`.
    pub open spec fn with_v(self, x: u8, value: u8) -> Machine {
        Machine { registers: self.registers.update(x as int, value), ..self }
    }

    /// The machine with the flag of `condition` in `VF` and then `value` in `Vx`; where `x`
    /// is 15 the value stays.
    pub open spec fn with_flag_and_v(self, condition: bool, x: u8, value: u8) -> Machine {
        self.with_v(0xF, flag(condition)).with_v(x, value)
    }

    /// The sprite of `n` rows at the index register.
    pub open spec fn sprite(self, n: u8) -> Seq<u8> {
        self.memory.subrange(self.index as int, self.index + n)
    }

    /// Why the instruction cannot be executed in this state, if it cannot.
    pub open spec fn fault_of(self, instruction: Instruction) -> Option<Fault> {
        match instruction {
            Instruction::Return => if self.stack_pointer <= 0 {
                Some(Fault::StackUnderflow)
            } else {
                None
            },
            Instruction::Call(_) => if self.stack_pointer >= 16 {
                Some(Fault::StackOverflow)
            } else if self.program_counter + 2 > u16::MAX {
                Some(Fault::OutOfBounds)
            } else {
                None
            },
            Instruction::JumpNPlusPC(addr) => if addr + self.v(0) > u16::MAX {
                Some(Fault::OutOfBounds)
            } else {
                None
            },
            Instruction::Draw { x, y, n } => if self.index + n > 4096 {
                Some(Fault::OutOfBounds)
            } else {
                None
            },
            Instruction::SkipIfKeyPressed(x) => if self.v(x) >= 16 {
                Some(Fault::InvalidKey)
            } else {
                None
            },
            Instruction::SkipIfNotKeyPressed(x) => if self.v(x) >= 16 {
                Some(Fault::InvalidKey)
            } else {
                None
            },
            Instruction::StoreBCD(_) => if self.index + 2 >= 4096 {
                Some(Fault::OutOfBounds)
            } else {
                None
            },
            Instruction::DumpRegisters(limit) => if self.index + limit >= 4096 {
                Some(Fault::OutOfBounds)
            } else {
                None
            },
            Instruction::LoadRegisters(limit) => if self.index + limit >= 4096 {
                Some(Fault::OutOfBounds)
            } else {
                None
            },
            _ => None,
        }
    }

    /// Where execution goes on after the instruction.
    pub open spec fn counter_after(self, instruction: Instruction) -> ProgramCounter {
        match instruction {
            Instruction::Return => ProgramCounter::Jump(self.stack[self.stack_pointer - 1]),
            Instruction::Jump(addr) => ProgramCounter::Jump(addr),
            Instruction::Call(addr) => ProgramCounter::Jump(addr),
            Instruction::SkipIfEq(rv) => skip_when(self.v(rv.register) == rv.value),
            Instruction::SkipIfNeq(rv) => skip_when(self.v(rv.register) != rv.value),
            Instruction::SkipIfRegEq(ts) => skip_when(self.v(ts.target) == self.v(ts.source)),
            Instruction::SkipIfDifferent(ts) => skip_when(self.v(ts.target) != self.v(ts.source)),
            Instruction::JumpNPlusPC(addr) => ProgramCounter::Jump((addr + self.v(0)) as u16),
            Instruction::SkipIfKeyPressed(x) => skip_when(self.keys[self.v(x) as int]),
            Instruction::SkipIfNotKeyPressed(x) => skip_when(!self.keys[self.v(x) as int]),
            _ => ProgramCounter::Next,
        }
    }

    /// The machine after the instruction, with the program counter as it was.
    pub open spec fn after(self, instruction: Instruction) -> Machine {
        match instruction {
            Instruction::ClearDisplay => Machine {
                screen: blank_screen(),
                pending_draw: false,
                ..self
            },
            Instruction::Return => Machine { stack_pointer: self.stack_pointer - 1, ..self },
            Instruction::Call(_) => Machine {
                stack: self.stack.update(self.stack_pointer, (self.program_counter + 2) as u16),
                stack_pointer: self.stack_pointer + 1,
                ..self
            },
            Instruction::SetReg(rv) => self.with_v(rv.register, rv.value),
            Instruction::AddValueToReg(rv) => self.with_v(
                rv.register,
                ((self.v(rv.register) + rv.value) % 256) as u8,
            ),
            Instruction::SetRegXToRegY(ts) => self.with_v(ts.target, self.v(ts.source)),
            Instruction::BitXOrY(ts) => self.with_v(
                ts.target,
                self.v(ts.target) | self.v(ts.source),
            ),
            Instruction::BitXAndY(ts) => self.with_v(
                ts.target,
                self.v(ts.target) & self.v(ts.source),
            ),
            Instruction::BitXXorY(ts) => self.with_v(
                ts.target,
                self.v(ts.target) ^ self.v(ts.source),
            ),
            Instruction::AddYToX(ts) => self.with_flag_and_v(
                self.v(ts.target) + self.v(ts.source) > 255,
                ts.target,
                ((self.v(ts.target) + self.v(ts.source)) % 256) as u8,
            ),
            Instruction::SubYFromX(ts) => self.with_flag_and_v(
                self.v(ts.target) >= self.v(ts.source),
                ts.target,
                ((self.v(ts.target) - self.v(ts.source)) % 256) as u8,
            ),
            Instruction::ShiftRight(ts) => self.with_flag_and_v(
                self.v(ts.target) % 2 == 1,
                ts.target,
                self.v(ts.target) / 2,
            ),
            Instruction::SubXFromYIntoX(ts) => self.with_flag_and_v(
                self.v(ts.source) >= self.v(ts.target),
                ts.target,
                ((self.v(ts.source) - self.v(ts.target)) % 256) as u8,
            ),
            Instruction::ShiftLeft(ts) => self.with_flag_and_v(
                self.v(ts.target) >= 128,
                ts.target,
                ((self.v(ts.target) * 2) % 256) as u8,
            ),
            Instruction::SetI(addr) => Machine { index: addr, ..self },
            Instruction::Random(rv) => self.with_v(rv.register, self.random_byte & rv.value),
            Instruction::Draw { x, y, n } => Machine {
                screen: blit(self.screen, self.v(x) as int, self.v(y) as int, self.sprite(n)),
                pending_draw: self.pending_draw || marks(
                    self.v(x) as int,
                    self.v(y) as int,
                    self.sprite(n),
                ),
                registers: self.registers.update(
                    0xF,
                    flag(erases(self.screen, self.v(x) as int, self.v(y) as int, self.sprite(n))),
                ),
                should_draw: true,
                ..self
            },
            Instruction::SetXAsDT(x) => self.with_v(x, self.delay_timer),
            Instruction::WaitInputStoreIn(x) => Machine { wait_for_key: Some(x), ..self },
            Instruction::SetDTAsX(x) => Machine { delay_timer: self.v(x), ..self },
            Instruction::SetSTAsX(x) => Machine { sound_timer: self.v(x), ..self },
            Instruction::AddXToI(x) => Machine {
                index: ((self.index + self.v(x)) % 0x10000) as u16,
                ..self
            },
            Instruction::SetIToFontSprite(x) => Machine {
                index: sprite_address(self.v(x) as int) as u16,
                ..self
            },
            Instruction::StoreBCD(x) => Machine {
                memory: self.memory.update(self.index as int, self.v(x) / 100).update(
                    self.index + 1,
                    self.v(x) % 100 / 10,
                ).update(self.index + 2, self.v(x) % 10),
                ..self
            },
            Instruction::DumpRegisters(limit) => Machine {
                memory: Seq::new(
                    4096,
                    |a: int|
                        if self.index <= a <= self.index + limit {
                            self.registers[a - self.index]
                        } else {
                            self.memory[a]
                        },
                ),
                index: (self.index + limit + 1) as u16,
                ..self
            },
            Instruction::LoadRegisters(limit) => Machine {
                registers: Seq::new(
                    16,
                    |r: int|
                        if r <= limit {
                            self.memory[self.index + r]
                        } else {
                            self.registers[r]
                        },
                ),
                index: (self.index + limit + 1) as u16,
                ..self
            },
            _ => self,
        }
    }

    /// The program counter moved as `counter` says.
    pub open spec fn moved(self, counter: ProgramCounter) -> Machine {
        Machine {
            program_counter: match counter {
                ProgramCounter::Next => (self.program_counter + 2) as u16,
                ProgramCounter::Skip => (self.program_counter + 4) as u16,
                ProgramCounter::Jump(addr) => addr,
            },
            ..self
        }
    }

    /// The word at the program counter, high byte first.
    pub open spec fn fetched(self) -> u16 {
        be_word(
            self.memory[self.program_counter as int],
            self.memory[self.program_counter + 1],
        )
    }

    /// The machine with the draw flag lowered, as it is when an instruction is executed.
    pub open spec fn lowered(self) -> Machine {
        Machine { should_draw: false, ..self }
    }

    /// Why the machine cannot take a step, if it cannot. A machine that waits for a key can:
    /// it fetches nothing.
    pub open spec fn step_fault(self) -> Option<Fault> {
        if self.wait_for_key is Some {
            None
        } else if self.program_counter + 1 >= 4096 {
            Some(Fault::OutOfBounds)
        } else {
            self.fault_of(decode(self.fetched()))
        }
    }

    /// The machine after one step. While it waits for a key nothing is executed: if a key is
    /// down, the waiting register gets the lowest code of such a key and the wait ends; if
    /// none is, nothing changes. Otherwise the draw flag is lowered, the word at the program
    /// counter is decoded and executed, and the program counter moves.
    pub open spec fn step(self) -> Machine {
        match self.wait_for_key {
            Some(register) => match lowest_pressed(self.keys) {
                Some(key) => Machine { wait_for_key: None, ..self.with_v(register, key) },
                None => self,
            },
            None => self.lowered().after(decode(self.fetched())).moved(
                self.counter_after(decode(self.fetched())),
            ),
        }
    }
}

impl View for Vm {
    type V = Machine;

    open spec fn view(&self) -> Machine {
        Machine {
            memory: self.memory@,
            registers: self.registers@,
            stack: self.stack@,
            stack_pointer: self.stack_pointer as int,
            index: self.index,
            program_counter: self.program_counter,
            delay_timer: self.delay_timer,
            sound_timer: self.sound_timer,
            wait_for_key: self.wait_for_key,
            should_draw: self.should_draw,
            random_byte: self.random_byte,
            screen: self.gpu.memory@,
            pending_draw: self.gpu.pending_draw,
            keys: self.input.keys@,
        }
    }
}

/// `Skip` if the condition holds, `Next` if not.
pub fn skip_if(condition: bool) -> (counter: ProgramCounter)
    ensures
        counter == skip_when(condition),
{
    if condition {
        ProgramCounter::Skip
    } else {
        ProgramCounter::Next
    }
}

/// Reads a big-endian word with `byteorder::ByteOrder::read_u16` of `BigEndian`: the first
/// byte is the high byte of the result and the second its low byte. The function panics on
/// fewer than two bytes, which the precondition rules out.
#[verifier::external_body]
fn read_word(bytes: &[u8]) -> (word: u16)
    requires
        bytes@.len() >= 2,
    ensures
        word == be_word(bytes@[0], bytes@[1]),
{
    BigEndian::read_u16(bytes)
}

impl Vm {
    /// The invariant of the machine: that of its value.
    pub open spec fn wf(&self) -> bool {
        self@.wf()
    }

    /// The machine at power-on: the font at the start of memory, the program counter at
    /// 0x200, everything else zero or off.
    pub fn new() -> (vm: Vm)
        ensures
            vm.wf(),
            vm@ == Machine::initial(),
    {
        let mut memory = [0u8; 4096];
        for index in 0..FONT_SIZE
            invariant
                forall|a: int| 0 <= a < index ==> memory@[a] == FONT_SET@[a],
                forall|a: int| index <= a < 4096 ==> memory@[a] == 0,
        {
            memory[index] = FONT_SET[index];
        }
        let vm = Vm {
            gpu: Gpu::new(),
            input: Input::new(),
            memory,
            registers: [0; 16],
            stack: [0; 16],
            stack_pointer: 0,
            index: 0,
            program_counter: INITIAL_PROGRAM_COUNTER,
            delay_timer: 0,
            sound_timer: 0,
            wait_for_key: None,
            should_draw: false,
            random_byte: 0x5D,
        };
        assert(vm@.memory =~= initial_memory());
        assert(vm@.registers =~= zero_registers());
        assert(vm@.stack =~= empty_stack());
        vm
    }

    /// Copies a program into memory from address 0x200 on.
    pub fn load(&mut self, buffer: Vec<u8>)
        requires
            old(self).wf(),
            buffer@.len() <= 4096 - 512,
        ensures
            final(self).wf(),
            final(self)@ == old(self)@.loaded(buffer@),
    {
        for index in 0..buffer.len()
            invariant
                buffer@.len() <= 4096 - 512,
                self@ == (Machine { memory: self.memory@, ..old(self)@ }),
                forall|a: int|
                    512 <= a < 512 + index ==> self.memory@[a] == buffer@[a - 512],
                forall|a: int|
                    0 <= a < 4096 && !(512 <= a < 512 + index) ==> self.memory@[a]
                        == old(self).memory@[a],
        {
            self.memory[index + MEMORY_START] = buffer[index];
        }
        assert(self.memory@ =~= loaded_memory(old(self).memory@, buffer@));
    }

    /// Puts the machine back to the start of its program: see `Machine::reset`.
    pub fn reset(&mut self)
        requires
            old(self).wf(),
        ensures
            final(self).wf(),
            final(self)@ == old(self)@.reset(),
    {
        for index in MEMORY_START..MEMORY_SIZE
            invariant
                self@ == (Machine { memory: self.memory@, ..old(self)@ }),
                forall|a: int| 512 <= a < index ==> self.memory@[a] == 0,
                forall|a: int|
                    0 <= a < 4096 && !(512 <= a < index) ==> self.memory@[a]
                        == old(self).memory@[a],
        {
            self.memory[index] = 0;
        }
        self.gpu.clear();
        self.registers = [0; 16];
        self.stack = [0; 16];
        self.stack_pointer = 0;
        self.index = 0;
        self.program_counter = INITIAL_PROGRAM_COUNTER;
        self.wait_for_key = None;
        self.should_draw = false;
        assert(self.memory@ =~= reset_memory(old(self).memory@));
        assert(self.registers@ =~= zero_registers());
        assert(self.stack@ =~= empty_stack());
    }

    /// One timer tick: each timer that is not zero goes down by one.
    pub fn tick_timers(&mut self)
        ensures
            final(self)@ == old(self)@.ticked(),
    {
        if self.delay_timer > 0 {
            self.delay_timer -= 1;
        }
        if self.sound_timer > 0 {
            self.sound_timer -= 1;
        }
    }

    /// The register `Vx`.
    pub fn get_register(&self, register: u8) -> (value: u8)
        requires
            register < 16,
        ensures
            value == self@.v(register),
    {
        self.registers[register as usize]
    }

    /// The byte of memory at `index`.
    pub fn get_memory(&self, index: u16) -> (value: u8)
        requires
            index < 4096,
        ensures
            value == self@.memory[index as int],
    {
        self.memory[index as usize]
    }

    /// Why the instruction of the word `opcode` cannot be executed now, if it cannot.
    pub fn instruction_fault(&self, opcode: u16) -> (fault: Option<Fault>)
        ensures
            fault == self@.fault_of(decode(opcode)),
    {
        self.check(Instruction::parse(opcode))
    }

    /// Why an instruction whose operands are in range cannot be executed now, if it cannot.
    pub fn check(&self, instruction: Instruction) -> (fault: Option<Fault>)
        requires
            instruction.in_range(),
        ensures
            fault == self@.fault_of(instruction),
    {
        match instruction {
            Instruction::Return => {
                if self.stack_pointer == 0 {
                    Some(Fault::StackUnderflow)
                } else {
                    None
                }
            },
            Instruction::Call(_) => {
                if self.stack_pointer >= STACK_SIZE {
                    Some(Fault::StackOverflow)
                } else if self.program_counter > u16::MAX - 2 {
                    Some(Fault::OutOfBounds)
                } else {
                    None
                }
            },
            Instruction::JumpNPlusPC(addr) => {
                if addr > u16::MAX - self.registers[0] as u16 {
                    Some(Fault::OutOfBounds)
                } else {
                    None
                }
            },
            Instruction::Draw { x, y, n } => {
                if self.index as usize + n as usize > MEMORY_SIZE {
                    Some(Fault::OutOfBounds)
                } else {
                    None
                }
            },
            Instruction::SkipIfKeyPressed(register) => {
                if self.registers[register as usize] >= 16 {
                    Some(Fault::InvalidKey)
                } else {
                    None
                }
            },
            Instruction::SkipIfNotKeyPressed(register) => {
                if self.registers[register as usize] >= 16 {
                    Some(Fault::InvalidKey)
                } else {
                    None
                }
            },
            Instruction::StoreBCD(_) => {
                if self.index as usize + 2 >= MEMORY_SIZE {
                    Some(Fault::OutOfBounds)
                } else {
                    None
                }
            },
            Instruction::DumpRegisters(limit) => {
                if self.index as usize + limit as usize >= MEMORY_SIZE {
                    Some(Fault::OutOfBounds)
                } else {
                    None
                }
            },
            Instruction::LoadRegisters(limit) => {
                if self.index as usize + limit as usize >= MEMORY_SIZE {
                    Some(Fault::OutOfBounds)
                } else {
                    None
                }
            },
            _ => None,
        }
    }

    /// Why the machine cannot take a step now, if it cannot.
    pub fn fault(&self) -> (fault: Option<Fault>)
        ensures
            fault == self@.step_fault(),
    {
        if self.wait_for_key.is_some() {
            None
        } else if self.program_counter as usize + 1 >= MEMORY_SIZE {
            Some(Fault::OutOfBounds)
        } else {
            let position = self.program_counter as usize;
            let opcode = read_word(&self.memory[position..position + 2]);
            self.instruction_fault(opcode)
        }
    }

    fn set_register(&mut self, register: u8, value: u8)
        requires
            register < 16,
        ensures
            final(self)@ == old(self)@.with_v(register, value),
    {
        self.registers[register as usize] = value;
    }

    fn set_vf_register(&mut self, value: u8)
        ensures
            final(self)@ == old(self)@.with_v(0xF, value),
    {
        self.registers[0xF] = value;
    }

    fn set_vf_conditional(&mut self, conditional: bool)
        ensures
            final(self)@ == old(self)@.with_v(0xF, flag(conditional)),
    {
        let value: u8 = if conditional { 1 } else { 0 };
        self.set_vf_register(value);
    }

    fn push_stack(&mut self)
        requires
            old(self).stack_pointer < 16,
            old(self).program_counter + 2 <= u16::MAX,
        ensures
            final(self)@ == (Machine {
                stack: old(self)@.stack.update(
                    old(self)@.stack_pointer,
                    (old(self).program_counter + 2) as u16,
                ),
                stack_pointer: old(self)@.stack_pointer + 1,
                ..old(self)@
            }),
    {
        self.stack[self.stack_pointer] = self.program_counter + 2;
        self.stack_pointer += 1;
    }

    fn pop_stack(&mut self) -> (addr: u16)
        requires
            0 < old(self).stack_pointer <= 16,
        ensures
            addr == old(self)@.stack[old(self)@.stack_pointer - 1],
            final(self)@ == (Machine {
                stack_pointer: old(self)@.stack_pointer - 1,
                ..old(self)@
            }),
    {
        self.stack_pointer -= 1;
        self.stack[self.stack_pointer]
    }

    fn set_memory(&mut self, index: u16, value: u8)
        requires
            index < 4096,
        ensures
            final(self)@ == (Machine {
                memory: old(self)@.memory.update(index as int, value),
                ..old(self)@
            }),
    {
        self.memory[index as usize] = value;
    }

    fn add_y_to_x(&mut self, ts: TargetSourcePair)
        requires
            ts.in_range(),
        ensures
            final(self)@ == old(self)@.after(Instruction::AddYToX(ts)),
    {
        let left = self.get_register(ts.target);
        let right = self.get_register(ts.source);
        let result = left.wrapping_add(right);
        self.set_vf_conditional(left as u16 + right as u16 > 255);
        self.set_register(ts.target, result);
    }

    fn sub_y_from_x(&mut self, ts: TargetSourcePair)
        requires
            ts.in_range(),
        ensures
            final(self)@ == old(self)@.after(Instruction::SubYFromX(ts)),
    {
        let left = self.get_register(ts.target);
        let right = self.get_register(ts.source);
        let result = left.wrapping_sub(right);
        self.set_vf_conditional(left >= right);
        self.set_register(ts.target, result);
    }

    fn sub_x_from_y_into_x(&mut self, ts: TargetSourcePair)
        requires
            ts.in_range(),
        ensures
            final(self)@ == old(self)@.after(Instruction::SubXFromYIntoX(ts)),
    {
        let left = self.get_register(ts.source);
        let right = self.get_register(ts.target);
        let result = left.wrapping_sub(right);
        self.set_vf_conditional(left >= right);
        self.set_register(ts.target, result);
    }

    fn shift_right(&mut self, ts: TargetSourcePair)
        requires
            ts.in_range(),
        ensures
            final(self)@ == old(self)@.after(Instruction::ShiftRight(ts)),
    {
        let value = self.get_register(ts.target);
        assert(value & 1 == value % 2) by (bit_vector);
        assert(value >> 1 == value / 2) by (bit_vector);
        self.set_vf_register(value & 1);
        self.set_register(ts.target, value >> 1);
    }

    fn shift_left(&mut self, ts: TargetSourcePair)
        requires
            ts.in_range(),
        ensures
            final(self)@ == old(self)@.after(Instruction::ShiftLeft(ts)),
    {
        let value = self.get_register(ts.target);
        assert(value >> 7 == if value >= 128 { 1u8 } else { 0u8 }) by (bit_vector);
        assert(value << 1 == (value * 2) % 256) by (bit_vector);
        self.set_vf_register(value >> 7);
        self.set_register(ts.target, value << 1);
    }

    fn draw_sprite(&mut self, x: u8, y: u8, n: u8)
        requires
            x < 16,
            y < 16,
            n < 16,
            old(self).index + n <= 4096,
        ensures
            final(self)@ == old(self)@.after(Instruction::Draw { x, y, n }),
    {
        let left = self.get_register(x) as usize;
        let top = self.get_register(y) as usize;
        let start = self.index as usize;
        let end = start + n as usize;
        let collision = self.gpu.draw(left, top, &self.memory[start..end]);
        self.set_vf_conditional(collision);
        self.should_draw = true;
    }

    fn store_bcd(&mut self, register: u8)
        requires
            register < 16,
            old(self).index + 2 < 4096,
        ensures
            final(self)@ == old(self)@.after(Instruction::StoreBCD(register)),
    {
        let value = self.get_register(register);
        self.set_memory(self.index, value / 100);
        self.set_memory(self.index + 1, (value % 100) / 10);
        self.set_memory(self.index + 2, value % 10);
    }

    fn dump_registers(&mut self, limit: u8)
        requires
            limit < 16,
            old(self).index + limit < 4096,
        ensures
            final(self)@ == old(self)@.after(Instruction::DumpRegisters(limit)),
    {
        let mut register: u8 = 0;
        while register <= limit
            invariant
                limit < 16,
                register <= limit + 1,
                old(self).index + limit < 4096,
                self.index == old(self).index + register,
                self@ == (Machine { memory: self.memory@, index: self.index, ..old(self)@ }),
                forall|a: int|
                    0 <= a < 4096 ==> self.memory@[a] == if old(self).index <= a < old(self).index
                        + register {
                        old(self).registers@[a - old(self).index]
                    } else {
                        old(self).memory@[a]
                    },
            decreases limit + 1 - register,
        {
            let value = self.get_register(register);
            self.set_memory(self.index, value);
            self.index += 1;
            register += 1;
        }
        assert(self@.memory =~= old(self)@.after(Instruction::DumpRegisters(limit)).memory);
    }

    fn load_registers(&mut self, limit: u8)
        requires
            limit < 16,
            old(self).index + limit < 4096,
        ensures
            final(self)@ == old(self)@.after(Instruction::LoadRegisters(limit)),
    {
        let mut register: u8 = 0;
        while register <= limit
            invariant
                limit < 16,
                register <= limit + 1,
                old(self).index + limit < 4096,
                self.index == old(self).index + register,
                self@ == (Machine { registers: self.registers@, index: self.index, ..old(self)@ }),
                forall|r: int|
                    0 <= r < 16 ==> self.registers@[r] == if r < register {
                        old(self).memory@[old(self).index + r]
                    } else {
                        old(self).registers@[r]
                    },
            decreases limit + 1 - register,
        {
            let value = self.get_memory(self.index);
            self.set_register(register, value);
            self.index += 1;
            register += 1;
        }
        assert(self@.registers =~= old(self)@.after(Instruction::LoadRegisters(limit)).registers);
    }

    /// Decodes the word `opcode`, executes its instruction and says where execution goes on.
    /// The program counter itself is left as it is.
    pub fn execute_instruction(&mut self, opcode: u16) -> (counter: ProgramCounter)
        requires
            old(self).wf(),
            old(self)@.fault_of(decode(opcode)) is None,
        ensures
            final(self).wf(),
            final(self)@ == old(self)@.after(decode(opcode)),
            counter == old(self)@.counter_after(decode(opcode)),
    {
        let instruction = Instruction::parse(opcode);
        self.execute(instruction)
    }

    /// Decodes the word `opcode` as an operation, executes it and says where execution goes
    /// on. An operation lacks only an operand that the machine does not use, so the effect is
    /// that of `execute_instruction`.
    pub fn execute_opcode(&mut self, opcode: u16) -> (counter: ProgramCounter)
        requires
            old(self).wf(),
            old(self)@.fault_of(decode(opcode)) is None,
        ensures
            final(self).wf(),
            final(self)@ == old(self)@.after(decode(opcode)),
            counter == old(self)@.counter_after(decode(opcode)),
    {
        let operation = Opcode::parse(opcode);
        proof {
            lemma_operation_executes_alike(self@, decode(opcode));
        }
        self.execute(operation.to_instruction())
    }

    /// Executes an instruction whose operands are in range and says where execution goes on.
    /// The program counter itself is left as it is.
    pub fn execute(&mut self, instruction: Instruction) -> (counter: ProgramCounter)
        requires
            old(self).wf(),
            instruction.in_range(),
            old(self)@.fault_of(instruction) is None,
        ensures
            final(self).wf(),
            final(self)@ == old(self)@.after(instruction),
            counter == old(self)@.counter_after(instruction),
    {
        match instruction {
            Instruction::Return
            | Instruction::Jump(_)
            | Instruction::Call(_)
            | Instruction::SkipIfEq(_)
            | Instruction::SkipIfNeq(_)
            | Instruction::SkipIfRegEq(_)
            | Instruction::SkipIfDifferent(_)
            | Instruction::JumpNPlusPC(_)
            | Instruction::SkipIfKeyPressed(_)
            | Instruction::SkipIfNotKeyPressed(_) => self.execute_flow(instruction),
            Instruction::SetReg(_)
            | Instruction::AddValueToReg(_)
            | Instruction::SetRegXToRegY(_)
            | Instruction::BitXOrY(_)
            | Instruction::BitXAndY(_)
            | Instruction::BitXXorY(_)
            | Instruction::Random(_)
            | Instruction::SetXAsDT(_) => {
                self.execute_register(instruction);
                ProgramCounter::Next
            },
            Instruction::AddYToX(_)
            | Instruction::SubYFromX(_)
            | Instruction::ShiftRight(_)
            | Instruction::SubXFromYIntoX(_)
            | Instruction::ShiftLeft(_) => {
                self.execute_flagged(instruction);
                ProgramCounter::Next
            },
            Instruction::SetI(_)
            | Instruction::WaitInputStoreIn(_)
            | Instruction::SetDTAsX(_)
            | Instruction::SetSTAsX(_)
            | Instruction::AddXToI(_)
            | Instruction::SetIToFontSprite(_) => {
                self.execute_setting(instruction);
                ProgramCounter::Next
            },
            _ => {
                self.execute_other(instruction);
                ProgramCounter::Next
            },
        }
    }

    /// The instructions that decide where execution goes on: jumps, calls and skips.
    fn execute_flow(&mut self, instruction: Instruction) -> (counter: ProgramCounter)
        requires
            old(self).wf(),
            instruction.in_range(),
            old(self)@.fault_of(instruction) is None,
            instruction is Return || instruction is Jump || instruction is Call
                || instruction is SkipIfEq || instruction is SkipIfNeq
                || instruction is SkipIfRegEq || instruction is SkipIfDifferent
                || instruction is JumpNPlusPC || instruction is SkipIfKeyPressed
                || instruction is SkipIfNotKeyPressed,
        ensures
            final(self).wf(),
            final(self)@ == old(self)@.after(instruction),
            counter == old(self)@.counter_after(instruction),
    {
        match instruction {
            Instruction::Return => ProgramCounter::Jump(self.pop_stack()),
            Instruction::Jump(addr) => ProgramCounter::Jump(addr),
            Instruction::Call(addr) => {
                self.push_stack();
                ProgramCounter::Jump(addr)
            },
            Instruction::SkipIfEq(RegisterValuePair { register, value }) => {
                skip_if(self.get_register(register) == value)
            },
            Instruction::SkipIfNeq(RegisterValuePair { register, value }) => {
                skip_if(self.get_register(register) != value)
            },
            Instruction::SkipIfRegEq(TargetSourcePair { target, source }) => {
                skip_if(self.get_register(target) == self.get_register(source))
            },
            Instruction::SkipIfDifferent(TargetSourcePair { target, source }) => {
                skip_if(self.get_register(target) != self.get_register(source))
            },
            Instruction::JumpNPlusPC(addr) => {
                ProgramCounter::Jump(addr + self.get_register(0x0) as u16)
            },
            Instruction::SkipIfKeyPressed(register) => {
                let value = self.get_register(register);
                skip_if(self.input.is_pressed(value))
            },
            Instruction::SkipIfNotKeyPressed(register) => {
                let value = self.get_register(register);
                skip_if(!self.input.is_pressed(value))
            },
            _ => ProgramCounter::Next,
        }
    }

    /// The instructions that store a value in a register and leave the flag alone.
    fn execute_register(&mut self, instruction: Instruction)
        requires
            old(self).wf(),
            instruction.in_range(),
            instruction is SetReg || instruction is AddValueToReg || instruction is SetRegXToRegY
                || instruction is BitXOrY || instruction is BitXAndY || instruction is BitXXorY
                || instruction is Random || instruction is SetXAsDT,
        ensures
            final(self).wf(),
            final(self)@ == old(self)@.after(instruction),
    {
        match instruction {
            Instruction::SetReg(RegisterValuePair { register, value }) => {
                self.set_register(register, value);
            },
            Instruction::AddValueToReg(RegisterValuePair { register, value }) => {
                let sum = self.get_register(register).wrapping_add(value);
                self.set_register(register, sum);
            },
            Instruction::SetRegXToRegY(TargetSourcePair { target, source }) => {
                let value = self.get_register(source);
                self.set_register(target, value);
            },
            Instruction::BitXOrY(TargetSourcePair { target, source }) => {
                let result = self.get_register(target) | self.get_register(source);
                self.set_register(target, result);
            },
            Instruction::BitXAndY(TargetSourcePair { target, source }) => {
                let result = self.get_register(target) & self.get_register(source);
                self.set_register(target, result);
            },
            Instruction::BitXXorY(TargetSourcePair { target, source }) => {
                let result = self.get_register(target) ^ self.get_register(source);
                self.set_register(target, result);
            },
            Instruction::Random(RegisterValuePair { register, value }) => {
                let random = self.random_byte;
                self.set_register(register, random & value);
            },
            Instruction::SetXAsDT(register) => {
                let value = self.delay_timer;
                self.set_register(register, value);
            },
            _ => {},
        }
    }

    /// The instructions that compute a register and set the flag.
    fn execute_flagged(&mut self, instruction: Instruction)
        requires
            old(self).wf(),
            instruction.in_range(),
            instruction is AddYToX || instruction is SubYFromX || instruction is ShiftRight
                || instruction is SubXFromYIntoX || instruction is ShiftLeft,
        ensures
            final(self).wf(),
            final(self)@ == old(self)@.after(instruction),
    {
        match instruction {
            Instruction::AddYToX(ts) => self.add_y_to_x(ts),
            Instruction::SubYFromX(ts) => self.sub_y_from_x(ts),
            Instruction::ShiftRight(ts) => self.shift_right(ts),
            Instruction::SubXFromYIntoX(ts) => self.sub_x_from_y_into_x(ts),
            Instruction::ShiftLeft(ts) => self.shift_left(ts),
            _ => {},
        }
    }

    /// The instructions on the index register, the timers and the keys.
    fn execute_setting(&mut self, instruction: Instruction)
        requires
            old(self).wf(),
            instruction.in_range(),
            instruction is SetI || instruction is WaitInputStoreIn || instruction is SetDTAsX
                || instruction is SetSTAsX || instruction is AddXToI
                || instruction is SetIToFontSprite,
        ensures
            final(self).wf(),
            final(self)@ == old(self)@.after(instruction),
    {
        match instruction {
            Instruction::SetI(value) => {
                self.index = value;
            },
            Instruction::WaitInputStoreIn(register) => {
                self.wait_for_key = Some(register);
            },
            Instruction::SetDTAsX(register) => {
                self.delay_timer = self.get_register(register);
            },
            Instruction::SetSTAsX(register) => {
                self.sound_timer = self.get_register(register);
            },
            Instruction::AddXToI(register) => {
                let result = self.index.wrapping_add(self.get_register(register) as u16);
                self.index = result;
            },
            Instruction::SetIToFontSprite(register) => {
                self.index = self.get_register(register) as u16 * 5;
            },
            _ => {},
        }
    }

    /// The instructions on the screen and on memory, and those that do nothing.
    fn execute_other(&mut self, instruction: Instruction)
        requires
            old(self).wf(),
            instruction.in_range(),
            old(self)@.fault_of(instruction) is None,
            instruction is CallMachineCode || instruction is ClearDisplay || instruction is Draw
                || instruction is StoreBCD || instruction is DumpRegisters
                || instruction is LoadRegisters || instruction is Invalid,
        ensures
            final(self).wf(),
            final(self)@ == old(self)@.after(instruction),
    {
        match instruction {
            Instruction::ClearDisplay => self.gpu.clear(),
            Instruction::Draw { x, y, n } => self.draw_sprite(x, y, n),
            Instruction::StoreBCD(register) => self.store_bcd(register),
            Instruction::DumpRegisters(limit) => self.dump_registers(limit),
            Instruction::LoadRegisters(limit) => self.load_registers(limit),
            _ => {},
        }
    }

    /// One step of the machine if it can take one: see `Machine::step`. A machine that cannot
    /// is left as it is, and the fault says why.
    pub fn step(&mut self) -> (result: Result<ProgramState, Fault>)
        requires
            old(self).wf(),
        ensures
            final(self).wf(),
            match result {
                Ok(state) => {
                    &&& old(self)@.step_fault() is None
                    &&& final(self)@ == old(self)@.step()
                    &&& state == ProgramState::Continue
                },
                Err(fault) => {
                    &&& old(self)@.step_fault() == Some(fault)
                    &&& final(self)@ == old(self)@
                },
            },
    {
        match self.fault() {
            Some(fault) => Err(fault),
            None => Ok(self.cycle()),
        }
    }

    /// One step of a machine that can take one: see `Machine::step`.
    pub fn cycle(&mut self) -> (state: ProgramState)
        requires
            old(self).wf(),
            old(self)@.step_fault() is None,
        ensures
            final(self).wf(),
            final(self)@ == old(self)@.step(),
            state == ProgramState::Continue,
    {
        if let Some(register) = self.wait_for_key {
            match self.input.first_pressed() {
                Some(key) => {
                    self.set_register(register, key);
                    self.wait_for_key = None;
                },
                None => {},
            }
            return ProgramState::Continue;
        }
        self.should_draw = false;
        let position = self.program_counter as usize;
        let opcode = read_word(&self.memory[position..position + 2]);
        let counter = self.execute_instruction(opcode);
        self.program_counter =
        match counter {
            ProgramCounter::Next => self.program_counter + 2,
            ProgramCounter::Skip => self.program_counter + 4,
            ProgramCounter::Jump(addr) => addr,
        };
        ProgramState::Continue
    }
}

/// A step keeps the invariant of the machine; in particular the stack pointer stays within
/// the stack.
pub proof fn lemma_step_keeps_wf(machine: Machine)
    requires
        machine.wf(),
        machine.step_fault() is None,
    ensures
        machine.step().wf(),
        0 <= machine.step().stack_pointer <= 16,
{
    if machine.wait_for_key is None {
        crate::emu::instruction::lemma_decode_canonical(machine.fetched());
    }
}

/// A shift to the right puts the least significant bit of the register, as it was before
/// the shift, into `VF`, and halves the register. Where the register is `VF` itself, the
/// halved value stays in it.
pub proof fn lemma_shift_right_flag(machine: Machine, ts: TargetSourcePair)
    requires
        machine.wf(),
        ts.in_range(),
    ensures
        ts.target != 0xF ==> machine.after(Instruction::ShiftRight(ts)).v(0xF) == machine.v(
            ts.target,
        ) % 2,
        machine.after(Instruction::ShiftRight(ts)).v(ts.target) == machine.v(ts.target) / 2,
{
}

/// A shift to the left puts the most significant bit of the register, as it was before the
/// shift, into `VF`, and doubles the register within 8 bits. Where the register is `VF`
/// itself, the doubled value stays in it.
pub proof fn lemma_shift_left_flag(machine: Machine, ts: TargetSourcePair)
    requires
        machine.wf(),
        ts.in_range(),
    ensures
        ts.target != 0xF ==> machine.after(Instruction::ShiftLeft(ts)).v(0xF) == machine.v(
            ts.target,
        ) / 128,
        machine.after(Instruction::ShiftLeft(ts)).v(ts.target) == (machine.v(ts.target) * 2) % 256,
{
}

/// Registers that were stored in memory and are loaded from the same place come back as
/// they were, whatever was done to the registers in between, and each of the two
/// instructions moves the index register past the last register.
pub proof fn lemma_dump_then_load(machine: Machine, registers: Seq<u8>, limit: u8)
    requires
        machine.wf(),
        registers.len() == 16,
        limit < 16,
        machine.index + limit < 4096,
    ensures
        machine.after(Instruction::DumpRegisters(limit)).index == machine.index + limit + 1,
        ({
            let dumped = machine.after(Instruction::DumpRegisters(limit));
            let changed = Machine { registers, index: machine.index, ..dumped };
            let loaded = changed.after(Instruction::LoadRegisters(limit));
            &&& loaded.index == machine.index + limit + 1
            &&& forall|r: int| 0 <= r <= limit ==> loaded.registers[r] == machine.registers[r]
            &&& forall|r: int| limit < r < 16 ==> loaded.registers[r] == registers[r]
        }),
{
}

/// After a call and the return from it, execution goes on behind the call, and the stack
/// pointer is where it was.
pub proof fn lemma_call_then_return(machine: Machine, addr: u16)
    requires
        machine.wf(),
        machine.fault_of(Instruction::Call(addr)) is None,
    ensures
        ({
            let called = machine.after(Instruction::Call(addr));
            &&& called.fault_of(Instruction::Return) is None
            &&& called.counter_after(Instruction::Return) == ProgramCounter::Jump(
                (machine.program_counter + 2) as u16,
            )
            &&& called.after(Instruction::Return).stack_pointer == machine.stack_pointer
        }),
{
}

/// A machine that waits for a key executes nothing: while no key is down a step changes
/// nothing, and with a key down it changes only the waiting register and the wait.
pub proof fn lemma_waiting_executes_nothing(machine: Machine, register: u8)
    requires
        machine.wf(),
        machine.wait_for_key == Some(register),
    ensures
        machine.step_fault() is None,
        lowest_pressed(machine.keys) is None ==> machine.step() == machine,
        lowest_pressed(machine.keys) is Some ==> machine.step() == (Machine {
            registers: machine.registers.update(
                register as int,
                lowest_pressed(machine.keys)->Some_0,
            ),
            wait_for_key: None,
            ..machine
        }),
{
}

/// The machine does with the operation of an instruction what it does with the instruction.
pub proof fn lemma_operation_executes_alike(machine: Machine, instruction: Instruction)
    ensures
        machine.fault_of(instruction_of(opcode_of(instruction))) == machine.fault_of(instruction),
        machine.after(instruction_of(opcode_of(instruction))) == machine.after(instruction),
        machine.counter_after(instruction_of(opcode_of(instruction))) == machine.counter_after(
            instruction,
        ),
        instruction.in_range() ==> instruction_of(opcode_of(instruction)).in_range(),
{
}

/// A word that is no instruction, and a call of machine code, are never a fault and change
/// nothing; execution goes on at the next instruction.
pub proof fn lemma_unknown_words_do_nothing(machine: Machine, instruction: Instruction)
    requires
        instruction is Invalid || instruction is CallMachineCode,
    ensures
        machine.fault_of(instruction) is None,
        machine.after(instruction) == machine,
        machine.counter_after(instruction) == ProgramCounter::Next,
{
}

/// No instruction changes a timer but the one that loads it.
pub proof fn lemma_timers_change_by_loading_only(machine: Machine, instruction: Instruction)
    ensures
        !(instruction is SetDTAsX) ==> machine.after(instruction).delay_timer
            == machine.delay_timer,
        !(instruction is SetSTAsX) ==> machine.after(instruction).sound_timer
            == machine.sound_timer,
{
}

/// An addition of two registers leaves the sum, cut to 8 bits, in the target, and the carry in
/// `VF`: 1 if the sum does not fit into 8 bits, else 0.
pub proof fn lemma_add_sets_carry(machine: Machine, ts: TargetSourcePair)
    requires
        machine.wf(),
        ts.in_range(),
        ts.target != 0xF,
    ensures
        machine.after(Instruction::AddYToX(ts)).v(ts.target) == (machine.v(ts.target) + machine.v(
            ts.source,
        )) % 256,
        machine.after(Instruction::AddYToX(ts)).v(0xF) == flag(
            machine.v(ts.target) + machine.v(ts.source) > 255,
        ),
{
}

/// A subtraction of the source from the target leaves the difference, cut to 8 bits, in the
/// target, and in `VF` 1 if nothing was borrowed, that is if the target was not less than the
/// source, else 0.
pub proof fn lemma_sub_sets_no_borrow(machine: Machine, ts: TargetSourcePair)
    requires
        machine.wf(),
        ts.in_range(),
        ts.target != 0xF,
    ensures
        machine.after(Instruction::SubYFromX(ts)).v(ts.target) == (machine.v(ts.target)
            - machine.v(ts.source)) % 256,
        machine.after(Instruction::SubYFromX(ts)).v(0xF) == flag(
            machine.v(ts.target) >= machine.v(ts.source),
        ),
        machine.after(Instruction::SubXFromYIntoX(ts)).v(ts.target) == (machine.v(ts.source)
            - machine.v(ts.target)) % 256,
        machine.after(Instruction::SubXFromYIntoX(ts)).v(0xF) == flag(
            machine.v(ts.source) >= machine.v(ts.target),
        ),
{
}

/// An addition of a byte to a register other than `VF` leaves `VF` as it is.
pub proof fn lemma_add_value_keeps_flag(machine: Machine, rv: RegisterValuePair)
    requires
        machine.wf(),
        rv.in_range(),
        rv.register != 0xF,
    ensures
        machine.after(Instruction::AddValueToReg(rv)).v(0xF) == machine.v(0xF),
        machine.after(Instruction::AddValueToReg(rv)).v(rv.register) == (machine.v(rv.register)
            + rv.value) % 256,
{
}

} // verus!
