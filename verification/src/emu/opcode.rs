//! Operations: instructions without the operands that they do not use.

use crate::emu::instruction::{
    decode, encode, Instruction, RegisterValuePair, TargetSourcePair,
};
use crate::emu::mnemonic::asm_text;
use vstd::prelude::*;

verus! {

/// An operation of the machine. It is an instruction, except that a shift names only the
/// register that it shifts.
#[derive(Debug, Clone, Copy, PartialEq, Eq, Structural)]
pub enum Opcode {
    CallMachineCode(u16),
    ClearDisplay,
    Return,
    Jump(u16),
    Call(u16),
    SkipIfEq(RegisterValuePair),
    SkipIfNeq(RegisterValuePair),
    SkipIfRegEq(TargetSourcePair),
    SetReg(RegisterValuePair),
    AddValueToReg(RegisterValuePair),
    SetRegXToRegY(TargetSourcePair),
    BitXOrY(TargetSourcePair),
    BitXAndY(TargetSourcePair),
    BitXXorY(TargetSourcePair),
    AddYToX(TargetSourcePair),
    SubYFromX(TargetSourcePair),
    ShiftRight(u8),
    SubXFromYIntoX(TargetSourcePair),
    ShiftLeft(u8),
    SkipIfDifferent(TargetSourcePair),
    SetI(u16),
    JumpNPlusPC(u16),
    Random(RegisterValuePair),
    Draw { x: u8, y: u8, n: u8 },
    SkipIfKeyPressed(u8),
    SkipIfNotKeyPressed(u8),
    SetXAsDT(u8),
    WaitInputStoreIn(u8),
    SetDTAsX(u8),
    SetSTAsX(u8),
    AddXToI(u8),
    SetIToFontSprite(u8),
    StoreBCD(u8),
    DumpRegisters(u8),
    LoadRegisters(u8),
    Invalid(u16),
}

/// The operation of an instruction.
pub open spec fn opcode_of(instruction: Instruction) -> Opcode {
    match instruction {
        Instruction::CallMachineCode(addr) => Opcode::CallMachineCode(addr),
        Instruction::ClearDisplay => Opcode::ClearDisplay,
        Instruction::Return => Opcode::Return,
        Instruction::Jump(addr) => Opcode::Jump(addr),
        Instruction::Call(addr) => Opcode::Call(addr),
        Instruction::SkipIfEq(rv) => Opcode::SkipIfEq(rv),
        Instruction::SkipIfNeq(rv) => Opcode::SkipIfNeq(rv),
        Instruction::SkipIfRegEq(ts) => Opcode::SkipIfRegEq(ts),
        Instruction::SetReg(rv) => Opcode::SetReg(rv),
        Instruction::AddValueToReg(rv) => Opcode::AddValueToReg(rv),
        Instruction::SetRegXToRegY(ts) => Opcode::SetRegXToRegY(ts),
        Instruction::BitXOrY(ts) => Opcode::BitXOrY(ts),
        Instruction::BitXAndY(ts) => Opcode::BitXAndY(ts),
        Instruction::BitXXorY(ts) => Opcode::BitXXorY(ts),
        Instruction::AddYToX(ts) => Opcode::AddYToX(ts),
        Instruction::SubYFromX(ts) => Opcode::SubYFromX(ts),
        Instruction::ShiftRight(ts) => Opcode::ShiftRight(ts.target),
        Instruction::SubXFromYIntoX(ts) => Opcode::SubXFromYIntoX(ts),
        Instruction::ShiftLeft(ts) => Opcode::ShiftLeft(ts.target),
        Instruction::SkipIfDifferent(ts) => Opcode::SkipIfDifferent(ts),
        Instruction::SetI(addr) => Opcode::SetI(addr),
        Instruction::JumpNPlusPC(addr) => Opcode::JumpNPlusPC(addr),
        Instruction::Random(rv) => Opcode::Random(rv),
        Instruction::Draw { x, y, n } => Opcode::Draw { x, y, n },
        Instruction::SkipIfKeyPressed(x) => Opcode::SkipIfKeyPressed(x),
        Instruction::SkipIfNotKeyPressed(x) => Opcode::SkipIfNotKeyPressed(x),
        Instruction::SetXAsDT(x) => Opcode::SetXAsDT(x),
        Instruction::WaitInputStoreIn(x) => Opcode::WaitInputStoreIn(x),
        Instruction::SetDTAsX(x) => Opcode::SetDTAsX(x),
        Instruction::SetSTAsX(x) => Opcode::SetSTAsX(x),
        Instruction::AddXToI(x) => Opcode::AddXToI(x),
        Instruction::SetIToFontSprite(x) => Opcode::SetIToFontSprite(x),
        Instruction::StoreBCD(x) => Opcode::StoreBCD(x),
        Instruction::DumpRegisters(x) => Opcode::DumpRegisters(x),
        Instruction::LoadRegisters(x) => Opcode::LoadRegisters(x),
        Instruction::Invalid(code) => Opcode::Invalid(code),
    }
}

/// The instruction of an operation; the operand that a shift does not use is zero.
pub open spec fn instruction_of(opcode: Opcode) -> Instruction {
    match opcode {
        Opcode::CallMachineCode(addr) => Instruction::CallMachineCode(addr),
        Opcode::ClearDisplay => Instruction::ClearDisplay,
        Opcode::Return => Instruction::Return,
        Opcode::Jump(addr) => Instruction::Jump(addr),
        Opcode::Call(addr) => Instruction::Call(addr),
        Opcode::SkipIfEq(rv) => Instruction::SkipIfEq(rv),
        Opcode::SkipIfNeq(rv) => Instruction::SkipIfNeq(rv),
        Opcode::SkipIfRegEq(ts) => Instruction::SkipIfRegEq(ts),
        Opcode::SetReg(rv) => Instruction::SetReg(rv),
        Opcode::AddValueToReg(rv) => Instruction::AddValueToReg(rv),
        Opcode::SetRegXToRegY(ts) => Instruction::SetRegXToRegY(ts),
        Opcode::BitXOrY(ts) => Instruction::BitXOrY(ts),
        Opcode::BitXAndY(ts) => Instruction::BitXAndY(ts),
        Opcode::BitXXorY(ts) => Instruction::BitXXorY(ts),
        Opcode::AddYToX(ts) => Instruction::AddYToX(ts),
        Opcode::SubYFromX(ts) => Instruction::SubYFromX(ts),
        Opcode::ShiftRight(x) => Instruction::ShiftRight(TargetSourcePair { target: x, source: 0 }),
        Opcode::SubXFromYIntoX(ts) => Instruction::SubXFromYIntoX(ts),
        Opcode::ShiftLeft(x) => Instruction::ShiftLeft(TargetSourcePair { target: x, source: 0 }),
        Opcode::SkipIfDifferent(ts) => Instruction::SkipIfDifferent(ts),
        Opcode::SetI(addr) => Instruction::SetI(addr),
        Opcode::JumpNPlusPC(addr) => Instruction::JumpNPlusPC(addr),
        Opcode::Random(rv) => Instruction::Random(rv),
        Opcode::Draw { x, y, n } => Instruction::Draw { x, y, n },
        Opcode::SkipIfKeyPressed(x) => Instruction::SkipIfKeyPressed(x),
        Opcode::SkipIfNotKeyPressed(x) => Instruction::SkipIfNotKeyPressed(x),
        Opcode::SetXAsDT(x) => Instruction::SetXAsDT(x),
        Opcode::WaitInputStoreIn(x) => Instruction::WaitInputStoreIn(x),
        Opcode::SetDTAsX(x) => Instruction::SetDTAsX(x),
        Opcode::SetSTAsX(x) => Instruction::SetSTAsX(x),
        Opcode::AddXToI(x) => Instruction::AddXToI(x),
        Opcode::SetIToFontSprite(x) => Instruction::SetIToFontSprite(x),
        Opcode::StoreBCD(x) => Instruction::StoreBCD(x),
        Opcode::DumpRegisters(x) => Instruction::DumpRegisters(x),
        Opcode::LoadRegisters(x) => Instruction::LoadRegisters(x),
        Opcode::Invalid(code) => Instruction::Invalid(code),
    }
}

impl Opcode {
    /// Every operand fits its field.
    pub open spec fn in_range(self) -> bool {
        instruction_of(self).in_range()
    }

    /// The operation that a word stands for.
    pub fn parse(opcode: u16) -> (operation: Opcode)
        ensures
            operation == opcode_of(decode(opcode)),
            operation.in_range(),
    {
        Opcode::from_instruction(Instruction::parse(opcode))
    }

    /// The operation of an instruction.
    pub fn from_instruction(instruction: Instruction) -> (operation: Opcode)
        ensures
            operation == opcode_of(instruction),
            instruction.in_range() ==> operation.in_range(),
    {
        match instruction {
            Instruction::CallMachineCode(addr) => Opcode::CallMachineCode(addr),
            Instruction::ClearDisplay => Opcode::ClearDisplay,
            Instruction::Return => Opcode::Return,
            Instruction::Jump(addr) => Opcode::Jump(addr),
            Instruction::Call(addr) => Opcode::Call(addr),
            Instruction::SkipIfEq(rv) => Opcode::SkipIfEq(rv),
            Instruction::SkipIfNeq(rv) => Opcode::SkipIfNeq(rv),
            Instruction::SkipIfRegEq(ts) => Opcode::SkipIfRegEq(ts),
            Instruction::SetReg(rv) => Opcode::SetReg(rv),
            Instruction::AddValueToReg(rv) => Opcode::AddValueToReg(rv),
            Instruction::SetRegXToRegY(ts) => Opcode::SetRegXToRegY(ts),
            Instruction::BitXOrY(ts) => Opcode::BitXOrY(ts),
            Instruction::BitXAndY(ts) => Opcode::BitXAndY(ts),
            Instruction::BitXXorY(ts) => Opcode::BitXXorY(ts),
            Instruction::AddYToX(ts) => Opcode::AddYToX(ts),
            Instruction::SubYFromX(ts) => Opcode::SubYFromX(ts),
            Instruction::ShiftRight(ts) => Opcode::ShiftRight(ts.target),
            Instruction::SubXFromYIntoX(ts) => Opcode::SubXFromYIntoX(ts),
            Instruction::ShiftLeft(ts) => Opcode::ShiftLeft(ts.target),
            Instruction::SkipIfDifferent(ts) => Opcode::SkipIfDifferent(ts),
            Instruction::SetI(addr) => Opcode::SetI(addr),
            Instruction::JumpNPlusPC(addr) => Opcode::JumpNPlusPC(addr),
            Instruction::Random(rv) => Opcode::Random(rv),
            Instruction::Draw { x, y, n } => Opcode::Draw { x, y, n },
            Instruction::SkipIfKeyPressed(x) => Opcode::SkipIfKeyPressed(x),
            Instruction::SkipIfNotKeyPressed(x) => Opcode::SkipIfNotKeyPressed(x),
            Instruction::SetXAsDT(x) => Opcode::SetXAsDT(x),
            Instruction::WaitInputStoreIn(x) => Opcode::WaitInputStoreIn(x),
            Instruction::SetDTAsX(x) => Opcode::SetDTAsX(x),
            Instruction::SetSTAsX(x) => Opcode::SetSTAsX(x),
            Instruction::AddXToI(x) => Opcode::AddXToI(x),
            Instruction::SetIToFontSprite(x) => Opcode::SetIToFontSprite(x),
            Instruction::StoreBCD(x) => Opcode::StoreBCD(x),
            Instruction::DumpRegisters(x) => Opcode::DumpRegisters(x),
            Instruction::LoadRegisters(x) => Opcode::LoadRegisters(x),
            Instruction::Invalid(code) => Opcode::Invalid(code),
        }
    }

    /// The instruction of the operation; the operand that a shift does not use is zero.
    pub fn to_instruction(&self) -> (instruction: Instruction)
        ensures
            instruction == instruction_of(*self),
    {
        match *self {
            Opcode::CallMachineCode(addr) => Instruction::CallMachineCode(addr),
            Opcode::ClearDisplay => Instruction::ClearDisplay,
            Opcode::Return => Instruction::Return,
            Opcode::Jump(addr) => Instruction::Jump(addr),
            Opcode::Call(addr) => Instruction::Call(addr),
            Opcode::SkipIfEq(rv) => Instruction::SkipIfEq(rv),
            Opcode::SkipIfNeq(rv) => Instruction::SkipIfNeq(rv),
            Opcode::SkipIfRegEq(ts) => Instruction::SkipIfRegEq(ts),
            Opcode::SetReg(rv) => Instruction::SetReg(rv),
            Opcode::AddValueToReg(rv) => Instruction::AddValueToReg(rv),
            Opcode::SetRegXToRegY(ts) => Instruction::SetRegXToRegY(ts),
            Opcode::BitXOrY(ts) => Instruction::BitXOrY(ts),
            Opcode::BitXAndY(ts) => Instruction::BitXAndY(ts),
            Opcode::BitXXorY(ts) => Instruction::BitXXorY(ts),
            Opcode::AddYToX(ts) => Instruction::AddYToX(ts),
            Opcode::SubYFromX(ts) => Instruction::SubYFromX(ts),
            Opcode::ShiftRight(x) => Instruction::ShiftRight(
                TargetSourcePair { target: x, source: 0 },
            ),
            Opcode::SubXFromYIntoX(ts) => Instruction::SubXFromYIntoX(ts),
            Opcode::ShiftLeft(x) => Instruction::ShiftLeft(
                TargetSourcePair { target: x, source: 0 },
            ),
            Opcode::SkipIfDifferent(ts) => Instruction::SkipIfDifferent(ts),
            Opcode::SetI(addr) => Instruction::SetI(addr),
            Opcode::JumpNPlusPC(addr) => Instruction::JumpNPlusPC(addr),
            Opcode::Random(rv) => Instruction::Random(rv),
            Opcode::Draw { x, y, n } => Instruction::Draw { x, y, n },
            Opcode::SkipIfKeyPressed(x) => Instruction::SkipIfKeyPressed(x),
            Opcode::SkipIfNotKeyPressed(x) => Instruction::SkipIfNotKeyPressed(x),
            Opcode::SetXAsDT(x) => Instruction::SetXAsDT(x),
            Opcode::WaitInputStoreIn(x) => Instruction::WaitInputStoreIn(x),
            Opcode::SetDTAsX(x) => Instruction::SetDTAsX(x),
            Opcode::SetSTAsX(x) => Instruction::SetSTAsX(x),
            Opcode::AddXToI(x) => Instruction::AddXToI(x),
            Opcode::SetIToFontSprite(x) => Instruction::SetIToFontSprite(x),
            Opcode::StoreBCD(x) => Instruction::StoreBCD(x),
            Opcode::DumpRegisters(x) => Instruction::DumpRegisters(x),
            Opcode::LoadRegisters(x) => Instruction::LoadRegisters(x),
            Opcode::Invalid(code) => Instruction::Invalid(code),
        }
    }

    /// The word of the operation; the nibble that a shift does not use is zero.
    pub fn to_u16(&self) -> (word: u16)
        requires
            self.in_range(),
        ensures
            word == encode(instruction_of(*self)),
    {
        self.to_instruction().to_u16()
    }

    /// The assembly line of the operation.
    pub fn to_asm(&self) -> (line: String)
        ensures
            line@ == asm_text(instruction_of(*self)),
    {
        self.to_instruction().to_asm()
    }
}

/// An instruction and its operation are written as the same assembly line.
pub proof fn lemma_same_line(instruction: Instruction)
    ensures
        asm_text(instruction_of(opcode_of(instruction))) == asm_text(instruction),
{
}

} // verus!
