//! The assembly text of an instruction.

use crate::emu::instruction::{Instruction, RegisterValuePair, TargetSourcePair};
use vstd::prelude::*;
use vstd::string::StringExecFns;

verus! {

/// The upper-case hexadecimal digit for a value below 16.
pub open spec fn hex_char(digit: int) -> char {
    if digit == 0 {
        '0'
    } else if digit == 1 {
        '1'
    } else if digit == 2 {
        '2'
    } else if digit == 3 {
        '3'
    } else if digit == 4 {
        '4'
    } else if digit == 5 {
        '5'
    } else if digit == 6 {
        '6'
    } else if digit == 7 {
        '7'
    } else if digit == 8 {
        '8'
    } else if digit == 9 {
        '9'
    } else if digit == 10 {
        'A'
    } else if digit == 11 {
        'B'
    } else if digit == 12 {
        'C'
    } else if digit == 13 {
        'D'
    } else if digit == 14 {
        'E'
    } else {
        'F'
    }
}

/// The upper-case hexadecimal numeral of `value`, most significant digit first, with zeros
/// in front where it has fewer than `width` digits.
pub open spec fn hex_text(value: nat, width: nat) -> Seq<char>
    decreases value, width,
{
    if value < 16 && width <= 1 {
        seq![hex_char(value as int)]
    } else {
        hex_text(value / 16, if width > 0 { (width - 1) as nat } else { 0 }) + seq![
            hex_char((value % 16) as int),
        ]
    }
}

/// The text of a register operand: `v` and its number.
pub open spec fn register_text(register: u8) -> Seq<char> {
    "v"@ + hex_text(register as nat, 1)
}

/// A mnemonic followed by a 12-bit address.
pub open spec fn address_text(mnemonic: Seq<char>, addr: u16) -> Seq<char> {
    mnemonic + hex_text(addr as nat, 3)
}

/// A mnemonic followed by a register and a byte.
pub open spec fn register_value_text(mnemonic: Seq<char>, rv: RegisterValuePair) -> Seq<char> {
    mnemonic + hex_text(rv.register as nat, 1) + ", 0x"@ + hex_text(rv.value as nat, 2)
}

/// A mnemonic followed by two registers.
pub open spec fn target_source_text(mnemonic: Seq<char>, ts: TargetSourcePair) -> Seq<char> {
    mnemonic + hex_text(ts.target as nat, 1) + ", v"@ + hex_text(ts.source as nat, 1)
}

/// The assembly line of an instruction: a lower-case mnemonic, registers as `v` and an
/// upper-case hexadecimal digit, immediates as `0x` and upper-case hexadecimal digits, two
/// for a byte, three for an address, one for a nibble, four for a word that is no instruction.
pub open spec fn asm_text(instruction: Instruction) -> Seq<char> {
    match instruction {
        Instruction::CallMachineCode(addr) => address_text("sys 0x"@, addr),
        Instruction::ClearDisplay => "cls"@,
        Instruction::Return => "ret"@,
        Instruction::Jump(addr) => address_text("jp 0x"@, addr),
        Instruction::Call(addr) => address_text("call 0x"@, addr),
        Instruction::SkipIfEq(rv) => register_value_text("se v"@, rv),
        Instruction::SkipIfNeq(rv) => register_value_text("sne v"@, rv),
        Instruction::SkipIfRegEq(ts) => target_source_text("se v"@, ts),
        Instruction::SetReg(rv) => register_value_text("ld v"@, rv),
        Instruction::AddValueToReg(rv) => register_value_text("add v"@, rv),
        Instruction::SetRegXToRegY(ts) => target_source_text("ld v"@, ts),
        Instruction::BitXOrY(ts) => target_source_text("or v"@, ts),
        Instruction::BitXAndY(ts) => target_source_text("and v"@, ts),
        Instruction::BitXXorY(ts) => target_source_text("xor v"@, ts),
        Instruction::AddYToX(ts) => target_source_text("add v"@, ts),
        Instruction::SubYFromX(ts) => target_source_text("sub v"@, ts),
        Instruction::ShiftRight(ts) => "shr v"@ + hex_text(ts.target as nat, 1),
        Instruction::SubXFromYIntoX(ts) => target_source_text("subn v"@, ts),
        Instruction::ShiftLeft(ts) => "shl v"@ + hex_text(ts.target as nat, 1),
        Instruction::SkipIfDifferent(ts) => target_source_text("sne v"@, ts),
        Instruction::SetI(addr) => address_text("ld i, 0x"@, addr),
        Instruction::JumpNPlusPC(addr) => address_text("jp v0, 0x"@, addr),
        Instruction::Random(rv) => register_value_text("rnd v"@, rv),
        Instruction::Draw { x, y, n } => "drw v"@ + hex_text(x as nat, 1) + ", v"@ + hex_text(
            y as nat,
            1,
        ) + ", 0x"@ + hex_text(n as nat, 1),
        Instruction::SkipIfKeyPressed(x) => "skp v"@ + hex_text(x as nat, 1),
        Instruction::SkipIfNotKeyPressed(x) => "sknp v"@ + hex_text(x as nat, 1),
        Instruction::SetXAsDT(x) => "ld v"@ + hex_text(x as nat, 1) + ", dt"@,
        Instruction::WaitInputStoreIn(x) => "ld v"@ + hex_text(x as nat, 1) + ", k"@,
        Instruction::SetDTAsX(x) => "ld dt, v"@ + hex_text(x as nat, 1),
        Instruction::SetSTAsX(x) => "ld st, v"@ + hex_text(x as nat, 1),
        Instruction::AddXToI(x) => "add i, v"@ + hex_text(x as nat, 1),
        Instruction::SetIToFontSprite(x) => "ld f, v"@ + hex_text(x as nat, 1),
        Instruction::StoreBCD(x) => "ld b, v"@ + hex_text(x as nat, 1),
        Instruction::DumpRegisters(x) => "ld [i], v"@ + hex_text(x as nat, 1),
        Instruction::LoadRegisters(x) => "ld v"@ + hex_text(x as nat, 1) + ", [i]"@,
        Instruction::Invalid(code) => "raw 0x"@ + hex_text(code as nat, 4),
    }
}

/// The one-character string of a hexadecimal digit.
fn hex_digit(digit: u8) -> (text: &'static str)
    requires
        digit < 16,
    ensures
        text@ == seq![hex_char(digit as int)],
{
    proof {
        reveal_strlit("0");
        reveal_strlit("1");
        reveal_strlit("2");
        reveal_strlit("3");
        reveal_strlit("4");
        reveal_strlit("5");
        reveal_strlit("6");
        reveal_strlit("7");
        reveal_strlit("8");
        reveal_strlit("9");
        reveal_strlit("A");
        reveal_strlit("B");
        reveal_strlit("C");
        reveal_strlit("D");
        reveal_strlit("E");
        reveal_strlit("F");
    }
    let text = match digit {
        0 => "0",
        1 => "1",
        2 => "2",
        3 => "3",
        4 => "4",
        5 => "5",
        6 => "6",
        7 => "7",
        8 => "8",
        9 => "9",
        10 => "A",
        11 => "B",
        12 => "C",
        13 => "D",
        14 => "E",
        _ => "F",
    };
    assert(text@ =~= seq![hex_char(digit as int)]);
    text
}

/// Appends the hexadecimal numeral of `value`, at least `width` digits wide.
fn push_hex(text: &mut String, value: u16, width: usize)
    ensures
        final(text)@ == old(text)@ + hex_text(value as nat, width as nat),
    decreases value, width,
{
    if value >= 16 || width > 1 {
        let rest: usize = if width > 0 { width - 1 } else { 0 };
        push_hex(text, value / 16, rest);
    }
    text.append(hex_digit((value % 16) as u8));
    assert(text@ =~= old(text)@ + hex_text(value as nat, width as nat));
}

/// A mnemonic followed by a 12-bit address.
fn address_line(mnemonic: &str, addr: u16) -> (line: String)
    ensures
        line@ == address_text(mnemonic@, addr),
{
    let mut line = String::from_str(mnemonic);
    push_hex(&mut line, addr, 3);
    line
}

/// A mnemonic followed by a register and a byte.
fn register_value_line(mnemonic: &str, rv: &RegisterValuePair) -> (line: String)
    ensures
        line@ == register_value_text(mnemonic@, *rv),
{
    let mut line = String::from_str(mnemonic);
    push_hex(&mut line, rv.register as u16, 1);
    line.append(", 0x");
    push_hex(&mut line, rv.value as u16, 2);
    line
}

/// A mnemonic followed by two registers.
fn target_source_line(mnemonic: &str, ts: &TargetSourcePair) -> (line: String)
    ensures
        line@ == target_source_text(mnemonic@, *ts),
{
    let mut line = String::from_str(mnemonic);
    push_hex(&mut line, ts.target as u16, 1);
    line.append(", v");
    push_hex(&mut line, ts.source as u16, 1);
    line
}

/// A mnemonic followed by one register and, after it, a fixed ending.
fn register_line(mnemonic: &str, register: u8, ending: &str) -> (line: String)
    ensures
        line@ == mnemonic@ + hex_text(register as nat, 1) + ending@,
{
    let mut line = String::from_str(mnemonic);
    push_hex(&mut line, register as u16, 1);
    line.append(ending);
    line
}

impl Instruction {
    /// The assembly line of the instruction.
    pub fn to_asm(&self) -> (line: String)
        ensures
            line@ == asm_text(*self),
    {
        proof {
            reveal_strlit("");
        }
        let line = match self {
            Instruction::CallMachineCode(addr) => address_line("sys 0x", *addr),
            Instruction::ClearDisplay => String::from_str("cls"),
            Instruction::Return => String::from_str("ret"),
            Instruction::Jump(addr) => address_line("jp 0x", *addr),
            Instruction::Call(addr) => address_line("call 0x", *addr),
            Instruction::SkipIfEq(rv) => register_value_line("se v", rv),
            Instruction::SkipIfNeq(rv) => register_value_line("sne v", rv),
            Instruction::SkipIfRegEq(ts) => target_source_line("se v", ts),
            Instruction::SetReg(rv) => register_value_line("ld v", rv),
            Instruction::AddValueToReg(rv) => register_value_line("add v", rv),
            Instruction::SetRegXToRegY(ts) => target_source_line("ld v", ts),
            Instruction::BitXOrY(ts) => target_source_line("or v", ts),
            Instruction::BitXAndY(ts) => target_source_line("and v", ts),
            Instruction::BitXXorY(ts) => target_source_line("xor v", ts),
            Instruction::AddYToX(ts) => target_source_line("add v", ts),
            Instruction::SubYFromX(ts) => target_source_line("sub v", ts),
            Instruction::ShiftRight(ts) => register_line("shr v", ts.target, ""),
            Instruction::SubXFromYIntoX(ts) => target_source_line("subn v", ts),
            Instruction::ShiftLeft(ts) => register_line("shl v", ts.target, ""),
            Instruction::SkipIfDifferent(ts) => target_source_line("sne v", ts),
            Instruction::SetI(addr) => address_line("ld i, 0x", *addr),
            Instruction::JumpNPlusPC(addr) => address_line("jp v0, 0x", *addr),
            Instruction::Random(rv) => register_value_line("rnd v", rv),
            Instruction::Draw { x, y, n } => {
                let mut line = register_line("drw v", *x, ", v");
                push_hex(&mut line, *y as u16, 1);
                line.append(", 0x");
                push_hex(&mut line, *n as u16, 1);
                line
            },
            Instruction::SkipIfKeyPressed(register) => register_line("skp v", *register, ""),
            Instruction::SkipIfNotKeyPressed(register) => register_line("sknp v", *register, ""),
            Instruction::SetXAsDT(register) => register_line("ld v", *register, ", dt"),
            Instruction::WaitInputStoreIn(register) => register_line("ld v", *register, ", k"),
            Instruction::SetDTAsX(register) => register_line("ld dt, v", *register, ""),
            Instruction::SetSTAsX(register) => register_line("ld st, v", *register, ""),
            Instruction::AddXToI(register) => register_line("add i, v", *register, ""),
            Instruction::SetIToFontSprite(register) => register_line("ld f, v", *register, ""),
            Instruction::StoreBCD(register) => register_line("ld b, v", *register, ""),
            Instruction::DumpRegisters(register) => register_line("ld [i], v", *register, ""),
            Instruction::LoadRegisters(register) => register_line("ld v", *register, ", [i]"),
            Instruction::Invalid(code) => {
                let mut line = String::from_str("raw 0x");
                push_hex(&mut line, *code, 4);
                line
            },
        };
        assert(line@ =~= asm_text(*self));
        line
    }
}

} // verus!
