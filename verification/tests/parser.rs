use chippy::emu::instruction::{Instruction, RegisterValuePair, TargetSourcePair};
use chippy::parser::{from_asm, from_bytecode, to_asm, to_bytecode};

fn rv(register: u8, value: u8) -> RegisterValuePair {
    RegisterValuePair { register, value }
}

fn ts(target: u8, source: u8) -> TargetSourcePair {
    TargetSourcePair { target, source }
}

fn get_program() -> Vec<u8> {
    vec![
        0x00, 0xE0, 0x00, 0xEE, 0x02, 0x46, 0x12, 0x46, 0x23, 0x57, 0x32, 0xDE, 0x42, 0xDE,
        0x52, 0x10, 0x62, 0x18, 0x70, 0xE3, 0x81, 0x20, 0x81, 0x21, 0x81, 0x22, 0x81, 0x23,
        0x81, 0x24, 0x81, 0x25, 0x81, 0x26, 0x81, 0x27, 0x81, 0x2E, 0x93, 0xE0, 0xA1, 0x23,
        0xB1, 0x23, 0xC1, 0x23, 0xD1, 0x23, 0xE1, 0x9E, 0xE1, 0xA1, 0xF1, 0x07, 0xF1, 0x0A,
        0xF1, 0x15, 0xF1, 0x18, 0xF1, 0x1E, 0xF1, 0x29, 0xF1, 0x33, 0xF1, 0x55, 0xF1, 0x65,
        0xF1, 0x69,
    ]
}

fn get_instructions() -> Vec<Instruction> {
    vec![
        Instruction::ClearDisplay,
        Instruction::Return,
        Instruction::CallMachineCode(0x246),
        Instruction::Jump(0x246),
        Instruction::Call(0x357),
        Instruction::SkipIfEq(rv(2, 0xDE)),
        Instruction::SkipIfNeq(rv(2, 0xDE)),
        Instruction::SkipIfRegEq(ts(2, 1)),
        Instruction::SetReg(rv(2, 0x18)),
        Instruction::AddValueToReg(rv(0, 0xE3)),
        Instruction::SetRegXToRegY(ts(1, 2)),
        Instruction::BitXOrY(ts(1, 2)),
        Instruction::BitXAndY(ts(1, 2)),
        Instruction::BitXXorY(ts(1, 2)),
        Instruction::AddYToX(ts(1, 2)),
        Instruction::SubYFromX(ts(1, 2)),
        Instruction::ShiftRight(ts(1, 2)),
        Instruction::SubXFromYIntoX(ts(1, 2)),
        Instruction::ShiftLeft(ts(1, 2)),
        Instruction::SkipIfDifferent(ts(3, 0xE)),
        Instruction::SetI(0x123),
        Instruction::JumpNPlusPC(0x123),
        Instruction::Random(rv(1, 0x23)),
        Instruction::Draw { x: 1, y: 2, n: 3 },
        Instruction::SkipIfKeyPressed(1),
        Instruction::SkipIfNotKeyPressed(1),
        Instruction::SetXAsDT(1),
        Instruction::WaitInputStoreIn(1),
        Instruction::SetDTAsX(1),
        Instruction::SetSTAsX(1),
        Instruction::AddXToI(1),
        Instruction::SetIToFontSprite(1),
        Instruction::StoreBCD(1),
        Instruction::DumpRegisters(1),
        Instruction::LoadRegisters(1),
        Instruction::Invalid(0xF169),
    ]
}

fn get_asm() -> String {
    String::from(
        "cls\nret\nsys 0x246\njp 0x246\ncall 0x357\nse v2, 0xDE\nsne v2, 0xDE\nse v2, v1\nld v2, 0x18\nadd v0, 0xE3\nld v1, v2\nor v1, v2\nand v1, v2\nxor v1, v2\nadd v1, v2\nsub v1, v2\nshr v1\nsubn v1, v2\nshl v1\nsne v3, vE\nld i, 0x123\njp v0, 0x123\nrnd v1, 0x23\ndrw v1, v2, 0x3\nskp v1\nsknp v1\nld v1, dt\nld v1, k\nld dt, v1\nld st, v1\nadd i, v1\nld f, v1\nld b, v1\nld [i], v1\nld v1, [i]\nraw 0xF169",
    )
}

#[test]
fn from_bytecode_to_instruction() {
    let program = get_program();
    let instructions = from_bytecode(&program).unwrap();
    let actual = get_instructions();
    assert_eq!(instructions, actual);
}

#[test]
fn from_instructions_to_bytecode() {
    let instructions = get_instructions();
    let bytecode = to_bytecode(&instructions).unwrap();
    let actual = get_program();
    assert_eq!(bytecode, actual);
}

#[test]
fn from_instructions_to_asm() {
    let instruction = get_instructions();
    let text = to_asm(&&instruction).unwrap();
    let actual = get_asm();
    assert_eq!(text, actual);
}

#[test]
fn empty_program_is_empty_text() {
    assert_eq!(to_asm(&[]).unwrap(), "");
    assert_eq!(to_bytecode(&[]).unwrap(), Vec::<u8>::new());
    assert_eq!(from_bytecode(&[]).unwrap(), Vec::<Instruction>::new());
}

#[test]
fn single_instruction_has_no_line_feed() {
    assert_eq!(to_asm(&[Instruction::Return]).unwrap(), "ret");
}

#[test]
fn bytecode_round_trip_of_a_program() {
    let program = get_program();
    let instructions = from_bytecode(&program).unwrap();
    assert_eq!(to_bytecode(&instructions).unwrap(), program);
}

#[test]
fn from_asm_gives_the_empty_program() {
    assert_eq!(from_asm("cls\nret").unwrap(), Vec::<Instruction>::new());
}
