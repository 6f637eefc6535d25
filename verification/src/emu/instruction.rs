//! The instruction set: decoding 16-bit instruction words and encoding them back.

use vstd::prelude::*;

verus! {

/// Two register operands: the register that is written and the one that is read.
#[derive(Debug, Clone, Copy, PartialEq, Eq, Structural)]
pub struct TargetSourcePair {
    pub target: u8,
    pub source: u8,
}

/// A register operand together with an immediate byte.
#[derive(Debug, Clone, Copy, PartialEq, Eq, Structural)]
pub struct RegisterValuePair {
    pub register: u8,
    pub value: u8,
}

/// One decoded instruction. Register operands are nibbles (0 to 15), addresses have 12 bits.
#[derive(Debug, Clone, Copy, PartialEq, Eq, Structural)]
pub enum Instruction {
    /// `0nnn`: call the machine code routine at `nnn`; ignored by this machine.
    CallMachineCode(u16),
    /// `00E0`: clear the display.
    ClearDisplay,
    /// `00EE`: return from a subroutine.
    Return,
    /// `1nnn`: jump to `nnn`.
    Jump(u16),
    /// `2nnn`: call the subroutine at `nnn`.
    Call(u16),
    /// `3xkk`: skip the next instruction if `Vx == kk`.
    SkipIfEq(RegisterValuePair),
    /// `4xkk`: skip the next instruction if `Vx != kk`.
    SkipIfNeq(RegisterValuePair),
    /// `5xy0`: skip the next instruction if `Vx == Vy`.
    SkipIfRegEq(TargetSourcePair),
    /// `6xkk`: `Vx = kk`.
    SetReg(RegisterValuePair),
    /// `7xkk`: `Vx = Vx + kk`, without touching the flag register.
    AddValueToReg(RegisterValuePair),
    /// `8xy0`: `Vx = Vy`.
    SetRegXToRegY(TargetSourcePair),
    /// `8xy1`: `Vx = Vx | Vy`.
    BitXOrY(TargetSourcePair),
    /// `8xy2`: `Vx = Vx & Vy`.
    BitXAndY(TargetSourcePair),
    /// `8xy3`: `Vx = Vx ^ Vy`.
    BitXXorY(TargetSourcePair),
    /// `8xy4`: `Vx = Vx + Vy`, `VF` = carry.
    AddYToX(TargetSourcePair),
    /// `8xy5`: `Vx = Vx - Vy`, `VF` = no borrow.
    SubYFromX(TargetSourcePair),
    /// `8xy6`: `Vx = Vx >> 1`, `VF` = the bit shifted out.
    ShiftRight(TargetSourcePair),
    /// `8xy7`: `Vx = Vy - Vx`, `VF` = no borrow.
    SubXFromYIntoX(TargetSourcePair),
    /// `8xyE`: `Vx = Vx << 1`, `VF` = the bit shifted out.
    ShiftLeft(TargetSourcePair),
    /// `9xy0`: skip the next instruction if `Vx != Vy`.
    SkipIfDifferent(TargetSourcePair),
    /// `Annn`: `I = nnn`.
    SetI(u16),
    /// `Bnnn`: jump to `nnn + V0`.
    JumpNPlusPC(u16),
    /// `Cxkk`: `Vx = random byte & kk`.
    Random(RegisterValuePair),
    /// `Dxyn`: draw the `n`-row sprite at `I` at `(Vx, Vy)`, `VF` = collision.
    Draw { x: u8, y: u8, n: u8 },
    /// `Ex9E`: skip the next instruction if the key `Vx` is down.
    SkipIfKeyPressed(u8),
    /// `ExA1`: skip the next instruction if the key `Vx` is up.
    SkipIfNotKeyPressed(u8),
    /// `Fx07`: `Vx = delay timer`.
    SetXAsDT(u8),
    /// `Fx0A`: wait for a key press and store the key in `Vx`.
    WaitInputStoreIn(u8),
    /// `Fx15`: `delay timer = Vx`.
    SetDTAsX(u8),
    /// `Fx18`: `sound timer = Vx`.
    SetSTAsX(u8),
    /// `Fx1E`: `I = I + Vx`.
    AddXToI(u8),
    /// `Fx29`: `I` = address of the font sprite of the digit `Vx`.
    SetIToFontSprite(u8),
    /// `Fx33`: store the three decimal digits of `Vx` at `I`, `I + 1`, `I + 2`.
    StoreBCD(u8),
    /// `Fx55`: store `V0..=Vx` in memory from `I` on.
    DumpRegisters(u8),
    /// `Fx65`: load `V0..=Vx` from memory from `I` on.
    LoadRegisters(u8),
    /// A word that is no instruction; it keeps the word.
    Invalid(u16),
}

/// The hexadecimal digit of `opcode` at `place`, counted from the most significant (place 0)
/// to the least significant (place 3).
pub open spec fn nibble(opcode: u16, place: int) -> u8 {
    if place == 0 {
        (opcode / 4096) as u8
    } else if place == 1 {
        (opcode / 256 % 16) as u8
    } else if place == 2 {
        (opcode / 16 % 16) as u8
    } else {
        (opcode % 16) as u8
    }
}

/// The low 12 bits of a word: its address operand.
pub open spec fn address_of(opcode: u16) -> u16 {
    opcode % 4096
}

/// The register (second nibble) and the low byte of a word.
pub open spec fn register_value_of(opcode: u16) -> RegisterValuePair {
    RegisterValuePair { register: nibble(opcode, 1), value: (opcode % 256) as u8 }
}

/// The second nibble as target and the third as source.
pub open spec fn target_source_of(opcode: u16) -> TargetSourcePair {
    TargetSourcePair { target: nibble(opcode, 1), source: nibble(opcode, 2) }
}

/// The instruction that a word stands for.
pub open spec fn decode(opcode: u16) -> Instruction {
    let group = nibble(opcode, 0);
    let x = nibble(opcode, 1);
    let last = nibble(opcode, 3);
    let low = opcode % 256;
    if group == 0x0 {
        if opcode == 0x00E0 {
            Instruction::ClearDisplay
        } else if opcode == 0x00EE {
            Instruction::Return
        } else {
            Instruction::CallMachineCode(address_of(opcode))
        }
    } else if group == 0x1 {
        Instruction::Jump(address_of(opcode))
    } else if group == 0x2 {
        Instruction::Call(address_of(opcode))
    } else if group == 0x3 {
        Instruction::SkipIfEq(register_value_of(opcode))
    } else if group == 0x4 {
        Instruction::SkipIfNeq(register_value_of(opcode))
    } else if group == 0x5 {
        if last == 0x0 {
            Instruction::SkipIfRegEq(target_source_of(opcode))
        } else {
            Instruction::Invalid(opcode)
        }
    } else if group == 0x6 {
        Instruction::SetReg(register_value_of(opcode))
    } else if group == 0x7 {
        Instruction::AddValueToReg(register_value_of(opcode))
    } else if group == 0x8 {
        if last == 0x0 {
            Instruction::SetRegXToRegY(target_source_of(opcode))
        } else if last == 0x1 {
            Instruction::BitXOrY(target_source_of(opcode))
        } else if last == 0x2 {
            Instruction::BitXAndY(target_source_of(opcode))
        } else if last == 0x3 {
            Instruction::BitXXorY(target_source_of(opcode))
        } else if last == 0x4 {
            Instruction::AddYToX(target_source_of(opcode))
        } else if last == 0x5 {
            Instruction::SubYFromX(target_source_of(opcode))
        } else if last == 0x6 {
            Instruction::ShiftRight(target_source_of(opcode))
        } else if last == 0x7 {
            Instruction::SubXFromYIntoX(target_source_of(opcode))
        } else if last == 0xE {
            Instruction::ShiftLeft(target_source_of(opcode))
        } else {
            Instruction::Invalid(opcode)
        }
    } else if group == 0x9 {
        if last == 0x0 {
            Instruction::SkipIfDifferent(target_source_of(opcode))
        } else {
            Instruction::Invalid(opcode)
        }
    } else if group == 0xA {
        Instruction::SetI(address_of(opcode))
    } else if group == 0xB {
        Instruction::JumpNPlusPC(address_of(opcode))
    } else if group == 0xC {
        Instruction::Random(register_value_of(opcode))
    } else if group == 0xD {
        Instruction::Draw { x, y: nibble(opcode, 2), n: last }
    } else if group == 0xE {
        if low == 0x9E {
            Instruction::SkipIfKeyPressed(x)
        } else if low == 0xA1 {
            Instruction::SkipIfNotKeyPressed(x)
        } else {
            Instruction::Invalid(opcode)
        }
    } else {
        if low == 0x07 {
            Instruction::SetXAsDT(x)
        } else if low == 0x0A {
            Instruction::WaitInputStoreIn(x)
        } else if low == 0x15 {
            Instruction::SetDTAsX(x)
        } else if low == 0x18 {
            Instruction::SetSTAsX(x)
        } else if low == 0x1E {
            Instruction::AddXToI(x)
        } else if low == 0x29 {
            Instruction::SetIToFontSprite(x)
        } else if low == 0x33 {
            Instruction::StoreBCD(x)
        } else if low == 0x55 {
            Instruction::DumpRegisters(x)
        } else if low == 0x65 {
            Instruction::LoadRegisters(x)
        } else {
            Instruction::Invalid(opcode)
        }
    }
}

/// The word `xkk` of a register and a byte; only the low nibble of the register counts.
pub open spec fn packed_xkk(rv: RegisterValuePair) -> u16 {
    ((rv.register % 16) * 256 + rv.value) as u16
}

/// The word `xyn` of three nibbles.
pub open spec fn packed_xyn(x: u8, y: u8, n: u8) -> int {
    x * 256 + y * 16 + n
}

/// The word that an instruction is written as.
pub open spec fn encode(instruction: Instruction) -> int {
    match instruction {
        Instruction::CallMachineCode(addr) => addr as int,
        Instruction::ClearDisplay => 0x00E0,
        Instruction::Return => 0x00EE,
        Instruction::Jump(addr) => 0x1000 + addr,
        Instruction::Call(addr) => 0x2000 + addr,
        Instruction::SkipIfEq(rv) => 0x3000 + packed_xkk(rv),
        Instruction::SkipIfNeq(rv) => 0x4000 + packed_xkk(rv),
        Instruction::SkipIfRegEq(ts) => 0x5000 + packed_xyn(ts.target, ts.source, 0x0),
        Instruction::SetReg(rv) => 0x6000 + packed_xkk(rv),
        Instruction::AddValueToReg(rv) => 0x7000 + packed_xkk(rv),
        Instruction::SetRegXToRegY(ts) => 0x8000 + packed_xyn(ts.target, ts.source, 0x0),
        Instruction::BitXOrY(ts) => 0x8000 + packed_xyn(ts.target, ts.source, 0x1),
        Instruction::BitXAndY(ts) => 0x8000 + packed_xyn(ts.target, ts.source, 0x2),
        Instruction::BitXXorY(ts) => 0x8000 + packed_xyn(ts.target, ts.source, 0x3),
        Instruction::AddYToX(ts) => 0x8000 + packed_xyn(ts.target, ts.source, 0x4),
        Instruction::SubYFromX(ts) => 0x8000 + packed_xyn(ts.target, ts.source, 0x5),
        Instruction::ShiftRight(ts) => 0x8000 + packed_xyn(ts.target, ts.source, 0x6),
        Instruction::SubXFromYIntoX(ts) => 0x8000 + packed_xyn(ts.target, ts.source, 0x7),
        Instruction::ShiftLeft(ts) => 0x8000 + packed_xyn(ts.target, ts.source, 0xE),
        Instruction::SkipIfDifferent(ts) => 0x9000 + packed_xyn(ts.target, ts.source, 0x0),
        Instruction::SetI(addr) => 0xA000 + addr,
        Instruction::JumpNPlusPC(addr) => 0xB000 + addr,
        Instruction::Random(rv) => 0xC000 + packed_xkk(rv),
        Instruction::Draw { x, y, n } => 0xD000 + packed_xyn(x, y, n),
        Instruction::SkipIfKeyPressed(x) => 0xE000 + packed_xyn(x, 0x9, 0xE),
        Instruction::SkipIfNotKeyPressed(x) => 0xE000 + packed_xyn(x, 0xA, 0x1),
        Instruction::SetXAsDT(x) => 0xF000 + packed_xyn(x, 0x0, 0x7),
        Instruction::WaitInputStoreIn(x) => 0xF000 + packed_xyn(x, 0x0, 0xA),
        Instruction::SetDTAsX(x) => 0xF000 + packed_xyn(x, 0x1, 0x5),
        Instruction::SetSTAsX(x) => 0xF000 + packed_xyn(x, 0x1, 0x8),
        Instruction::AddXToI(x) => 0xF000 + packed_xyn(x, 0x1, 0xE),
        Instruction::SetIToFontSprite(x) => 0xF000 + packed_xyn(x, 0x2, 0x9),
        Instruction::StoreBCD(x) => 0xF000 + packed_xyn(x, 0x3, 0x3),
        Instruction::DumpRegisters(x) => 0xF000 + packed_xyn(x, 0x5, 0x5),
        Instruction::LoadRegisters(x) => 0xF000 + packed_xyn(x, 0x6, 0x5),
        Instruction::Invalid(code) => code as int,
    }
}

impl TargetSourcePair {
    /// Both operands name a register.
    pub open spec fn in_range(self) -> bool {
        self.target < 16 && self.source < 16
    }
}

impl RegisterValuePair {
    /// The operand names a register.
    pub open spec fn in_range(self) -> bool {
        self.register < 16
    }
}

impl Instruction {
    /// Every operand fits its field: registers and the sprite height in a nibble, addresses
    /// in 12 bits.
    pub open spec fn in_range(self) -> bool {
        match self {
            Instruction::CallMachineCode(addr) => addr < 0x1000,
            Instruction::ClearDisplay => true,
            Instruction::Return => true,
            Instruction::Jump(addr) => addr < 0x1000,
            Instruction::Call(addr) => addr < 0x1000,
            Instruction::SkipIfEq(rv) => rv.in_range(),
            Instruction::SkipIfNeq(rv) => rv.in_range(),
            Instruction::SkipIfRegEq(ts) => ts.in_range(),
            Instruction::SetReg(rv) => rv.in_range(),
            Instruction::AddValueToReg(rv) => rv.in_range(),
            Instruction::SetRegXToRegY(ts) => ts.in_range(),
            Instruction::BitXOrY(ts) => ts.in_range(),
            Instruction::BitXAndY(ts) => ts.in_range(),
            Instruction::BitXXorY(ts) => ts.in_range(),
            Instruction::AddYToX(ts) => ts.in_range(),
            Instruction::SubYFromX(ts) => ts.in_range(),
            Instruction::ShiftRight(ts) => ts.in_range(),
            Instruction::SubXFromYIntoX(ts) => ts.in_range(),
            Instruction::ShiftLeft(ts) => ts.in_range(),
            Instruction::SkipIfDifferent(ts) => ts.in_range(),
            Instruction::SetI(addr) => addr < 0x1000,
            Instruction::JumpNPlusPC(addr) => addr < 0x1000,
            Instruction::Random(rv) => rv.in_range(),
            Instruction::Draw { x, y, n } => x < 16 && y < 16 && n < 16,
            Instruction::SkipIfKeyPressed(x) => x < 16,
            Instruction::SkipIfNotKeyPressed(x) => x < 16,
            Instruction::SetXAsDT(x) => x < 16,
            Instruction::WaitInputStoreIn(x) => x < 16,
            Instruction::SetDTAsX(x) => x < 16,
            Instruction::SetSTAsX(x) => x < 16,
            Instruction::AddXToI(x) => x < 16,
            Instruction::SetIToFontSprite(x) => x < 16,
            Instruction::StoreBCD(x) => x < 16,
            Instruction::DumpRegisters(x) => x < 16,
            Instruction::LoadRegisters(x) => x < 16,
            Instruction::Invalid(_) => true,
        }
    }

    /// The instruction is one that decoding produces: its operands are in range, and an
    /// `Invalid` holds a word that is no instruction.
    pub open spec fn is_canonical(self) -> bool {
        &&& self.in_range()
        &&& match self {
            Instruction::CallMachineCode(addr) => addr != 0x0E0 && addr != 0x0EE,
            Instruction::Invalid(code) => decode(code) == Instruction::Invalid(code),
            _ => true,
        }
    }
}

/// The pair of a target and a source register.
pub fn as_ts_pair(target: u8, source: u8) -> (pair: TargetSourcePair)
    ensures
        pair == (TargetSourcePair { target, source }),
{
    TargetSourcePair { target, source }
}

/// The pair of a register and the byte whose high nibble is `c1` and whose low nibble is `c2`.
pub fn as_rv_pair(register: u8, c1: u8, c2: u8) -> (pair: RegisterValuePair)
    requires
        c1 < 16,
        c2 < 16,
    ensures
        pair == (RegisterValuePair { register, value: (c1 * 16 + c2) as u8 }),
{
    assert((c1 << 4) | c2 == c1 * 16 + c2) by (bit_vector)
        requires
            c1 < 16,
            c2 < 16,
    ;
    RegisterValuePair { register, value: (c1 << 4) | c2 }
}

/// The address operand of a word.
pub fn as_nnn(opcode: u16) -> (addr: u16)
    ensures
        addr == address_of(opcode),
{
    assert(opcode & 0xFFF == opcode % 4096) by (bit_vector);
    opcode & 0xFFF
}

/// The four hexadecimal digits of a word, most significant first.
pub fn as_nibble_array(opcode: u16) -> (nibbles: [u8; 4])
    ensures
        forall|place: int| 0 <= place < 4 ==> nibbles[place] == nibble(opcode, place),
{
    assert((opcode & 0xF000) >> 12 == opcode / 4096) by (bit_vector);
    assert((opcode & 0x0F00) >> 8 == opcode / 256 % 16) by (bit_vector);
    assert((opcode & 0x00F0) >> 4 == opcode / 16 % 16) by (bit_vector);
    assert(opcode & 0x000F == opcode % 16) by (bit_vector);
    let first = ((opcode & 0xF000) >> 12) as u8;
    let second = ((opcode & 0x0F00) >> 8) as u8;
    let third = ((opcode & 0x00F0) >> 4) as u8;
    let fourth = (opcode & 0x000F) as u8;
    [first, second, third, fourth]
}

/// The word `xkk` of a register and a byte.
pub fn pack_xkk(rv: &RegisterValuePair) -> (word: u16)
    ensures
        word == packed_xkk(*rv),
        word < 0x1000,
{
    let register = rv.register;
    assert((((register & 0xF) as u16) << 8) == (register % 16) * 256) by (bit_vector);
    (((rv.register & 0xF) as u16) << 8) + (rv.value as u16)
}

/// The word `xyn` of three nibbles.
pub fn pack_xyn(x: u8, y: u8, n: u8) -> (word: u16)
    requires
        x < 16,
        y < 16,
        n < 16,
    ensures
        word == packed_xyn(x, y, n),
        word < 0x1000,
{
    assert(((x as u16) << 8) == x * 256) by (bit_vector);
    assert(((y as u16) << 4) == y * 16) by (bit_vector);
    ((x as u16) << 8) + ((y as u16) << 4) + (n as u16)
}

/// The word `xyn` of a register pair and a nibble.
pub fn pack_tsn(ts: &TargetSourcePair, n: u8) -> (word: u16)
    requires
        ts.in_range(),
        n < 16,
    ensures
        word == packed_xyn(ts.target, ts.source, n),
        word < 0x1000,
{
    pack_xyn(ts.target, ts.source, n)
}

impl Instruction {
    /// Decodes a word. Every word decodes; one that is no instruction gives `Invalid`.
    pub fn parse(opcode: u16) -> (instruction: Instruction)
        ensures
            instruction == decode(opcode),
            instruction.is_canonical(),
            encode(instruction) == opcode,
    {
        let nibbles = as_nibble_array(opcode);
        proof {
            lemma_nibbles_of_word(opcode);
            lemma_decode_canonical(opcode);
            lemma_encode_decode(opcode);
        }
        match (nibbles[0], nibbles[1], nibbles[2], nibbles[3]) {
            (0x0, 0x0, 0xE, 0x0) => Instruction::ClearDisplay,
            (0x0, 0x0, 0xE, 0xE) => Instruction::Return,
            (0x0, _, _, _) => Instruction::CallMachineCode(as_nnn(opcode)),
            (0x1, _, _, _) => Instruction::Jump(as_nnn(opcode)),
            (0x2, _, _, _) => Instruction::Call(as_nnn(opcode)),
            (0x3, register, c1, c2) => Instruction::SkipIfEq(as_rv_pair(register, c1, c2)),
            (0x4, register, c1, c2) => Instruction::SkipIfNeq(as_rv_pair(register, c1, c2)),
            (0x5, x, y, 0x0) => Instruction::SkipIfRegEq(as_ts_pair(x, y)),
            (0x6, register, c1, c2) => Instruction::SetReg(as_rv_pair(register, c1, c2)),
            (0x7, register, c1, c2) => Instruction::AddValueToReg(as_rv_pair(register, c1, c2)),
            (0x8, x, y, 0x0) => Instruction::SetRegXToRegY(as_ts_pair(x, y)),
            (0x8, x, y, 0x1) => Instruction::BitXOrY(as_ts_pair(x, y)),
            (0x8, x, y, 0x2) => Instruction::BitXAndY(as_ts_pair(x, y)),
            (0x8, x, y, 0x3) => Instruction::BitXXorY(as_ts_pair(x, y)),
            (0x8, x, y, 0x4) => Instruction::AddYToX(as_ts_pair(x, y)),
            (0x8, x, y, 0x5) => Instruction::SubYFromX(as_ts_pair(x, y)),
            (0x8, x, y, 0x6) => Instruction::ShiftRight(as_ts_pair(x, y)),
            (0x8, x, y, 0x7) => Instruction::SubXFromYIntoX(as_ts_pair(x, y)),
            (0x8, x, y, 0xE) => Instruction::ShiftLeft(as_ts_pair(x, y)),
            (0x9, x, y, 0x0) => Instruction::SkipIfDifferent(as_ts_pair(x, y)),
            (0xA, _, _, _) => Instruction::SetI(as_nnn(opcode)),
            (0xB, _, _, _) => Instruction::JumpNPlusPC(as_nnn(opcode)),
            (0xC, register, c1, c2) => Instruction::Random(as_rv_pair(register, c1, c2)),
            (0xD, x, y, n) => Instruction::Draw { x, y, n },
            (0xE, x, 0x9, 0xE) => Instruction::SkipIfKeyPressed(x),
            (0xE, x, 0xA, 0x1) => Instruction::SkipIfNotKeyPressed(x),
            (0xF, x, 0x0, 0x7) => Instruction::SetXAsDT(x),
            (0xF, x, 0x0, 0xA) => Instruction::WaitInputStoreIn(x),
            (0xF, x, 0x1, 0x5) => Instruction::SetDTAsX(x),
            (0xF, x, 0x1, 0x8) => Instruction::SetSTAsX(x),
            (0xF, x, 0x1, 0xE) => Instruction::AddXToI(x),
            (0xF, x, 0x2, 0x9) => Instruction::SetIToFontSprite(x),
            (0xF, x, 0x3, 0x3) => Instruction::StoreBCD(x),
            (0xF, x, 0x5, 0x5) => Instruction::DumpRegisters(x),
            (0xF, x, 0x6, 0x5) => Instruction::LoadRegisters(x),
            _ => Instruction::Invalid(opcode),
        }
    }

    /// Whether every operand fits its field, so that the instruction can be encoded.
    pub fn is_encodable(&self) -> (fits: bool)
        ensures
            fits == self.in_range(),
    {
        match self {
            Instruction::ClearDisplay | Instruction::Return | Instruction::Invalid(_) => true,
            Instruction::CallMachineCode(addr)
            | Instruction::Jump(addr)
            | Instruction::Call(addr)
            | Instruction::SetI(addr)
            | Instruction::JumpNPlusPC(addr) => *addr < 0x1000,
            Instruction::SkipIfEq(rv)
            | Instruction::SkipIfNeq(rv)
            | Instruction::SetReg(rv)
            | Instruction::AddValueToReg(rv)
            | Instruction::Random(rv) => rv.register < 16,
            Instruction::SkipIfRegEq(ts)
            | Instruction::SetRegXToRegY(ts)
            | Instruction::BitXOrY(ts)
            | Instruction::BitXAndY(ts)
            | Instruction::BitXXorY(ts)
            | Instruction::AddYToX(ts)
            | Instruction::SubYFromX(ts)
            | Instruction::ShiftRight(ts)
            | Instruction::SubXFromYIntoX(ts)
            | Instruction::ShiftLeft(ts)
            | Instruction::SkipIfDifferent(ts) => ts.target < 16 && ts.source < 16,
            Instruction::Draw { x, y, n } => *x < 16 && *y < 16 && *n < 16,
            Instruction::SkipIfKeyPressed(x)
            | Instruction::SkipIfNotKeyPressed(x)
            | Instruction::SetXAsDT(x)
            | Instruction::WaitInputStoreIn(x)
            | Instruction::SetDTAsX(x)
            | Instruction::SetSTAsX(x)
            | Instruction::AddXToI(x)
            | Instruction::SetIToFontSprite(x)
            | Instruction::StoreBCD(x)
            | Instruction::DumpRegisters(x)
            | Instruction::LoadRegisters(x) => *x < 16,
        }
    }

    /// Encodes an instruction whose operands are in range. `Invalid` gives back its word.
    pub fn to_u16(&self) -> (word: u16)
        requires
            self.in_range(),
        ensures
            word == encode(*self),
            self.is_canonical() ==> decode(word) == *self,
    {
        proof {
            if self.is_canonical() {
                lemma_decode_encode(*self);
            }
        }
        match self {
            Instruction::CallMachineCode(addr) => *addr,
            Instruction::ClearDisplay => 0x00E0,
            Instruction::Return => 0x00EE,
            Instruction::Jump(addr) => 0x1000u16 + *addr,
            Instruction::Call(addr) => 0x2000u16 + *addr,
            Instruction::SkipIfEq(rv) => 0x3000u16 + pack_xkk(rv),
            Instruction::SkipIfNeq(rv) => 0x4000u16 + pack_xkk(rv),
            Instruction::SkipIfRegEq(ts) => 0x5000u16 + pack_tsn(ts, 0),
            Instruction::SetReg(rv) => 0x6000u16 + pack_xkk(rv),
            Instruction::AddValueToReg(rv) => 0x7000u16 + pack_xkk(rv),
            Instruction::SetRegXToRegY(ts) => 0x8000u16 + pack_tsn(ts, 0),
            Instruction::BitXOrY(ts) => 0x8000u16 + pack_tsn(ts, 1),
            Instruction::BitXAndY(ts) => 0x8000u16 + pack_tsn(ts, 2),
            Instruction::BitXXorY(ts) => 0x8000u16 + pack_tsn(ts, 3),
            Instruction::AddYToX(ts) => 0x8000u16 + pack_tsn(ts, 4),
            Instruction::SubYFromX(ts) => 0x8000u16 + pack_tsn(ts, 5),
            Instruction::ShiftRight(ts) => 0x8000u16 + pack_tsn(ts, 6),
            Instruction::SubXFromYIntoX(ts) => 0x8000u16 + pack_tsn(ts, 7),
            Instruction::ShiftLeft(ts) => 0x8000u16 + pack_tsn(ts, 0xE),
            Instruction::SkipIfDifferent(ts) => 0x9000u16 + pack_tsn(ts, 0),
            Instruction::SetI(addr) => 0xA000u16 + *addr,
            Instruction::JumpNPlusPC(addr) => 0xB000u16 + *addr,
            Instruction::Random(rv) => 0xC000u16 + pack_xkk(rv),
            Instruction::Draw { x, y, n } => 0xD000u16 + pack_xyn(*x, *y, *n),
            Instruction::SkipIfKeyPressed(register) => 0xE000u16 + pack_xyn(*register, 0x9, 0xE),
            Instruction::SkipIfNotKeyPressed(register) => 0xE000u16 + pack_xyn(
                *register,
                0xA,
                0x1,
            ),
            Instruction::SetXAsDT(register) => 0xF000u16 + pack_xyn(*register, 0x0, 0x7),
            Instruction::WaitInputStoreIn(register) => 0xF000u16 + pack_xyn(*register, 0x0, 0xA),
            Instruction::SetDTAsX(register) => 0xF000u16 + pack_xyn(*register, 0x1, 0x5),
            Instruction::SetSTAsX(register) => 0xF000u16 + pack_xyn(*register, 0x1, 0x8),
            Instruction::AddXToI(register) => 0xF000u16 + pack_xyn(*register, 0x1, 0xE),
            Instruction::SetIToFontSprite(register) => 0xF000u16 + pack_xyn(*register, 0x2, 0x9),
            Instruction::StoreBCD(register) => 0xF000u16 + pack_xyn(*register, 0x3, 0x3),
            Instruction::DumpRegisters(register) => 0xF000u16 + pack_xyn(*register, 0x5, 0x5),
            Instruction::LoadRegisters(register) => 0xF000u16 + pack_xyn(*register, 0x6, 0x5),
            Instruction::Invalid(code) => *code,
        }
    }
}

proof fn lemma_sum_of_digits(opcode: u16)
    by (bit_vector)
    ensures
        opcode == (opcode / 4096) * 4096 + (opcode / 256 % 16) * 256 + (opcode / 16 % 16) * 16
            + opcode % 16,
        opcode % 4096 == (opcode / 256 % 16) * 256 + (opcode / 16 % 16) * 16 + opcode % 16,
        opcode % 256 == (opcode / 16 % 16) * 16 + opcode % 16,
        opcode / 4096 < 16,
{
}

/// A word is the sum of its four digits, each weighted by its place.
pub proof fn lemma_nibbles_of_word(opcode: u16)
    ensures
        opcode == nibble(opcode, 0) * 4096 + nibble(opcode, 1) * 256 + nibble(opcode, 2) * 16
            + nibble(opcode, 3),
        opcode % 4096 == nibble(opcode, 1) * 256 + nibble(opcode, 2) * 16 + nibble(opcode, 3),
        opcode % 256 == nibble(opcode, 2) * 16 + nibble(opcode, 3),
        forall|place: int| nibble(opcode, place) < 16,
{
    lemma_sum_of_digits(opcode);
}

proof fn lemma_digits_of_sum(group: u16, x: u16, y: u16, n: u16)
    by (bit_vector)
    requires
        group < 16,
        x < 16,
        y < 16,
        n < 16,
    ensures
        group * 4096 + x * 256 + y * 16 + n <= 0xFFFF,
        (group * 4096 + x * 256 + y * 16 + n) / 4096 == group,
        (group * 4096 + x * 256 + y * 16 + n) / 256 % 16 == x,
        (group * 4096 + x * 256 + y * 16 + n) / 16 % 16 == y,
        (group * 4096 + x * 256 + y * 16 + n) % 16 == n,
        (group * 4096 + x * 256 + y * 16 + n) % 4096 == x * 256 + y * 16 + n,
        (group * 4096 + x * 256 + y * 16 + n) % 256 == y * 16 + n,
{
}

/// The digits of the word that is built from four digits are those digits.
pub proof fn lemma_word_of_nibbles(group: u16, x: u16, y: u16, n: u16)
    requires
        group < 16,
        x < 16,
        y < 16,
        n < 16,
    ensures
        group * 4096 + x * 256 + y * 16 + n <= u16::MAX,
        nibble((group * 4096 + x * 256 + y * 16 + n) as u16, 0) == group,
        nibble((group * 4096 + x * 256 + y * 16 + n) as u16, 1) == x,
        nibble((group * 4096 + x * 256 + y * 16 + n) as u16, 2) == y,
        nibble((group * 4096 + x * 256 + y * 16 + n) as u16, 3) == n,
        (group * 4096 + x * 256 + y * 16 + n) as u16 % 4096 == x * 256 + y * 16 + n,
        (group * 4096 + x * 256 + y * 16 + n) as u16 % 256 == y * 16 + n,
{
    lemma_digits_of_sum(group, x, y, n);
}

/// Decoding gives a canonical instruction.
pub proof fn lemma_decode_canonical(opcode: u16)
    ensures
        decode(opcode).is_canonical(),
{
    lemma_nibbles_of_word(opcode);
}

/// Encoding inverts decoding: every word, when decoded and encoded again, comes back
/// unchanged, whether it is an instruction or not.
pub proof fn lemma_encode_decode(opcode: u16)
    ensures
        encode(decode(opcode)) == opcode,
{
    lemma_nibbles_of_word(opcode);
}

/// The word of a group digit and an address has that group and that address.
proof fn lemma_address_word(group: u16, addr: u16)
    requires
        group < 16,
        addr < 0x1000,
    ensures
        group * 4096 + addr <= u16::MAX,
        nibble((group * 4096 + addr) as u16, 0) == group,
        nibble((group * 4096 + addr) as u16, 1) == nibble(addr, 1),
        nibble((group * 4096 + addr) as u16, 2) == nibble(addr, 2),
        nibble((group * 4096 + addr) as u16, 3) == nibble(addr, 3),
        address_of((group * 4096 + addr) as u16) == addr,
        (group * 4096 + addr) as u16 % 256 == addr % 256,
{
    lemma_nibbles_of_word(addr);
    lemma_word_of_nibbles(
        group,
        nibble(addr, 1) as u16,
        nibble(addr, 2) as u16,
        nibble(addr, 3) as u16,
    );
}

/// The word of a group digit, a register and a byte has that group, register and byte.
proof fn lemma_xkk_word(group: u16, rv: RegisterValuePair)
    requires
        group < 16,
        rv.in_range(),
    ensures
        group * 4096 + packed_xkk(rv) <= u16::MAX,
        nibble((group * 4096 + packed_xkk(rv)) as u16, 0) == group,
        nibble((group * 4096 + packed_xkk(rv)) as u16, 3) == rv.value % 16,
        register_value_of((group * 4096 + packed_xkk(rv)) as u16) == rv,
{
    lemma_word_of_nibbles(
        group,
        rv.register as u16,
        (rv.value / 16) as u16,
        (rv.value % 16) as u16,
    );
}

/// Decoding inverts encoding on canonical instructions.
pub proof fn lemma_decode_encode(instruction: Instruction)
    requires
        instruction.is_canonical(),
    ensures
        0 <= encode(instruction) <= u16::MAX,
        decode(encode(instruction) as u16) == instruction,
{
    match instruction {
        Instruction::CallMachineCode(addr) => lemma_address_word(0x0, addr),
        Instruction::ClearDisplay => lemma_word_of_nibbles(0x0, 0x0, 0xE, 0x0),
        Instruction::Return => lemma_word_of_nibbles(0x0, 0x0, 0xE, 0xE),
        Instruction::Jump(addr) => lemma_address_word(0x1, addr),
        Instruction::Call(addr) => lemma_address_word(0x2, addr),
        Instruction::SkipIfEq(rv) => lemma_xkk_word(0x3, rv),
        Instruction::SkipIfNeq(rv) => lemma_xkk_word(0x4, rv),
        Instruction::SkipIfRegEq(ts) => lemma_word_of_nibbles(
            0x5,
            ts.target as u16,
            ts.source as u16,
            0x0,
        ),
        Instruction::SetReg(rv) => lemma_xkk_word(0x6, rv),
        Instruction::AddValueToReg(rv) => lemma_xkk_word(0x7, rv),
        Instruction::SetRegXToRegY(ts) => lemma_word_of_nibbles(
            0x8,
            ts.target as u16,
            ts.source as u16,
            0x0,
        ),
        Instruction::BitXOrY(ts) => lemma_word_of_nibbles(
            0x8,
            ts.target as u16,
            ts.source as u16,
            0x1,
        ),
        Instruction::BitXAndY(ts) => lemma_word_of_nibbles(
            0x8,
            ts.target as u16,
            ts.source as u16,
            0x2,
        ),
        Instruction::BitXXorY(ts) => lemma_word_of_nibbles(
            0x8,
            ts.target as u16,
            ts.source as u16,
            0x3,
        ),
        Instruction::AddYToX(ts) => lemma_word_of_nibbles(
            0x8,
            ts.target as u16,
            ts.source as u16,
            0x4,
        ),
        Instruction::SubYFromX(ts) => lemma_word_of_nibbles(
            0x8,
            ts.target as u16,
            ts.source as u16,
            0x5,
        ),
        Instruction::ShiftRight(ts) => lemma_word_of_nibbles(
            0x8,
            ts.target as u16,
            ts.source as u16,
            0x6,
        ),
        Instruction::SubXFromYIntoX(ts) => lemma_word_of_nibbles(
            0x8,
            ts.target as u16,
            ts.source as u16,
            0x7,
        ),
        Instruction::ShiftLeft(ts) => lemma_word_of_nibbles(
            0x8,
            ts.target as u16,
            ts.source as u16,
            0xE,
        ),
        Instruction::SkipIfDifferent(ts) => lemma_word_of_nibbles(
            0x9,
            ts.target as u16,
            ts.source as u16,
            0x0,
        ),
        Instruction::SetI(addr) => lemma_address_word(0xA, addr),
        Instruction::JumpNPlusPC(addr) => lemma_address_word(0xB, addr),
        Instruction::Random(rv) => lemma_xkk_word(0xC, rv),
        Instruction::Draw { x, y, n } => lemma_word_of_nibbles(0xD, x as u16, y as u16, n as u16),
        Instruction::SkipIfKeyPressed(x) => lemma_word_of_nibbles(0xE, x as u16, 0x9, 0xE),
        Instruction::SkipIfNotKeyPressed(x) => lemma_word_of_nibbles(0xE, x as u16, 0xA, 0x1),
        Instruction::SetXAsDT(x) => lemma_word_of_nibbles(0xF, x as u16, 0x0, 0x7),
        Instruction::WaitInputStoreIn(x) => lemma_word_of_nibbles(0xF, x as u16, 0x0, 0xA),
        Instruction::SetDTAsX(x) => lemma_word_of_nibbles(0xF, x as u16, 0x1, 0x5),
        Instruction::SetSTAsX(x) => lemma_word_of_nibbles(0xF, x as u16, 0x1, 0x8),
        Instruction::AddXToI(x) => lemma_word_of_nibbles(0xF, x as u16, 0x1, 0xE),
        Instruction::SetIToFontSprite(x) => lemma_word_of_nibbles(0xF, x as u16, 0x2, 0x9),
        Instruction::StoreBCD(x) => lemma_word_of_nibbles(0xF, x as u16, 0x3, 0x3),
        Instruction::DumpRegisters(x) => lemma_word_of_nibbles(0xF, x as u16, 0x5, 0x5),
        Instruction::LoadRegisters(x) => lemma_word_of_nibbles(0xF, x as u16, 0x6, 0x5),
        Instruction::Invalid(code) => {},
    }
}

/// A word that is no instruction is kept as it is, and encoded as it is.
pub proof fn lemma_invalid_keeps_word(opcode: u16)
    requires
        decode(opcode) is Invalid,
    ensures
        decode(opcode) == Instruction::Invalid(opcode),
        encode(decode(opcode)) == opcode,
{
}

} // verus!
