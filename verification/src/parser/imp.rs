//! Reading assembly text: one instruction per line, a mnemonic and operands with commas
//! between them.

use crate::emu::instruction::{Instruction, RegisterValuePair, TargetSourcePair};
use crate::parser::error::{faulted, LineError, LineFault, NumberError, ParseError, ParseResult};
use crate::parser::scan::{
    chars_of, find, first_index, pieces, split, split_ranges, trim, trimmed,
};
use vstd::prelude::*;
use vstd::string::{StrSliceExecFns, StringExecFns};

verus! {

/// The value of a character as a digit of the given radix, if it is one: `0` to `9`, then
/// the letters, of either case, from 10 on.
pub open spec fn digit_of(c: char, radix: int) -> Option<int> {
    let code = c as u32 as int;
    let value = if 48 <= code <= 57 {
        code - 48
    } else if 97 <= code <= 122 {
        code - 87
    } else if 65 <= code <= 90 {
        code - 55
    } else {
        36
    };
    if value < radix {
        Some(value)
    } else {
        None
    }
}

/// The value of a numeral without sign, read from the left: the first character that is no
/// digit, or the first digit with which the value exceeds `max`, is the error.
pub open spec fn digits_value(text: Seq<char>, radix: int, max: int) -> Result<int, NumberError>
    decreases text.len(),
{
    if text.len() == 0 {
        Ok(0)
    } else {
        match digits_value(text.drop_last(), radix, max) {
            Err(error) => Err(error),
            Ok(value) => match digit_of(text.last(), radix) {
                None => Err(NumberError::InvalidDigit),
                Some(digit) => if value * radix + digit > max {
                    Err(NumberError::PosOverflow)
                } else {
                    Ok(value * radix + digit)
                },
            },
        }
    }
}

/// The value of a numeral that may start with `+`. The empty text is an error, and so is a
/// sign alone.
pub open spec fn number_value(text: Seq<char>, radix: int, max: int) -> Result<int, NumberError> {
    if text.len() == 0 {
        Err(NumberError::Empty)
    } else if text.len() == 1 && (text[0] == '+' || text[0] == '-') {
        Err(NumberError::InvalidDigit)
    } else if text[0] == '+' {
        digits_value(text.drop_first(), radix, max)
    } else {
        digits_value(text, radix, max)
    }
}

/// Whether a text starts with `0x`.
pub open spec fn has_hex_prefix(text: Seq<char>) -> bool {
    text.len() >= 2 && text[0] == '0' && text[1] == 'x'
}

/// The byte that an operand stands for: hexadecimal behind `0x`, decimal without it.
pub open spec fn byte_of(token: Seq<char>) -> Result<u8, LineFault> {
    let value = if has_hex_prefix(token) {
        number_value(token.skip(2), 16, 255)
    } else {
        number_value(token, 10, 255)
    };
    match value {
        Ok(value) => Ok(value as u8),
        Err(kind) => Err(LineFault::InvalidAddress(kind)),
    }
}

/// The address that an operand stands for: hexadecimal, with or without `0x` in front.
pub open spec fn addr_of(token: Seq<char>) -> Result<u16, LineFault> {
    let value = if has_hex_prefix(token) {
        number_value(token.skip(2), 16, 0xFFFF)
    } else {
        number_value(token, 16, 0xFFFF)
    };
    match value {
        Ok(value) => Ok(value as u16),
        Err(kind) => Err(LineFault::InvalidAddress(kind)),
    }
}

/// The register that an operand stands for: `v` and one hexadecimal digit.
pub open spec fn register_of(token: Seq<char>) -> Result<u8, LineFault> {
    if token.len() == 2 && token[0] == 'v' && digit_of(token[1], 16) is Some {
        Ok(digit_of(token[1], 16)->Some_0 as u8)
    } else {
        Err(LineFault::InvalidRegister(token))
    }
}

/// The value of a character as a digit of the given radix.
fn digit(c: char, radix: u32) -> (value: Option<u32>)
    requires
        radix <= 36,
    ensures
        match value {
            Some(value) => digit_of(c, radix as int) == Some(value as int),
            None => digit_of(c, radix as int) is None,
        },
{
    let code = c as u32;
    let value: u32 = if 48 <= code && code <= 57 {
        code - 48
    } else if 97 <= code && code <= 122 {
        code - 87
    } else if 65 <= code && code <= 90 {
        code - 55
    } else {
        36
    };
    if value < radix {
        Some(value)
    } else {
        None
    }
}

/// The value of the numeral that starts at `from`, in radix 10 or 16.
fn number_from(chars: &[char], from: usize, radix: u32, max: u32) -> (result: Result<
    u32,
    NumberError,
>)
    requires
        from <= chars@.len(),
        radix == 10 || radix == 16,
        max <= 0xFFFF,
    ensures
        match result {
            Ok(value) => number_value(chars@.skip(from as int), radix as int, max as int) == Ok::<
                int,
                NumberError,
            >(value as int),
            Err(kind) => number_value(chars@.skip(from as int), radix as int, max as int) == Err::<
                int,
                NumberError,
            >(kind),
        },
{
    let to = chars.len();
    let ghost text = chars@.skip(from as int);
    if from == to {
        return Err(NumberError::Empty);
    }
    if to - from == 1 && (chars[from] == '+' || chars[from] == '-') {
        return Err(NumberError::InvalidDigit);
    }
    let start = if chars[from] == '+' {
        from + 1
    } else {
        from
    };
    let ghost digits = chars@.subrange(start as int, to as int);
    assert(digits =~= if text[0] == '+' {
        text.drop_first()
    } else {
        text
    });
    assert(number_value(text, radix as int, max as int) == digits_value(
        digits,
        radix as int,
        max as int,
    ));
    let mut value: u32 = 0;
    let mut at = start;
    while at < to
        invariant
            start <= at <= to == chars@.len(),
            number_value(chars@.skip(from as int), radix as int, max as int) == digits_value(
                digits,
                radix as int,
                max as int,
            ),
            radix == 10 || radix == 16,
            max <= 0xFFFF,
            value <= max,
            digits == chars@.subrange(start as int, to as int),
            digits_value(chars@.subrange(start as int, at as int), radix as int, max as int)
                == Ok::<int, NumberError>(value as int),
        ensures
            at == to,
        decreases to - at,
    {
        let ghost before = chars@.subrange(start as int, at as int);
        let ghost with_next = chars@.subrange(start as int, at + 1);
        proof {
            assert(with_next.drop_last() =~= before);
            assert(with_next.last() == chars@[at as int]);
            lemma_digits_prefix(digits, at + 1 - start, radix as int, max as int);
            assert(digits.take(at + 1 - start) =~= with_next);
        }
        match digit(chars[at], radix) {
            None => {
                return Err(NumberError::InvalidDigit);
            },
            Some(next) => {
                let scaled = if radix == 16 {
                    value * 16
                } else {
                    value * 10
                };
                assert(scaled == value * radix);
                if scaled + next > max {
                    return Err(NumberError::PosOverflow);
                }
                value = scaled + next;
            },
        }
        at += 1;
    }
    assert(chars@.subrange(start as int, at as int) =~= digits);
    Ok(value)
}

/// An error in a prefix of a numeral is the error of the numeral.
proof fn lemma_digits_prefix(text: Seq<char>, length: int, radix: int, max: int)
    requires
        0 <= length <= text.len(),
    ensures
        digits_value(text.take(length), radix, max) is Err ==> digits_value(text, radix, max)
            == digits_value(text.take(length), radix, max),
    decreases text.len() - length,
{
    if length < text.len() {
        assert(text.take(length + 1).drop_last() =~= text.take(length));
        lemma_digits_prefix(text, length + 1, radix, max);
    } else {
        assert(text.take(length) =~= text);
    }
}

/// Reads a byte: hexadecimal behind `0x`, decimal without it.
pub fn parse_number(number: &str) -> (result: Result<u8, LineError>)
    ensures
        faulted(result) == byte_of(number@),
{
    let chars = chars_of(number);
    let value = if chars.len() >= 2 && chars[0] == '0' && chars[1] == 'x' {
        number_from(chars.as_slice(), 2, 16, 255)
    } else {
        assert(chars@.skip(0) =~= chars@);
        number_from(chars.as_slice(), 0, 10, 255)
    };
    match value {
        Ok(value) => Ok(value as u8),
        Err(kind) => Err(LineError::InvalidAddress(kind)),
    }
}

/// Reads an address: hexadecimal, with or without `0x` in front.
pub fn parse_addr(token: &str) -> (result: Result<u16, LineError>)
    ensures
        faulted(result) == addr_of(token@),
{
    let chars = chars_of(token);
    let value = if chars.len() >= 2 && chars[0] == '0' && chars[1] == 'x' {
        number_from(chars.as_slice(), 2, 16, 0xFFFF)
    } else {
        assert(chars@.skip(0) =~= chars@);
        number_from(chars.as_slice(), 0, 16, 0xFFFF)
    };
    match value {
        Ok(value) => Ok(value as u16),
        Err(kind) => Err(LineError::InvalidAddress(kind)),
    }
}

/// Reads a register: `v` and one hexadecimal digit.
pub fn parse_register(token: &str) -> (result: Result<u8, LineError>)
    ensures
        faulted(result) == register_of(token@),
{
    let chars = chars_of(token);
    if chars.len() == 2 && chars[0] == 'v' {
        match digit(chars[1], 16) {
            Some(value) => Ok(value as u8),
            None => Err(LineError::InvalidRegister(String::from_str(token))),
        }
    } else {
        Err(LineError::InvalidRegister(String::from_str(token)))
    }
}

/// The texts of a sequence of strings.
pub open spec fn texts(tokens: Seq<String>) -> Seq<Seq<char>> {
    Seq::new(tokens.len(), |i: int| tokens[i]@)
}

/// Whether an operand starts with `v`, as a register does.
pub open spec fn starts_with_v(token: Seq<char>) -> bool {
    token.len() > 0 && token[0] == 'v'
}

/// The error of a line with `found` operands whose instruction takes `expected`.
pub open spec fn wrong_count<T>(expected: usize, found: nat) -> Result<T, LineFault> {
    Err(LineFault::WrongNumberOfArguments(expected, found as usize))
}

/// The instruction made of what was read, or the error of reading it.
pub open spec fn and_then<A>(
    read: Result<A, LineFault>,
    make: spec_fn(A) -> Instruction,
) -> Result<Instruction, LineFault> {
    match read {
        Ok(value) => Ok(make(value)),
        Err(error) => Err(error),
    }
}

/// The register that the operand at `place` stands for, of an instruction that takes
/// `expected` operands.
pub open spec fn register_at(tokens: Seq<Seq<char>>, place: int, expected: usize) -> Result<
    u8,
    LineFault,
> {
    if tokens.len() <= place {
        wrong_count(expected, tokens.len())
    } else {
        register_of(tokens[place])
    }
}

/// The byte that the operand at `place` stands for.
pub open spec fn byte_at(tokens: Seq<Seq<char>>, place: int, expected: usize) -> Result<
    u8,
    LineFault,
> {
    if tokens.len() <= place {
        wrong_count(expected, tokens.len())
    } else {
        byte_of(tokens[place])
    }
}

/// The address that the operand at `place` stands for.
pub open spec fn addr_at(tokens: Seq<Seq<char>>, place: int, expected: usize) -> Result<
    u16,
    LineFault,
> {
    if tokens.len() <= place {
        wrong_count(expected, tokens.len())
    } else {
        addr_of(tokens[place])
    }
}

/// Two registers: the first operand is read before the second is looked for.
pub open spec fn two_registers_of(tokens: Seq<Seq<char>>) -> Result<TargetSourcePair, LineFault> {
    match register_at(tokens, 0, 2) {
        Err(error) => Err(error),
        Ok(target) => match register_at(tokens, 1, 2) {
            Err(error) => Err(error),
            Ok(source) => Ok(TargetSourcePair { target, source }),
        },
    }
}

/// A register and a byte: the first operand is read before the second is looked for.
pub open spec fn register_and_byte_of(tokens: Seq<Seq<char>>) -> Result<
    RegisterValuePair,
    LineFault,
> {
    match register_at(tokens, 0, 2) {
        Err(error) => Err(error),
        Ok(register) => match byte_at(tokens, 1, 2) {
            Err(error) => Err(error),
            Ok(value) => Ok(RegisterValuePair { register, value }),
        },
    }
}

/// The operands of a shift: the register that is shifted and, if there is a second
/// operand, a second register, which is read first; without one it is register 0.
pub open spec fn shift_operands_of(tokens: Seq<Seq<char>>) -> Result<TargetSourcePair, LineFault> {
    let second: Result<u8, LineFault> = if tokens.len() >= 2 {
        register_of(tokens[1])
    } else {
        Ok(0u8)
    };
    match second {
        Err(error) => Err(error),
        Ok(source) => match register_at(tokens, 0, 1) {
            Err(error) => Err(error),
            Ok(target) => Ok(TargetSourcePair { target, source }),
        },
    }
}

/// The draw instruction of two registers and a byte, read in this order.
pub open spec fn draw_of(tokens: Seq<Seq<char>>) -> Result<Instruction, LineFault> {
    match register_at(tokens, 0, 3) {
        Err(error) => Err(error),
        Ok(x) => match register_at(tokens, 1, 3) {
            Err(error) => Err(error),
            Ok(y) => match byte_at(tokens, 2, 3) {
                Err(error) => Err(error),
                Ok(n) => Ok(Instruction::Draw { x, y, n }),
            },
        },
    }
}

/// What `add` stands for: with `i` first, an addition to the index register; with a second
/// operand that starts with `v`, of two registers; else of a byte to a register.
pub open spec fn add_of(tokens: Seq<Seq<char>>) -> Result<Instruction, LineFault> {
    if tokens.len() == 0 {
        wrong_count(2, tokens.len())
    } else if tokens[0] == "i"@ {
        and_then(register_at(tokens, 1, 2), |x: u8| Instruction::AddXToI(x))
    } else if tokens.len() < 2 {
        wrong_count(2, tokens.len())
    } else if starts_with_v(tokens[1]) {
        and_then(two_registers_of(tokens), |ts: TargetSourcePair| Instruction::AddYToX(ts))
    } else {
        and_then(
            register_and_byte_of(tokens),
            |rv: RegisterValuePair| Instruction::AddValueToReg(rv),
        )
    }
}

/// What `se` stands for: with a second operand that starts with `v`, a comparison of two
/// registers; else of a register and a byte.
pub open spec fn se_of(tokens: Seq<Seq<char>>) -> Result<Instruction, LineFault> {
    if tokens.len() < 2 {
        wrong_count(2, tokens.len())
    } else if starts_with_v(tokens[1]) {
        and_then(two_registers_of(tokens), |ts: TargetSourcePair| Instruction::SkipIfRegEq(ts))
    } else {
        and_then(register_and_byte_of(tokens), |rv: RegisterValuePair| Instruction::SkipIfEq(rv))
    }
}

/// What `sne` stands for, as for `se`.
pub open spec fn sne_of(tokens: Seq<Seq<char>>) -> Result<Instruction, LineFault> {
    if tokens.len() < 2 {
        wrong_count(2, tokens.len())
    } else if starts_with_v(tokens[1]) {
        and_then(
            two_registers_of(tokens),
            |ts: TargetSourcePair| Instruction::SkipIfDifferent(ts),
        )
    } else {
        and_then(register_and_byte_of(tokens), |rv: RegisterValuePair| Instruction::SkipIfNeq(rv))
    }
}

/// What `ld` stands for. The first operand decides if it is `[i]`, `b`, `dt`, `st`, `f` or
/// `i`; else the second does if it is `k`, `dt` or `[i]`; else the load is of a register
/// if the second operand starts with `v`, and of a byte if not.
pub open spec fn ld_of(tokens: Seq<Seq<char>>) -> Result<Instruction, LineFault> {
    if tokens.len() == 0 {
        wrong_count(2, tokens.len())
    } else if tokens[0] == "[i]"@ {
        and_then(register_at(tokens, 1, 2), |x: u8| Instruction::DumpRegisters(x))
    } else if tokens[0] == "b"@ {
        and_then(register_at(tokens, 1, 2), |x: u8| Instruction::StoreBCD(x))
    } else if tokens[0] == "dt"@ {
        and_then(register_at(tokens, 1, 2), |x: u8| Instruction::SetDTAsX(x))
    } else if tokens[0] == "st"@ {
        and_then(register_at(tokens, 1, 2), |x: u8| Instruction::SetSTAsX(x))
    } else if tokens[0] == "f"@ {
        and_then(register_at(tokens, 1, 2), |x: u8| Instruction::SetIToFontSprite(x))
    } else if tokens[0] == "i"@ {
        and_then(addr_at(tokens, 1, 2), |addr: u16| Instruction::SetI(addr))
    } else if tokens.len() < 2 {
        wrong_count(2, tokens.len())
    } else if tokens[1] == "k"@ {
        and_then(register_at(tokens, 0, 2), |x: u8| Instruction::WaitInputStoreIn(x))
    } else if tokens[1] == "dt"@ {
        and_then(register_at(tokens, 0, 2), |x: u8| Instruction::SetXAsDT(x))
    } else if tokens[1] == "[i]"@ {
        and_then(register_at(tokens, 0, 2), |x: u8| Instruction::LoadRegisters(x))
    } else if starts_with_v(tokens[1]) {
        and_then(two_registers_of(tokens), |ts: TargetSourcePair| Instruction::SetRegXToRegY(ts))
    } else {
        and_then(register_and_byte_of(tokens), |rv: RegisterValuePair| Instruction::SetReg(rv))
    }
}

/// What `jp` stands for: with one operand a jump; with two a jump with offset, whose first
/// operand must be `v0`.
pub open spec fn jp_of(tokens: Seq<Seq<char>>) -> Result<Instruction, LineFault> {
    if tokens.len() == 1 {
        and_then(addr_at(tokens, 0, 1), |addr: u16| Instruction::Jump(addr))
    } else if tokens.len() == 2 {
        if tokens[0] != "v0"@ {
            Err(LineFault::WrongJumpRegister)
        } else {
            and_then(addr_at(tokens, 1, 2), |addr: u16| Instruction::JumpNPlusPC(addr))
        }
    } else {
        wrong_count(1, tokens.len())
    }
}

/// The instruction of a mnemonic and its operands. Operands beyond those that the
/// instruction takes are not looked at.
pub open spec fn instruction_meaning(mnemonic: Seq<char>, tokens: Seq<Seq<char>>) -> Result<
    Instruction,
    LineFault,
> {
    if mnemonic == "sys"@ {
        and_then(addr_at(tokens, 0, 1), |addr: u16| Instruction::CallMachineCode(addr))
    } else if mnemonic == "cls"@ {
        Ok(Instruction::ClearDisplay)
    } else if mnemonic == "ret"@ {
        Ok(Instruction::Return)
    } else if mnemonic == "call"@ {
        and_then(addr_at(tokens, 0, 1), |addr: u16| Instruction::Call(addr))
    } else if mnemonic == "raw"@ {
        and_then(addr_at(tokens, 0, 1), |code: u16| Instruction::Invalid(code))
    } else if mnemonic == "skp"@ {
        and_then(register_at(tokens, 0, 1), |x: u8| Instruction::SkipIfKeyPressed(x))
    } else if mnemonic == "sknp"@ {
        and_then(register_at(tokens, 0, 1), |x: u8| Instruction::SkipIfNotKeyPressed(x))
    } else if mnemonic == "and"@ {
        and_then(two_registers_of(tokens), |ts: TargetSourcePair| Instruction::BitXAndY(ts))
    } else if mnemonic == "or"@ {
        and_then(two_registers_of(tokens), |ts: TargetSourcePair| Instruction::BitXOrY(ts))
    } else if mnemonic == "xor"@ {
        and_then(two_registers_of(tokens), |ts: TargetSourcePair| Instruction::BitXXorY(ts))
    } else if mnemonic == "rnd"@ {
        and_then(register_and_byte_of(tokens), |rv: RegisterValuePair| Instruction::Random(rv))
    } else if mnemonic == "shl"@ {
        and_then(shift_operands_of(tokens), |ts: TargetSourcePair| Instruction::ShiftLeft(ts))
    } else if mnemonic == "shr"@ {
        and_then(shift_operands_of(tokens), |ts: TargetSourcePair| Instruction::ShiftRight(ts))
    } else if mnemonic == "drw"@ {
        draw_of(tokens)
    } else if mnemonic == "add"@ {
        add_of(tokens)
    } else if mnemonic == "sub"@ {
        and_then(two_registers_of(tokens), |ts: TargetSourcePair| Instruction::SubYFromX(ts))
    } else if mnemonic == "subn"@ {
        and_then(
            two_registers_of(tokens),
            |ts: TargetSourcePair| Instruction::SubXFromYIntoX(ts),
        )
    } else if mnemonic == "se"@ {
        se_of(tokens)
    } else if mnemonic == "sne"@ {
        sne_of(tokens)
    } else if mnemonic == "ld"@ {
        ld_of(tokens)
    } else if mnemonic == "jp"@ {
        jp_of(tokens)
    } else {
        Err(LineFault::InvalidInstruction(mnemonic))
    }
}

/// The operands of a line: the pieces between the commas of what follows the mnemonic, each
/// without the white space around it.
pub open spec fn operands_of(rest: Seq<char>) -> Seq<Seq<char>> {
    Seq::new(split(rest, ',').len(), |i: int| trimmed(split(rest, ',')[i]))
}

/// The instruction of a line in lower case. The mnemonic ends at the first space; a line
/// without a space has no operands.
pub open spec fn line_meaning(line: Seq<char>) -> Result<Instruction, LineFault> {
    let at = first_index(line, ' ');
    if 0 <= at < line.len() {
        instruction_meaning(line.take(at), operands_of(line.skip(at)))
    } else {
        instruction_meaning(line, Seq::empty())
    }
}

/// Whether two texts are the same.
pub fn same_text(left: &str, right: &str) -> (same: bool)
    ensures
        same == (left@ == right@),
{
    let left_chars = chars_of(left);
    let right_chars = chars_of(right);
    if left_chars.len() != right_chars.len() {
        return false;
    }
    for at in 0..left_chars.len()
        invariant
            left_chars@ == left@,
            right_chars@ == right@,
            left_chars@.len() == right_chars@.len(),
            forall|i: int| 0 <= i < at ==> left_chars@[i] == right_chars@[i],
    {
        if left_chars[at] != right_chars[at] {
            return false;
        }
    }
    assert(left@ =~= right@);
    true
}

/// Whether a text starts with `v`.
fn is_register_like(token: &str) -> (like: bool)
    ensures
        like == starts_with_v(token@),
{
    let chars = chars_of(token);
    chars.len() > 0 && chars[0] == 'v'
}

fn parse_register_at(tokens: &Vec<String>, place: usize, expected: usize) -> (result: Result<
    u8,
    LineError,
>)
    ensures
        faulted(result) == register_at(texts(tokens@), place as int, expected),
{
    if tokens.len() <= place {
        Err(LineError::WrongNumberOfArguments(expected, tokens.len()))
    } else {
        parse_register(tokens[place].as_str())
    }
}

fn parse_byte_at(tokens: &Vec<String>, place: usize, expected: usize) -> (result: Result<
    u8,
    LineError,
>)
    ensures
        faulted(result) == byte_at(texts(tokens@), place as int, expected),
{
    if tokens.len() <= place {
        Err(LineError::WrongNumberOfArguments(expected, tokens.len()))
    } else {
        parse_number(tokens[place].as_str())
    }
}

fn parse_addr_at(tokens: &Vec<String>, place: usize, expected: usize) -> (result: Result<
    u16,
    LineError,
>)
    ensures
        faulted(result) == addr_at(texts(tokens@), place as int, expected),
{
    if tokens.len() <= place {
        Err(LineError::WrongNumberOfArguments(expected, tokens.len()))
    } else {
        parse_addr(tokens[place].as_str())
    }
}

fn parse_two_registers(tokens: &Vec<String>) -> (result: Result<TargetSourcePair, LineError>)
    ensures
        faulted(result) == two_registers_of(texts(tokens@)),
{
    match parse_register_at(tokens, 0, 2) {
        Err(error) => Err(error),
        Ok(target) => match parse_register_at(tokens, 1, 2) {
            Err(error) => Err(error),
            Ok(source) => Ok(TargetSourcePair { target, source }),
        },
    }
}

fn parse_register_and_byte(tokens: &Vec<String>) -> (result: Result<RegisterValuePair, LineError>)
    ensures
        faulted(result) == register_and_byte_of(texts(tokens@)),
{
    match parse_register_at(tokens, 0, 2) {
        Err(error) => Err(error),
        Ok(register) => match parse_byte_at(tokens, 1, 2) {
            Err(error) => Err(error),
            Ok(value) => Ok(RegisterValuePair { register, value }),
        },
    }
}

fn parse_shift_operands(tokens: &Vec<String>) -> (result: Result<TargetSourcePair, LineError>)
    ensures
        faulted(result) == shift_operands_of(texts(tokens@)),
{
    let second: Result<u8, LineError> = if tokens.len() >= 2 {
        parse_register(tokens[1].as_str())
    } else {
        Ok(0u8)
    };
    match second {
        Err(error) => Err(error),
        Ok(source) => match parse_register_at(tokens, 0, 1) {
            Err(error) => Err(error),
            Ok(target) => Ok(TargetSourcePair { target, source }),
        },
    }
}

fn parse_draw(tokens: &Vec<String>) -> (result: Result<Instruction, LineError>)
    ensures
        faulted(result) == draw_of(texts(tokens@)),
{
    match parse_register_at(tokens, 0, 3) {
        Err(error) => Err(error),
        Ok(x) => match parse_register_at(tokens, 1, 3) {
            Err(error) => Err(error),
            Ok(y) => match parse_byte_at(tokens, 2, 3) {
                Err(error) => Err(error),
                Ok(n) => Ok(Instruction::Draw { x, y, n }),
            },
        },
    }
}

fn parse_add(tokens: &Vec<String>) -> (result: Result<Instruction, LineError>)
    ensures
        faulted(result) == add_of(texts(tokens@)),
{
    if tokens.len() == 0 {
        Err(LineError::WrongNumberOfArguments(2, tokens.len()))
    } else if same_text(tokens[0].as_str(), "i") {
        match parse_register_at(tokens, 1, 2) {
            Ok(x) => Ok(Instruction::AddXToI(x)),
            Err(error) => Err(error),
        }
    } else if tokens.len() < 2 {
        Err(LineError::WrongNumberOfArguments(2, tokens.len()))
    } else if is_register_like(tokens[1].as_str()) {
        match parse_two_registers(tokens) {
            Ok(ts) => Ok(Instruction::AddYToX(ts)),
            Err(error) => Err(error),
        }
    } else {
        match parse_register_and_byte(tokens) {
            Ok(rv) => Ok(Instruction::AddValueToReg(rv)),
            Err(error) => Err(error),
        }
    }
}

fn parse_se(tokens: &Vec<String>) -> (result: Result<Instruction, LineError>)
    ensures
        faulted(result) == se_of(texts(tokens@)),
{
    if tokens.len() < 2 {
        Err(LineError::WrongNumberOfArguments(2, tokens.len()))
    } else if is_register_like(tokens[1].as_str()) {
        match parse_two_registers(tokens) {
            Ok(ts) => Ok(Instruction::SkipIfRegEq(ts)),
            Err(error) => Err(error),
        }
    } else {
        match parse_register_and_byte(tokens) {
            Ok(rv) => Ok(Instruction::SkipIfEq(rv)),
            Err(error) => Err(error),
        }
    }
}

fn parse_sne(tokens: &Vec<String>) -> (result: Result<Instruction, LineError>)
    ensures
        faulted(result) == sne_of(texts(tokens@)),
{
    if tokens.len() < 2 {
        Err(LineError::WrongNumberOfArguments(2, tokens.len()))
    } else if is_register_like(tokens[1].as_str()) {
        match parse_two_registers(tokens) {
            Ok(ts) => Ok(Instruction::SkipIfDifferent(ts)),
            Err(error) => Err(error),
        }
    } else {
        match parse_register_and_byte(tokens) {
            Ok(rv) => Ok(Instruction::SkipIfNeq(rv)),
            Err(error) => Err(error),
        }
    }
}

fn parse_ld(tokens: &Vec<String>) -> (result: Result<Instruction, LineError>)
    ensures
        faulted(result) == ld_of(texts(tokens@)),
{
    if tokens.len() == 0 {
        return Err(LineError::WrongNumberOfArguments(2, tokens.len()));
    }
    let first = tokens[0].as_str();
    if same_text(first, "[i]") {
        match parse_register_at(tokens, 1, 2) {
            Ok(x) => Ok(Instruction::DumpRegisters(x)),
            Err(error) => Err(error),
        }
    } else if same_text(first, "b") {
        match parse_register_at(tokens, 1, 2) {
            Ok(x) => Ok(Instruction::StoreBCD(x)),
            Err(error) => Err(error),
        }
    } else if same_text(first, "dt") {
        match parse_register_at(tokens, 1, 2) {
            Ok(x) => Ok(Instruction::SetDTAsX(x)),
            Err(error) => Err(error),
        }
    } else if same_text(first, "st") {
        match parse_register_at(tokens, 1, 2) {
            Ok(x) => Ok(Instruction::SetSTAsX(x)),
            Err(error) => Err(error),
        }
    } else if same_text(first, "f") {
        match parse_register_at(tokens, 1, 2) {
            Ok(x) => Ok(Instruction::SetIToFontSprite(x)),
            Err(error) => Err(error),
        }
    } else if same_text(first, "i") {
        match parse_addr_at(tokens, 1, 2) {
            Ok(addr) => Ok(Instruction::SetI(addr)),
            Err(error) => Err(error),
        }
    } else if tokens.len() < 2 {
        Err(LineError::WrongNumberOfArguments(2, tokens.len()))
    } else {
        let second = tokens[1].as_str();
        if same_text(second, "k") {
            match parse_register_at(tokens, 0, 2) {
                Ok(x) => Ok(Instruction::WaitInputStoreIn(x)),
                Err(error) => Err(error),
            }
        } else if same_text(second, "dt") {
            match parse_register_at(tokens, 0, 2) {
                Ok(x) => Ok(Instruction::SetXAsDT(x)),
                Err(error) => Err(error),
            }
        } else if same_text(second, "[i]") {
            match parse_register_at(tokens, 0, 2) {
                Ok(x) => Ok(Instruction::LoadRegisters(x)),
                Err(error) => Err(error),
            }
        } else if is_register_like(second) {
            match parse_two_registers(tokens) {
                Ok(ts) => Ok(Instruction::SetRegXToRegY(ts)),
                Err(error) => Err(error),
            }
        } else {
            match parse_register_and_byte(tokens) {
                Ok(rv) => Ok(Instruction::SetReg(rv)),
                Err(error) => Err(error),
            }
        }
    }
}

fn parse_jp(tokens: &Vec<String>) -> (result: Result<Instruction, LineError>)
    ensures
        faulted(result) == jp_of(texts(tokens@)),
{
    if tokens.len() == 1 {
        match parse_addr_at(tokens, 0, 1) {
            Ok(addr) => Ok(Instruction::Jump(addr)),
            Err(error) => Err(error),
        }
    } else if tokens.len() == 2 {
        if !same_text(tokens[0].as_str(), "v0") {
            Err(LineError::WrongJumpRegister)
        } else {
            match parse_addr_at(tokens, 1, 2) {
                Ok(addr) => Ok(Instruction::JumpNPlusPC(addr)),
                Err(error) => Err(error),
            }
        }
    } else {
        Err(LineError::WrongNumberOfArguments(1, tokens.len()))
    }
}

/// The instruction of a mnemonic and its operands.
pub fn parse_operation(mnemonic: &str, tokens: &Vec<String>) -> (result: Result<
    Instruction,
    LineError,
>)
    ensures
        faulted(result) == instruction_meaning(mnemonic@, texts(tokens@)),
{
    if same_text(mnemonic, "sys") {
        match parse_addr_at(tokens, 0, 1) {
            Ok(addr) => Ok(Instruction::CallMachineCode(addr)),
            Err(error) => Err(error),
        }
    } else if same_text(mnemonic, "cls") {
        Ok(Instruction::ClearDisplay)
    } else if same_text(mnemonic, "ret") {
        Ok(Instruction::Return)
    } else if same_text(mnemonic, "call") {
        match parse_addr_at(tokens, 0, 1) {
            Ok(addr) => Ok(Instruction::Call(addr)),
            Err(error) => Err(error),
        }
    } else if same_text(mnemonic, "raw") {
        match parse_addr_at(tokens, 0, 1) {
            Ok(code) => Ok(Instruction::Invalid(code)),
            Err(error) => Err(error),
        }
    } else if same_text(mnemonic, "skp") {
        match parse_register_at(tokens, 0, 1) {
            Ok(x) => Ok(Instruction::SkipIfKeyPressed(x)),
            Err(error) => Err(error),
        }
    } else if same_text(mnemonic, "sknp") {
        match parse_register_at(tokens, 0, 1) {
            Ok(x) => Ok(Instruction::SkipIfNotKeyPressed(x)),
            Err(error) => Err(error),
        }
    } else if same_text(mnemonic, "and") {
        match parse_two_registers(tokens) {
            Ok(ts) => Ok(Instruction::BitXAndY(ts)),
            Err(error) => Err(error),
        }
    } else if same_text(mnemonic, "or") {
        match parse_two_registers(tokens) {
            Ok(ts) => Ok(Instruction::BitXOrY(ts)),
            Err(error) => Err(error),
        }
    } else if same_text(mnemonic, "xor") {
        match parse_two_registers(tokens) {
            Ok(ts) => Ok(Instruction::BitXXorY(ts)),
            Err(error) => Err(error),
        }
    } else if same_text(mnemonic, "rnd") {
        match parse_register_and_byte(tokens) {
            Ok(rv) => Ok(Instruction::Random(rv)),
            Err(error) => Err(error),
        }
    } else if same_text(mnemonic, "shl") {
        match parse_shift_operands(tokens) {
            Ok(ts) => Ok(Instruction::ShiftLeft(ts)),
            Err(error) => Err(error),
        }
    } else if same_text(mnemonic, "shr") {
        match parse_shift_operands(tokens) {
            Ok(ts) => Ok(Instruction::ShiftRight(ts)),
            Err(error) => Err(error),
        }
    } else if same_text(mnemonic, "drw") {
        parse_draw(tokens)
    } else if same_text(mnemonic, "add") {
        parse_add(tokens)
    } else if same_text(mnemonic, "sub") {
        match parse_two_registers(tokens) {
            Ok(ts) => Ok(Instruction::SubYFromX(ts)),
            Err(error) => Err(error),
        }
    } else if same_text(mnemonic, "subn") {
        match parse_two_registers(tokens) {
            Ok(ts) => Ok(Instruction::SubXFromYIntoX(ts)),
            Err(error) => Err(error),
        }
    } else if same_text(mnemonic, "se") {
        parse_se(tokens)
    } else if same_text(mnemonic, "sne") {
        parse_sne(tokens)
    } else if same_text(mnemonic, "ld") {
        parse_ld(tokens)
    } else if same_text(mnemonic, "jp") {
        parse_jp(tokens)
    } else {
        Err(LineError::InvalidInstruction(String::from_str(mnemonic)))
    }
}

/// The operands of a line that follow the place `from`.
fn operands(line: &str, chars: &[char], from: usize) -> (tokens: Vec<String>)
    requires
        chars@ == line@,
        from <= chars@.len(),
    ensures
        texts(tokens@) == operands_of(line@.skip(from as int)),
{
    let ranges = split_ranges(chars, from, chars.len(), ',');
    assert(chars@.subrange(from as int, chars@.len() as int) =~= line@.skip(from as int));
    let mut tokens: Vec<String> = Vec::new();
    for place in 0..ranges.len()
        invariant
            chars@ == line@,
            tokens@.len() == place,
            forall|i: int|
                0 <= i < ranges@.len() ==> from <= (#[trigger] ranges@[i]).0 <= ranges@[i].1
                    <= chars@.len(),
            forall|i: int|
                0 <= i < place ==> (#[trigger] tokens@[i])@ == trimmed(
                    pieces(chars@, ranges@)[i],
                ),
    {
        let (start, end) = ranges[place];
        let (first, last) = trim(chars, start, end);
        tokens.push(String::from_str(line.substring_char(first, last)));
    }
    assert(texts(tokens@) =~= operands_of(line@.skip(from as int)));
    tokens
}

/// Reads a line that is in lower case already.
pub fn parse_lowered(line: &str) -> (result: Result<Instruction, LineError>)
    ensures
        faulted(result) == line_meaning(line@),
{
    let chars = chars_of(line);
    let length = chars.len();
    let at = find(chars.as_slice(), 0, length, ' ');
    assert(chars@.subrange(0, length as int) =~= line@);
    if at < length {
        let mnemonic = line.substring_char(0, at);
        assert(line@.take(at as int) =~= line@.subrange(0, at as int));
        let tokens = operands(line, chars.as_slice(), at);
        parse_operation(mnemonic, &tokens)
    } else {
        let tokens: Vec<String> = Vec::new();
        assert(texts(tokens@) =~= Seq::<Seq<char>>::empty());
        parse_operation(line, &tokens)
    }
}

/// The text in lower case, as `str::to_lowercase` gives it.
pub uninterp spec fn lowercase_of(text: Seq<char>) -> Seq<char>;

/// Puts a text into lower case with `str::to_lowercase` of the standard library. The
/// contract gives the result its name and says nothing more of it.
#[verifier::external_body]
fn lowercase(text: &str) -> (lowered: String)
    ensures
        lowered@ == lowercase_of(text@),
{
    text.to_lowercase()
}

/// Reads a line: it is put into lower case and then read by `parse_lowered`.
pub fn parse_instr(line: &str) -> (result: Result<Instruction, LineError>)
    ensures
        faulted(result) == line_meaning(lowercase_of(line@)),
{
    let lowered = lowercase(line);
    parse_lowered(lowered.as_str())
}

/// The instructions of a sequence of lines, or the first error with the number of its line.
/// A line of white space alone stands for nothing, but is counted.
pub open spec fn program_meaning(lines: Seq<Seq<char>>) -> Result<
    Seq<Instruction>,
    (usize, LineFault),
>
    decreases lines.len(),
{
    if lines.len() == 0 {
        Ok(Seq::empty())
    } else {
        match program_meaning(lines.drop_last()) {
            Err(error) => Err(error),
            Ok(instructions) => if trimmed(lines.last()).len() == 0 {
                Ok(instructions)
            } else {
                match line_meaning(lowercase_of(lines.last())) {
                    Ok(instruction) => Ok(instructions.push(instruction)),
                    Err(fault) => Err(((lines.len() - 1) as usize, fault)),
                }
            },
        }
    }
}

/// The instructions of a text: those of its lines, after the white space at the start and
/// at the end of the text was dropped.
pub open spec fn text_meaning(program: Seq<char>) -> Result<Seq<Instruction>, (usize, LineFault)> {
    program_meaning(split(trimmed(program), '\n'))
}

/// An error among the first lines is the error of the program.
proof fn lemma_program_prefix(lines: Seq<Seq<char>>, length: int)
    requires
        0 <= length <= lines.len(),
    ensures
        program_meaning(lines.take(length)) is Err ==> program_meaning(lines) == program_meaning(
            lines.take(length),
        ),
    decreases lines.len() - length,
{
    if length < lines.len() {
        assert(lines.take(length + 1).drop_last() =~= lines.take(length));
        lemma_program_prefix(lines, length + 1);
    } else {
        assert(lines.take(length) =~= lines);
    }
}

/// Reads a program: one instruction per line. The first line that cannot be read ends the
/// reading, and the error holds its number, counted from 0.
pub fn parse(program: &str) -> (result: ParseResult<Vec<Instruction>>)
    ensures
        match result {
            Ok(instructions) => text_meaning(program@) == Ok::<
                Seq<Instruction>,
                (usize, LineFault),
            >(instructions@),
            Err(error) => text_meaning(program@) == Err::<Seq<Instruction>, (usize, LineFault)>(
                error@,
            ),
        },
{
    let chars = chars_of(program);
    let (first, last) = trim(chars.as_slice(), 0, chars.len());
    assert(chars@.subrange(0, chars@.len() as int) =~= program@);
    let ranges = split_ranges(chars.as_slice(), first, last, '\n');
    let ghost lines = pieces(chars@, ranges@);
    let mut instructions: Vec<Instruction> = Vec::new();
    for number in 0..ranges.len()
        invariant
            chars@ == program@,
            lines == pieces(chars@, ranges@),
            lines == split(trimmed(program@), '\n'),
            forall|i: int|
                0 <= i < ranges@.len() ==> first <= (#[trigger] ranges@[i]).0 <= ranges@[i].1
                    <= last <= chars@.len(),
            program_meaning(lines.take(number as int)) == Ok::<
                Seq<Instruction>,
                (usize, LineFault),
            >(instructions@),
    {
        let (start, end) = ranges[number];
        let (inner_start, inner_end) = trim(chars.as_slice(), start, end);
        proof {
            assert(lines.take(number + 1).drop_last() =~= lines.take(number as int));
            assert(lines.take(number + 1).last() == lines[number as int]);
            lemma_program_prefix(lines, number + 1);
        }
        if inner_start < inner_end {
            let line = program.substring_char(start, end);
            match parse_instr(line) {
                Ok(instruction) => {
                    instructions.push(instruction);
                },
                Err(error) => {
                    return Err(ParseError::Line(number, error));
                },
            }
        }
    }
    assert(lines.take(ranges@.len() as int) =~= lines);
    Ok(instructions)
}

} // verus!
