//! Programs as bytes, as instructions and as assembly text.
//!
//! This module turns bytes into instructions and instructions into bytes and into text;
//! `binary` does the same for operations, `imp` reads text line by line with the help of
//! `scan`, and `error` says what can be wrong with a line.

use crate::emu::instruction::{decode, encode, Instruction};
use crate::emu::iter::{be_word, words_of, ByteCodeIter};
use crate::emu::mnemonic::asm_text;
use crate::parser::error::ParseResult;
use vstd::prelude::*;
use vstd::string::StringExecFns;

pub mod binary;
pub mod error;
pub mod imp;
pub mod scan;

verus! {

/// The instructions of a program: one for each pair of bytes, high byte first.
pub open spec fn decoded(bytes: Seq<u8>) -> Seq<Instruction> {
    Seq::new(bytes.len() / 2, |i: int| decode(be_word(bytes[2 * i], bytes[2 * i + 1])))
}

/// The bytes of a program: two for each instruction, high byte first.
pub open spec fn encoded(instructions: Seq<Instruction>) -> Seq<u8> {
    Seq::new(
        2 * instructions.len(),
        |k: int|
            if k % 2 == 0 {
                (encode(instructions[k / 2]) / 256) as u8
            } else {
                (encode(instructions[k / 2]) % 256) as u8
            },
    )
}

/// The assembly text of a program: the lines of its instructions with a line feed between
/// each two, and none at the end.
pub open spec fn listing(instructions: Seq<Instruction>) -> Seq<char>
    decreases instructions.len(),
{
    if instructions.len() == 0 {
        Seq::empty()
    } else if instructions.len() == 1 {
        asm_text(instructions[0])
    } else {
        listing(instructions.drop_last()) + "\n"@ + asm_text(instructions.last())
    }
}

/// The program of an assembly text, as far as this function reads text: it accepts every
/// text and gives the empty program. `imp::parse` reads the instructions of a text.
pub fn from_asm(program: &str) -> (result: ParseResult<Vec<Instruction>>)
    ensures
        result is Ok,
        result->Ok_0@ == Seq::<Instruction>::empty(),
{
    Ok(Vec::new())
}

/// Decodes a program of even length.
pub fn from_bytecode(bytecode: &[u8]) -> (result: ParseResult<Vec<Instruction>>)
    requires
        bytecode@.len() % 2 == 0,
    ensures
        result is Ok,
        result->Ok_0@ == decoded(bytecode@),
{
    let mut iter = ByteCodeIter::new(bytecode);
    let mut instructions: Vec<Instruction> = Vec::new();
    loop
        invariant
            iter.wf(),
            instructions@.len() <= words_of(bytecode@).len(),
            iter.remaining() == words_of(bytecode@).skip(instructions@.len() as int),
            forall|i: int|
                0 <= i < instructions@.len() ==> instructions@[i] == decode(
                    words_of(bytecode@)[i],
                ),
        ensures
            instructions@.len() == words_of(bytecode@).len(),
        decreases iter.remaining().len(),
    {
        match iter.next() {
            Some(code) => {
                instructions.push(Instruction::parse(code));
                assert(words_of(bytecode@).skip(instructions@.len() - 1).skip(1) =~= words_of(
                    bytecode@,
                ).skip(instructions@.len() as int));
            },
            None => {
                break ;
            },
        }
    }
    assert(instructions@ =~= decoded(bytecode@));
    Ok(instructions)
}

/// Encodes a program whose operands are in range.
pub fn to_bytecode(instructions: &[Instruction]) -> (result: ParseResult<Vec<u8>>)
    requires
        forall|i: int| 0 <= i < instructions@.len() ==> instructions@[i].in_range(),
    ensures
        result is Ok,
        result->Ok_0@ == encoded(instructions@),
{
    let mut bytes: Vec<u8> = Vec::new();
    for index in 0..instructions.len()
        invariant
            forall|i: int| 0 <= i < instructions@.len() ==> instructions@[i].in_range(),
            bytes@.len() == 2 * index,
            forall|k: int| 0 <= k < 2 * index ==> bytes@[k] == encoded(instructions@)[k],
    {
        let word = instructions[index].to_u16();
        assert(word >> 8 == word / 256) by (bit_vector);
        assert(word & 0xFF == word % 256) by (bit_vector);
        bytes.push((word >> 8) as u8);
        bytes.push((word & 0xFF) as u8);
    }
    assert(bytes@ =~= encoded(instructions@));
    Ok(bytes)
}

/// Writes a program as assembly text.
pub fn to_asm(instructions: &[Instruction]) -> (result: ParseResult<String>)
    ensures
        result is Ok,
        result->Ok_0@ == listing(instructions@),
{
    let mut text = String::new();
    for index in 0..instructions.len()
        invariant
            text@ == listing(instructions@.take(index as int)),
    {
        if index > 0 {
            text.append("\n");
        }
        let line = instructions[index].to_asm();
        text.append(line.as_str());
        proof {
            let next = instructions@.take(index + 1);
            assert(next.drop_last() =~= instructions@.take(index as int));
            assert(next.last() == instructions@[index as int]);
            assert(text@ =~= listing(next));
        }
    }
    assert(instructions@.take(instructions@.len() as int) =~= instructions@);
    Ok(text)
}

/// Decoding inverts encoding: a program of canonical instructions, when encoded and
/// decoded again, comes back unchanged.
pub proof fn lemma_decoded_encoded(instructions: Seq<Instruction>)
    requires
        forall|i: int| 0 <= i < instructions.len() ==> instructions[i].is_canonical(),
    ensures
        decoded(encoded(instructions)) == instructions,
{
    let bytes = encoded(instructions);
    assert forall|i: int| 0 <= i < instructions.len() implies decoded(bytes)[i]
        == instructions[i] by {
        crate::emu::instruction::lemma_decode_encode(instructions[i]);
        assert(bytes[2 * i] == (encode(instructions[i]) / 256) as u8);
        assert(bytes[2 * i + 1] == (encode(instructions[i]) % 256) as u8);
    }
    assert(decoded(bytes) =~= instructions);
}

/// Encoding inverts decoding: the bytes of a program of even length, when decoded and
/// encoded again, come back unchanged.
pub proof fn lemma_encoded_decoded(bytes: Seq<u8>)
    requires
        bytes.len() % 2 == 0,
    ensures
        encoded(decoded(bytes)) == bytes,
{
    let instructions = decoded(bytes);
    assert forall|k: int| 0 <= k < bytes.len() implies encoded(instructions)[k] == bytes[k] by {
        let i = k / 2;
        crate::emu::instruction::lemma_encode_decode(be_word(bytes[2 * i], bytes[2 * i + 1]));
    }
    assert(encoded(instructions) =~= bytes);
}

} // verus!
