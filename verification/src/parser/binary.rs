//! Programs as bytes and as operations.

use crate::emu::instruction::Instruction;
use crate::emu::iter::{words_of, ByteCodeIter};
use crate::emu::opcode::{instruction_of, Opcode};
use crate::parser::error::ParseResult;
use crate::parser::{decoded, encoded, listing};
use vstd::prelude::*;
use vstd::string::StringExecFns;

verus! {

/// The instructions of a sequence of operations.
pub open spec fn instructions_of(opcodes: Seq<Opcode>) -> Seq<Instruction> {
    Seq::new(opcodes.len(), |i: int| instruction_of(opcodes[i]))
}

/// Encodes a sequence of operations whose operands are in range.
pub fn to_bin(opcodes: &[Opcode]) -> (result: ParseResult<Vec<u8>>)
    requires
        forall|i: int| 0 <= i < opcodes@.len() ==> opcodes@[i].in_range(),
    ensures
        result is Ok,
        result->Ok_0@ == encoded(instructions_of(opcodes@)),
{
    let mut bytes: Vec<u8> = Vec::new();
    for index in 0..opcodes.len()
        invariant
            forall|i: int| 0 <= i < opcodes@.len() ==> opcodes@[i].in_range(),
            bytes@.len() == 2 * index,
            forall|k: int|
                0 <= k < 2 * index ==> bytes@[k] == encoded(instructions_of(opcodes@))[k],
    {
        let word = opcodes[index].to_u16();
        assert(word >> 8 == word / 256) by (bit_vector);
        assert(word & 0xFF == word % 256) by (bit_vector);
        bytes.push((word >> 8) as u8);
        bytes.push((word & 0xFF) as u8);
    }
    assert(bytes@ =~= encoded(instructions_of(opcodes@)));
    Ok(bytes)
}

/// Writes a program of even length as assembly text: one line for each pair of bytes.
pub fn to_asm(tokens: &[u8]) -> (text: String)
    requires
        tokens@.len() % 2 == 0,
    ensures
        text@ == listing(decoded(tokens@)),
{
    let mut iter = ByteCodeIter::new(tokens);
    let mut text = String::new();
    let mut count: usize = 0;
    let total = tokens.len();
    loop
        invariant
            iter.wf(),
            tokens@.len() == total,
            count <= words_of(tokens@).len(),
            iter.remaining() == words_of(tokens@).skip(count as int),
            text@ == listing(decoded(tokens@).take(count as int)),
        ensures
            count == words_of(tokens@).len(),
        decreases iter.remaining().len(),
    {
        match iter.next() {
            Some(code) => {
                assert(count < words_of(tokens@).len());
                if count > 0 {
                    text.append("\n");
                }
                let line = Opcode::parse(code).to_asm();
                text.append(line.as_str());
                proof {
                    crate::emu::opcode::lemma_same_line(crate::emu::instruction::decode(code));
                    let next = decoded(tokens@).take(count + 1);
                    assert(next.drop_last() =~= decoded(tokens@).take(count as int));
                    assert(next.last() == decoded(tokens@)[count as int]);
                    assert(text@ =~= listing(next));
                    assert(words_of(tokens@).skip(count as int).skip(1) =~= words_of(tokens@).skip(
                        count + 1,
                    ));
                }
                count += 1;
            },
            None => {
                break ;
            },
        }
    }
    assert(decoded(tokens@).take(count as int) =~= decoded(tokens@));
    text
}

} // verus!
