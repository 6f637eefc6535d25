use chippy::emu::gpu::{index, Gpu};
use chippy::emu::input::{Input, Key, KEY_LIST};
use chippy::emu::instruction::{Instruction, RegisterValuePair, TargetSourcePair};
use chippy::emu::iter::ByteCodeIter;
use chippy::emu::keymap::{key_of_digit, to_emu_key, KeyMapping};
use chippy::emu::opcode::Opcode;
use chippy::emu::vm::skip_if;
use chippy::emu::vm::ProgramCounter;
use chippy::parser::binary::to_bin;

#[test]
fn every_word_encodes_back_to_itself() {
    for word in 0..=u16::MAX {
        let instruction = Instruction::parse(word);
        assert_eq!(instruction.to_u16(), word);
    }
}

#[test]
fn words_that_are_no_instruction_are_kept() {
    for word in [0x5AB1u16, 0x8AB8, 0x8ABF, 0x9AB1, 0xE19F, 0xE1A0, 0xF100, 0xF169, 0xFFFF] {
        assert_eq!(Instruction::parse(word), Instruction::Invalid(word));
        assert_eq!(Instruction::Invalid(word).to_u16(), word);
    }
}

#[test]
fn machine_code_calls_keep_their_address() {
    assert_eq!(Instruction::parse(0x0000), Instruction::CallMachineCode(0x000));
    assert_eq!(Instruction::parse(0x00E1), Instruction::CallMachineCode(0x0E1));
    assert_eq!(Instruction::parse(0x0FFF), Instruction::CallMachineCode(0xFFF));
}

#[test]
fn registers_are_written_in_upper_case() {
    assert_eq!(Instruction::parse(0xFA07).to_asm(), "ld vA, dt");
    assert_eq!(Instruction::parse(0xFB0A).to_asm(), "ld vB, k");
    assert_eq!(Instruction::parse(0xFC15).to_asm(), "ld dt, vC");
    assert_eq!(Instruction::parse(0xFD18).to_asm(), "ld st, vD");
    assert_eq!(Instruction::parse(0xFE1E).to_asm(), "add i, vE");
    assert_eq!(Instruction::parse(0xFF29).to_asm(), "ld f, vF");
    assert_eq!(Instruction::parse(0xFA33).to_asm(), "ld b, vA");
    assert_eq!(Instruction::parse(0xFB55).to_asm(), "ld [i], vB");
    assert_eq!(Instruction::parse(0xFC65).to_asm(), "ld vC, [i]");
    assert_eq!(Instruction::parse(0x8EF6).to_asm(), "shr vE");
}

#[test]
fn immediates_are_padded_with_zeros() {
    assert_eq!(Instruction::parse(0x1005).to_asm(), "jp 0x005");
    assert_eq!(Instruction::parse(0x6A0B).to_asm(), "ld vA, 0x0B");
    assert_eq!(Instruction::parse(0xD01F).to_asm(), "drw v0, v1, 0xF");
    assert_eq!(Instruction::parse(0x5AB1).to_asm(), "raw 0x5AB1");
    assert_eq!(Instruction::Invalid(0x000A).to_asm(), "raw 0x000A");
    assert_eq!(Instruction::Jump(0xFFFF).to_asm(), "jp 0xFFFF");
    assert_eq!(Instruction::SkipIfKeyPressed(0x1F).to_asm(), "skp v1F");
}

#[test]
fn operations_drop_the_second_operand_of_a_shift() {
    assert_eq!(Opcode::parse(0x8AB6), Opcode::ShiftRight(0xA));
    assert_eq!(Opcode::parse(0x8AB6).to_u16(), 0x8A06);
    assert_eq!(Opcode::parse(0x8ABE).to_u16(), 0x8A0E);
    assert_eq!(Opcode::parse(0x8AB6).to_asm(), "shr vA");
    assert_eq!(Opcode::parse(0xD123).to_u16(), 0xD123);
    assert_eq!(
        Opcode::ShiftLeft(3).to_instruction(),
        Instruction::ShiftLeft(TargetSourcePair { target: 3, source: 0 })
    );
    assert_eq!(
        Opcode::from_instruction(Instruction::SetReg(RegisterValuePair { register: 1, value: 2 })),
        Opcode::SetReg(RegisterValuePair { register: 1, value: 2 })
    );
}

#[test]
fn operations_are_encoded_high_byte_first() {
    let bytes = to_bin(&[Opcode::ClearDisplay, Opcode::Jump(0x246), Opcode::ShiftLeft(1)]).unwrap();
    assert_eq!(bytes, vec![0x00, 0xE0, 0x12, 0x46, 0x81, 0x0E]);
}

#[test]
fn drawing_twice_erases_and_collides() {
    let mut gpu = Gpu::new();
    assert!(!gpu.draw(0, 0, &[0b11110000]));
    assert!(gpu.pending_draw);
    for x in 0..8 {
        assert_eq!(gpu.get(x, 0), x < 4);
    }
    assert!(gpu.draw(0, 0, &[0b11110000]));
    assert!(gpu.memory.iter().all(|pixel| !pixel));
}

#[test]
fn overlapping_sprites_collide_only_where_a_pixel_goes_off() {
    let mut gpu = Gpu::new();
    gpu.draw(0, 0, &[0b11110000]);
    assert!(!gpu.draw(4, 0, &[0b11110000]));
    assert!(!gpu.draw(0, 0, &[0b00000000, 0b11111111]));
    assert!(gpu.draw(7, 1, &[0b10000000]));
    assert!(!gpu.get(7, 1));
    assert!(gpu.get(6, 1));
    assert!(gpu.draw(0, 0, &[0b00001111]));
    assert!(gpu.get(3, 0));
    assert!(!gpu.get(4, 0));
}

#[test]
fn sprites_wrap_around_the_edges() {
    let mut gpu = Gpu::new();
    assert!(!gpu.draw(62, 31, &[0b11110000, 0b10000001]));
    assert!(gpu.get(62, 31));
    assert!(gpu.get(63, 31));
    assert!(gpu.get(0, 31));
    assert!(gpu.get(1, 31));
    assert!(!gpu.get(2, 31));
    assert!(gpu.get(62, 0));
    assert!(gpu.get(5, 0));
    assert!(!gpu.get(63, 0));
    assert_eq!(gpu.memory.iter().filter(|pixel| **pixel).count(), 6);
}

#[test]
fn coordinates_beyond_the_screen_wrap() {
    let mut gpu = Gpu::new();
    gpu.draw(64 + 3, 32 * 5 + 2, &[0b10000000]);
    assert!(gpu.get(3, 2));
    assert_eq!(index(usize::MAX, usize::MAX), 31 * 64 + 63);
    gpu.draw(usize::MAX, usize::MAX, &[0b11000000]);
    assert!(gpu.get(63, 31));
    assert!(gpu.get(0, 31));
}

#[test]
fn empty_sprite_changes_nothing() {
    let mut gpu = Gpu::new();
    assert!(!gpu.draw(10, 10, &[]));
    assert!(!gpu.pending_draw);
    assert!(!gpu.draw(10, 10, &[0, 0]));
    assert!(!gpu.pending_draw);
}

#[test]
fn set_raises_the_flag_only_on_a_change() {
    let mut gpu = Gpu::new();
    gpu.set(1, 1, false);
    assert!(!gpu.pending_draw);
    gpu.set(1, 1, true);
    assert!(gpu.pending_draw);
    assert!(gpu.get(65, 33));
    gpu.clear();
    assert!(!gpu.pending_draw);
    assert!(!gpu.get(1, 1));
}

#[test]
fn lowest_key_that_is_down_comes_first() {
    let mut input = Input::new();
    assert_eq!(input.first_pressed(), None);
    input.key_down(Key::F);
    assert_eq!(input.first_pressed(), Some(0xF));
    input.key_down(Key::Two);
    assert_eq!(input.first_pressed(), Some(0x2));
    input.key_up(Key::Two);
    assert_eq!(input.first_pressed(), Some(0xF));
    input.clear();
    assert_eq!(input.first_pressed(), None);
    assert_eq!(input, Input::new());
}

#[test]
fn keys_are_named_by_their_digit() {
    let names = ["0", "1", "2", "3", "4", "5", "6", "7", "8", "9", "A", "B", "C", "D", "E", "F"];
    for (code, key) in KEY_LIST.iter().enumerate() {
        assert_eq!(key.code() as usize, code);
        assert_eq!(*key as usize, code);
        assert_eq!(key.as_str(), names[code]);
    }
}

#[test]
fn keyboards_map_their_left_block_to_the_pad() {
    let pad = [
        Key::One, Key::Two, Key::Three, Key::C, Key::Four, Key::Five, Key::Six, Key::D,
        Key::Seven, Key::Eight, Key::Nine, Key::E, Key::A, Key::Zero, Key::B, Key::F,
    ];
    for (position, keycode) in "1234qwerasdfzxcv".chars().enumerate() {
        assert_eq!(to_emu_key(keycode, KeyMapping::Qwerty), Some(pad[position]));
    }
    for (position, keycode) in "1234qwfparstzxcv".chars().enumerate() {
        assert_eq!(to_emu_key(keycode, KeyMapping::Colemak), Some(pad[position]));
    }
    assert_eq!(to_emu_key('e', KeyMapping::Colemak), None);
    assert_eq!(to_emu_key('p', KeyMapping::Qwerty), None);
    assert_eq!(to_emu_key('5', KeyMapping::Qwerty), None);
    assert_eq!(to_emu_key('Q', KeyMapping::Qwerty), None);
    assert_eq!(KeyMapping::default(), KeyMapping::Qwerty);
}

#[test]
fn iterator_of_an_empty_program_ends_at_once() {
    let mut iter = ByteCodeIter::new(&[]);
    assert_eq!(iter.next(), None);
    assert_eq!(iter.next(), None);
}

#[test]
fn skip_if_chooses_between_skip_and_next() {
    assert_eq!(skip_if(true), ProgramCounter::Skip);
    assert_eq!(skip_if(false), ProgramCounter::Next);
}

#[test]
fn digits_name_the_keys_of_the_pad() {
    for (code, digit) in "0123456789abcdef".chars().enumerate() {
        assert_eq!(key_of_digit(digit), Some(KEY_LIST[code]));
    }
    assert_eq!(key_of_digit('A'), None);
    assert_eq!(key_of_digit('g'), None);
    assert_eq!(key_of_digit(' '), None);
}

#[test]
fn decoded_words_can_be_encoded() {
    for word in 0..=u16::MAX {
        assert!(Instruction::parse(word).is_encodable());
    }
    assert!(!Instruction::Jump(0x1000).is_encodable());
    assert!(Instruction::Jump(0x0FFF).is_encodable());
    assert!(!Instruction::SetReg(RegisterValuePair { register: 16, value: 0 }).is_encodable());
    assert!(!Instruction::BitXOrY(TargetSourcePair { target: 1, source: 16 }).is_encodable());
    assert!(!Instruction::Draw { x: 1, y: 2, n: 16 }.is_encodable());
    assert!(!Instruction::StoreBCD(0x10).is_encodable());
    assert!(Instruction::Invalid(0xFFFF).is_encodable());
}

#[test]
fn canonical_instructions_decode_back_from_their_word() {
    let instructions = [
        Instruction::ClearDisplay,
        Instruction::CallMachineCode(0x0E1),
        Instruction::Jump(0xFFF),
        Instruction::SkipIfEq(RegisterValuePair { register: 0xF, value: 0xFF }),
        Instruction::ShiftRight(TargetSourcePair { target: 0xA, source: 0xB }),
        Instruction::Draw { x: 0xF, y: 0, n: 0xF },
        Instruction::LoadRegisters(0xF),
        Instruction::Invalid(0x5001),
    ];
    for instruction in instructions {
        assert_eq!(Instruction::parse(instruction.to_u16()), instruction);
    }
}
