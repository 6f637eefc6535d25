use chippy::emu::instruction::{
    as_nibble_array, pack_tsn, pack_xkk, Instruction, RegisterValuePair, TargetSourcePair,
};

#[test]
fn instruction_convert_to_nibble_array() {
    let result = as_nibble_array(0xDEAF);
    assert_eq!(result, [0xD, 0xE, 0xA, 0xF]);
}

#[test]
fn instruction_call_machine_code() {
    assert_eq!(
        Instruction::CallMachineCode(0xDEA),
        Instruction::parse(0x0DEA)
    );
}

#[test]
fn instruction_clear_display() {
    assert_eq!(Instruction::ClearDisplay, Instruction::parse(0x00E0));
}

#[test]
fn instruction_return_code() {
    assert_eq!(Instruction::Return, Instruction::parse(0x00EE));
}

#[test]
fn instruction_jump() {
    assert_eq!(Instruction::Jump(0xDEA), Instruction::parse(0x1DEA));
}

#[test]
fn instruction_call() {
    assert_eq!(Instruction::Call(0xDEA), Instruction::parse(0x2DEA));
}

#[test]
fn instruction_skip_if_equal() {
    assert_eq!(
        Instruction::SkipIfEq(RegisterValuePair {
            register: 0xA,
            value: 0xBB,
        }),
        Instruction::parse(0x3ABB)
    );
}

#[test]
fn instruction_skip_if_not_equal() {
    assert_eq!(
        Instruction::SkipIfNeq(RegisterValuePair {
            register: 0xA,
            value: 0xBB,
        }),
        Instruction::parse(0x4ABB)
    );
}

#[test]
fn instruction_skip_if_reqister_equal() {
    assert_eq!(
        Instruction::SkipIfRegEq(TargetSourcePair {
            target: 0xA,
            source: 0xB,
        }),
        Instruction::parse(0x5AB0)
    );
}

#[test]
fn instruction_set_register() {
    assert_eq!(
        Instruction::SetReg(RegisterValuePair {
            register: 0xA,
            value: 0xBB,
        }),
        Instruction::parse(0x6ABB)
    );
}

#[test]
fn instruction_add_value_to_register() {
    assert_eq!(
        Instruction::AddValueToReg(RegisterValuePair {
            register: 0xA,
            value: 0xBB,
        }),
        Instruction::parse(0x7ABB)
    );
}

#[test]
fn instruction_set_register_x_to_y() {
    assert_eq!(
        Instruction::SetRegXToRegY(TargetSourcePair {
            target: 0xA,
            source: 0xB,
        }),
        Instruction::parse(0x8AB0)
    );
}

#[test]
fn instruction_bit_x_or_y() {
    assert_eq!(
        Instruction::BitXOrY(TargetSourcePair {
            target: 0xA,
            source: 0xB,
        }),
        Instruction::parse(0x8AB1)
    );
}

#[test]
fn instruction_bit_x_and_y() {
    assert_eq!(
        Instruction::BitXAndY(TargetSourcePair {
            target: 0xA,
            source: 0xB,
        }),
        Instruction::parse(0x8AB2)
    );
}

#[test]
fn instruction_bit_x_xor_y() {
    assert_eq!(
        Instruction::BitXXorY(TargetSourcePair {
            target: 0xA,
            source: 0xB,
        }),
        Instruction::parse(0x8AB3)
    );
}

#[test]
fn instruction_and_y_to_x() {
    assert_eq!(
        Instruction::AddYToX(TargetSourcePair {
            target: 0xA,
            source: 0xB,
        }),
        Instruction::parse(0x8AB4)
    );
}

#[test]
fn instruction_sub_y_from_x() {
    assert_eq!(
        Instruction::SubYFromX(TargetSourcePair {
            target: 0xA,
            source: 0xB,
        }),
        Instruction::parse(0x8AB5)
    );
}

#[test]
fn instruction_shift_right() {
    assert_eq!(
        Instruction::ShiftRight(TargetSourcePair {
            target: 0xA,
            source: 0xB,
        }),
        Instruction::parse(0x8AB6)
    );
}

#[test]
fn instruction_sub_x_from_y_into_x() {
    assert_eq!(
        Instruction::SubXFromYIntoX(TargetSourcePair {
            target: 0xA,
            source: 0xB,
        }),
        Instruction::parse(0x8AB7)
    );
}

#[test]
fn instruction_shift_left() {
    assert_eq!(
        Instruction::ShiftLeft(TargetSourcePair {
            target: 0xA,
            source: 0xB,
        }),
        Instruction::parse(0x8ABE)
    );
}

#[test]
fn instruction_skip_if_different() {
    assert_eq!(
        Instruction::SkipIfDifferent(TargetSourcePair {
            target: 0xA,
            source: 0xB,
        }),
        Instruction::parse(0x9AB0)
    );
}

#[test]
fn instruction_set_i() {
    assert_eq!(Instruction::SetI(0xDEA), Instruction::parse(0xADEA));
}

#[test]
fn instruction_jump_n_plus_pc() {
    assert_eq!(Instruction::JumpNPlusPC(0xDEA), Instruction::parse(0xBDEA));
}

#[test]
fn instruction_random() {
    assert_eq!(
        Instruction::Random(RegisterValuePair {
            register: 0xA,
            value: 0xBB,
        }),
        Instruction::parse(0xCABB)
    );
}

#[test]
fn instruction_draw() {
    assert_eq!(
        Instruction::Draw {
            x: 0xA,
            y: 0xB,
            n: 0xC,
        },
        Instruction::parse(0xDABC)
    );
}

#[test]
fn instruction_skip_if_key_pressed() {
    assert_eq!(
        Instruction::SkipIfKeyPressed(0xA),
        Instruction::parse(0xEA9E)
    );
}

#[test]
fn instruction_skip_if_not_key_pressed() {
    assert_eq!(
        Instruction::SkipIfNotKeyPressed(0xA),
        Instruction::parse(0xEAA1)
    );
}

#[test]
fn instruction_set_x_as_dt() {
    assert_eq!(Instruction::SetXAsDT(0xA), Instruction::parse(0xFA07));
}

#[test]
fn instruction_wait_input_store_in() {
    assert_eq!(
        Instruction::WaitInputStoreIn(0xA),
        Instruction::parse(0xFA0A)
    );
}

#[test]
fn instruction_set_dt_as_x() {
    assert_eq!(Instruction::SetDTAsX(0xA), Instruction::parse(0xFA15));
}

#[test]
fn instruction_set_st_as_x() {
    assert_eq!(Instruction::SetSTAsX(0xA), Instruction::parse(0xFA18));
}

#[test]
fn instruction_add_x_to_i() {
    assert_eq!(Instruction::AddXToI(0xA), Instruction::parse(0xFA1E));
}

#[test]
fn instruction_set_i_to_font_sprite() {
    assert_eq!(
        Instruction::SetIToFontSprite(0xA),
        Instruction::parse(0xFA29)
    );
}

#[test]
fn instruction_store_bcd() {
    assert_eq!(Instruction::StoreBCD(0xA), Instruction::parse(0xFA33));
}

#[test]
fn instruction_dump_registers() {
    assert_eq!(Instruction::DumpRegisters(0xA), Instruction::parse(0xFA55));
}

#[test]
fn instruction_load_registers() {
    assert_eq!(Instruction::LoadRegisters(0xA), Instruction::parse(0xFA65));
}

#[test]
fn asm_output() {
    let pairs = vec![
        (0x00E0, "cls"),
        (0x00EE, "ret"),
        (0x0246, "sys 0x246"),
        (0x1246, "jp 0x246"),
        (0x2357, "call 0x357"),
        (0x32DE, "se v2, 0xDE"),
        (0x42DE, "sne v2, 0xDE"),
        (0x5210, "se v2, v1"),
        (0x6218, "ld v2, 0x18"),
        (0x70E3, "add v0, 0xE3"),
        (0x8120, "ld v1, v2"),
        (0x8121, "or v1, v2"),
        (0x8122, "and v1, v2"),
        (0x8123, "xor v1, v2"),
        (0x8124, "add v1, v2"),
        (0x8125, "sub v1, v2"),
        (0x8126, "shr v1"),
        (0x8127, "subn v1, v2"),
        (0x812E, "shl v1"),
        (0x93E0, "sne v3, vE"),
        (0xA123, "ld i, 0x123"),
        (0xB123, "jp v0, 0x123"),
        (0xC123, "rnd v1, 0x23"),
        (0xD123, "drw v1, v2, 0x3"),
        (0xE19E, "skp v1"),
        (0xE1A1, "sknp v1"),
        (0xF107, "ld v1, dt"),
        (0xF10A, "ld v1, k"),
        (0xF115, "ld dt, v1"),
        (0xF118, "ld st, v1"),
        (0xF11E, "add i, v1"),
        (0xF129, "ld f, v1"),
        (0xF133, "ld b, v1"),
        (0xF155, "ld [i], v1"),
        (0xF165, "ld v1, [i]"),
        (0xF169, "raw 0xF169"),
    ];

    for (code, result) in pairs {
        let instruction = Instruction::parse(code);
        let actual = instruction.to_asm();
        assert_eq!(actual, result);
    }
}

#[test]
fn code_to_u16() {
    // NOTE: for 0x8xy6 (shift left) 0x8xyE (shift right) dont store y to set them to 0 for the test
    let code_list = vec![
        0x00E0, 0x00EE, 0x0246, 0x1246, 0x2357, 0x32DE, 0x42DE, 0x5210, 0x6218, 0x70E3, 0x8120,
        0x8121, 0x8122, 0x8123, 0x8124, 0x8125, 0x8106, 0x8127, 0x810E, 0x93E0, 0xA123, 0xB123,
        0xC123, 0xD123, 0xE19E, 0xE1A1, 0xF107, 0xF10A, 0xF115, 0xF118, 0xF11E, 0xF129, 0xF133,
        0xF155, 0xF165, 0xF169,
    ];

    for code in code_list {
        let instruction = Instruction::parse(code);
        let result = instruction.to_u16();
        assert_eq!(result, code);
    }
}

#[test]
fn packing_xkk() {
    let rv = RegisterValuePair {
        register: 0xA,
        value: 0xBB,
    };
    let result = 0x6ABB;
    let actual = (0x6u16 << 12) + pack_xkk(&rv);

    assert_eq!(actual, result);
}

#[test]
fn packing_tsn() {
    let ts = TargetSourcePair {
        target: 0xA,
        source: 0xB,
    };
    let result = 0x8AB2;
    let actual = (08u16 << 12) + pack_tsn(&ts, 2);

    assert_eq!(actual, result);
}
