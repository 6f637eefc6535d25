use chippy::emu::instruction::{as_nibble_array, RegisterValuePair, TargetSourcePair};
use chippy::emu::opcode::Opcode;

#[test]
fn opcode_convert_to_nibble_array() {
    let result = as_nibble_array(0xDEAF);
    assert_eq!(result, [0xD, 0xE, 0xA, 0xF]);
}

#[test]
fn opcode_call_machine_code() {
    assert_eq!(Opcode::CallMachineCode(0xDEA), Opcode::parse(0x0DEA));
}

#[test]
fn opcode_clear_display() {
    assert_eq!(Opcode::ClearDisplay, Opcode::parse(0x00E0));
}

#[test]
fn opcode_return_code() {
    assert_eq!(Opcode::Return, Opcode::parse(0x00EE));
}

#[test]
fn opcode_jump() {
    assert_eq!(Opcode::Jump(0xDEA), Opcode::parse(0x1DEA));
}

#[test]
fn opcode_call() {
    assert_eq!(Opcode::Call(0xDEA), Opcode::parse(0x2DEA));
}

#[test]
fn opcode_skip_if_equal() {
    assert_eq!(
        Opcode::SkipIfEq(RegisterValuePair {
            register: 0xA,
            value: 0xBB,
        }),
        Opcode::parse(0x3ABB)
    );
}

#[test]
fn opcode_skip_if_not_equal() {
    assert_eq!(
        Opcode::SkipIfNeq(RegisterValuePair {
            register: 0xA,
            value: 0xBB,
        }),
        Opcode::parse(0x4ABB)
    );
}

#[test]
fn opcode_skip_if_reqister_equal() {
    assert_eq!(
        Opcode::SkipIfRegEq(TargetSourcePair {
            target: 0xA,
            source: 0xB,
        }),
        Opcode::parse(0x5AB0)
    );
}

#[test]
fn opcode_set_register() {
    assert_eq!(
        Opcode::SetReg(RegisterValuePair {
            register: 0xA,
            value: 0xBB,
        }),
        Opcode::parse(0x6ABB)
    );
}

#[test]
fn opcode_add_value_to_register() {
    assert_eq!(
        Opcode::AddValueToReg(RegisterValuePair {
            register: 0xA,
            value: 0xBB,
        }),
        Opcode::parse(0x7ABB)
    );
}

#[test]
fn opcode_set_register_x_to_y() {
    assert_eq!(
        Opcode::SetRegXToRegY(TargetSourcePair {
            target: 0xA,
            source: 0xB,
        }),
        Opcode::parse(0x8AB0)
    );
}

#[test]
fn opcode_bit_x_or_y() {
    assert_eq!(
        Opcode::BitXOrY(TargetSourcePair {
            target: 0xA,
            source: 0xB,
        }),
        Opcode::parse(0x8AB1)
    );
}

#[test]
fn opcode_bit_x_and_y() {
    assert_eq!(
        Opcode::BitXAndY(TargetSourcePair {
            target: 0xA,
            source: 0xB,
        }),
        Opcode::parse(0x8AB2)
    );
}

#[test]
fn opcode_bit_x_xor_y() {
    assert_eq!(
        Opcode::BitXXorY(TargetSourcePair {
            target: 0xA,
            source: 0xB,
        }),
        Opcode::parse(0x8AB3)
    );
}

#[test]
fn opcode_and_y_to_x() {
    assert_eq!(
        Opcode::AddYToX(TargetSourcePair {
            target: 0xA,
            source: 0xB,
        }),
        Opcode::parse(0x8AB4)
    );
}

#[test]
fn opcode_sub_y_from_x() {
    assert_eq!(
        Opcode::SubYFromX(TargetSourcePair {
            target: 0xA,
            source: 0xB,
        }),
        Opcode::parse(0x8AB5)
    );
}

#[test]
fn opcode_shift_right() {
    assert_eq!(Opcode::ShiftRight(0xA), Opcode::parse(0x8AB6));
}

#[test]
fn opcode_sub_x_from_y_into_x() {
    assert_eq!(
        Opcode::SubXFromYIntoX(TargetSourcePair {
            target: 0xA,
            source: 0xB,
        }),
        Opcode::parse(0x8AB7)
    );
}

#[test]
fn opcode_shift_left() {
    assert_eq!(Opcode::ShiftLeft(0xA), Opcode::parse(0x8ABE));
}

#[test]
fn opcode_skip_if_different() {
    assert_eq!(
        Opcode::SkipIfDifferent(TargetSourcePair {
            target: 0xA,
            source: 0xB,
        }),
        Opcode::parse(0x9AB0)
    );
}

#[test]
fn opcode_set_i() {
    assert_eq!(Opcode::SetI(0xDEA), Opcode::parse(0xADEA));
}

#[test]
fn opcode_jump_n_plus_pc() {
    assert_eq!(Opcode::JumpNPlusPC(0xDEA), Opcode::parse(0xBDEA));
}

#[test]
fn opcode_random() {
    assert_eq!(
        Opcode::Random(RegisterValuePair {
            register: 0xA,
            value: 0xBB,
        }),
        Opcode::parse(0xCABB)
    );
}

#[test]
fn opcode_draw() {
    assert_eq!(
        Opcode::Draw {
            x: 0xA,
            y: 0xB,
            n: 0xC,
        },
        Opcode::parse(0xDABC)
    );
}

#[test]
fn opcode_skip_if_key_pressed() {
    assert_eq!(Opcode::SkipIfKeyPressed(0xA), Opcode::parse(0xEA9E));
}

#[test]
fn opcode_skip_if_not_key_pressed() {
    assert_eq!(Opcode::SkipIfNotKeyPressed(0xA), Opcode::parse(0xEAA1));
}

#[test]
fn opcode_set_x_as_dt() {
    assert_eq!(Opcode::SetXAsDT(0xA), Opcode::parse(0xFA07));
}

#[test]
fn opcode_wait_input_store_in() {
    assert_eq!(Opcode::WaitInputStoreIn(0xA), Opcode::parse(0xFA0A));
}

#[test]
fn opcode_set_dt_as_x() {
    assert_eq!(Opcode::SetDTAsX(0xA), Opcode::parse(0xFA15));
}

#[test]
fn opcode_set_st_as_x() {
    assert_eq!(Opcode::SetSTAsX(0xA), Opcode::parse(0xFA18));
}

#[test]
fn opcode_add_x_to_i() {
    assert_eq!(Opcode::AddXToI(0xA), Opcode::parse(0xFA1E));
}

#[test]
fn opcode_set_i_to_font_sprite() {
    assert_eq!(Opcode::SetIToFontSprite(0xA), Opcode::parse(0xFA29));
}

#[test]
fn opcode_store_bcd() {
    assert_eq!(Opcode::StoreBCD(0xA), Opcode::parse(0xFA33));
}

#[test]
fn opcode_dump_registers() {
    assert_eq!(Opcode::DumpRegisters(0xA), Opcode::parse(0xFA55));
}

#[test]
fn opcode_load_registers() {
    assert_eq!(Opcode::LoadRegisters(0xA), Opcode::parse(0xFA65));
}
