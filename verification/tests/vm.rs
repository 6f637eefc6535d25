use chippy::emu::vm::{Vm, MEMORY_SIZE, MEMORY_START};

fn cycle(vm: &mut Vm, n: usize) {
    for _ in 0..n {
        vm.cycle();
    }
}

#[test]
fn vm_load_and_reset() {
    let mut vm = Vm::new();
    let rom = vec![0xFF, 0xF1, 0x01, 0x22];
    vm.load(rom.clone());
    assert_eq!(vm.memory[MEMORY_START..MEMORY_START + 4], rom);

    vm.reset();
    for index in MEMORY_START..MEMORY_SIZE {
        assert_eq!(vm.get_memory(index as u16), 0);
    }
}

#[test]
fn load_and_reset() {
    let mut vm = Vm::new();
    let rom = vec![0xFF, 0xF1, 0x01, 0x22];
    vm.load(rom.clone());
    assert_eq!(vm.memory[MEMORY_START..MEMORY_START + 4], rom);

    vm.reset();
    for index in MEMORY_START..MEMORY_SIZE {
        assert_eq!(vm.get_memory(index as u16), 0);
    }
}

#[test]
fn vm_call_subroutine_jump_and_return() {
    let mut vm = Vm::new();
    vm.load(vec![
        0x22, 0x04, // 2204 - Call to addr 204
        0x12, 0x00, // 1200 - Jump to addr 200
        0x00, 0xEE, // 00EE - Return
    ]);

    vm.cycle(); // Call to addr 204
    assert_eq!(vm.stack[0], 0x202);
    assert_eq!(vm.stack_pointer, 1);
    assert_eq!(vm.program_counter, 0x204);

    vm.cycle();
    assert_eq!(vm.stack_pointer, 0);
    assert_eq!(vm.program_counter, 0x202);

    vm.cycle();
    assert_eq!(vm.program_counter, 0x200);
}

#[test]
fn vm_arathmatic_and_bit_operations() {
    let mut vm = Vm::new();
    // Registers labled as V[x]
    let program = vec![
        0x61, 0xF0, // v1 = 0xf0
        0x71, 0x11, // v1 = 0xf0 + 0x11
        0x82, 0x10, // v2 = v1
        0x61, 0xF0, // v1 = 0xf0
        0x62, 0x11, // v2 = 0x11
        0x81, 0x21, // v1 = v1 | v2 => 0xf1
        0x81, 0x22, // v1 = v1 & v2 => 0x11
        0x61, 0x21, // v1 = 0x21
        0x81, 0x23, // v1 = v1 ^ v2 => 0x30
        0x61, 0xF0, // v1 = 0xf0
        0x81, 0x24, // v1 = v1 + v2 => 0x01; vf = 0x01
        0x81, 0x25, // v1 = v1 - v2 => 0xf0; vf = 0x00
    ];

    vm.load(program);

    vm.cycle();
    assert_eq!(vm.get_register(1), 0xF0);

    vm.cycle();
    assert_eq!(vm.get_register(1), 0x01);
    assert_eq!(vm.get_register(0xf), 0x00);

    vm.cycle();
    assert_eq!(vm.get_register(1), vm.get_register(2));

    vm.cycle();
    vm.cycle();
    vm.cycle();
    assert_eq!(vm.get_register(1), 0xf1);

    vm.cycle();
    assert_eq!(vm.get_register(1), 0x11);

    vm.cycle();
    vm.cycle();
    assert_eq!(vm.get_register(1), 0x30);

    vm.cycle();
    vm.cycle();
    assert_eq!(vm.get_register(1), 0x01);
    assert_eq!(vm.get_register(0xf), 0x01);

    vm.cycle();
    assert_eq!(vm.get_register(1), 0xf0);
    assert_eq!(vm.get_register(0xf), 0x00);
}

#[test]
fn instructions_with_i_register() {
    let mut vm = Vm::new();

    let program = vec![
        0xA5, 0x00, // ld i, 0x500
        0x60, 0x05, // ld v0, 0x05
        0xF0, 0x1E, // add i, v0
        0x60, 0x03, // ld v0, 0x03
        0xF0, 0x29, // ld f, v0
        0xA5, 0x00, // ld i, 0x500
        0x60, 0xDA, // ld v0, 0xDA
        0xF0, 0x33, // ld b, v0
    ];

    vm.load(program);
    assert_eq!(vm.index, 0x0);

    vm.cycle();
    assert_eq!(vm.index, 0x500);

    vm.cycle();
    vm.cycle();
    assert_eq!(vm.index, 0x505);

    vm.cycle();
    vm.cycle();
    assert_eq!(vm.index, 0xF);

    vm.cycle();
    vm.cycle();
    vm.cycle();
    assert_eq!(vm.get_memory(vm.index), 2);
    assert_eq!(vm.get_memory(vm.index + 1), 1);
    assert_eq!(vm.get_memory(vm.index + 2), 8);
}

#[test]
fn dump_and_load_registers() {
    let mut vm = Vm::new();
    let program = vec![
        0xA4, 0x00, // ld i, 0x400
        0x60, 0xF0, // ld v0, 0xF0
        0x61, 0xDD, // ld v1, 0xDD
        0x62, 0x1E, // ld v2, 0x1E
        0x63, 0x17, // ld v3, 0x17
        0x64, 0x4D, // ld v4, 0x4D
        0x65, 0x29, // ld v5, 0x29
        0xF5, 0x55, // ld [i], v5
        0x60, 0x00, // ld v0, 0x00
        0x61, 0x00, // ld v1, 0x00
        0x62, 0x00, // ld v2, 0x00
        0x63, 0x00, // ld v3, 0x00
        0x64, 0x00, // ld v4, 0x00
        0x65, 0x00, // ld v5, 0x00
        0xA4, 0x00, // ld i, 0x400
        0xF5, 0x65, // ld v5, [i]
    ];

    let register_values = vec![0xF0u8, 0xDDu8, 0x1Eu8, 0x17u8, 0x4Du8, 0x29u8];

    vm.load(program);

    // Load the index with value 0x400
    vm.cycle();
    assert_eq!(vm.index, 0x400);

    // Load registers V0 to V5
    cycle(&mut vm, 6);
    for (i, value) in register_values.iter().enumerate() {
        assert_eq!(vm.get_register(i as u8), *value);
    }

    // Execute the dump instruction for registers v0 - v5
    vm.cycle();
    assert_eq!(vm.index, 0x406);
    for i in 0..=5 {
        assert_eq!(vm.get_register(i), vm.get_memory(0x400 + i as u16))
    }

    // Clear registers v0 - v5 and reset I to 0x400
    cycle(&mut vm, 7);
    assert_eq!(vm.index, 0x400);
    for i in 0..=5 {
        assert_eq!(vm.get_register(i), 0x0);
    }

    // Execute the load instruction
    vm.cycle();
    for (i, value) in register_values.iter().enumerate() {
        assert_eq!(vm.get_register(i as u8), *value);
    }
}


#[test]
fn set_i_register() {
    let mut vm = Vm::new();

    let program = vec![
        0xA5, 0x00, // I = 0x500
        0x60, 0x05, // V0 = 0x05
        0xF0, 0x1E, // I = I + V0
        0x60, 0x03, // V0 = 0x03
        0xF0, 0x29, // I = font sprite of V0
        0xA5, 0x00, // I = 0x500
        0x60, 0xDA, // V0 = 0xDA
        0xF0, 0x33, // store the digits of V0
    ];

    vm.load(program);
    assert_eq!(vm.index, 0x0);

    vm.cycle();
    assert_eq!(vm.index, 0x500);

    vm.cycle();
    vm.cycle();
    assert_eq!(vm.index, 0x505);
}
