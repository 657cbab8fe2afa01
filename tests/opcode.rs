use chip8::machine::System;
use chip8::opcode::OpCode;

/** Set some registers for the purposes of testing. */
fn set_registers_for_test(system: &mut System) {
    OpCode::from(0x6064).execute(system).unwrap();
    OpCode::from(0x6127).execute(system).unwrap();
    OpCode::from(0x6212).execute(system).unwrap();
    OpCode::from(0x63AE).execute(system).unwrap();
    OpCode::from(0x64FF).execute(system).unwrap();
    OpCode::from(0x65B4).execute(system).unwrap();
    OpCode::from(0x6642).execute(system).unwrap();
    OpCode::from(0x6F25).execute(system).unwrap();
}

/** The opcode 0x6XNN should store the constant NN into register VX. */
#[test]
fn load_constant() {
    let mut system = System::new();

    OpCode::from(0x6015).execute(&mut system).unwrap();
    assert_eq!(0x15, system.register(0x0));

    OpCode::from(0x6120).execute(&mut system).unwrap();
    assert_eq!(0x20, system.register(0x1));

    OpCode::from(0x6225).execute(&mut system).unwrap();
    assert_eq!(0x25, system.register(0x2));

    OpCode::from(0x6330).execute(&mut system).unwrap();
    assert_eq!(0x30, system.register(0x3));

    OpCode::from(0x6435).execute(&mut system).unwrap();
    assert_eq!(0x35, system.register(0x4));

    OpCode::from(0x6540).execute(&mut system).unwrap();
    assert_eq!(0x40, system.register(0x5));

    OpCode::from(0x6645).execute(&mut system).unwrap();
    assert_eq!(0x45, system.register(0x6));

    OpCode::from(0x6750).execute(&mut system).unwrap();
    assert_eq!(0x50, system.register(0x7));

    OpCode::from(0x6855).execute(&mut system).unwrap();
    assert_eq!(0x55, system.register(0x8));

    OpCode::from(0x6960).execute(&mut system).unwrap();
    assert_eq!(0x60, system.register(0x9));

    OpCode::from(0x6A65).execute(&mut system).unwrap();
    assert_eq!(0x65, system.register(0xA));

    OpCode::from(0x6B70).execute(&mut system).unwrap();
    assert_eq!(0x70, system.register(0xB));

    OpCode::from(0x6C75).execute(&mut system).unwrap();
    assert_eq!(0x75, system.register(0xC));

    OpCode::from(0x6D80).execute(&mut system).unwrap();
    assert_eq!(0x80, system.register(0xD));

    OpCode::from(0x6E85).execute(&mut system).unwrap();
    assert_eq!(0x85, system.register(0xE));

    OpCode::from(0x6F90).execute(&mut system).unwrap();
    assert_eq!(0x90, system.register(0xF));
}

/** The opcode 0x7XNN should add the constant NN into register VX. */
#[test]
fn add_constant() {
    let mut system = System::new();

    OpCode::from(0x6015).execute(&mut system).unwrap();
    OpCode::from(0x7015).execute(&mut system).unwrap();
    assert_eq!(0x2A, system.register(0x0));

    OpCode::from(0x6A42).execute(&mut system).unwrap();
    OpCode::from(0x7A42).execute(&mut system).unwrap();
    assert_eq!(0x84, system.register(0xA));

    OpCode::from(0x6EFF).execute(&mut system).unwrap();
    OpCode::from(0x7E01).execute(&mut system).unwrap();
    // registers should overlow appropriately
    assert_eq!(0x00, system.register(0xE));
}

/** The opcode 0x8XY0 should copy the value from register VY into register VX. */
#[test]
fn copy_register() {
    let mut system = System::new();

    OpCode::from(0x6A42).execute(&mut system).unwrap();
    OpCode::from(0x8EA0).execute(&mut system).unwrap();
    assert_eq!(0x42, system.register(0xA));
    assert_eq!(0x42, system.register(0xE));

    OpCode::from(0x67DE).execute(&mut system).unwrap();
    OpCode::from(0x8F70).execute(&mut system).unwrap();
    assert_eq!(0xDE, system.register(0x7));
    assert_eq!(0xDE, system.register(0xF));
}

/** The opcode 0x8XY1 should set register VX to the value (VX OR VY). */
#[test]
fn oring_register() {
    let mut system = System::new();
    set_registers_for_test(&mut system);

    OpCode::from(0x8011).execute(&mut system).unwrap();
    assert_eq!(0x67, system.register(0x0));
    assert_eq!(0x27, system.register(0x1));

    OpCode::from(0x8231).execute(&mut system).unwrap();
    assert_eq!(0xBE, system.register(0x2));
    assert_eq!(0xAE, system.register(0x3));

    OpCode::from(0x8FE1).execute(&mut system).unwrap();
    assert_eq!(0x25, system.register(0xF));
    assert_eq!(0x00, system.register(0xE));
}

/** The opcode 0x8XY2 should set register VX to the value (VX AND VY). */
#[test]
fn anding_register() {
    let mut system = System::new();
    set_registers_for_test(&mut system);

    OpCode::from(0x8012).execute(&mut system).unwrap();
    assert_eq!(0x24, system.register(0x0));
    assert_eq!(0x27, system.register(0x1));

    OpCode::from(0x8232).execute(&mut system).unwrap();
    assert_eq!(0x02, system.register(0x2));
    assert_eq!(0xAE, system.register(0x3));

    OpCode::from(0x8FE2).execute(&mut system).unwrap();
    assert_eq!(0x00, system.register(0xF));
    assert_eq!(0x00, system.register(0xE));
}

/** The opcode 0x8XY3 should set register VX to the value (VX XOR VY). */
#[test]
fn xoring_register() {
    let mut system = System::new();
    set_registers_for_test(&mut system);

    OpCode::from(0x8013).execute(&mut system).unwrap();
    assert_eq!(0x43, system.register(0x0));
    assert_eq!(0x27, system.register(0x1));

    OpCode::from(0x8233).execute(&mut system).unwrap();
    assert_eq!(0xBC, system.register(0x2));
    assert_eq!(0xAE, system.register(0x3));

    OpCode::from(0x8FE3).execute(&mut system).unwrap();
    assert_eq!(0x25, system.register(0xF));
    assert_eq!(0x00, system.register(0xE));
}

/** The opcode 0x8XY4 should add register VY to register VX
  * If a carry occurs, set register VF to 01. */
#[test]
fn add_register_with_carry() {
    let mut system = System::new();
    set_registers_for_test(&mut system);

    OpCode::from(0x8014).execute(&mut system).unwrap();
    assert_eq!(0x8B, system.register(0x0));
    assert_eq!(0x00, system.register(0xF));

    OpCode::from(0x8234).execute(&mut system).unwrap();
    assert_eq!(0xC0, system.register(0x2));
    assert_eq!(0x00, system.register(0xF));

    OpCode::from(0x6502).execute(&mut system).unwrap();
    OpCode::from(0x8454).execute(&mut system).unwrap();
    assert_eq!(0x01, system.register(0x4));
    // overflow has occured - register VF should be set to 0x01
    assert_eq!(0x01, system.register(0xF));
}

/** The opcode 0x8XY5 should subtract register VY from register VX
  * If a borrow occurs, set register VF to 01. */
#[test]
fn sub_register_with_borrow_right_subtrahend() {
    let mut system = System::new();
    set_registers_for_test(&mut system);

    OpCode::from(0x8125).execute(&mut system).unwrap();
    assert_eq!(0x15, system.register(0x1));
    assert_eq!(0x00, system.register(0xF));

    OpCode::from(0x8455).execute(&mut system).unwrap();
    assert_eq!(0x4B, system.register(0x4));
    assert_eq!(0x00, system.register(0xF));

    OpCode::from(0x6501).execute(&mut system).unwrap();
    OpCode::from(0x8B55).execute(&mut system).unwrap();
    assert_eq!(0xFF, system.register(0xB));
    // note - a borrow occurs here because subtrahend > minuend,
        // therefore register VF should be set to 0x01
    assert_eq!(0x01, system.register(0xF));
}

/** The opcode 0x8XY6 should store the value stored in register VY right shifted by 1 bit
*     in register VX. Register VF should be set to the least significant bit. */
#[test]
fn rshift_register() {
    let mut system = System::new();
    set_registers_for_test(&mut system);

    OpCode::from(0x8016).execute(&mut system).unwrap();
    assert_eq!(0x13, system.register(0x0));
    assert_eq!(0x01, system.register(0xF));

    OpCode::from(0x8236).execute(&mut system).unwrap();
    assert_eq!(0x57, system.register(0x2));
    assert_eq!(0x00, system.register(0xF));

    OpCode::from(0x8446).execute(&mut system).unwrap();
    assert_eq!(0x7F, system.register(0x4));
    assert_eq!(0x01, system.register(0xF));
}

/** The opcode 0x8XY7 should subtract register VX from register VY
  *     If a borrow occurs, set register VF to 01. */
#[test]
fn sub_register_with_borrow_left_subtrahend() {
    let mut system = System::new();
    set_registers_for_test(&mut system);

    OpCode::from(0x8217).execute(&mut system).unwrap();
    assert_eq!(0x15, system.register(0x1));
    assert_eq!(0x00, system.register(0xF));

    OpCode::from(0x8547).execute(&mut system).unwrap();
    assert_eq!(0x4B, system.register(0x4));
    assert_eq!(0x00, system.register(0xF));

    OpCode::from(0x6501).execute(&mut system).unwrap();
    OpCode::from(0x85B7).execute(&mut system).unwrap();
    assert_eq!(0xFF, system.register(0xB));
    // note - a borrow occurs here because subtrahend > minuend,
        // therefore register VF should be set to 0x01
    assert_eq!(0x01, system.register(0xF));
}

/** The opcode 0x8XYE should store the value stored in register VY left shifted by 1 bit
  *     in register VX. Register VF should be set to the most significant bit. */
#[test]
fn lshift_register() {
    let mut system = System::new();
    set_registers_for_test(&mut system);

    OpCode::from(0x801E).execute(&mut system).unwrap();
    assert_eq!(0x4E, system.register(0x0));
    assert_eq!(0x00, system.register(0xF));

    OpCode::from(0x823E).execute(&mut system).unwrap();
    assert_eq!(0x5C, system.register(0x2));
    assert_eq!(0x01, system.register(0xF));

    OpCode::from(0x844E).execute(&mut system).unwrap();
    assert_eq!(0xFE, system.register(0x4));
    assert_eq!(0x01, system.register(0xF));
}

/** The opcode 0xCXNN should generate a random number, mask it with NN and store it in
  *     register VX. */
#[test]
fn random_register() {
    let mut system = System::new();

    for _ in 0..64 {
        OpCode::from(0xC30F).execute(&mut system).unwrap();
        assert!(system.register(0x3) <= 0x0F);
    }

    OpCode::from(0xC400).execute(&mut system).unwrap();
    assert_eq!(0x00, system.register(0x4));
}

/** The opcode 0x1NNN instructs the interpreter to jump to address NNN. */
#[test]
fn jump_address() {
    let mut system = System::new();

    OpCode::from(0x12AE).execute(&mut system).unwrap();
    assert_eq!(0x2AE, system.pc());
}

/** The opcode 0xBNNN instructs the interpreter to jump to address NNN with an offset
  *     specified in register V0. */
#[test]
fn jump_address_with_offset() {
    let mut system = System::new();
    OpCode::from(0x6064).execute(&mut system).unwrap();

    OpCode::from(0xB2AE).execute(&mut system).unwrap();
    assert_eq!(0x312, system.pc());
}

/** The opcode 0x2NNN should instruct the interpreter to start execution of instructions at
  *     address NNN. */
#[test]
fn subroutine_jump() {
    let mut system = System::new();

    OpCode::from(0x22AE).execute(&mut system).unwrap();
    assert_eq!(0x2AE, system.pc());
    assert_eq!(1, system.sp());
    assert_eq!(0x200, system.stack_entry((system.sp() - 1) as usize));
}

/** The opcode 0x00EE should instruct the interpreter to return from a subroutine. */
#[test]
fn subroutine_return() {
    let mut system = System::new();

    OpCode::from(0x22AE).execute(&mut system).unwrap();
    OpCode::from(0x00EE).execute(&mut system).unwrap();
    assert_eq!(0x200, system.pc());
    assert_eq!(0, system.sp());
}

/** The opcode 0x3XNN should instruct the interpreter to skip the next instruction if the
  *     value stored in register VX is NN. */
#[test]
fn skip_value() {
    let mut system = System::new();
    set_registers_for_test(&mut system);

    OpCode::from(0x3212).execute(&mut system).unwrap();
    // skip
    assert_eq!(0x202, system.pc());

    OpCode::from(0x3213).execute(&mut system).unwrap();
    // do NOT skip
    assert_eq!(0x202, system.pc());
}

/** The opcode 0x5XY0 should instruct the interpreter to skip the next instruction if the
  *     value stored in register VX is equal to the value stored in register VY. */
#[test]
fn skip_register() {
    let mut system = System::new();
    set_registers_for_test(&mut system);
    OpCode::from(0x6227).execute(&mut system).unwrap();

    OpCode::from(0x5120).execute(&mut system).unwrap();
    // skip
    assert_eq!(0x202, system.pc());

    OpCode::from(0x5140).execute(&mut system).unwrap();
    // do NOT skip
    assert_eq!(0x202, system.pc());
}

/** The opcode 0x4XNN should instruct the interpreter to skip the next instruction if the
  *     value stored in register VX is not equal to NN. */
#[test]
fn skip_not_value() {
    let mut system = System::new();
    set_registers_for_test(&mut system);

    OpCode::from(0x4112).execute(&mut system).unwrap();
    // skip
    assert_eq!(0x202, system.pc());

    OpCode::from(0x4212).execute(&mut system).unwrap();
    // do NOT skip
    assert_eq!(0x202, system.pc());
}

/** The opcode 0x5XY0 should instruct the interpreter to skip the next instruction if the
  *     value stored in register VX is not equal to the value stored in register VY. */
#[test]
fn skip_not_register() {
    let mut system = System::new();
    set_registers_for_test(&mut system);
    OpCode::from(0x6227).execute(&mut system).unwrap();

    OpCode::from(0x9140).execute(&mut system).unwrap();
    // skip
    assert_eq!(0x202, system.pc());

    OpCode::from(0x9120).execute(&mut system).unwrap();
    // do NOT skip
    assert_eq!(0x202, system.pc());
}

/** The opcode 0xFX15 should set the delay timer to the value stored in register VX. */
#[test]
fn set_delay_timer() {
    let mut system = System::new();
    OpCode::from(0x6227).execute(&mut system).unwrap();

    OpCode::from(0xF215).execute(&mut system).unwrap();
    assert_eq!(0x27, system.delay_timer());
}

/** The opcode 0xFX07 should store in register VX the current value of the delay timer. */
#[test]
fn set_register_from_timer() {
    let mut system = System::new();
    OpCode::from(0x6227).execute(&mut system).unwrap();
    OpCode::from(0xF215).execute(&mut system).unwrap();

    OpCode::from(0xFB07).execute(&mut system).unwrap();
    assert_eq!(0x27, system.register(0xB));
}

/** The opcode 0xFX18 should set the sound timer to the value stored in register VX. */
#[test]
fn set_sound_timer() {
    let mut system = System::new();
    OpCode::from(0x6227).execute(&mut system).unwrap();

    OpCode::from(0xF218).execute(&mut system).unwrap();
    assert_eq!(0x27, system.sound_timer());
}
