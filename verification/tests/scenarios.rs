//! End-to-end scenarios: programs loaded at 0x200 and driven through the
//! fetch-decode-execute step.

use chip8::program::{Error, Program};

#[test]
fn set_then_add_advances_the_counter() {
    let mut p = Program::new();
    p.load(&[0x60, 0x0A, 0x70, 0x05]); // V0 = 0x0A; V0 += 5
    p.run().unwrap();
    p.run().unwrap();
    assert_eq!(p.v[0], 15);
    assert_eq!(p.pc(), 0x204);
}

#[test]
fn store_register_block_through_the_step_loop() {
    let mut p = Program::new();
    p.load(&[0xA2, 0x50, 0xF1, 0x55]); // I = 0x250; store V0..=V1
    p.v[0] = 1;
    p.v[1] = 2;
    p.run().unwrap();
    p.run().unwrap();
    let memory = p.memory();
    assert_eq!(memory[0x250], 1);
    assert_eq!(memory[0x251], 2);
}

#[test]
fn block_for_key_stays_until_a_key_arrives() {
    let mut p = Program::new();
    p.load(&[0xF5, 0x0A]); // block until a key is down, store it in V5
    p.run().unwrap();
    assert_eq!(p.pc(), 0x200);
    p.run().unwrap();
    p.run().unwrap();
    assert_eq!(p.pc(), 0x200); // still waiting
    p.keydown(7).unwrap();
    p.run().unwrap();
    assert_eq!(p.v[5], 7);
    assert_eq!(p.pc(), 0x202);
}

#[test]
fn block_for_key_takes_the_lowest_pressed_key() {
    let mut p = Program::new();
    p.load(&[0xF5, 0x0A]);
    p.keydown(9).unwrap();
    p.keydown(4).unwrap();
    p.run().unwrap();
    assert_eq!(p.v[5], 4);
    assert_eq!(p.pc(), 0x202);
}

#[test]
fn call_and_return_restore_the_counter() {
    let mut p = Program::new();
    p.load(&[0x23, 0x00]); // call 0x300
    p.memory[0x300] = 0x00;
    p.memory[0x301] = 0xEE; // return
    let sp_before = p.stack_pointer;
    p.run().unwrap();
    assert_eq!(p.pc(), 0x300);
    assert_eq!(p.stack_pointer, sp_before + 1);
    p.run().unwrap();
    assert_eq!(p.pc(), 0x202); // the instruction after the call
    assert_eq!(p.stack_pointer, sp_before);
}

#[test]
fn jump_sets_the_counter_absolutely() {
    let mut p = Program::new();
    p.load(&[0x12, 0x08]); // jump to 0x208
    p.run().unwrap();
    assert_eq!(p.pc(), 0x208);
}

#[test]
fn jump_with_offset_adds_v0() {
    let mut p = Program::new();
    p.load(&[0xB2, 0x08]); // jump to 0x208 + V0
    p.v[0] = 4;
    p.run().unwrap();
    assert_eq!(p.pc(), 0x20C);
}

#[test]
fn conditional_skip_jumps_over_one_instruction() {
    let mut p = Program::new();
    p.load(&[0x30, 0x00, 0x60, 0x01, 0x60, 0x02]); // skip if V0 == 0
    p.run().unwrap();
    assert_eq!(p.pc(), 0x204); // skipped the first set
    p.run().unwrap();
    assert_eq!(p.v[0], 2);
}

#[test]
fn stack_underflow_is_reported_and_state_kept() {
    let mut p = Program::new();
    p.load(&[0x00, 0xEE]); // return with an empty stack
    let r = p.run();
    assert_eq!(r, Err(Error::StackUnderflow));
    assert_eq!(p.pc(), 0x200); // unchanged
}

#[test]
fn stack_overflow_on_the_seventeenth_call() {
    let mut p = Program::new();
    // An endless call to the call instruction's own address.
    p.load(&[0x22, 0x00]);
    for _ in 0..16 {
        p.run().unwrap();
    }
    assert_eq!(p.stack_pointer, 16);
    let r = p.run();
    assert_eq!(r, Err(Error::StackOverflow));
    assert_eq!(p.stack_pointer, 16); // unchanged
}

#[test]
fn counter_out_of_bounds_is_reported() {
    let mut p = Program::new();
    p.load(&[0x1F, 0xFF]); // jump to 0xFFF: only one byte is addressable there
    p.run().unwrap();
    assert_eq!(p.pc(), 0xFFF);
    let r = p.run();
    assert_eq!(r, Err(Error::ProgramCounterOutOfBounds));
    assert_eq!(p.pc(), 0xFFF);
}

#[test]
fn invalid_opcode_stops_a_run() {
    let mut p = Program::new();
    p.load(&[0xFF, 0xFF]);
    let r = p.run();
    assert_eq!(
        r,
        Err(Error::InvalidInstruction { a: 0xF, b: 0xF, c: 0xF, d: 0xF })
    );
    assert_eq!(p.pc(), 0x200);
}

#[test]
fn load_zero_fills_and_truncates() {
    let mut p = Program::new();
    p.memory[0x300] = 0xAA; // stale content to be overwritten by the fill
    let rom: Vec<u8> = (0..4000u32).map(|k| (k % 251) as u8).collect();
    p.load(&rom);
    let memory = p.memory();
    assert_eq!(memory[0x200], rom[0]);
    assert_eq!(memory[4095], rom[4095 - 0x200]); // last byte that fits
    assert_eq!(memory[0x300], rom[0x100]);
    // Glyphs below 0x200 are untouched.
    assert_eq!(memory[0], 0xF0);

    let mut q = Program::new();
    q.memory[0x300] = 0xAA;
    q.load(&[0x01, 0x02]);
    let memory = q.memory();
    assert_eq!(memory[0x200], 0x01);
    assert_eq!(memory[0x201], 0x02);
    assert_eq!(memory[0x202], 0);
    assert_eq!(memory[0x300], 0); // zero-filled behind the image
}

#[test]
fn tick_steps_like_run() {
    let mut p = Program::new();
    p.load(&[0x61, 0x2A]);
    p.tick().unwrap();
    assert_eq!(p.v[1], 0x2A);
    assert_eq!(p.pc(), 0x202);
}
