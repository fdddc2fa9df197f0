//! Tests of the decoder: one concrete word per opcode family, the invalid
//! fallback, and the nibble-extraction helpers.

use chip8::instructions::{address, decode, value, Instruction};

#[test]
fn decode_clear_and_return() {
    assert_eq!(decode(0x00E0), Instruction::Clear);
    assert_eq!(decode(0x00EE), Instruction::ReturnSubroutine);
}

#[test]
fn decode_jumps_and_calls() {
    assert_eq!(decode(0x1234), Instruction::JumpTo { address: 0x234 });
    assert_eq!(decode(0x2ABC), Instruction::CallSubroutine { address: 0xABC });
    assert_eq!(decode(0xB123), Instruction::JumpToPlusV0 { address: 0x123 });
}

#[test]
fn decode_immediate_skips_and_sets() {
    assert_eq!(decode(0x3A7F), Instruction::SkipEqual { x: 0xA, value: 0x7F });
    assert_eq!(decode(0x4B01), Instruction::SkipNotEqual { x: 0xB, value: 0x01 });
    assert_eq!(decode(0x5120), Instruction::SkipRegisterEqual { x: 1, y: 2 });
    assert_eq!(decode(0x6C55), Instruction::SetRegister { x: 0xC, value: 0x55 });
    assert_eq!(decode(0x70FF), Instruction::AddRegister { x: 0, value: 0xFF });
    assert_eq!(decode(0x9340), Instruction::SkipRegisterNotEqual { x: 3, y: 4 });
}

#[test]
fn decode_register_ops() {
    assert_eq!(decode(0x8120), Instruction::SetVxToVy { x: 1, y: 2 });
    assert_eq!(decode(0x8121), Instruction::SetVxToVxOrVy { x: 1, y: 2 });
    assert_eq!(decode(0x8122), Instruction::SetVxToVxAndVy { x: 1, y: 2 });
    assert_eq!(decode(0x8123), Instruction::SetVxToVxXorVy { x: 1, y: 2 });
    assert_eq!(decode(0x8124), Instruction::SetVxToVxAndVyCarry { x: 1, y: 2 });
    assert_eq!(decode(0x8125), Instruction::SetVxToVxSubVy { x: 1, y: 2 });
    assert_eq!(decode(0x8126), Instruction::SetVxToVxShr { x: 1 });
    assert_eq!(decode(0x8127), Instruction::SetVxToVySubVx { x: 1, y: 2 });
    assert_eq!(decode(0x812E), Instruction::SetVxToVxShl { x: 1 });
}

#[test]
fn decode_address_register_and_draw() {
    assert_eq!(decode(0xA111), Instruction::SetIToAddress { address: 0x111 });
    assert_eq!(decode(0xC2F0), Instruction::SetVxToRandomAndValue { x: 2, value: 0xF0 });
    assert_eq!(decode(0xD125), Instruction::Draw { x: 1, y: 2, n: 5 });
}

#[test]
fn decode_key_and_timer_family() {
    assert_eq!(decode(0xE39E), Instruction::SkipKeyPressed { x: 3 });
    assert_eq!(decode(0xE3A1), Instruction::SkipKeyNotPressed { x: 3 });
    assert_eq!(decode(0xF407), Instruction::SetVxToDelayTimer { x: 4 });
    assert_eq!(decode(0xF50A), Instruction::SetVxToNextKeyPress { x: 5 });
    assert_eq!(decode(0xF615), Instruction::SetDelayTimerToVx { x: 6 });
    assert_eq!(decode(0xF718), Instruction::SetSoundTimerToVx { x: 7 });
    assert_eq!(decode(0xF81E), Instruction::AddVxToI { x: 8 });
    assert_eq!(decode(0xF929), Instruction::SetIToSpriteLocation { x: 9 });
    assert_eq!(decode(0xFA33), Instruction::StoreBCD { x: 0xA });
    assert_eq!(decode(0xFB55), Instruction::StoreRegisters { x: 0xB });
    assert_eq!(decode(0xFC65), Instruction::ReadRegisters { x: 0xC });
}

#[test]
fn decode_invalid_words() {
    // The legacy "call native routine" family has no defined behavior.
    assert_eq!(
        decode(0x0123),
        Instruction::InvalidInstruction { a: 0, b: 1, c: 2, d: 3 }
    );
    // Undefined gaps inside defined families.
    assert_eq!(
        decode(0x5121),
        Instruction::InvalidInstruction { a: 5, b: 1, c: 2, d: 1 }
    );
    assert_eq!(
        decode(0x8128),
        Instruction::InvalidInstruction { a: 8, b: 1, c: 2, d: 8 }
    );
    assert_eq!(
        decode(0xE300),
        Instruction::InvalidInstruction { a: 0xE, b: 3, c: 0, d: 0 }
    );
    assert_eq!(
        decode(0xFFFF),
        Instruction::InvalidInstruction { a: 0xF, b: 0xF, c: 0xF, d: 0xF }
    );
}

#[test]
fn decode_is_total_over_sampled_words() {
    // Every word decodes to some variant without panicking; sample densely.
    let mut word: u32 = 0;
    while word <= 0xFFFF {
        let _ = decode(word as u16);
        word += 1;
    }
}

#[test]
fn value_concatenates_low_nibbles() {
    assert_eq!(value(0x2, 0x5), 0x25);
    assert_eq!(value(0xF, 0xF), 0xFF);
    assert_eq!(value(0x0, 0x0), 0x00);
    // High nibbles of the inputs are ignored.
    assert_eq!(value(0xA2, 0xB5), 0x25);
}

#[test]
fn address_concatenates_three_nibbles() {
    assert_eq!(address(0x2, 0x3, 0x4), 0x234);
    assert_eq!(address(0xF, 0xF, 0xF), 0xFFF);
    // High nibbles of the inputs are ignored.
    assert_eq!(address(0x12, 0x23, 0x34), 0x234);
}
