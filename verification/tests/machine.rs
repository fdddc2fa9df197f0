//! Tests of single instructions applied to the machine state.

use chip8::instructions::{decode, Instruction};
use chip8::program::{Cursor, Error, Program};

#[test]
fn new_machine_has_glyphs_and_clean_state() {
    let p = Program::new();
    let memory = p.memory();
    assert_eq!(memory.len(), 4096);
    assert_eq!(memory[0], 0xF0); // first byte of the glyph for 0
    assert_eq!(memory[79], 0x80); // last byte of the glyph for F
    assert_eq!(memory[80], 0);
    assert_eq!(p.pc(), 0x200);
    assert_eq!(p.delay_timer(), 0);
    assert_eq!(p.sound_timer(), 0);
    let screen = p.screen();
    assert_eq!(screen.len(), 32);
    for row in &screen {
        assert_eq!(row.len(), 64);
        for &cell in row.iter() {
            assert!(!cell);
        }
    }
}

#[test]
fn clear_turns_every_cell_off() {
    let mut p = Program::new();
    // Light some cells by drawing a glyph, then clear.
    p.i = 0; // glyph for 0
    let r = decode(0xD005).run_with_random(&mut p, 0);
    assert_eq!(r, Ok(Cursor::Next));
    assert!(p.screen()[0][0]);
    let r = decode(0x00E0).run_with_random(&mut p, 0);
    assert_eq!(r, Ok(Cursor::Next));
    for row in &p.screen() {
        for &cell in row.iter() {
            assert!(!cell);
        }
    }
}

#[test]
fn add_with_carry_sets_flag_exactly_on_overflow() {
    let mut p = Program::new();
    p.v[1] = 200;
    p.v[2] = 100;
    let r = decode(0x8124).run_with_random(&mut p, 0);
    assert_eq!(r, Ok(Cursor::Next));
    assert_eq!(p.v[1], 44); // (200 + 100) mod 256
    assert_eq!(p.v[15], 1);

    p.v[3] = 1;
    p.v[4] = 2;
    let r = decode(0x8344).run_with_random(&mut p, 0);
    assert_eq!(r, Ok(Cursor::Next));
    assert_eq!(p.v[3], 3);
    assert_eq!(p.v[15], 0);
}

#[test]
fn sub_with_borrow_both_directions() {
    let mut p = Program::new();
    p.v[1] = 10;
    p.v[2] = 3;
    let r = decode(0x8125).run_with_random(&mut p, 0);
    assert_eq!(r, Ok(Cursor::Next));
    assert_eq!(p.v[1], 7);
    assert_eq!(p.v[15], 1); // Vx > Vy

    p.v[5] = 3;
    p.v[6] = 10;
    let r = decode(0x8565).run_with_random(&mut p, 0);
    assert_eq!(r, Ok(Cursor::Next));
    assert_eq!(p.v[5], 249); // (3 - 10) mod 256
    assert_eq!(p.v[15], 0);

    // 8xy7 computes Vy - Vx.
    p.v[7] = 3;
    p.v[8] = 10;
    let r = decode(0x8787).run_with_random(&mut p, 0);
    assert_eq!(r, Ok(Cursor::Next));
    assert_eq!(p.v[7], 7);
    assert_eq!(p.v[15], 1); // Vy > Vx
}

#[test]
fn shifts_report_the_dropped_bit() {
    let mut p = Program::new();
    p.v[1] = 0b1000_0101;
    let r = decode(0x8106).run_with_random(&mut p, 0);
    assert_eq!(r, Ok(Cursor::Next));
    assert_eq!(p.v[1], 0b0100_0010);
    assert_eq!(p.v[15], 1); // low bit was 1

    p.v[2] = 0b1000_0001;
    let r = decode(0x820E).run_with_random(&mut p, 0);
    assert_eq!(r, Ok(Cursor::Next));
    assert_eq!(p.v[2], 0b0000_0010); // modulo 256
    assert_eq!(p.v[15], 1); // high bit was 1
}

#[test]
fn bitwise_register_ops() {
    let mut p = Program::new();
    p.v[1] = 0b1100;
    p.v[2] = 0b1010;
    decode(0x8121).run_with_random(&mut p, 0).unwrap();
    assert_eq!(p.v[1], 0b1110);
    p.v[1] = 0b1100;
    decode(0x8122).run_with_random(&mut p, 0).unwrap();
    assert_eq!(p.v[1], 0b1000);
    p.v[1] = 0b1100;
    decode(0x8123).run_with_random(&mut p, 0).unwrap();
    assert_eq!(p.v[1], 0b0110);
    decode(0x8120).run_with_random(&mut p, 0).unwrap();
    assert_eq!(p.v[1], 0b1010);
}

#[test]
fn add_register_wraps_without_touching_the_flag() {
    let mut p = Program::new();
    p.v[0] = 250;
    p.v[15] = 7;
    let r = decode(0x700A).run_with_random(&mut p, 0);
    assert_eq!(r, Ok(Cursor::Next));
    assert_eq!(p.v[0], 4); // (250 + 10) mod 256
    assert_eq!(p.v[15], 7); // no carry output
}

#[test]
fn random_and_masks_the_supplied_byte() {
    let mut p = Program::new();
    let r = decode(0xC1F0).run_with_random(&mut p, 0b1010_1010);
    assert_eq!(r, Ok(Cursor::Next));
    assert_eq!(p.v[1], 0b1010_0000);
    // A zero mask forces zero whatever the random source yields.
    let mut q = Program::new();
    q.v[2] = 0xEE;
    let r = decode(0xC200).run(&mut q);
    assert_eq!(r, Ok(Cursor::Next));
    assert_eq!(q.v[2], 0);
}

#[test]
fn store_bcd_decomposes_decimal_digits() {
    let mut p = Program::new();
    p.v[3] = 254;
    p.i = 0x300;
    let r = decode(0xF333).run_with_random(&mut p, 0);
    assert_eq!(r, Ok(Cursor::Next));
    let memory = p.memory();
    assert_eq!(memory[0x300], 2);
    assert_eq!(memory[0x301], 5);
    assert_eq!(memory[0x302], 4);
    assert_eq!(p.i, 0x300); // the address register is unmodified
}

#[test]
fn glyph_location_is_five_bytes_per_digit() {
    let mut p = Program::new();
    p.v[1] = 0xA;
    let r = decode(0xF129).run_with_random(&mut p, 0);
    assert_eq!(r, Ok(Cursor::Next));
    assert_eq!(p.i, 50);
}

#[test]
fn register_block_store_and_load_leave_i_unmodified() {
    let mut p = Program::new();
    p.v[0] = 11;
    p.v[1] = 22;
    p.v[2] = 33;
    p.i = 0x250;
    decode(0xF255).run_with_random(&mut p, 0).unwrap();
    let memory = p.memory();
    assert_eq!(memory[0x250], 11);
    assert_eq!(memory[0x251], 22);
    assert_eq!(memory[0x252], 33);
    assert_eq!(p.i, 0x250);

    let mut q = Program::new();
    q.i = 0x250;
    q.memory[0x250] = 5;
    q.memory[0x251] = 6;
    decode(0xF165).run_with_random(&mut q, 0).unwrap();
    assert_eq!(q.v[0], 5);
    assert_eq!(q.v[1], 6);
    assert_eq!(q.v[2], 0);
    assert_eq!(q.i, 0x250);
}

#[test]
fn timers_read_write_and_floor_at_zero() {
    let mut p = Program::new();
    p.v[6] = 2;
    decode(0xF615).run_with_random(&mut p, 0).unwrap();
    decode(0xF718).run_with_random(&mut p, 0).unwrap();
    assert_eq!(p.delay_timer(), 2);
    assert_eq!(p.sound_timer(), 0); // V7 was 0
    p.v[9] = 0xFF;
    decode(0x9900).run_with_random(&mut p, 0).unwrap(); // unrelated skip, timers untouched
    decode(0xF407).run_with_random(&mut p, 0).unwrap();
    assert_eq!(p.v[4], 2); // delay timer read back
    p.decrement_timers();
    p.decrement_timers();
    p.decrement_timers();
    assert_eq!(p.delay_timer(), 0); // clamped, no underflow
    assert_eq!(p.sound_timer(), 0);
}

#[test]
fn add_to_address_register_is_16_bit() {
    let mut p = Program::new();
    p.i = 0xFFE;
    p.v[1] = 5;
    decode(0xF11E).run_with_random(&mut p, 0).unwrap();
    assert_eq!(p.i, 0x1003); // not masked to 12 bits
}

#[test]
fn skip_cursors_from_comparisons() {
    let mut p = Program::new();
    p.v[1] = 0x55;
    assert_eq!(decode(0x3155).run_with_random(&mut p, 0), Ok(Cursor::Skip));
    assert_eq!(decode(0x3156).run_with_random(&mut p, 0), Ok(Cursor::Next));
    assert_eq!(decode(0x4155).run_with_random(&mut p, 0), Ok(Cursor::Next));
    assert_eq!(decode(0x4156).run_with_random(&mut p, 0), Ok(Cursor::Skip));
    p.v[2] = 0x55;
    assert_eq!(decode(0x5120).run_with_random(&mut p, 0), Ok(Cursor::Skip));
    assert_eq!(decode(0x9120).run_with_random(&mut p, 0), Ok(Cursor::Next));
}

#[test]
fn key_skips_read_the_key_named_by_vx() {
    let mut p = Program::new();
    p.v[1] = 7;
    assert_eq!(decode(0xE19E).run_with_random(&mut p, 0), Ok(Cursor::Next));
    assert_eq!(decode(0xE1A1).run_with_random(&mut p, 0), Ok(Cursor::Skip));
    p.keydown(7).unwrap();
    assert_eq!(decode(0xE19E).run_with_random(&mut p, 0), Ok(Cursor::Skip));
    assert_eq!(decode(0xE1A1).run_with_random(&mut p, 0), Ok(Cursor::Next));
    // A register value outside the 16-key space counts as "not pressed".
    p.v[1] = 200;
    assert_eq!(decode(0xE19E).run_with_random(&mut p, 0), Ok(Cursor::Next));
    assert_eq!(decode(0xE1A1).run_with_random(&mut p, 0), Ok(Cursor::Skip));
}

#[test]
fn key_events_reject_out_of_range_indices() {
    let mut p = Program::new();
    assert_eq!(p.keydown(16), Err(Error::KeyOutOfRange));
    assert_eq!(p.keyup(16), Err(Error::KeyOutOfRange));
    assert_eq!(p.keydown(15), Ok(()));
    assert_eq!(p.keyup(15), Ok(()));
}

#[test]
fn invalid_instruction_is_a_reported_error() {
    let mut p = Program::new();
    let r = decode(0x0123).run_with_random(&mut p, 0);
    assert_eq!(
        r,
        Err(Error::InvalidInstruction { a: 0, b: 1, c: 2, d: 3 })
    );
}

#[test]
fn screen_text_renders_rows_of_cells() {
    let mut p = Program::new();
    let blank = p.screen_text();
    assert_eq!(blank.len(), 32 * 65);
    let blank_line: Vec<u8> = [b' '; 64].iter().chain([b'\n'].iter()).copied().collect();
    assert_eq!(&blank[0..65], &blank_line[..]);
    assert_eq!(blank[32 * 65 - 1], b'\n');

    // Light the top-left cell: the very first character becomes an `x`.
    p.memory[0x700] = 0b1000_0000;
    p.i = 0x700;
    decode(0xD001).run_with_random(&mut p, 0).unwrap();
    let text = p.screen_text();
    assert_eq!(text[0], b'x');
    assert_eq!(text[1], b' ');
    assert_eq!(text[64], b'\n');
}

#[test]
fn draw_wraps_both_axes_and_detects_collisions() {
    let mut p = Program::new();
    // One row, one set bit (the leftmost), drawn at (Vx, Vy) = (63, 31):
    // the bit lands at the bottom-right corner.
    p.memory[0x700] = 0b1000_0000;
    p.i = 0x700;
    p.v[0] = 63;
    p.v[1] = 31;
    decode(0xD011).run_with_random(&mut p, 0).unwrap();
    assert!(p.screen()[31][63]);
    assert_eq!(p.v[15], 0);
    // Drawing the same sprite again erases the cell and reports a collision.
    decode(0xD011).run_with_random(&mut p, 0).unwrap();
    assert!(!p.screen()[31][63]);
    assert_eq!(p.v[15], 1);
    // A two-bit row at column 63 wraps its second bit to column 0.
    p.memory[0x700] = 0b1100_0000;
    decode(0xD011).run_with_random(&mut p, 0).unwrap();
    assert!(p.screen()[31][63]);
    assert!(p.screen()[31][0]);
}
