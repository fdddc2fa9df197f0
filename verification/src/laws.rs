//! Laws of the instruction set that relate several operations or hold over
//! all inputs: the display-clear effect, the carry and borrow flag rules, and
//! the XOR-idempotence of drawing.

use vstd::prelude::*;

use crate::instructions::Instruction;
use crate::program::{
    spec_blank_screen, spec_draw, spec_draw_bit, spec_draw_row, spec_draw_rows,
    spec_run_instruction, spec_sprite_bit, Cursor, Error, MachineV,
};

verus! {

/// Clearing the display yields all-dark cells regardless of prior content;
/// nothing else of the machine changes and execution moves on.
pub proof fn lemma_clear_clears(s: MachineV, random_byte: u8)
    requires
        s.wf(),
    ensures
        spec_run_instruction(s, Instruction::Clear, random_byte) == Ok::<
            (MachineV, Cursor),
            Error,
        >((MachineV { screen: spec_blank_screen(), ..s }, Cursor::Next)),
        forall|r: int, c: int| 0 <= r < 32 && 0 <= c < 64 ==> !(spec_blank_screen()[r][c]),
{
}

/// Arithmetic carry law: for all register values, the add-with-carry
/// instruction sets `VF` to 1 exactly when `Vx + Vy` exceeds 255, and (for
/// any `x` other than the flag register itself, which the flag overwrites)
/// leaves `Vx` at `(Vx + Vy) mod 256`.
pub proof fn lemma_add_with_carry(s: MachineV, x: usize, y: usize, random_byte: u8)
    requires
        s.wf(),
        x < 16,
        y < 16,
    ensures
        match spec_run_instruction(s, Instruction::SetVxToVxAndVyCarry { x, y }, random_byte) {
            Ok(sc) => {
                &&& sc.1 == Cursor::Next
                &&& sc.0.v[15] == (if s.v[x as int] + s.v[y as int] > 255 {
                    1u8
                } else {
                    0u8
                })
                &&& x != 15 ==> sc.0.v[x as int] == ((s.v[x as int] + s.v[y as int]) % 256) as u8
            },
            Err(_) => false,
        },
{
}

/// Subtraction borrow law: for all register values, `Vx = Vx - Vy` sets `VF`
/// to 1 exactly when `Vx > Vy` beforehand, and leaves `Vx` at
/// `(Vx - Vy) mod 256`. The flag register is excluded as an operand: the
/// machine writes the flag before the subtraction reads its operands, so with
/// `x` or `y` equal to 15 the subtraction sees the flag, not the old value.
pub proof fn lemma_sub_borrow(s: MachineV, x: usize, y: usize, random_byte: u8)
    requires
        s.wf(),
        x < 15,
        y < 15,
    ensures
        match spec_run_instruction(s, Instruction::SetVxToVxSubVy { x, y }, random_byte) {
            Ok(sc) => {
                &&& sc.1 == Cursor::Next
                &&& sc.0.v[15] == (if s.v[x as int] > s.v[y as int] {
                    1u8
                } else {
                    0u8
                })
                &&& sc.0.v[x as int] == ((s.v[x as int] - s.v[y as int]) % 256) as u8
            },
            Err(_) => false,
        },
{
}

/// Of a byte with exactly one set bit, the sprite-bit test finds that bit and
/// no other.
proof fn lemma_single_bit(b: u8, j: u8)
    by (bit_vector)
    requires
        b < 8,
        j < 8,
    ensures
        ((1u8 << ((7 - b) as u8)) >> ((7 - j) as u8)) & 1 == (if j == b {
            1u8
        } else {
            0u8
        }),
{
}

/// Drawing the first `bits` bits of a one-bit sprite row: nothing happens
/// until the set bit `b` is reached, and from then on the fold equals the
/// single cell update at column `(vx + b) mod 64`.
proof fn lemma_draw_row_single(
    screen: Seq<Seq<bool>>,
    vf: u8,
    row: int,
    vx: u8,
    b: u8,
    bits: nat,
)
    requires
        b < 8,
        bits <= 8,
    ensures
        spec_draw_row(screen, vf, row, vx, 1u8 << ((7 - b) as u8), bits) == (if bits <= b {
            (screen, vf)
        } else {
            spec_draw_bit(screen, vf, row, (vx + b) % 64, true)
        }),
    decreases bits,
{
    if bits > 0 {
        lemma_draw_row_single(screen, vf, row, vx, b, (bits - 1) as nat);
        lemma_single_bit(b, (bits - 1) as u8);
        assert(spec_sprite_bit(1u8 << ((7 - b) as u8), (bits - 1) as u8) == ((bits - 1) == b));
    }
}

/// A draw of a one-row sprite with exactly one set bit, reduced to its single
/// cell: the cell at row `Vy mod 32`, column `(Vx + b) mod 64` is flipped,
/// `VF` reports whether it was lit, and nothing else changes.
proof fn lemma_draw_single(s: MachineV, x: usize, y: usize, b: u8)
    requires
        s.wf(),
        x < 16,
        y < 16,
        b < 8,
        s.memory[(s.i % 4096) as int] == 1u8 << ((7 - b) as u8),
    ensures
        ({
            let vx = s.v.update(15, 0u8)[x as int];
            let vy = s.v.update(15, 0u8)[y as int];
            let row = (vy % 32) as int;
            let col = ((vx + b) % 64) as int;
            let lit = s.screen[row][col];
            spec_draw(s, x as int, y as int, 1) == (MachineV {
                screen: s.screen.update(row, s.screen[row].update(col, !lit)),
                v: s.v.update(
                    15,
                    if lit {
                        1u8
                    } else {
                        0u8
                    },
                ),
                ..s
            })
        }),
{
    let vx = s.v.update(15, 0u8)[x as int];
    let vy = s.v.update(15, 0u8)[y as int];
    let byte = s.memory[(s.i % 4096) as int];
    assert(spec_draw_rows(s.memory, s.screen, 0u8, s.i, vx, vy, 0) == (s.screen, 0u8));
    assert(spec_draw_rows(s.memory, s.screen, 0u8, s.i, vx, vy, 1) == spec_draw_row(
        s.screen,
        0u8,
        (vy % 32) as int,
        vx,
        byte,
        8,
    ));
    lemma_draw_row_single(s.screen, 0u8, (vy % 32) as int, vx, b, 8);
}

/// Draw collision law: drawing the same one-row, one-bit sprite twice at the
/// same coordinates returns the display to its original content (XOR is its
/// own inverse), and the second draw reports a collision (`VF` = 1) exactly
/// when the target cell was dark before the first draw — the first draw lit
/// it, so the second then erases it.
pub proof fn lemma_draw_twice(s: MachineV, x: usize, y: usize, b: u8, random_byte: u8)
    requires
        s.wf(),
        x < 16,
        y < 16,
        b < 8,
        s.memory[(s.i % 4096) as int] == 1u8 << ((7 - b) as u8),
    ensures
        ({
            let first = spec_run_instruction(s, Instruction::Draw { x, y, n: 1 }, random_byte);
            match first {
                Ok(sc1) => match spec_run_instruction(
                    sc1.0,
                    Instruction::Draw { x, y, n: 1 },
                    random_byte,
                ) {
                    Ok(sc2) => {
                        let vx = s.v.update(15, 0u8)[x as int];
                        let vy = s.v.update(15, 0u8)[y as int];
                        let row = (vy % 32) as int;
                        let col = ((vx + b) % 64) as int;
                        &&& sc2.0.screen == s.screen
                        &&& sc2.0.v[15] == (if s.screen[row][col] {
                            0u8
                        } else {
                            1u8
                        })
                    },
                    Err(_) => false,
                },
                Err(_) => false,
            }
        }),
{
    let vx = s.v.update(15, 0u8)[x as int];
    let vy = s.v.update(15, 0u8)[y as int];
    let row = (vy % 32) as int;
    let col = ((vx + b) % 64) as int;
    let lit = s.screen[row][col];
    lemma_draw_single(s, x, y, b);
    let s1 = spec_draw(s, x as int, y as int, 1);
    assert(s1.v.update(15, 0u8) =~= s.v.update(15, 0u8));
    assert(s1.screen[row][col] == !lit);
    lemma_draw_single(s1, x, y, b);
    let s2 = spec_draw(s1, x as int, y as int, 1);
    assert(s2.screen[row] =~= s.screen[row]) by {
        assert(s1.screen[row] == s.screen[row].update(col, !lit));
        assert(s2.screen[row] == s1.screen[row].update(col, lit));
    }
    assert(s2.screen =~= s.screen);
}

} // verus!
