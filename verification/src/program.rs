//! The interpreter's machine state and its transitions.
//!
//! [`Program`] owns the flat CHIP-8 machine state: 4096 bytes of memory (the
//! 16 built-in 5-byte glyph sprites in the first 80 bytes, the user program
//! from 0x200), 16 general registers, the address register `I`, two timers,
//! the program counter, a 16-entry call stack, the 16-key keypad and the
//! 64x32 display. One instruction is applied per step, yielding a [`Cursor`]
//! that directs the program counter.
//!
//! Bound policies, where the original hardware specification is silent:
//! memory accesses through the address register wrap modulo 4096; the address
//! register itself is a full 16-bit value (only `Annn` masks it to 12 bits);
//! a jump target with an offset (`Bnnn`) is not masked, so it may leave the
//! 12-bit address space, in which case the next step reports
//! [`Error::ProgramCounterOutOfBounds`]. A stack overflow, a stack underflow
//! and an undefined opcode are reported as errors with the state unchanged,
//! never panics.

use vstd::prelude::*;

use crate::instructions::Instruction;

verus! {

/// The control-flow directive returned by executing one instruction.
#[derive(Clone, Copy, Debug, PartialEq, Eq, Structural)]
pub enum Cursor {
    /// Do not move the program counter (used while blocking on a key press).
    Stay,
    /// Advance the program counter by 2.
    Next,
    /// Advance the program counter by 4 (a taken conditional skip).
    Skip,
    /// Set the program counter to an absolute address.
    Jump(u16),
}

/// A condition that stops the current run: malformed bytecode or a bound
/// violation that the original hardware specification leaves undefined.
#[derive(Clone, Copy, Debug, PartialEq, Eq, Structural)]
pub enum Error {
    /// The fetched word decodes to no defined operation; carries its four
    /// raw nibbles for diagnostics.
    InvalidInstruction { a: u8, b: u8, c: u8, d: u8 },
    /// A subroutine call was executed with all 16 stack slots in use.
    StackOverflow,
    /// A subroutine return was executed with an empty stack.
    StackUnderflow,
    /// The program counter does not address two in-bounds memory bytes.
    ProgramCounterOutOfBounds,
    /// A key index at the host boundary was not in 0..=15.
    KeyOutOfRange,
}

/// The mathematical model of the machine state: what every contract of
/// [`Program`] speaks of.
pub ghost struct MachineV {
    /// 4096 bytes of memory.
    pub memory: Seq<u8>,
    /// The 16 general-purpose registers `V0`..`VF`.
    pub v: Seq<u8>,
    /// The address register `I`.
    pub i: u16,
    /// The delay timer, decremented externally, floored at 0.
    pub delay_timer: u8,
    /// The sound timer, decremented externally, floored at 0.
    pub sound_timer: u8,
    /// The program counter.
    pub program_counter: u16,
    /// The number of stack slots in use.
    pub stack_pointer: u8,
    /// One pressed-state per hexadecimal key.
    pub keypad: Seq<bool>,
    /// The display, 32 rows of 64 cells, row 0 at the top.
    pub screen: Seq<Seq<bool>>,
    /// The 16 return-address slots.
    pub stack: Seq<u16>,
}

impl MachineV {
    /// The structural invariant: every collection has its fixed hardware
    /// size and the stack pointer stays within the 16 slots.
    pub open spec fn wf(self) -> bool {
        &&& self.memory.len() == 4096
        &&& self.v.len() == 16
        &&& self.keypad.len() == 16
        &&& self.stack.len() == 16
        &&& self.screen.len() == 32
        &&& (forall|r: int| 0 <= r < 32 ==> (#[trigger] self.screen[r]).len() == 64)
        &&& self.stack_pointer <= 16
    }
}

/// The machine state of one emulated program.
pub struct Program {
    /// 4096 bytes of memory.
    pub memory: Vec<u8>,
    /// The 16 general-purpose registers `V0`..`VF`.
    pub v: Vec<u8>,
    /// The address register `I`.
    pub i: u16,
    /// The delay timer.
    pub delay_timer: u8,
    /// The sound timer.
    pub sound_timer: u8,
    /// The program counter.
    pub program_counter: u16,
    /// The number of stack slots in use.
    pub stack_pointer: u8,
    /// One pressed-state per hexadecimal key.
    pub keypad: Vec<bool>,
    /// The display, 32 rows of 64 cells.
    pub screen: Vec<Vec<bool>>,
    /// The 16 return-address slots.
    pub stack: Vec<u16>,
}

impl View for Program {
    type V = MachineV;

    open spec fn view(&self) -> MachineV {
        MachineV {
            memory: self.memory@,
            v: self.v@,
            i: self.i,
            delay_timer: self.delay_timer,
            sound_timer: self.sound_timer,
            program_counter: self.program_counter,
            stack_pointer: self.stack_pointer,
            keypad: self.keypad@,
            screen: Seq::new(self.screen@.len(), |r: int| self.screen@[r]@),
            stack: self.stack@,
        }
    }
}

/// The 16 built-in glyph sprites, 5 bytes per hexadecimal digit, as they
/// stand in memory from address 0x000.
pub open spec fn spec_glyphs() -> Seq<u8> {
    seq![
        0xF0u8, 0x90, 0x90, 0x90, 0xF0, // 0
        0x20, 0x60, 0x20, 0x20, 0x70, // 1
        0xF0, 0x10, 0xF0, 0x80, 0xF0, // 2
        0xF0, 0x10, 0xF0, 0x10, 0xF0, // 3
        0x90, 0x90, 0xF0, 0x10, 0x10, // 4
        0xF0, 0x80, 0xF0, 0x10, 0xF0, // 5
        0xF0, 0x80, 0xF0, 0x90, 0xF0, // 6
        0xF0, 0x10, 0x20, 0x40, 0x40, // 7
        0xF0, 0x90, 0xF0, 0x90, 0xF0, // 8
        0xF0, 0x90, 0xF0, 0x10, 0xF0, // 9
        0xF0, 0x90, 0xF0, 0x90, 0x90, // A
        0xE0, 0x90, 0xE0, 0x90, 0xE0, // B
        0xF0, 0x80, 0x80, 0x80, 0xF0, // C
        0xE0, 0x90, 0x90, 0x90, 0xE0, // D
        0xF0, 0x80, 0xF0, 0x80, 0xF0, // E
        0xF0, 0x80, 0xF0, 0x80, 0x80, // F
    ]
}

/// The state a fresh machine is in: glyphs in low memory, everything else
/// zeroed, the program counter at the program start 0x200.
pub open spec fn spec_new() -> MachineV {
    MachineV {
        memory: spec_glyphs() + Seq::new(4016, |k: int| 0u8),
        v: Seq::new(16, |k: int| 0u8),
        i: 0,
        delay_timer: 0,
        sound_timer: 0,
        program_counter: 0x200,
        stack_pointer: 0,
        keypad: Seq::new(16, |k: int| false),
        screen: Seq::new(32, |r: int| Seq::new(64, |c: int| false)),
        stack: Seq::new(16, |k: int| 0u16),
    }
}

/// An all-dark display: 32 rows of 64 unlit cells.
pub open spec fn spec_blank_screen() -> Seq<Seq<bool>> {
    Seq::new(32, |r: int| Seq::new(64, |c: int| false))
}

/// Whether bit `k` of a sprite byte is set, bit 0 being the most significant
/// (leftmost on screen).
pub open spec fn spec_sprite_bit(byte: u8, k: u8) -> bool
    recommends
        k < 8,
{
    (byte >> ((7 - k) as u8)) & 1 == 1
}

/// One sprite bit XORed into the display cell at (`row`, `col`): a set bit
/// flips the cell, and records a collision in `vf` if the cell was lit.
pub open spec fn spec_draw_bit(
    screen: Seq<Seq<bool>>,
    vf: u8,
    row: int,
    col: int,
    bit: bool,
) -> (Seq<Seq<bool>>, u8) {
    if bit {
        let lit = screen[row][col];
        (screen.update(row, screen[row].update(col, !lit)), if lit {
            1u8
        } else {
            vf
        })
    } else {
        (screen, vf)
    }
}

/// The first `bits` bits of one sprite row drawn into display row `row`,
/// leftmost bit first, at columns `vx`, `vx + 1`, ... wrapping modulo 64.
pub open spec fn spec_draw_row(
    screen: Seq<Seq<bool>>,
    vf: u8,
    row: int,
    vx: u8,
    byte: u8,
    bits: nat,
) -> (Seq<Seq<bool>>, u8)
    decreases bits,
{
    if bits == 0 {
        (screen, vf)
    } else {
        let prev = spec_draw_row(screen, vf, row, vx, byte, (bits - 1) as nat);
        spec_draw_bit(
            prev.0,
            prev.1,
            row,
            (vx + bits - 1) % 64,
            spec_sprite_bit(byte, (bits - 1) as u8),
        )
    }
}

/// The first `rows` sprite rows read from memory at `i` (wrapping modulo
/// 4096), drawn at display rows `vy`, `vy + 1`, ... wrapping modulo 32.
pub open spec fn spec_draw_rows(
    memory: Seq<u8>,
    screen: Seq<Seq<bool>>,
    vf: u8,
    i: u16,
    vx: u8,
    vy: u8,
    rows: nat,
) -> (Seq<Seq<bool>>, u8)
    decreases rows,
{
    if rows == 0 {
        (screen, vf)
    } else {
        let prev = spec_draw_rows(memory, screen, vf, i, vx, vy, (rows - 1) as nat);
        spec_draw_row(prev.0, prev.1, (vy + rows - 1) % 32, vx, memory[(i + rows - 1) % 4096], 8)
    }
}

/// The machine after a draw: `VF` is reset, the `n`-row sprite at `I` is
/// XORed into the display at column `Vx`, row `Vy` (each coordinate wrapping
/// on its own axis), and `VF` ends at 1 exactly when some lit cell was unlit.
/// The coordinate registers are read once, after the `VF` reset.
pub open spec fn spec_draw(s: MachineV, x: int, y: int, n: nat) -> MachineV {
    let v0 = s.v.update(15, 0u8);
    let drawn = spec_draw_rows(s.memory, s.screen, 0u8, s.i, v0[x], v0[y], n);
    MachineV { screen: drawn.0, v: s.v.update(15, drawn.1), ..s }
}

/// The lowest pressed key index at or above `from`, if any key is pressed.
pub open spec fn spec_first_key(keypad: Seq<bool>, from: int) -> Option<u8>
    decreases 16 - from,
{
    if from < 0 || from >= 16 {
        None
    } else if keypad[from] {
        Some(from as u8)
    } else {
        spec_first_key(keypad, from + 1)
    }
}

/// Memory after copying `V0..=V(count-1)` to consecutive addresses from `I`,
/// wrapping modulo 4096.
pub open spec fn spec_store_regs(memory: Seq<u8>, v: Seq<u8>, i: u16, count: nat) -> Seq<u8>
    decreases count,
{
    if count == 0 {
        memory
    } else {
        spec_store_regs(memory, v, i, (count - 1) as nat).update(
            (i + count - 1) % 4096,
            v[count - 1],
        )
    }
}

/// Registers after loading `V0..=V(count-1)` from consecutive addresses from
/// `I`, wrapping modulo 4096.
pub open spec fn spec_read_regs(v: Seq<u8>, memory: Seq<u8>, i: u16, count: nat) -> Seq<u8>
    decreases count,
{
    if count == 0 {
        v
    } else {
        spec_read_regs(v, memory, i, (count - 1) as nat).update(
            count - 1,
            memory[(i + count - 1) % 4096],
        )
    }
}

/// Memory after storing the decimal digits of `value` at `I`, `I+1`, `I+2`
/// (hundreds, tens, ones), wrapping modulo 4096.
pub open spec fn spec_store_bcd(memory: Seq<u8>, i: u16, value: u8) -> Seq<u8> {
    memory.update((i % 4096) as int, (value / 100) as u8).update(
        (i + 1) % 4096,
        ((value % 100) / 10) as u8,
    ).update((i + 2) % 4096, (value % 10) as u8)
}

/// The state transition and control-flow directive of one instruction, or the
/// error that stops the run. `random_byte` stands for the byte the random
/// source yields if the instruction consumes one; every other instruction
/// ignores it.
pub open spec fn spec_run_instruction(s: MachineV, instr: Instruction, random_byte: u8) -> Result<
    (MachineV, Cursor),
    Error,
> {
    match instr {
        Instruction::Clear => Ok((MachineV { screen: spec_blank_screen(), ..s }, Cursor::Next)),
        Instruction::ReturnSubroutine => if s.stack_pointer == 0 {
            Err(Error::StackUnderflow)
        } else {
            Ok(
                (
                    MachineV { stack_pointer: (s.stack_pointer - 1) as u8, ..s },
                    Cursor::Jump(s.stack[s.stack_pointer - 1]),
                ),
            )
        },
        Instruction::JumpTo { address } => Ok((s, Cursor::Jump(address))),
        Instruction::CallSubroutine { address } => if s.stack_pointer >= 16 {
            Err(Error::StackOverflow)
        } else {
            Ok(
                (
                    MachineV {
                        stack: s.stack.update(
                            s.stack_pointer as int,
                            ((s.program_counter + 2) % 0x10000) as u16,
                        ),
                        stack_pointer: (s.stack_pointer + 1) as u8,
                        ..s
                    },
                    Cursor::Jump(address),
                ),
            )
        },
        Instruction::SkipEqual { x, value } => Ok(
            (
                s,
                if s.v[x as int] == value {
                    Cursor::Skip
                } else {
                    Cursor::Next
                },
            ),
        ),
        Instruction::SkipNotEqual { x, value } => Ok(
            (
                s,
                if s.v[x as int] != value {
                    Cursor::Skip
                } else {
                    Cursor::Next
                },
            ),
        ),
        Instruction::SkipRegisterEqual { x, y } => Ok(
            (
                s,
                if s.v[x as int] == s.v[y as int] {
                    Cursor::Skip
                } else {
                    Cursor::Next
                },
            ),
        ),
        Instruction::SetRegister { x, value } => Ok(
            (MachineV { v: s.v.update(x as int, value), ..s }, Cursor::Next),
        ),
        Instruction::AddRegister { x, value } => Ok(
            (
                MachineV {
                    v: s.v.update(x as int, ((s.v[x as int] + value) % 256) as u8),
                    ..s
                },
                Cursor::Next,
            ),
        ),
        Instruction::SetVxToVy { x, y } => Ok(
            (MachineV { v: s.v.update(x as int, s.v[y as int]), ..s }, Cursor::Next),
        ),
        Instruction::SetVxToVxOrVy { x, y } => Ok(
            (
                MachineV { v: s.v.update(x as int, s.v[x as int] | s.v[y as int]), ..s },
                Cursor::Next,
            ),
        ),
        Instruction::SetVxToVxAndVy { x, y } => Ok(
            (
                MachineV { v: s.v.update(x as int, s.v[x as int] & s.v[y as int]), ..s },
                Cursor::Next,
            ),
        ),
        Instruction::SetVxToVxXorVy { x, y } => Ok(
            (
                MachineV { v: s.v.update(x as int, s.v[x as int] ^ s.v[y as int]), ..s },
                Cursor::Next,
            ),
        ),
        Instruction::SetVxToVxAndVyCarry { x, y } => {
            let sum = s.v[x as int] + s.v[y as int];
            Ok(
                (
                    MachineV {
                        v: s.v.update(x as int, (sum % 256) as u8).update(
                            15,
                            if sum > 255 {
                                1u8
                            } else {
                                0u8
                            },
                        ),
                        ..s
                    },
                    Cursor::Next,
                ),
            )
        },
        Instruction::SetVxToVxSubVy { x, y } => {
            // The borrow flag is written before the subtraction reads its
            // operands, exactly as the machine does it.
            let flagged = s.v.update(
                15,
                if s.v[x as int] > s.v[y as int] {
                    1u8
                } else {
                    0u8
                },
            );
            Ok(
                (
                    MachineV {
                        v: flagged.update(
                            x as int,
                            ((flagged[x as int] - flagged[y as int]) % 256) as u8,
                        ),
                        ..s
                    },
                    Cursor::Next,
                ),
            )
        },
        Instruction::SetVxToVxShr { x } => {
            let flagged = s.v.update(15, (s.v[x as int] % 2) as u8);
            Ok(
                (
                    MachineV { v: flagged.update(x as int, (flagged[x as int] / 2) as u8), ..s },
                    Cursor::Next,
                ),
            )
        },
        Instruction::SetVxToVySubVx { x, y } => {
            let flagged = s.v.update(
                15,
                if s.v[y as int] > s.v[x as int] {
                    1u8
                } else {
                    0u8
                },
            );
            Ok(
                (
                    MachineV {
                        v: flagged.update(
                            x as int,
                            ((flagged[y as int] - flagged[x as int]) % 256) as u8,
                        ),
                        ..s
                    },
                    Cursor::Next,
                ),
            )
        },
        Instruction::SetVxToVxShl { x } => {
            let flagged = s.v.update(15, (s.v[x as int] / 128) as u8);
            Ok(
                (
                    MachineV {
                        v: flagged.update(x as int, ((flagged[x as int] * 2) % 256) as u8),
                        ..s
                    },
                    Cursor::Next,
                ),
            )
        },
        Instruction::SkipRegisterNotEqual { x, y } => Ok(
            (
                s,
                if s.v[x as int] != s.v[y as int] {
                    Cursor::Skip
                } else {
                    Cursor::Next
                },
            ),
        ),
        Instruction::SetIToAddress { address } => Ok(
            (MachineV { i: address, ..s }, Cursor::Next),
        ),
        Instruction::JumpToPlusV0 { address } => Ok(
            (s, Cursor::Jump(((s.v[0] + address) % 0x10000) as u16)),
        ),
        Instruction::SetVxToRandomAndValue { x, value } => Ok(
            (MachineV { v: s.v.update(x as int, random_byte & value), ..s }, Cursor::Next),
        ),
        Instruction::Draw { x, y, n } => Ok(
            (spec_draw(s, x as int, y as int, n as nat), Cursor::Next),
        ),
        Instruction::SkipKeyPressed { x } => {
            let key = s.v[x as int];
            let down = key < 16 && s.keypad[key as int];
            Ok(
                (
                    s,
                    if down {
                        Cursor::Skip
                    } else {
                        Cursor::Next
                    },
                ),
            )
        },
        Instruction::SkipKeyNotPressed { x } => {
            let key = s.v[x as int];
            let down = key < 16 && s.keypad[key as int];
            Ok(
                (
                    s,
                    if down {
                        Cursor::Next
                    } else {
                        Cursor::Skip
                    },
                ),
            )
        },
        Instruction::SetVxToDelayTimer { x } => Ok(
            (MachineV { v: s.v.update(x as int, s.delay_timer), ..s }, Cursor::Next),
        ),
        Instruction::SetVxToNextKeyPress { x } => match spec_first_key(s.keypad, 0) {
            Some(key) => Ok((MachineV { v: s.v.update(x as int, key), ..s }, Cursor::Next)),
            None => Ok((s, Cursor::Stay)),
        },
        Instruction::SetDelayTimerToVx { x } => Ok(
            (MachineV { delay_timer: s.v[x as int], ..s }, Cursor::Next),
        ),
        Instruction::SetSoundTimerToVx { x } => Ok(
            (MachineV { sound_timer: s.v[x as int], ..s }, Cursor::Next),
        ),
        Instruction::AddVxToI { x } => Ok(
            (MachineV { i: ((s.i + s.v[x as int]) % 0x10000) as u16, ..s }, Cursor::Next),
        ),
        Instruction::SetIToSpriteLocation { x } => Ok(
            (MachineV { i: (s.v[x as int] * 5) as u16, ..s }, Cursor::Next),
        ),
        Instruction::StoreBCD { x } => Ok(
            (MachineV { memory: spec_store_bcd(s.memory, s.i, s.v[x as int]), ..s }, Cursor::Next),
        ),
        Instruction::StoreRegisters { x } => Ok(
            (
                MachineV { memory: spec_store_regs(s.memory, s.v, s.i, (x + 1) as nat), ..s },
                Cursor::Next,
            ),
        ),
        Instruction::ReadRegisters { x } => Ok(
            (
                MachineV { v: spec_read_regs(s.v, s.memory, s.i, (x + 1) as nat), ..s },
                Cursor::Next,
            ),
        ),
        Instruction::InvalidInstruction { a, b, c, d } => Err(
            Error::InvalidInstruction { a, b, c, d },
        ),
    }
}

/// How executing `instr` on `pre` with random byte `random_byte` relates the
/// state after the call and the returned value: on success the state is the
/// transition's result and the cursor is returned; on an error the state is
/// unchanged and the error is returned.
pub open spec fn spec_run_outcome(
    pre: MachineV,
    instr: Instruction,
    random_byte: u8,
    post: MachineV,
    r: Result<Cursor, Error>,
) -> bool {
    match spec_run_instruction(pre, instr, random_byte) {
        Ok(sc) => r == Ok::<Cursor, Error>(sc.1) && post == sc.0,
        Err(e) => r == Err::<Cursor, Error>(e) && post == pre,
    }
}

/// The instruction word at the program counter: the byte there, then the
/// byte after it, big end first.
pub open spec fn spec_fetch(s: MachineV) -> u16 {
    (s.memory[s.program_counter as int] * 256 + s.memory[s.program_counter + 1]) as u16
}

/// The machine after a cursor directive is applied to the program counter.
pub open spec fn spec_apply_cursor(s: MachineV, c: Cursor) -> MachineV {
    match c {
        Cursor::Stay => s,
        Cursor::Next => MachineV {
            program_counter: ((s.program_counter + 2) % 0x10000) as u16,
            ..s
        },
        Cursor::Skip => MachineV {
            program_counter: ((s.program_counter + 4) % 0x10000) as u16,
            ..s
        },
        Cursor::Jump(address) => MachineV { program_counter: address, ..s },
    }
}

/// One full step: fetch the word at the program counter (an error if it does
/// not address two in-bounds bytes), decode it, execute it with `random_byte`
/// standing for the byte a random source would yield, and apply the returned
/// cursor to the program counter.
pub open spec fn spec_step(pre: MachineV, random_byte: u8) -> Result<MachineV, Error> {
    if pre.program_counter + 1 >= 4096 {
        Err(Error::ProgramCounterOutOfBounds)
    } else {
        let instr = crate::instructions::spec_decode(spec_fetch(pre));
        match spec_run_instruction(pre, instr, random_byte) {
            Ok(sc) => Ok(spec_apply_cursor(sc.0, sc.1)),
            Err(e) => Err(e),
        }
    }
}

/// How one step relates the state after the call and the returned value: on
/// success the state is the stepped state; on an error the state is unchanged
/// and the error is returned.
pub open spec fn spec_step_outcome(
    pre: MachineV,
    random_byte: u8,
    post: MachineV,
    r: Result<(), Error>,
) -> bool {
    match spec_step(pre, random_byte) {
        Ok(s) => r == Ok::<(), Error>(()) && post == s,
        Err(e) => r == Err::<(), Error>(e) && post == pre,
    }
}

/// One wrap of modular reduction, written as the addition or subtraction it
/// amounts to: the form every wrapping operation of the machine takes.
proof fn lemma_mod_wrap(z: int, m: int)
    requires
        m > 0,
        -m <= z < 2 * m,
    ensures
        z % m == if z < 0 {
            z + m
        } else if z < m {
            z
        } else {
            z - m
        },
{
    if z < 0 {
        vstd::arithmetic::div_mod::lemma_mod_add_multiples_vanish(z, m);
        vstd::arithmetic::div_mod::lemma_small_mod((z + m) as nat, m as nat);
    } else if z < m {
        vstd::arithmetic::div_mod::lemma_small_mod(z as nat, m as nat);
    } else {
        vstd::arithmetic::div_mod::lemma_mod_add_multiples_vanish(z - m, m);
        vstd::arithmetic::div_mod::lemma_small_mod((z - m) as nat, m as nat);
    }
}

/// Relies on `rand::random::<u8>`: one byte from the thread-local generator,
/// uniformly distributed over 0..=255. Nothing can be promised of its value.
#[verifier::external_body]
fn random_byte() -> u8 {
    rand::random::<u8>()
}

impl Instruction {
    /// The display-clear, subroutine and immediate-skip instructions of `run_with_random`.
    #[verifier::rlimit(50)]
    fn run_control(&self, program: &mut Program, random_byte: u8) -> (r: Result<Cursor, Error>)
        requires
            old(program)@.wf(),
            self.wf(),
            self is Clear || self is ReturnSubroutine || self is JumpTo || self is CallSubroutine || self is SkipEqual || self is SkipNotEqual || self is SkipRegisterEqual,
        ensures
            final(program)@.wf(),
            spec_run_outcome(old(program)@, *self, random_byte, final(program)@, r),
    {
        match *self {
            Instruction::Clear => {
                program.op_clear();
                Ok(Cursor::Next)
            },
            Instruction::ReturnSubroutine => {
                if program.stack_pointer == 0 {
                    Err(Error::StackUnderflow)
                } else {
                    program.stack_pointer = program.stack_pointer - 1;
                    Ok(Cursor::Jump(program.stack[program.stack_pointer as usize]))
                }
            },
            Instruction::JumpTo { address } => Ok(Cursor::Jump(address)),
            Instruction::CallSubroutine { address } => {
                if program.stack_pointer >= 16 {
                    Err(Error::StackOverflow)
                } else {
                    let ret = program.program_counter.wrapping_add(2);
                    proof {
                        lemma_mod_wrap(program.program_counter + 2, 0x10000);
                        assert(ret == ((program.program_counter + 2) % 0x10000) as u16);
                    }
                    program.stack[program.stack_pointer as usize] = ret;
                    program.stack_pointer = program.stack_pointer + 1;
                    Ok(Cursor::Jump(address))
                }
            },
            Instruction::SkipEqual { x, value } => {
                if program.v[x] == value {
                    Ok(Cursor::Skip)
                } else {
                    Ok(Cursor::Next)
                }
            },
            Instruction::SkipNotEqual { x, value } => {
                if program.v[x] != value {
                    Ok(Cursor::Skip)
                } else {
                    Ok(Cursor::Next)
                }
            },
            Instruction::SkipRegisterEqual { x, y } => {
                if program.v[x] == program.v[y] {
                    Ok(Cursor::Skip)
                } else {
                    Ok(Cursor::Next)
                }
            },
            _ => {
                proof {
                    assert(false);
                }
                Err(Error::StackUnderflow)
            },
        }
    }

    /// The register-skip, offset-jump and key-test instructions of `run_with_random`.
    #[verifier::rlimit(50)]
    fn run_jumps_keys(&self, program: &mut Program, random_byte: u8) -> (r: Result<Cursor, Error>)
        requires
            old(program)@.wf(),
            self.wf(),
            self is SkipRegisterNotEqual || self is JumpToPlusV0 || self is SkipKeyPressed || self is SkipKeyNotPressed || self is SetVxToNextKeyPress || self is InvalidInstruction,
        ensures
            final(program)@.wf(),
            spec_run_outcome(old(program)@, *self, random_byte, final(program)@, r),
    {
        match *self {
            Instruction::SkipRegisterNotEqual { x, y } => {
                if program.v[x] != program.v[y] {
                    Ok(Cursor::Skip)
                } else {
                    Ok(Cursor::Next)
                }
            },
            Instruction::JumpToPlusV0 { address } => {
                Ok(Cursor::Jump(program.v[0] as u16 + address))
            },
            Instruction::SkipKeyPressed { x } => {
                let key = program.v[x] as usize;
                let down = if key < 16 {
                    program.keypad[key]
                } else {
                    false
                };
                if down {
                    Ok(Cursor::Skip)
                } else {
                    Ok(Cursor::Next)
                }
            },
            Instruction::SkipKeyNotPressed { x } => {
                let key = program.v[x] as usize;
                let down = if key < 16 {
                    program.keypad[key]
                } else {
                    false
                };
                if down {
                    Ok(Cursor::Next)
                } else {
                    Ok(Cursor::Skip)
                }
            },
            Instruction::SetVxToNextKeyPress { x } => Ok(program.op_block_for_key(x)),
            Instruction::InvalidInstruction { a, b, c, d } => {
                Err(Error::InvalidInstruction { a, b, c, d })
            },
            _ => {
                proof {
                    assert(false);
                }
                Err(Error::StackUnderflow)
            },
        }
    }

    /// The register-move and bitwise instructions of `run_with_random`.
    #[verifier::rlimit(50)]
    fn run_alu(&self, program: &mut Program, random_byte: u8) -> (r: Result<Cursor, Error>)
        requires
            old(program)@.wf(),
            self.wf(),
            self is SetRegister || self is AddRegister || self is SetVxToVy || self is SetVxToVxOrVy || self is SetVxToVxAndVy || self is SetVxToVxXorVy,
        ensures
            final(program)@.wf(),
            spec_run_outcome(old(program)@, *self, random_byte, final(program)@, r),
    {
        match *self {
            Instruction::SetRegister { x, value } => {
                program.v[x] = value;
                Ok(Cursor::Next)
            },
            Instruction::AddRegister { x, value } => {
                let a = program.v[x];
                program.v[x] = a.wrapping_add(value);
                Ok(Cursor::Next)
            },
            Instruction::SetVxToVy { x, y } => {
                program.v[x] = program.v[y];
                Ok(Cursor::Next)
            },
            Instruction::SetVxToVxOrVy { x, y } => {
                let a = program.v[x];
                let b = program.v[y];
                program.v[x] = a | b;
                Ok(Cursor::Next)
            },
            Instruction::SetVxToVxAndVy { x, y } => {
                let a = program.v[x];
                let b = program.v[y];
                program.v[x] = a & b;
                Ok(Cursor::Next)
            },
            Instruction::SetVxToVxXorVy { x, y } => {
                let a = program.v[x];
                let b = program.v[y];
                program.v[x] = a ^ b;
                Ok(Cursor::Next)
            },
            _ => {
                proof {
                    assert(false);
                }
                Err(Error::StackUnderflow)
            },
        }
    }

    /// The carry, borrow and shift instructions of `run_with_random`.
    #[verifier::rlimit(50)]
    fn run_arith(&self, program: &mut Program, random_byte: u8) -> (r: Result<Cursor, Error>)
        requires
            old(program)@.wf(),
            self.wf(),
            self is SetVxToVxAndVyCarry || self is SetVxToVxSubVy || self is SetVxToVxShr || self is SetVxToVySubVx || self is SetVxToVxShl || self is SetVxToRandomAndValue || self is SetVxToDelayTimer,
        ensures
            final(program)@.wf(),
            spec_run_outcome(old(program)@, *self, random_byte, final(program)@, r),
    {
        match *self {
            Instruction::SetVxToVxAndVyCarry { x, y } => {
                let sum = program.v[x] as u16 + program.v[y] as u16;
                program.v[x] = (sum % 256) as u8;
                program.v[15] = if sum > 255 {
                    1
                } else {
                    0
                };
                Ok(Cursor::Next)
            },
            Instruction::SetVxToVxSubVy { x, y } => {
                program.v[15] = if program.v[x] > program.v[y] {
                    1
                } else {
                    0
                };
                let a = program.v[x];
                let b = program.v[y];
                proof {
                    lemma_mod_wrap(a - b, 256);
                }
                program.v[x] = a.wrapping_sub(b);
                Ok(Cursor::Next)
            },
            Instruction::SetVxToVxShr { x } => {
                program.v[15] = program.v[x] % 2;
                let a = program.v[x];
                program.v[x] = a / 2;
                Ok(Cursor::Next)
            },
            Instruction::SetVxToVySubVx { x, y } => {
                program.v[15] = if program.v[y] > program.v[x] {
                    1
                } else {
                    0
                };
                let a = program.v[x];
                let b = program.v[y];
                proof {
                    lemma_mod_wrap(b - a, 256);
                }
                program.v[x] = b.wrapping_sub(a);
                Ok(Cursor::Next)
            },
            Instruction::SetVxToVxShl { x } => {
                program.v[15] = program.v[x] / 128;
                let a = program.v[x];
                program.v[x] = ((a as u16 * 2) % 256) as u8;
                Ok(Cursor::Next)
            },
            Instruction::SetVxToRandomAndValue { x, value } => {
                program.v[x] = random_byte & value;
                Ok(Cursor::Next)
            },
            Instruction::SetVxToDelayTimer { x } => {
                program.v[x] = program.delay_timer;
                Ok(Cursor::Next)
            },
            _ => {
                proof {
                    assert(false);
                }
                Err(Error::StackUnderflow)
            },
        }
    }

    /// The memory, timer and address-register instructions of `run_with_random`.
    #[verifier::rlimit(50)]
    fn run_memory(&self, program: &mut Program, random_byte: u8) -> (r: Result<Cursor, Error>)
        requires
            old(program)@.wf(),
            self.wf(),
            self is SetIToAddress || self is Draw || self is SetDelayTimerToVx || self is SetSoundTimerToVx || self is AddVxToI || self is SetIToSpriteLocation || self is StoreBCD || self is StoreRegisters || self is ReadRegisters,
        ensures
            final(program)@.wf(),
            spec_run_outcome(old(program)@, *self, random_byte, final(program)@, r),
    {
        match *self {
            Instruction::SetIToAddress { address } => {
                program.i = address;
                Ok(Cursor::Next)
            },
            Instruction::Draw { x, y, n } => {
                program.op_draw(x, y, n);
                Ok(Cursor::Next)
            },
            Instruction::SetDelayTimerToVx { x } => {
                program.delay_timer = program.v[x];
                Ok(Cursor::Next)
            },
            Instruction::SetSoundTimerToVx { x } => {
                program.sound_timer = program.v[x];
                Ok(Cursor::Next)
            },
            Instruction::AddVxToI { x } => {
                let offset = program.v[x] as u16;
                program.i = program.i.wrapping_add(offset);
                Ok(Cursor::Next)
            },
            Instruction::SetIToSpriteLocation { x } => {
                program.i = program.v[x] as u16 * 5;
                Ok(Cursor::Next)
            },
            Instruction::StoreBCD { x } => {
                program.op_store_bcd(x);
                Ok(Cursor::Next)
            },
            Instruction::StoreRegisters { x } => {
                program.op_store_regs(x);
                Ok(Cursor::Next)
            },
            Instruction::ReadRegisters { x } => {
                program.op_read_regs(x);
                Ok(Cursor::Next)
            },
            _ => {
                proof {
                    assert(false);
                }
                Err(Error::StackUnderflow)
            },
        }
    }

    /// Applies this instruction to the machine, with `random_byte` supplied
    /// by the caller in place of a random source: the transition is then
    /// deterministic, exactly `spec_run_instruction`. On an error the machine
    /// is left unchanged.
    pub fn run_with_random(&self, program: &mut Program, random_byte: u8) -> (r: Result<
        Cursor,
        Error,
    >)
        requires
            old(program)@.wf(),
            self.wf(),
        ensures
            final(program)@.wf(),
            spec_run_outcome(old(program)@, *self, random_byte, final(program)@, r),
    {
        match *self {
            Instruction::Clear { .. } | Instruction::ReturnSubroutine { .. } | Instruction::JumpTo { .. } | Instruction::CallSubroutine { .. } | Instruction::SkipEqual { .. } | Instruction::SkipNotEqual { .. } | Instruction::SkipRegisterEqual { .. } => self.run_control(program, random_byte),
            Instruction::SkipRegisterNotEqual { .. } | Instruction::JumpToPlusV0 { .. } | Instruction::SkipKeyPressed { .. } | Instruction::SkipKeyNotPressed { .. } | Instruction::SetVxToNextKeyPress { .. } | Instruction::InvalidInstruction { .. } => self.run_jumps_keys(program, random_byte),
            Instruction::SetRegister { .. } | Instruction::AddRegister { .. } | Instruction::SetVxToVy { .. } | Instruction::SetVxToVxOrVy { .. } | Instruction::SetVxToVxAndVy { .. } | Instruction::SetVxToVxXorVy { .. } => self.run_alu(program, random_byte),
            Instruction::SetVxToVxAndVyCarry { .. } | Instruction::SetVxToVxSubVy { .. } | Instruction::SetVxToVxShr { .. } | Instruction::SetVxToVySubVx { .. } | Instruction::SetVxToVxShl { .. } | Instruction::SetVxToRandomAndValue { .. } | Instruction::SetVxToDelayTimer { .. } => self.run_arith(program, random_byte),
            Instruction::SetIToAddress { .. } | Instruction::Draw { .. } | Instruction::SetDelayTimerToVx { .. } | Instruction::SetSoundTimerToVx { .. } | Instruction::AddVxToI { .. } | Instruction::SetIToSpriteLocation { .. } | Instruction::StoreBCD { .. } | Instruction::StoreRegisters { .. } | Instruction::ReadRegisters { .. } => self.run_memory(program, random_byte),
        }
    }

    /// Applies this instruction to the machine, drawing one byte from the
    /// process's random source where the instruction consumes one. The
    /// transition is `spec_run_instruction` for some byte; every instruction
    /// but the random one determines the result regardless of it.
    pub fn run(&self, program: &mut Program) -> (r: Result<Cursor, Error>)
        requires
            old(program)@.wf(),
            self.wf(),
        ensures
            final(program)@.wf(),
            exists|random_byte: u8|
                spec_run_outcome(old(program)@, *self, random_byte, final(program)@, r),
    {
        let rb = random_byte();
        let r = self.run_with_random(program, rb);
        proof {
            assert(spec_run_outcome(old(program)@, *self, rb, program@, r));
        }
        r
    }
}

/// Memory after loading a program image: bytes below 0x200 kept, the image
/// from 0x200 on, zero fill behind it, anything past byte 4095 truncated.
pub open spec fn spec_load(memory: Seq<u8>, data: Seq<u8>) -> Seq<u8> {
    Seq::new(
        4096,
        |k: int|
            if k < 0x200 {
                memory[k]
            } else if k - 0x200 < data.len() {
                data[k - 0x200]
            } else {
                0u8
            },
    )
}

impl Program {
    /// A fresh machine: glyph sprites preloaded, registers, timers, stack,
    /// keypad and display zeroed, program counter at 0x200.
    pub fn new() -> (r: Program)
        ensures
            r@ == spec_new(),
            r@.wf(),
    {
        let glyphs: Vec<u8> = vec![
            0xF0u8, 0x90, 0x90, 0x90, 0xF0, 0x20, 0x60, 0x20, 0x20, 0x70, 0xF0, 0x10, 0xF0, 0x80,
            0xF0, 0xF0, 0x10, 0xF0, 0x10, 0xF0, 0x90, 0x90, 0xF0, 0x10, 0x10, 0xF0, 0x80, 0xF0,
            0x10, 0xF0, 0xF0, 0x80, 0xF0, 0x90, 0xF0, 0xF0, 0x10, 0x20, 0x40, 0x40, 0xF0, 0x90,
            0xF0, 0x90, 0xF0, 0xF0, 0x90, 0xF0, 0x10, 0xF0, 0xF0, 0x90, 0xF0, 0x90, 0x90, 0xE0,
            0x90, 0xE0, 0x90, 0xE0, 0xF0, 0x80, 0x80, 0x80, 0xF0, 0xE0, 0x90, 0x90, 0x90, 0xE0,
            0xF0, 0x80, 0xF0, 0x80, 0xF0, 0xF0, 0x80, 0xF0, 0x80, 0x80,
        ];
        let mut memory = glyphs;
        memory.resize(4096, 0u8);
        let mut screen: Vec<Vec<bool>> = Vec::new();
        let mut rows: usize = 0;
        while rows < 32
            invariant
                screen@.len() == rows,
                0 <= rows <= 32,
                forall|r: int|
                    0 <= r < rows ==> (#[trigger] screen@[r])@ =~= Seq::new(64, |c: int| false),
            decreases 32 - rows,
        {
            let row: Vec<bool> = vec![false; 64];
            screen.push(row);
            rows += 1;
        }
        let r = Program {
            memory,
            v: vec![0u8; 16],
            i: 0,
            delay_timer: 0,
            sound_timer: 0,
            program_counter: 0x200,
            stack_pointer: 0,
            keypad: vec![false; 16],
            screen,
            stack: vec![0u16; 16],
        };
        proof {
            assert(r@.memory =~= spec_new().memory);
            assert(r@.v =~= spec_new().v);
            assert(r@.keypad =~= spec_new().keypad);
            assert(r@.stack =~= spec_new().stack);
            assert(r@.screen =~~= spec_new().screen);
            assert(r@ == spec_new());
        }
        r
    }

    /// Copies a program image into memory starting at 0x200 and zero-fills
    /// the rest; bytes past the 4096-byte limit are silently truncated.
    pub fn load(&mut self, data: &[u8])
        requires
            old(self)@.wf(),
        ensures
            final(self)@.wf(),
            final(self)@ == (MachineV { memory: spec_load(old(self)@.memory, data@), ..old(self)@ }),
    {
        let mut index: usize = 0;
        while index < 4096 - 0x200
            invariant
                self@.wf(),
                0 <= index <= 4096 - 0x200,
                self@ == (MachineV { memory: self@.memory, ..old(self)@ }),
                forall|k: int|
                    0 <= k < 0x200 + index ==> self@.memory[k] == spec_load(
                        old(self)@.memory,
                        data@,
                    )[k],
                forall|k: int|
                    0x200 + index <= k < 4096 ==> self@.memory[k] == old(self)@.memory[k],
            decreases 4096 - 0x200 - index,
        {
            let byte = if index < data.len() {
                data[index]
            } else {
                0u8
            };
            self.memory[0x200 + index] = byte;
            index += 1;
        }
        proof {
            assert(self@.memory =~= spec_load(old(self)@.memory, data@));
        }
    }

    /// Marks the key `key` as pressed; rejects an index outside 0..=15 with
    /// the state unchanged.
    pub fn keydown(&mut self, key: usize) -> (r: Result<(), Error>)
        requires
            old(self)@.wf(),
        ensures
            final(self)@.wf(),
            key < 16 ==> r == Ok::<(), Error>(()) && final(self)@ == (MachineV {
                keypad: old(self)@.keypad.update(key as int, true),
                ..old(self)@
            }),
            key >= 16 ==> r == Err::<(), Error>(Error::KeyOutOfRange) && final(self)@ == old(
                self,
            )@,
    {
        if key < 16 {
            self.keypad[key] = true;
            Ok(())
        } else {
            Err(Error::KeyOutOfRange)
        }
    }

    /// Marks the key `key` as released; rejects an index outside 0..=15 with
    /// the state unchanged.
    pub fn keyup(&mut self, key: usize) -> (r: Result<(), Error>)
        requires
            old(self)@.wf(),
        ensures
            final(self)@.wf(),
            key < 16 ==> r == Ok::<(), Error>(()) && final(self)@ == (MachineV {
                keypad: old(self)@.keypad.update(key as int, false),
                ..old(self)@
            }),
            key >= 16 ==> r == Err::<(), Error>(Error::KeyOutOfRange) && final(self)@ == old(
                self,
            )@,
    {
        if key < 16 {
            self.keypad[key] = false;
            Ok(())
        } else {
            Err(Error::KeyOutOfRange)
        }
    }

    /// Decrements both timers by one, floored at 0. Meant to be driven by the
    /// host at its own fixed cadence, independently of stepping.
    pub fn decrement_timers(&mut self)
        requires
            old(self)@.wf(),
        ensures
            final(self)@.wf(),
            final(self)@ == (MachineV {
                delay_timer: if old(self)@.delay_timer > 0 {
                    (old(self)@.delay_timer - 1) as u8
                } else {
                    0u8
                },
                sound_timer: if old(self)@.sound_timer > 0 {
                    (old(self)@.sound_timer - 1) as u8
                } else {
                    0u8
                },
                ..old(self)@
            }),
    {
        if self.delay_timer > 0 {
            self.delay_timer = self.delay_timer - 1;
        }
        if self.sound_timer > 0 {
            self.sound_timer = self.sound_timer - 1;
        }
    }

    /// The program counter.
    pub fn pc(&self) -> (r: u16)
        ensures
            r == self@.program_counter,
    {
        self.program_counter
    }

    /// The delay timer.
    pub fn delay_timer(&self) -> (r: u8)
        ensures
            r == self@.delay_timer,
    {
        self.delay_timer
    }

    /// The sound timer.
    pub fn sound_timer(&self) -> (r: u8)
        ensures
            r == self@.sound_timer,
    {
        self.sound_timer
    }

    /// Turns every display cell off.
    fn op_clear(&mut self)
        requires
            old(self)@.wf(),
        ensures
            final(self)@.wf(),
            final(self)@ == (MachineV { screen: spec_blank_screen(), ..old(self)@ }),
    {
        let ghost pre = old(self)@;
        let mut row: usize = 0;
        while row < 32
            invariant
                self@.wf(),
                0 <= row <= 32,
                self@ == (MachineV { screen: self@.screen, ..pre }),
                forall|r: int|
                    0 <= r < row ==> #[trigger] self@.screen[r] =~= Seq::new(64, |c: int| false),
                forall|r: int| row <= r < 32 ==> self@.screen[r] == pre.screen[r],
            decreases 32 - row,
        {
            let blank: Vec<bool> = vec![false; 64];
            let ghost before = self@.screen;
            self.screen[row] = blank;
            proof {
                assert(blank@ =~= Seq::new(64, |c: int| false));
                assert(self@.screen =~~= before.update(row as int, Seq::new(64, |c: int| false)));
            }
            row += 1;
        }
        proof {
            assert(self@.screen =~~= spec_blank_screen());
        }
    }

    /// Draws the `n`-row sprite at `I` at column `Vx`, row `Vy`, collecting
    /// the collision flag into `VF` as `spec_draw` states.
    fn op_draw(&mut self, x: usize, y: usize, n: usize)
        requires
            old(self)@.wf(),
            x < 16,
            y < 16,
            n < 16,
        ensures
            final(self)@.wf(),
            final(self)@ == spec_draw(old(self)@, x as int, y as int, n as nat),
    {
        let ghost pre = old(self)@;
        self.v[15] = 0;
        let vx = self.v[x];
        let vy = self.v[y];
        proof {
            assert(self@ == (MachineV { v: pre.v.update(15, 0u8), ..pre }));
            assert(spec_draw_rows(pre.memory, pre.screen, 0u8, pre.i, vx, vy, 0) == (
            pre.screen,
            0u8,
            ));
        }
        let mut row: usize = 0;
        while row < n
            invariant
                self@.wf(),
                pre.wf(),
                x < 16,
                y < 16,
                n < 16,
                0 <= row <= n,
                vx == pre.v.update(15, 0u8)[x as int],
                vy == pre.v.update(15, 0u8)[y as int],
                ({
                    let drawn = spec_draw_rows(pre.memory, pre.screen, 0u8, pre.i, vx, vy,
                    row as nat);
                    self@ == (MachineV { screen: drawn.0, v: pre.v.update(15, drawn.1), ..pre })
                }),
            decreases n - row,
        {
            let ghost prev = spec_draw_rows(pre.memory, pre.screen, 0u8, pre.i, vx, vy,
            row as nat);
            let byte = self.memory[((self.i as usize) + row) % 4096];
            let py = ((vy as usize) + row) % 32;
            proof {
                assert(byte == pre.memory[(pre.i + row) % 4096]);
                assert(py == (vy + row) % 32);
                assert(spec_draw_row(prev.0, prev.1, py as int, vx, byte, 0) == (prev.0, prev.1));
            }
            let mut bit: usize = 0;
            while bit < 8
                invariant
                    self@.wf(),
                    pre.wf(),
                    x < 16,
                    y < 16,
                    n < 16,
                    row < n,
                    0 <= bit <= 8,
                    py < 32,
                    vx == pre.v.update(15, 0u8)[x as int],
                    vy == pre.v.update(15, 0u8)[y as int],
                    prev == spec_draw_rows(pre.memory, pre.screen, 0u8, pre.i, vx, vy, row as nat),
                    ({
                        let cur = spec_draw_row(prev.0, prev.1, py as int, vx, byte, bit as nat);
                        self@ == (MachineV { screen: cur.0, v: pre.v.update(15, cur.1), ..pre })
                    }),
                decreases 8 - bit,
            {
                let ghost cur = spec_draw_row(prev.0, prev.1, py as int, vx, byte, bit as nat);
                let px = ((vx as usize) + bit) % 64;
                let sh = (7 - bit) as u8;
                let on = ((byte >> sh) & 1) == 1;
                proof {
                    assert(on == spec_sprite_bit(byte, bit as u8));
                    assert(px == (vx + (bit + 1) - 1) % 64);
                    assert(self@.screen[py as int] == self.screen@[py as int]@);
                    assert(self@.screen[py as int].len() == 64);
                }
                if on {
                    let lit = self.screen[py][px];
                    if lit {
                        self.v[15] = 1;
                    }
                    self.screen[py][px] = !lit;
                    proof {
                        let stepped = spec_draw_bit(cur.0, cur.1, py as int, px as int, true);
                        assert(lit == cur.0[py as int][px as int]);
                        assert(self@.screen =~~= stepped.0);
                        if lit {
                            assert(self@.v =~= pre.v.update(15, stepped.1));
                        }
                    }
                }
                proof {
                    let next = spec_draw_row(prev.0, prev.1, py as int, vx, byte, (bit + 1) as nat);
                    assert(next == spec_draw_bit(
                        cur.0,
                        cur.1,
                        py as int,
                        ((vx + (bit + 1) - 1) % 64) as int,
                        spec_sprite_bit(byte, bit as u8),
                    ));
                    assert(self@ == (MachineV {
                        screen: next.0,
                        v: pre.v.update(15, next.1),
                        ..pre
                    }));
                }
                bit += 1;
            }
            proof {
                let next = spec_draw_rows(pre.memory, pre.screen, 0u8, pre.i, vx, vy, (row
                    + 1) as nat);
                assert(next == spec_draw_row(prev.0, prev.1, ((vy + row) % 32) as int, vx,
                pre.memory[(pre.i + row) % 4096], 8));
            }
            row += 1;
        }
    }

    /// Stores the decimal digits of `Vx` at `I`, `I+1`, `I+2`, wrapping
    /// modulo 4096.
    fn op_store_bcd(&mut self, x: usize)
        requires
            old(self)@.wf(),
            x < 16,
        ensures
            final(self)@.wf(),
            final(self)@ == (MachineV {
                memory: spec_store_bcd(old(self)@.memory, old(self)@.i, old(self)@.v[x as int]),
                ..old(self)@
            }),
    {
        let value = self.v[x];
        let base = self.i as usize;
        self.memory[base % 4096] = value / 100;
        self.memory[(base + 1) % 4096] = (value % 100) / 10;
        self.memory[(base + 2) % 4096] = value % 10;
    }

    /// Copies `V0..=Vx` into memory starting at `I`, wrapping modulo 4096.
    /// The address register itself is left unmodified.
    fn op_store_regs(&mut self, x: usize)
        requires
            old(self)@.wf(),
            x < 16,
        ensures
            final(self)@.wf(),
            final(self)@ == (MachineV {
                memory: spec_store_regs(old(self)@.memory, old(self)@.v, old(self)@.i, (x
                    + 1) as nat),
                ..old(self)@
            }),
    {
        let ghost pre = old(self)@;
        let mut k: usize = 0;
        while k <= x
            invariant
                self@.wf(),
                x < 16,
                0 <= k <= x + 1,
                self@ == (MachineV {
                    memory: spec_store_regs(pre.memory, pre.v, pre.i, k as nat),
                    ..pre
                }),
            decreases x + 1 - k,
        {
            let idx = ((self.i as usize) + k) % 4096;
            self.memory[idx] = self.v[k];
            k += 1;
        }
    }

    /// Loads `V0..=Vx` from memory starting at `I`, wrapping modulo 4096.
    /// The address register itself is left unmodified.
    fn op_read_regs(&mut self, x: usize)
        requires
            old(self)@.wf(),
            x < 16,
        ensures
            final(self)@.wf(),
            final(self)@ == (MachineV {
                v: spec_read_regs(old(self)@.v, old(self)@.memory, old(self)@.i, (x + 1) as nat),
                ..old(self)@
            }),
    {
        let ghost pre = old(self)@;
        let mut k: usize = 0;
        while k <= x
            invariant
                self@.wf(),
                x < 16,
                0 <= k <= x + 1,
                self@ == (MachineV { v: spec_read_regs(pre.v, pre.memory, pre.i, k as nat), ..pre }),
            decreases x + 1 - k,
        {
            let idx = ((self.i as usize) + k) % 4096;
            let byte = self.memory[idx];
            self.v[k] = byte;
            k += 1;
        }
    }

    /// Scans the keypad in increasing index order; stores the lowest pressed
    /// key in `Vx` and moves on, or asks to stay put if no key is down.
    fn op_block_for_key(&mut self, x: usize) -> (c: Cursor)
        requires
            old(self)@.wf(),
            x < 16,
        ensures
            final(self)@.wf(),
            match spec_first_key(old(self)@.keypad, 0) {
                Some(key) => c == Cursor::Next && final(self)@ == (MachineV {
                    v: old(self)@.v.update(x as int, key),
                    ..old(self)@
                }),
                None => c == Cursor::Stay && final(self)@ == old(self)@,
            },
    {
        let mut k: usize = 0;
        while k < 16
            invariant
                self@.wf(),
                x < 16,
                0 <= k <= 16,
                self@ == old(self)@,
                spec_first_key(old(self)@.keypad, 0) == spec_first_key(old(self)@.keypad, k as int),
            decreases 16 - k,
        {
            if self.keypad[k] {
                proof {
                    assert(spec_first_key(old(self)@.keypad, k as int) == Some(k as u8));
                }
                self.v[x] = k as u8;
                return Cursor::Next;
            }
            k += 1;
        }
        Cursor::Stay
    }

    /// One step with the random byte supplied by the caller: fetches the word
    /// at the program counter, decodes it, executes it and applies the
    /// resulting cursor, deterministically per `spec_step`. On an error the
    /// machine is left exactly as it was.
    pub fn step_with_random(&mut self, random_byte: u8) -> (r: Result<(), Error>)
        requires
            old(self)@.wf(),
        ensures
            final(self)@.wf(),
            spec_step_outcome(old(self)@, random_byte, final(self)@, r),
    {
        let pc = self.program_counter as usize;
        if pc + 1 >= 4096 {
            return Err(Error::ProgramCounterOutOfBounds);
        }
        let word = (self.memory[pc] as u16) * 256 + (self.memory[pc + 1] as u16);
        let instr = crate::instructions::decode(word);
        proof {
            assert(word == spec_fetch(old(self)@));
            crate::instructions::lemma_decode_wf(word);
        }
        let cursor = match instr.run_with_random(self, random_byte) {
            Ok(c) => c,
            Err(e) => {
                return Err(e);
            },
        };
        match cursor {
            Cursor::Stay => (),
            Cursor::Next => {
                proof {
                    lemma_mod_wrap(self.program_counter + 2, 0x10000);
                }
                self.program_counter = self.program_counter + 2;
            },
            Cursor::Skip => {
                proof {
                    lemma_mod_wrap(self.program_counter + 4, 0x10000);
                }
                self.program_counter = self.program_counter + 4;
            },
            Cursor::Jump(address) => {
                self.program_counter = address;
            },
        }
        Ok(())
    }

    /// One step of the interpreter, drawing a byte from the process's random
    /// source where the fetched instruction consumes one: the transition is
    /// `spec_step` for some byte, and every instruction but the random one
    /// determines the new state regardless of it. On an error the machine is
    /// left exactly as it was, so a malformed program is diagnosable.
    pub fn run(&mut self) -> (r: Result<(), Error>)
        requires
            old(self)@.wf(),
        ensures
            final(self)@.wf(),
            exists|random_byte: u8| spec_step_outcome(old(self)@, random_byte, final(self)@, r),
    {
        let rb = random_byte();
        let r = self.step_with_random(rb);
        proof {
            assert(spec_step_outcome(old(self)@, rb, self@, r));
        }
        r
    }

    /// One step of the interpreter, under the name the display front end
    /// calls it by.
    pub fn tick(&mut self) -> (r: Result<(), Error>)
        requires
            old(self)@.wf(),
        ensures
            final(self)@.wf(),
            exists|random_byte: u8| spec_step_outcome(old(self)@, random_byte, final(self)@, r),
    {
        self.run()
    }

    /// A copy of the full memory image.
    pub fn memory(&self) -> (r: Vec<u8>)
        ensures
            r@ == self@.memory,
    {
        let r = self.memory.clone();
        proof {
            assert(r@ =~= self.memory@);
        }
        r
    }

    /// A copy of the display: 32 rows of 64 cells, `true` for a lit pixel.
    pub fn screen(&self) -> (r: Vec<Vec<bool>>)
        requires
            self@.wf(),
        ensures
            r@.len() == 32,
            forall|row: int| 0 <= row < 32 ==> (#[trigger] r@[row])@ == self@.screen[row],
    {
        let mut r: Vec<Vec<bool>> = Vec::new();
        let mut row: usize = 0;
        while row < 32
            invariant
                self@.wf(),
                r@.len() == row,
                0 <= row <= 32,
                forall|k: int| 0 <= k < row ==> (#[trigger] r@[k])@ == self@.screen[k],
            decreases 32 - row,
        {
            let mut line: Vec<bool> = Vec::new();
            let mut col: usize = 0;
            while col < 64
                invariant
                    self@.wf(),
                    row < 32,
                    line@.len() == col,
                    0 <= col <= 64,
                    forall|k: int| 0 <= k < col ==> line@[k] == self@.screen[row as int][k],
                decreases 64 - col,
            {
                proof {
                    assert(self@.screen[row as int] == self.screen@[row as int]@);
                    assert(self@.screen[row as int].len() == 64);
                }
                line.push(self.screen[row][col]);
                col += 1;
            }
            proof {
                assert(line@ =~= self@.screen[row as int]);
            }
            r.push(line);
            row += 1;
        }
        r
    }

    /// The display rendered as ASCII text: 32 lines of 64 cells, `x` for a
    /// lit cell, a space for a dark one, each line ended by a newline.
    pub fn screen_text(&self) -> (r: Vec<u8>)
        requires
            self@.wf(),
        ensures
            r@ == spec_screen_text(self@.screen),
    {
        let mut r: Vec<u8> = Vec::new();
        let ghost target = spec_screen_text(self@.screen);
        let mut row: usize = 0;
        while row < 32
            invariant
                self@.wf(),
                0 <= row <= 32,
                r@.len() == row * 65,
                forall|k: int| 0 <= k < row * 65 ==> r@[k] == target[k],
                target == spec_screen_text(self@.screen),
            decreases 32 - row,
        {
            let mut col: usize = 0;
            while col < 64
                invariant
                    self@.wf(),
                    row < 32,
                    0 <= col <= 64,
                    r@.len() == row * 65 + col,
                    forall|k: int| 0 <= k < row * 65 + col ==> r@[k] == target[k],
                    target == spec_screen_text(self@.screen),
                decreases 64 - col,
            {
                proof {
                    assert(self@.screen[row as int] == self.screen@[row as int]@);
                    assert(self@.screen[row as int].len() == 64);
                    assert((row * 65 + col) / 65 == row && (row * 65 + col) % 65 == col)
                        by (nonlinear_arith)
                        requires
                            0 <= col < 65,
                            0 <= row,
                    ;
                }
                let byte: u8 = if self.screen[row][col] {
                    120
                } else {
                    32
                };
                r.push(byte);
                col += 1;
            }
            proof {
                assert((row * 65 + 64) / 65 == row && (row * 65 + 64) % 65 == 64)
                    by (nonlinear_arith)
                    requires
                        0 <= row,
                ;
            }
            r.push(10);
            row += 1;
        }
        proof {
            assert(r@ =~= target);
        }
        r
    }
}

/// The display as text: for each of the 32 rows, its 64 cells as the ASCII
/// bytes `x` (lit) or space (dark), then a newline.
pub open spec fn spec_screen_text(screen: Seq<Seq<bool>>) -> Seq<u8> {
    Seq::new(
        32 * 65,
        |k: int|
            if k % 65 == 64 {
                10u8
            } else if screen[k / 65][k % 65] {
                120u8
            } else {
                32u8
            },
    )
}

} // verus!
