//! Decoding of 16-bit CHIP-8 instruction words.
//!
//! Every possible word decodes to exactly one [`Instruction`] variant; words
//! that match no defined operation decode to [`Instruction::InvalidInstruction`],
//! which carries the four raw nibbles for diagnostics. The legacy "call
//! native routine" family (a leading `0` nibble that is neither the clear nor
//! the return pattern) is deliberately treated as invalid: it has no defined
//! behavior on modern interpreters.

use vstd::prelude::*;

verus! {

/// One decoded CHIP-8 instruction, carrying only the operand fields its
/// operation needs: register indices (`x`, `y`, always below 16), an
/// immediate byte (`value`), a 12-bit address (`address`), or a sprite row
/// count (`n`, below 16).
#[derive(Clone, Copy, Debug, PartialEq, Eq, Structural)]
pub enum Instruction {
    /// `00E0`: clear the display.
    Clear,
    /// `00EE`: return from a subroutine.
    ReturnSubroutine,
    /// `1nnn`: jump to `address`.
    JumpTo { address: u16 },
    /// `2nnn`: call the subroutine at `address`.
    CallSubroutine { address: u16 },
    /// `3xkk`: skip the next instruction if `Vx == kk`.
    SkipEqual { x: usize, value: u8 },
    /// `4xkk`: skip the next instruction if `Vx != kk`.
    SkipNotEqual { x: usize, value: u8 },
    /// `5xy0`: skip the next instruction if `Vx == Vy`.
    SkipRegisterEqual { x: usize, y: usize },
    /// `6xkk`: set `Vx = kk`.
    SetRegister { x: usize, value: u8 },
    /// `7xkk`: set `Vx = Vx + kk` (modulo 256, `VF` untouched).
    AddRegister { x: usize, value: u8 },
    /// `8xy0`: set `Vx = Vy`.
    SetVxToVy { x: usize, y: usize },
    /// `8xy1`: set `Vx = Vx | Vy`.
    SetVxToVxOrVy { x: usize, y: usize },
    /// `8xy2`: set `Vx = Vx & Vy`.
    SetVxToVxAndVy { x: usize, y: usize },
    /// `8xy3`: set `Vx = Vx ^ Vy`.
    SetVxToVxXorVy { x: usize, y: usize },
    /// `8xy4`: set `Vx = Vx + Vy` (modulo 256), `VF` = carry.
    SetVxToVxAndVyCarry { x: usize, y: usize },
    /// `8xy5`: set `Vx = Vx - Vy` (modulo 256), `VF` = 1 iff `Vx > Vy` beforehand.
    SetVxToVxSubVy { x: usize, y: usize },
    /// `8xy6`: `VF` = low bit of `Vx`, then `Vx = Vx >> 1`.
    SetVxToVxShr { x: usize },
    /// `8xy7`: set `Vx = Vy - Vx` (modulo 256), `VF` = 1 iff `Vy > Vx` beforehand.
    SetVxToVySubVx { x: usize, y: usize },
    /// `8xyE`: `VF` = high bit of `Vx`, then `Vx = Vx << 1` (modulo 256).
    SetVxToVxShl { x: usize },
    /// `9xy0`: skip the next instruction if `Vx != Vy`.
    SkipRegisterNotEqual { x: usize, y: usize },
    /// `Annn`: set the address register `I = address`.
    SetIToAddress { address: u16 },
    /// `Bnnn`: jump to `address + V0`.
    JumpToPlusV0 { address: u16 },
    /// `Cxkk`: set `Vx` to a random byte ANDed with `kk`.
    SetVxToRandomAndValue { x: usize, value: u8 },
    /// `Dxyn`: draw the `n`-row sprite at `I` at column `Vx`, row `Vy`; `VF` = collision.
    Draw { x: usize, y: usize, n: usize },
    /// `Ex9E`: skip the next instruction if the key numbered `Vx` is down.
    SkipKeyPressed { x: usize },
    /// `ExA1`: skip the next instruction if the key numbered `Vx` is up.
    SkipKeyNotPressed { x: usize },
    /// `Fx07`: set `Vx` to the delay timer.
    SetVxToDelayTimer { x: usize },
    /// `Fx0A`: block until a key is down, then store its index in `Vx`.
    SetVxToNextKeyPress { x: usize },
    /// `Fx15`: set the delay timer to `Vx`.
    SetDelayTimerToVx { x: usize },
    /// `Fx18`: set the sound timer to `Vx`.
    SetSoundTimerToVx { x: usize },
    /// `Fx1E`: set `I = I + Vx` (modulo 2^16).
    AddVxToI { x: usize },
    /// `Fx29`: set `I` to the glyph sprite for the digit `Vx`.
    SetIToSpriteLocation { x: usize },
    /// `Fx33`: store the decimal digits of `Vx` at `I`, `I+1`, `I+2`.
    StoreBCD { x: usize },
    /// `Fx55`: copy `V0..=Vx` into memory starting at `I`.
    StoreRegisters { x: usize },
    /// `Fx65`: load `V0..=Vx` from memory starting at `I`.
    ReadRegisters { x: usize },
    /// Any word that matches no defined operation; carries its four nibbles.
    InvalidInstruction { a: u8, b: u8, c: u8, d: u8 },
}

/// The most significant nibble of a word.
pub open spec fn spec_nib0(word: u16) -> u8 {
    (word / 0x1000) as u8
}

/// The second nibble of a word.
pub open spec fn spec_nib1(word: u16) -> u8 {
    ((word / 0x100) % 16) as u8
}

/// The third nibble of a word.
pub open spec fn spec_nib2(word: u16) -> u8 {
    ((word / 16) % 16) as u8
}

/// The least significant nibble of a word.
pub open spec fn spec_nib3(word: u16) -> u8 {
    (word % 16) as u8
}

/// The immediate byte formed from the two low nibbles `y` and `n`.
pub open spec fn spec_value(y: u8, n: u8) -> u8 {
    ((y % 16) * 16 + (n % 16)) as u8
}

/// The 12-bit address formed from the three low nibbles `x`, `y` and `n`.
pub open spec fn spec_address(x: u8, y: u8, n: u8) -> u16 {
    ((x % 16) * 0x100 + (y % 16) * 16 + (n % 16)) as u16
}

/// Concatenates the two low nibbles into the immediate byte `0xyn`.
pub fn value(y: u8, n: u8) -> (r: u8)
    ensures
        r == spec_value(y, n),
{
    proof {
        assert(((y << 4) & 0xF0) | (n & 0xF) == ((y % 16) * 16 + (n % 16)) as u8)
            by (bit_vector);
    }
    ((y << 4) & 0xF0) | (n & 0xF)
}

/// Concatenates the three low nibbles into the 12-bit address `0xyn`.
pub fn address(x: u8, y: u8, n: u8) -> (r: u16)
    ensures
        r == spec_address(x, y, n),
{
    let v = value(y, n);
    proof {
        assert((((x as u16) << 8) & 0xF00) | (spec_value(y, n) as u16)
            == ((x % 16) * 0x100 + ((y % 16) * 16 + (n % 16))) as u16) by (bit_vector);
    }
    (((x as u16) << 8) & 0xF00) | (v as u16)
}

impl Instruction {
    /// Bounds that decoding guarantees of every operand field: register
    /// indices and nibble operands below 16, addresses below 0x1000.
    pub open spec fn wf(self) -> bool {
        match self {
            Instruction::Clear => true,
            Instruction::ReturnSubroutine => true,
            Instruction::JumpTo { address } => address < 0x1000,
            Instruction::CallSubroutine { address } => address < 0x1000,
            Instruction::SkipEqual { x, value } => x < 16,
            Instruction::SkipNotEqual { x, value } => x < 16,
            Instruction::SkipRegisterEqual { x, y } => x < 16 && y < 16,
            Instruction::SetRegister { x, value } => x < 16,
            Instruction::AddRegister { x, value } => x < 16,
            Instruction::SetVxToVy { x, y } => x < 16 && y < 16,
            Instruction::SetVxToVxOrVy { x, y } => x < 16 && y < 16,
            Instruction::SetVxToVxAndVy { x, y } => x < 16 && y < 16,
            Instruction::SetVxToVxXorVy { x, y } => x < 16 && y < 16,
            Instruction::SetVxToVxAndVyCarry { x, y } => x < 16 && y < 16,
            Instruction::SetVxToVxSubVy { x, y } => x < 16 && y < 16,
            Instruction::SetVxToVxShr { x } => x < 16,
            Instruction::SetVxToVySubVx { x, y } => x < 16 && y < 16,
            Instruction::SetVxToVxShl { x } => x < 16,
            Instruction::SkipRegisterNotEqual { x, y } => x < 16 && y < 16,
            Instruction::SetIToAddress { address } => address < 0x1000,
            Instruction::JumpToPlusV0 { address } => address < 0x1000,
            Instruction::SetVxToRandomAndValue { x, value } => x < 16,
            Instruction::Draw { x, y, n } => x < 16 && y < 16 && n < 16,
            Instruction::SkipKeyPressed { x } => x < 16,
            Instruction::SkipKeyNotPressed { x } => x < 16,
            Instruction::SetVxToDelayTimer { x } => x < 16,
            Instruction::SetVxToNextKeyPress { x } => x < 16,
            Instruction::SetDelayTimerToVx { x } => x < 16,
            Instruction::SetSoundTimerToVx { x } => x < 16,
            Instruction::AddVxToI { x } => x < 16,
            Instruction::SetIToSpriteLocation { x } => x < 16,
            Instruction::StoreBCD { x } => x < 16,
            Instruction::StoreRegisters { x } => x < 16,
            Instruction::ReadRegisters { x } => x < 16,
            Instruction::InvalidInstruction { a, b, c, d } => a < 16 && b < 16 && c < 16 && d < 16,
        }
    }
}

/// The inverse bit layout: the word whose operand fields an instruction
/// carries. For a well-formed instruction this is the unique word that
/// decodes to it within its opcode family.
pub open spec fn spec_encode(i: Instruction) -> int {
    match i {
        Instruction::Clear => 0x00E0,
        Instruction::ReturnSubroutine => 0x00EE,
        Instruction::JumpTo { address } => 0x1000 + address,
        Instruction::CallSubroutine { address } => 0x2000 + address,
        Instruction::SkipEqual { x, value } => 0x3000 + x * 0x100 + value,
        Instruction::SkipNotEqual { x, value } => 0x4000 + x * 0x100 + value,
        Instruction::SkipRegisterEqual { x, y } => 0x5000 + x * 0x100 + y * 16,
        Instruction::SetRegister { x, value } => 0x6000 + x * 0x100 + value,
        Instruction::AddRegister { x, value } => 0x7000 + x * 0x100 + value,
        Instruction::SetVxToVy { x, y } => 0x8000 + x * 0x100 + y * 16,
        Instruction::SetVxToVxOrVy { x, y } => 0x8001 + x * 0x100 + y * 16,
        Instruction::SetVxToVxAndVy { x, y } => 0x8002 + x * 0x100 + y * 16,
        Instruction::SetVxToVxXorVy { x, y } => 0x8003 + x * 0x100 + y * 16,
        Instruction::SetVxToVxAndVyCarry { x, y } => 0x8004 + x * 0x100 + y * 16,
        Instruction::SetVxToVxSubVy { x, y } => 0x8005 + x * 0x100 + y * 16,
        Instruction::SetVxToVxShr { x } => 0x8006 + x * 0x100,
        Instruction::SetVxToVySubVx { x, y } => 0x8007 + x * 0x100 + y * 16,
        Instruction::SetVxToVxShl { x } => 0x800E + x * 0x100,
        Instruction::SkipRegisterNotEqual { x, y } => 0x9000 + x * 0x100 + y * 16,
        Instruction::SetIToAddress { address } => 0xA000 + address,
        Instruction::JumpToPlusV0 { address } => 0xB000 + address,
        Instruction::SetVxToRandomAndValue { x, value } => 0xC000 + x * 0x100 + value,
        Instruction::Draw { x, y, n } => 0xD000 + x * 0x100 + y * 16 + n,
        Instruction::SkipKeyPressed { x } => 0xE09E + x * 0x100,
        Instruction::SkipKeyNotPressed { x } => 0xE0A1 + x * 0x100,
        Instruction::SetVxToDelayTimer { x } => 0xF007 + x * 0x100,
        Instruction::SetVxToNextKeyPress { x } => 0xF00A + x * 0x100,
        Instruction::SetDelayTimerToVx { x } => 0xF015 + x * 0x100,
        Instruction::SetSoundTimerToVx { x } => 0xF018 + x * 0x100,
        Instruction::AddVxToI { x } => 0xF01E + x * 0x100,
        Instruction::SetIToSpriteLocation { x } => 0xF029 + x * 0x100,
        Instruction::StoreBCD { x } => 0xF033 + x * 0x100,
        Instruction::StoreRegisters { x } => 0xF055 + x * 0x100,
        Instruction::ReadRegisters { x } => 0xF065 + x * 0x100,
        Instruction::InvalidInstruction { a, b, c, d } => a * 0x1000 + b * 0x100 + c * 16 + d,
    }
}

/// A word is the weighted sum of its four nibbles, each of which is below 16.
proof fn lemma_word_nibbles(word: u16)
    ensures
        word == spec_nib0(word) * 0x1000 + spec_nib1(word) * 0x100 + spec_nib2(word) * 16
            + spec_nib3(word),
        spec_nib0(word) < 16,
        spec_nib1(word) < 16,
        spec_nib2(word) < 16,
        spec_nib3(word) < 16,
{
    assert(word == (word / 0x1000) * 0x1000 + ((word / 0x100) % 16) * 0x100 + ((word / 16) % 16)
        * 16 + (word % 16) && word / 0x1000 < 16) by (bit_vector);
}

/// Decoding is total and yields well-formed operand fields: for every one of
/// the 65536 possible words, the decoded instruction's register indices and
/// nibble operands are below 16 and its address below 0x1000.
pub proof fn lemma_decode_wf(word: u16)
    ensures
        spec_decode(word).wf(),
{
    lemma_word_nibbles(word);
}

/// Round trip: re-encoding the operand fields of a decoded word through the
/// inverse bit layout reproduces the word exactly. This holds for every word
/// (the invalid fallback included, whose four raw nibbles recombine to the
/// word) except the two shift patterns `8xy6` and `8xyE` with a nonzero `y`
/// nibble: a shift has no `y` operand, so that nibble is discarded by
/// decoding; `lemma_decode_encode_shift` states what holds there.
pub proof fn lemma_decode_encode(word: u16)
    requires
        !(spec_nib0(word) == 0x8 && spec_nib2(word) != 0 && (spec_nib3(word) == 0x6
            || spec_nib3(word) == 0xE)),
    ensures
        spec_encode(spec_decode(word)) == word,
{
    lemma_word_nibbles(word);
    let b = spec_nib1(word);
    let c = spec_nib2(word);
    let d = spec_nib3(word);
    assert(spec_value(c, d) == c * 16 + d);
    assert(spec_address(b, c, d) == b * 0x100 + c * 16 + d);
}

/// Re-encoding a decoded shift word (`8xy6` or `8xyE`) reproduces the word
/// with its `y` nibble cleared: the shift operations carry no `y` operand.
pub proof fn lemma_decode_encode_shift(word: u16)
    requires
        spec_nib0(word) == 0x8,
        spec_nib3(word) == 0x6 || spec_nib3(word) == 0xE,
    ensures
        spec_encode(spec_decode(word)) == word - spec_nib2(word) * 16,
{
    lemma_word_nibbles(word);
}

/// What `decode` returns for every word: the opcode table of the interpreter.
pub open spec fn spec_decode(word: u16) -> Instruction {
    let a = spec_nib0(word);
    let b = spec_nib1(word);
    let c = spec_nib2(word);
    let d = spec_nib3(word);
    match (a, b, c, d) {
        (0x0, 0x0, 0xE, 0x0) => Instruction::Clear,
        (0x0, 0x0, 0xE, 0xE) => Instruction::ReturnSubroutine,
        (0x1, x, y, n) => Instruction::JumpTo { address: spec_address(x, y, n) },
        (0x2, x, y, n) => Instruction::CallSubroutine { address: spec_address(x, y, n) },
        (0x3, x, y, n) => Instruction::SkipEqual { x: x as usize, value: spec_value(y, n) },
        (0x4, x, y, n) => Instruction::SkipNotEqual { x: x as usize, value: spec_value(y, n) },
        (0x5, x, y, 0x0) => Instruction::SkipRegisterEqual { x: x as usize, y: y as usize },
        (0x6, x, y, n) => Instruction::SetRegister { x: x as usize, value: spec_value(y, n) },
        (0x7, x, y, n) => Instruction::AddRegister { x: x as usize, value: spec_value(y, n) },
        (0x8, x, y, 0x0) => Instruction::SetVxToVy { x: x as usize, y: y as usize },
        (0x8, x, y, 0x1) => Instruction::SetVxToVxOrVy { x: x as usize, y: y as usize },
        (0x8, x, y, 0x2) => Instruction::SetVxToVxAndVy { x: x as usize, y: y as usize },
        (0x8, x, y, 0x3) => Instruction::SetVxToVxXorVy { x: x as usize, y: y as usize },
        (0x8, x, y, 0x4) => Instruction::SetVxToVxAndVyCarry { x: x as usize, y: y as usize },
        (0x8, x, y, 0x5) => Instruction::SetVxToVxSubVy { x: x as usize, y: y as usize },
        (0x8, x, _, 0x6) => Instruction::SetVxToVxShr { x: x as usize },
        (0x8, x, y, 0x7) => Instruction::SetVxToVySubVx { x: x as usize, y: y as usize },
        (0x8, x, _, 0xE) => Instruction::SetVxToVxShl { x: x as usize },
        (0x9, x, y, 0x0) => Instruction::SkipRegisterNotEqual { x: x as usize, y: y as usize },
        (0xA, x, y, n) => Instruction::SetIToAddress { address: spec_address(x, y, n) },
        (0xB, x, y, n) => Instruction::JumpToPlusV0 { address: spec_address(x, y, n) },
        (0xC, x, y, n) => Instruction::SetVxToRandomAndValue {
            x: x as usize,
            value: spec_value(y, n),
        },
        (0xD, x, y, n) => Instruction::Draw { x: x as usize, y: y as usize, n: n as usize },
        (0xE, x, 0x9, 0xE) => Instruction::SkipKeyPressed { x: x as usize },
        (0xE, x, 0xA, 0x1) => Instruction::SkipKeyNotPressed { x: x as usize },
        (0xF, x, 0x0, 0x7) => Instruction::SetVxToDelayTimer { x: x as usize },
        (0xF, x, 0x0, 0xA) => Instruction::SetVxToNextKeyPress { x: x as usize },
        (0xF, x, 0x1, 0x5) => Instruction::SetDelayTimerToVx { x: x as usize },
        (0xF, x, 0x1, 0x8) => Instruction::SetSoundTimerToVx { x: x as usize },
        (0xF, x, 0x1, 0xE) => Instruction::AddVxToI { x: x as usize },
        (0xF, x, 0x2, 0x9) => Instruction::SetIToSpriteLocation { x: x as usize },
        (0xF, x, 0x3, 0x3) => Instruction::StoreBCD { x: x as usize },
        (0xF, x, 0x5, 0x5) => Instruction::StoreRegisters { x: x as usize },
        (0xF, x, 0x6, 0x5) => Instruction::ReadRegisters { x: x as usize },
        _ => Instruction::InvalidInstruction { a, b, c, d },
    }
}

/// Splits a word into its four nibbles and maps it through the opcode table.
/// Total: every 16-bit word yields exactly one variant, with the invalid
/// fallback for the undefined gaps.
pub fn decode(word: u16) -> (r: Instruction)
    ensures
        r == spec_decode(word),
{
    let a = ((word >> 12) & 0xF) as u8;
    let b = ((word >> 8) & 0xF) as u8;
    let c = ((word >> 4) & 0xF) as u8;
    let d = (word & 0xF) as u8;
    proof {
        assert(((word >> 12) & 0xF) as u8 == (word / 0x1000) as u8
            && ((word >> 8) & 0xF) as u8 == ((word / 0x100) % 16) as u8
            && ((word >> 4) & 0xF) as u8 == ((word / 16) % 16) as u8
            && (word & 0xF) as u8 == (word % 16) as u8) by (bit_vector);
    }
    match (a, b, c, d) {
        (0x0, 0x0, 0xE, 0x0) => Instruction::Clear,
        (0x0, 0x0, 0xE, 0xE) => Instruction::ReturnSubroutine,
        (0x1, x, y, n) => Instruction::JumpTo { address: address(x, y, n) },
        (0x2, x, y, n) => Instruction::CallSubroutine { address: address(x, y, n) },
        (0x3, x, y, n) => Instruction::SkipEqual { x: x as usize, value: value(y, n) },
        (0x4, x, y, n) => Instruction::SkipNotEqual { x: x as usize, value: value(y, n) },
        (0x5, x, y, 0x0) => Instruction::SkipRegisterEqual { x: x as usize, y: y as usize },
        (0x6, x, y, n) => Instruction::SetRegister { x: x as usize, value: value(y, n) },
        (0x7, x, y, n) => Instruction::AddRegister { x: x as usize, value: value(y, n) },
        (0x8, x, y, 0x0) => Instruction::SetVxToVy { x: x as usize, y: y as usize },
        (0x8, x, y, 0x1) => Instruction::SetVxToVxOrVy { x: x as usize, y: y as usize },
        (0x8, x, y, 0x2) => Instruction::SetVxToVxAndVy { x: x as usize, y: y as usize },
        (0x8, x, y, 0x3) => Instruction::SetVxToVxXorVy { x: x as usize, y: y as usize },
        (0x8, x, y, 0x4) => Instruction::SetVxToVxAndVyCarry { x: x as usize, y: y as usize },
        (0x8, x, y, 0x5) => Instruction::SetVxToVxSubVy { x: x as usize, y: y as usize },
        (0x8, x, _, 0x6) => Instruction::SetVxToVxShr { x: x as usize },
        (0x8, x, y, 0x7) => Instruction::SetVxToVySubVx { x: x as usize, y: y as usize },
        (0x8, x, _, 0xE) => Instruction::SetVxToVxShl { x: x as usize },
        (0x9, x, y, 0x0) => Instruction::SkipRegisterNotEqual { x: x as usize, y: y as usize },
        (0xA, x, y, n) => Instruction::SetIToAddress { address: address(x, y, n) },
        (0xB, x, y, n) => Instruction::JumpToPlusV0 { address: address(x, y, n) },
        (0xC, x, y, n) => Instruction::SetVxToRandomAndValue { x: x as usize, value: value(y, n) },
        (0xD, x, y, n) => Instruction::Draw { x: x as usize, y: y as usize, n: n as usize },
        (0xE, x, 0x9, 0xE) => Instruction::SkipKeyPressed { x: x as usize },
        (0xE, x, 0xA, 0x1) => Instruction::SkipKeyNotPressed { x: x as usize },
        (0xF, x, 0x0, 0x7) => Instruction::SetVxToDelayTimer { x: x as usize },
        (0xF, x, 0x0, 0xA) => Instruction::SetVxToNextKeyPress { x: x as usize },
        (0xF, x, 0x1, 0x5) => Instruction::SetDelayTimerToVx { x: x as usize },
        (0xF, x, 0x1, 0x8) => Instruction::SetSoundTimerToVx { x: x as usize },
        (0xF, x, 0x1, 0xE) => Instruction::AddVxToI { x: x as usize },
        (0xF, x, 0x2, 0x9) => Instruction::SetIToSpriteLocation { x: x as usize },
        (0xF, x, 0x3, 0x3) => Instruction::StoreBCD { x: x as usize },
        (0xF, x, 0x5, 0x5) => Instruction::StoreRegisters { x: x as usize },
        (0xF, x, 0x6, 0x5) => Instruction::ReadRegisters { x: x as usize },
        _ => Instruction::InvalidInstruction { a, b, c, d },
    }
}

} // verus!
