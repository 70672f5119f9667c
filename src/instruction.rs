//! Decoding of 16-bit instruction words.

use vstd::prelude::*;

verus! {

/// One decoded instruction. Register operands `x` and `y` are 4-bit
/// register indices, `n` is a 4-bit immediate, `nn` an 8-bit immediate and
/// `nnn` a 12-bit address.
#[derive(Clone, Copy, Debug, PartialEq, Eq, Structural)]
pub enum Instruction {
    /// `00E0`: clear the display.
    ClearScreen,
    /// `00EE`: return from a subroutine.
    Return,
    /// `1nnn`: jump to `nnn`.
    Jump { nnn: u16 },
    /// `2nnn`: call the subroutine at `nnn`.
    Call { nnn: u16 },
    /// `3xnn`: skip the next instruction if `Vx == nn`.
    SkipIfEqualImm { x: u8, nn: u8 },
    /// `4xnn`: skip the next instruction if `Vx != nn`.
    SkipIfNotEqualImm { x: u8, nn: u8 },
    /// `5xy0`: skip the next instruction if `Vx == Vy`.
    SkipIfEqualReg { x: u8, y: u8 },
    /// `6xnn`: `Vx = nn`.
    SetImm { x: u8, nn: u8 },
    /// `7xnn`: `Vx = Vx + nn` (wrapping, no flag).
    AddImm { x: u8, nn: u8 },
    /// `8xy0`: `Vx = Vy`.
    Copy { x: u8, y: u8 },
    /// `8xy1`: `Vx = Vx | Vy`.
    Or { x: u8, y: u8 },
    /// `8xy2`: `Vx = Vx & Vy`.
    And { x: u8, y: u8 },
    /// `8xy3`: `Vx = Vx ^ Vy`.
    Xor { x: u8, y: u8 },
    /// `8xy4`: `Vx = Vx + Vy` (wrapping), `VF` = carry.
    AddReg { x: u8, y: u8 },
    /// `8xy5`: conditional subtraction `Vx - Vy`.
    SubReg { x: u8, y: u8 },
    /// `8xy6`: `Vx = Vx >> 1`, `VF` = the bit shifted out.
    ShiftRight { x: u8, y: u8 },
    /// `8xy7`: conditional subtraction `Vy - Vx`.
    SubRegReversed { x: u8, y: u8 },
    /// `8xyE`: `Vx = Vx << 1` (truncated), `VF` = the bit shifted out.
    ShiftLeft { x: u8, y: u8 },
    /// `9xy0`: skip the next instruction if `Vx != Vy`.
    SkipIfNotEqualReg { x: u8, y: u8 },
    /// `Annn`: `I = nnn`.
    SetIndex { nnn: u16 },
    /// `Bnnn`: jump to `nnn + V0`.
    JumpOffset { nnn: u16 },
    /// `Cxnn`: `Vx = nn & random byte`.
    Random { x: u8, nn: u8 },
    /// `Dxyn`: draw an `n`-row sprite at `(Vx, Vy)`.
    Draw { x: u8, y: u8, n: u8 },
    /// `Ex9E`: skip the next instruction if key `Vx` is pressed.
    SkipIfKey { x: u8 },
    /// `ExA1`: skip the next instruction if key `Vx` is not pressed.
    SkipIfNotKey { x: u8 },
    /// `Fx07`: `Vx = delay timer`.
    ReadDelay { x: u8 },
    /// `Fx0A`: `Vx` = the lowest pressed key, if any.
    WaitKey { x: u8 },
    /// `Fx15`: `delay timer = Vx`.
    SetDelay { x: u8 },
    /// `Fx18`: `sound timer = Vx`.
    SetSound { x: u8 },
    /// `Fx1E`: `I = I + Vx`.
    AddIndex { x: u8 },
    /// `Fx29`: `I` = address of the font sprite for digit `x`.
    FontSprite { x: u8 },
    /// `Fx33`: store the decimal digits of `Vx` at `I`, `I + 1`, `I + 2`.
    StoreBcd { x: u8 },
    /// `Fx55`: store `V0..=Vx` at `I..=I + x`.
    StoreRegisters { x: u8 },
    /// `Fx65`: load `V0..=Vx` from `I..=I + x`.
    LoadRegisters { x: u8 },
    /// Any word that no instruction matches.
    Unknown { word: u16 },
}

/// The four nibbles of a word, most significant first.
pub open spec fn nibbles_of(word: u16) -> (u8, u8, u8, u8) {
    (
        (word / 4096) as u8,
        ((word / 256) % 16) as u8,
        ((word / 16) % 16) as u8,
        (word % 16) as u8,
    )
}

/// The instruction that a word encodes.
pub open spec fn decode_spec(word: u16) -> Instruction {
    let (g, x, y, n) = nibbles_of(word);
    let nnn = (word % 4096) as u16;
    let nn = (word % 256) as u8;
    if word == 0x00E0 {
        Instruction::ClearScreen
    } else if word == 0x00EE {
        Instruction::Return
    } else if g == 1 {
        Instruction::Jump { nnn }
    } else if g == 2 {
        Instruction::Call { nnn }
    } else if g == 3 {
        Instruction::SkipIfEqualImm { x, nn }
    } else if g == 4 {
        Instruction::SkipIfNotEqualImm { x, nn }
    } else if g == 5 && n == 0 {
        Instruction::SkipIfEqualReg { x, y }
    } else if g == 6 {
        Instruction::SetImm { x, nn }
    } else if g == 7 {
        Instruction::AddImm { x, nn }
    } else if g == 8 && n == 0 {
        Instruction::Copy { x, y }
    } else if g == 8 && n == 1 {
        Instruction::Or { x, y }
    } else if g == 8 && n == 2 {
        Instruction::And { x, y }
    } else if g == 8 && n == 3 {
        Instruction::Xor { x, y }
    } else if g == 8 && n == 4 {
        Instruction::AddReg { x, y }
    } else if g == 8 && n == 5 {
        Instruction::SubReg { x, y }
    } else if g == 8 && n == 6 {
        Instruction::ShiftRight { x, y }
    } else if g == 8 && n == 7 {
        Instruction::SubRegReversed { x, y }
    } else if g == 8 && n == 0xE {
        Instruction::ShiftLeft { x, y }
    } else if g == 9 && n == 0 {
        Instruction::SkipIfNotEqualReg { x, y }
    } else if g == 0xA {
        Instruction::SetIndex { nnn }
    } else if g == 0xB {
        Instruction::JumpOffset { nnn }
    } else if g == 0xC {
        Instruction::Random { x, nn }
    } else if g == 0xD {
        Instruction::Draw { x, y, n }
    } else if g == 0xE && y == 9 {
        Instruction::SkipIfKey { x }
    } else if g == 0xE && y == 0xA && n == 1 {
        Instruction::SkipIfNotKey { x }
    } else if g == 0xF && y == 0 && n == 7 {
        Instruction::ReadDelay { x }
    } else if g == 0xF && y == 0 && n == 0xA {
        Instruction::WaitKey { x }
    } else if g == 0xF && y == 1 && n == 5 {
        Instruction::SetDelay { x }
    } else if g == 0xF && y == 1 && n == 8 {
        Instruction::SetSound { x }
    } else if g == 0xF && y == 1 && n == 0xE {
        Instruction::AddIndex { x }
    } else if g == 0xF && y == 2 && n == 9 {
        Instruction::FontSprite { x }
    } else if g == 0xF && y == 3 && n == 3 {
        Instruction::StoreBcd { x }
    } else if g == 0xF && y == 5 && n == 5 {
        Instruction::StoreRegisters { x }
    } else if g == 0xF && y == 6 && n == 5 {
        Instruction::LoadRegisters { x }
    } else {
        Instruction::Unknown { word }
    }
}

impl Instruction {
    /// Every operand lies in the range of its field: registers and `n` in
    /// 4 bits, addresses in 12 bits.
    pub open spec fn wf(self) -> bool {
        match self {
            Instruction::Jump { nnn } => nnn < 4096,
            Instruction::Call { nnn } => nnn < 4096,
            Instruction::SetIndex { nnn } => nnn < 4096,
            Instruction::JumpOffset { nnn } => nnn < 4096,
            Instruction::SkipIfEqualImm { x, nn } => x < 16,
            Instruction::SkipIfNotEqualImm { x, nn } => x < 16,
            Instruction::SetImm { x, nn } => x < 16,
            Instruction::AddImm { x, nn } => x < 16,
            Instruction::Random { x, nn } => x < 16,
            Instruction::SkipIfEqualReg { x, y } => x < 16 && y < 16,
            Instruction::Copy { x, y } => x < 16 && y < 16,
            Instruction::Or { x, y } => x < 16 && y < 16,
            Instruction::And { x, y } => x < 16 && y < 16,
            Instruction::Xor { x, y } => x < 16 && y < 16,
            Instruction::AddReg { x, y } => x < 16 && y < 16,
            Instruction::SubReg { x, y } => x < 16 && y < 16,
            Instruction::ShiftRight { x, y } => x < 16 && y < 16,
            Instruction::SubRegReversed { x, y } => x < 16 && y < 16,
            Instruction::ShiftLeft { x, y } => x < 16 && y < 16,
            Instruction::SkipIfNotEqualReg { x, y } => x < 16 && y < 16,
            Instruction::Draw { x, y, n } => x < 16 && y < 16 && n < 16,
            Instruction::SkipIfKey { x } => x < 16,
            Instruction::SkipIfNotKey { x } => x < 16,
            Instruction::ReadDelay { x } => x < 16,
            Instruction::WaitKey { x } => x < 16,
            Instruction::SetDelay { x } => x < 16,
            Instruction::SetSound { x } => x < 16,
            Instruction::AddIndex { x } => x < 16,
            Instruction::FontSprite { x } => x < 16,
            Instruction::StoreBcd { x } => x < 16,
            Instruction::StoreRegisters { x } => x < 16,
            Instruction::LoadRegisters { x } => x < 16,
            _ => true,
        }
    }
}

/// Splits a word into its four nibbles, most significant first.
pub fn nibbles(word: u16) -> (r: (u8, u8, u8, u8))
    ensures
        r == nibbles_of(word),
        r.0 < 16 && r.1 < 16 && r.2 < 16 && r.3 < 16,
{
    ((word / 4096) as u8, ((word / 256) % 16) as u8, ((word / 16) % 16) as u8, (word % 16) as u8)
}

/// Decodes a word. Every word decodes to some instruction; words that match
/// no instruction give `Unknown`.
pub fn decode(word: u16) -> (r: Instruction)
    ensures
        r == decode_spec(word),
        r.wf(),
{
    let (g, x, y, n) = nibbles(word);
    let nnn: u16 = word % 4096;
    let nn: u8 = (word % 256) as u8;
    if word == 0x00E0 {
        Instruction::ClearScreen
    } else if word == 0x00EE {
        Instruction::Return
    } else if g == 1 {
        Instruction::Jump { nnn }
    } else if g == 2 {
        Instruction::Call { nnn }
    } else if g == 3 {
        Instruction::SkipIfEqualImm { x, nn }
    } else if g == 4 {
        Instruction::SkipIfNotEqualImm { x, nn }
    } else if g == 5 && n == 0 {
        Instruction::SkipIfEqualReg { x, y }
    } else if g == 6 {
        Instruction::SetImm { x, nn }
    } else if g == 7 {
        Instruction::AddImm { x, nn }
    } else if g == 8 && n == 0 {
        Instruction::Copy { x, y }
    } else if g == 8 && n == 1 {
        Instruction::Or { x, y }
    } else if g == 8 && n == 2 {
        Instruction::And { x, y }
    } else if g == 8 && n == 3 {
        Instruction::Xor { x, y }
    } else if g == 8 && n == 4 {
        Instruction::AddReg { x, y }
    } else if g == 8 && n == 5 {
        Instruction::SubReg { x, y }
    } else if g == 8 && n == 6 {
        Instruction::ShiftRight { x, y }
    } else if g == 8 && n == 7 {
        Instruction::SubRegReversed { x, y }
    } else if g == 8 && n == 0xE {
        Instruction::ShiftLeft { x, y }
    } else if g == 9 && n == 0 {
        Instruction::SkipIfNotEqualReg { x, y }
    } else if g == 0xA {
        Instruction::SetIndex { nnn }
    } else if g == 0xB {
        Instruction::JumpOffset { nnn }
    } else if g == 0xC {
        Instruction::Random { x, nn }
    } else if g == 0xD {
        Instruction::Draw { x, y, n }
    } else if g == 0xE && y == 9 {
        Instruction::SkipIfKey { x }
    } else if g == 0xE && y == 0xA && n == 1 {
        Instruction::SkipIfNotKey { x }
    } else if g == 0xF && y == 0 && n == 7 {
        Instruction::ReadDelay { x }
    } else if g == 0xF && y == 0 && n == 0xA {
        Instruction::WaitKey { x }
    } else if g == 0xF && y == 1 && n == 5 {
        Instruction::SetDelay { x }
    } else if g == 0xF && y == 1 && n == 8 {
        Instruction::SetSound { x }
    } else if g == 0xF && y == 1 && n == 0xE {
        Instruction::AddIndex { x }
    } else if g == 0xF && y == 2 && n == 9 {
        Instruction::FontSprite { x }
    } else if g == 0xF && y == 3 && n == 3 {
        Instruction::StoreBcd { x }
    } else if g == 0xF && y == 5 && n == 5 {
        Instruction::StoreRegisters { x }
    } else if g == 0xF && y == 6 && n == 5 {
        Instruction::LoadRegisters { x }
    } else {
        Instruction::Unknown { word }
    }
}

} // verus!
