//! The machine state, its abstract model, and the meaning of each
//! instruction as a function on that model.

use vstd::prelude::*;
use crate::instruction::{Instruction, decode_spec};

verus! {

/// Bytes of addressable memory.
pub const MEMORY_SIZE: usize = 4096;

/// Number of general-purpose registers.
pub const REGISTER_COUNT: usize = 16;

/// Number of keys on the input pad.
pub const KEY_COUNT: usize = 16;

/// Rows of the display; each row is one 64-bit word, one bit per pixel.
pub const DISPLAY_ROWS: usize = 32;

/// Address where programs are loaded and execution starts.
pub const PROGRAM_START: usize = 0x200;

/// The flag register, overwritten by several instructions.
pub const FLAG: u8 = 0xF;

/// Bytes in each built-in font sprite.
pub const FONT_SPRITE_LEN: usize = 5;

/// A condition under which an instruction cannot be executed. The machine
/// is left unchanged when one is reported.
#[derive(Clone, Copy, Debug, PartialEq, Eq, Structural)]
pub enum Fault {
    /// The program counter does not address an instruction inside memory.
    PcOutOfRange,
    /// A return was executed with an empty call stack.
    StackUnderflow,
    /// An instruction would read or write memory past its end.
    MemoryOutOfRange,
    /// A key instruction names a key that does not exist.
    KeyOutOfRange,
    /// Adding to the index register would exceed the address width.
    IndexOverflow,
}

/// The abstract state of a machine.
#[verifier::ext_equal]
pub struct MachineState {
    pub registers: Seq<u8>,
    /// The index register, the base address of memory operations.
    pub index: usize,
    /// The address of the next instruction.
    pub pc: usize,
    pub delay_timer: u8,
    pub sound_timer: u8,
    pub memory: Seq<u8>,
    pub keys: Seq<bool>,
    pub display: Seq<u64>,
    pub stack: Seq<u16>,
    /// Whether `Fx0A` holds the program counter while no key is pressed.
    pub key_wait_blocks: bool,
}

/// The built-in font: sixteen 5-byte sprites for the hexadecimal digits.
pub open spec fn font() -> Seq<u8> {
    seq![
        0xF0, 0x90, 0x90, 0x90, 0xF0, 0x20, 0x60, 0x20, 0x20, 0x70,
        0xF0, 0x10, 0xF0, 0x80, 0xF0, 0xF0, 0x10, 0xF0, 0x10, 0xF0,
        0x90, 0x90, 0xF0, 0x10, 0x10, 0xF0, 0x80, 0xF0, 0x10, 0xF0,
        0xF0, 0x80, 0xF0, 0x90, 0xF0, 0xF0, 0x10, 0x20, 0x40, 0x40,
        0xF0, 0x90, 0xF0, 0x90, 0xF0, 0xF0, 0x90, 0xF0, 0x10, 0xF0,
        0xF0, 0x90, 0xF0, 0x90, 0x90, 0xE0, 0x90, 0xE0, 0x90, 0xE0,
        0xF0, 0x80, 0x80, 0x80, 0xF0, 0xE0, 0x90, 0x90, 0x90, 0xE0,
        0xF0, 0x80, 0xF0, 0x80, 0xF0, 0xF0, 0x80, 0xF0, 0x80, 0x80,
    ]
}

/// Address of the font sprite for hexadecimal digit `d`.
pub open spec fn font_address(d: int) -> int {
    d * FONT_SPRITE_LEN as int
}

/// The state of a freshly created machine: fonts at the start of memory,
/// execution at the program start, everything else zero or empty.
pub open spec fn initial_state() -> MachineState {
    MachineState {
        registers: Seq::new(REGISTER_COUNT as nat, |_i: int| 0u8),
        index: 0,
        pc: PROGRAM_START,
        delay_timer: 0,
        sound_timer: 0,
        memory: Seq::new(
            MEMORY_SIZE as nat,
            |a: int| if a < font().len() { font()[a] } else { 0u8 },
        ),
        keys: Seq::new(KEY_COUNT as nat, |_i: int| false),
        display: Seq::new(DISPLAY_ROWS as nat, |_i: int| 0u64),
        stack: Seq::empty(),
        key_wait_blocks: false,
    }
}

/// Memory after copying `data` to the program start; bytes that would fall
/// past the end of memory are dropped.
pub open spec fn loaded(memory: Seq<u8>, data: Seq<u8>) -> Seq<u8> {
    Seq::new(
        memory.len(),
        |a: int|
            if PROGRAM_START <= a < PROGRAM_START + data.len() {
                data[a - PROGRAM_START]
            } else {
                memory[a]
            },
    )
}

/// The 64-bit display row holding sprite byte `byte` with its high bit at
/// column `col`; pixels right of column 63 are dropped.
pub open spec fn sprite_row(byte: u8, col: u8) -> u64 {
    if col <= 56 {
        (byte as u64) << ((56 - col) as u64)
    } else if col < 64 {
        (byte as u64) >> ((col - 56) as u64)
    } else {
        0
    }
}

/// The lowest index at or after `i` of a pressed key.
pub open spec fn first_pressed_from(keys: Seq<bool>, i: int) -> Option<int>
    decreases keys.len() - i,
{
    if i < 0 || i >= keys.len() {
        None
    } else if keys[i] {
        Some(i)
    } else {
        first_pressed_from(keys, i + 1)
    }
}

/// The lowest index of a pressed key, if any key is pressed.
pub open spec fn first_pressed(keys: Seq<bool>) -> Option<int> {
    first_pressed_from(keys, 0)
}

impl MachineState {
    /// Every component has its architectural size.
    pub open spec fn wf(self) -> bool {
        &&& self.registers.len() == REGISTER_COUNT
        &&& self.memory.len() == MEMORY_SIZE
        &&& self.keys.len() == KEY_COUNT
        &&& self.display.len() == DISPLAY_ROWS
    }

    /// The value of register `r`.
    pub open spec fn reg(self, r: u8) -> u8 {
        self.registers[r as int]
    }

    /// The state with register `r` set to `v`.
    pub open spec fn set_reg(self, r: u8, v: u8) -> MachineState {
        MachineState { registers: self.registers.update(r as int, v), ..self }
    }

    /// The state with the program counter moved on by `k` bytes.
    pub open spec fn advance(self, k: int) -> MachineState {
        MachineState { pc: (self.pc + k) as usize, ..self }
    }

    /// Each timer decremented by one, stopping at zero.
    pub open spec fn tick_timers(self) -> MachineState {
        MachineState {
            delay_timer: if self.delay_timer > 0 { (self.delay_timer - 1) as u8 } else { 0 },
            sound_timer: if self.sound_timer > 0 { (self.sound_timer - 1) as u8 } else { 0 },
            ..self
        }
    }

    /// The sprite byte drawn on display row `row` by a draw at row `ly`.
    pub open spec fn sprite_byte(self, ly: u8, row: int) -> u8 {
        self.memory[self.index + row - ly]
    }

    /// Whether display row `row` is covered by an `n`-row sprite at row `ly`.
    pub open spec fn covers(ly: u8, n: u8, row: int) -> bool {
        ly <= row < ly + n
    }

    /// The display after XOR-ing an `n`-row sprite from memory at `index`
    /// onto it with its top-left pixel at column `lx`, row `ly`.
    pub open spec fn drawn_display(self, lx: u8, ly: u8, n: u8) -> Seq<u64> {
        Seq::new(
            self.display.len(),
            |row: int|
                if Self::covers(ly, n, row) {
                    self.display[row] ^ sprite_row(self.sprite_byte(ly, row), lx)
                } else {
                    self.display[row]
                },
        )
    }

    /// Whether drawing that sprite turns off a pixel that was on.
    pub open spec fn draw_collides(self, lx: u8, ly: u8, n: u8) -> bool {
        exists|row: int|
            0 <= row < self.display.len() && Self::covers(ly, n, row)
                && #[trigger] (self.display[row] & sprite_row(self.sprite_byte(ly, row), lx)) != 0
    }

    /// The state after drawing the `n`-row sprite at the index register at
    /// `(Vx, Vy)`: the flag register tells whether a lit pixel was turned off.
    pub open spec fn drawn(self, x: u8, y: u8, n: u8) -> MachineState {
        let lx = self.reg(x);
        let ly = self.reg(y);
        MachineState { display: self.drawn_display(lx, ly, n), ..self }.set_reg(
            FLAG,
            if self.draw_collides(lx, ly, n) { 1 } else { 0 },
        )
    }

    /// Memory with registers `V0..=Vx` stored from the index register on.
    pub open spec fn stored_registers(self, x: u8) -> Seq<u8> {
        Seq::new(
            self.memory.len(),
            |a: int|
                if self.index <= a <= self.index + x {
                    self.registers[a - self.index]
                } else {
                    self.memory[a]
                },
        )
    }

    /// Registers with `V0..=Vx` loaded from memory at the index register on.
    pub open spec fn loaded_registers(self, x: u8) -> Seq<u8> {
        Seq::new(
            self.registers.len(),
            |r: int| if r <= x { self.memory[self.index + r] } else { self.registers[r] },
        )
    }
}

/// The fault, if any, that executing `ins` in state `s` reports.
pub open spec fn fault_spec(s: MachineState, ins: Instruction) -> Option<Fault> {
    if s.pc >= MEMORY_SIZE - 1 {
        Some(Fault::PcOutOfRange)
    } else {
        match ins {
            Instruction::Return => if s.stack.len() == 0 {
                Some(Fault::StackUnderflow)
            } else {
                None
            },
            Instruction::Draw { x, y, n } => if s.index + n > MEMORY_SIZE {
                Some(Fault::MemoryOutOfRange)
            } else {
                None
            },
            Instruction::SkipIfKey { x } => if s.reg(x) >= KEY_COUNT {
                Some(Fault::KeyOutOfRange)
            } else {
                None
            },
            Instruction::SkipIfNotKey { x } => if s.reg(x) >= KEY_COUNT {
                Some(Fault::KeyOutOfRange)
            } else {
                None
            },
            Instruction::AddIndex { x } => if s.index + s.reg(x) > usize::MAX {
                Some(Fault::IndexOverflow)
            } else {
                None
            },
            Instruction::StoreBcd { x } => if s.index + 3 > MEMORY_SIZE {
                Some(Fault::MemoryOutOfRange)
            } else {
                None
            },
            Instruction::StoreRegisters { x } => if s.index + x + 1 > MEMORY_SIZE {
                Some(Fault::MemoryOutOfRange)
            } else {
                None
            },
            Instruction::LoadRegisters { x } => if s.index + x + 1 > MEMORY_SIZE {
                Some(Fault::MemoryOutOfRange)
            } else {
                None
            },
            _ => None,
        }
    }
}

/// The state after executing `ins` in state `s`, where it reports no
/// fault; `random` is the byte that `Cxnn` masks.
pub open spec fn exec_spec(s: MachineState, ins: Instruction, random: u8) -> MachineState {
    match ins {
        Instruction::ClearScreen => MachineState {
            display: Seq::new(DISPLAY_ROWS as nat, |_i: int| 0u64),
            ..s
        }.advance(2),
        Instruction::Return => MachineState {
            pc: s.stack.last() as usize,
            stack: s.stack.drop_last(),
            ..s
        },
        Instruction::Jump { nnn } => MachineState { pc: nnn as usize, ..s },
        Instruction::Call { nnn } => MachineState {
            pc: nnn as usize,
            stack: s.stack.push((s.pc + 2) as u16),
            ..s
        },
        Instruction::SkipIfEqualImm { x, nn } => s.advance(if s.reg(x) == nn { 4 } else { 2 }),
        Instruction::SkipIfNotEqualImm { x, nn } => s.advance(if s.reg(x) != nn { 4 } else { 2 }),
        Instruction::SkipIfEqualReg { x, y } => s.advance(
            if s.reg(x) == s.reg(y) { 4 } else { 2 },
        ),
        Instruction::SkipIfNotEqualReg { x, y } => s.advance(
            if s.reg(x) != s.reg(y) { 4 } else { 2 },
        ),
        Instruction::SetImm { x, nn } => s.set_reg(x, nn).advance(2),
        Instruction::AddImm { x, nn } => s.set_reg(x, ((s.reg(x) + nn) % 256) as u8).advance(2),
        Instruction::Copy { x, y } => s.set_reg(x, s.reg(y)).advance(2),
        Instruction::Or { x, y } => s.set_reg(x, s.reg(x) | s.reg(y)).advance(2),
        Instruction::And { x, y } => s.set_reg(x, s.reg(x) & s.reg(y)).advance(2),
        Instruction::Xor { x, y } => s.set_reg(x, s.reg(x) ^ s.reg(y)).advance(2),
        Instruction::AddReg { x, y } => {
            let sum = s.reg(x) + s.reg(y);
            s.set_reg(x, (sum % 256) as u8).set_reg(FLAG, if sum >= 256 { 1 } else { 0 }).advance(2)
        },
        Instruction::SubReg { x, y } => if s.reg(x) > s.reg(y) {
            s.set_reg(FLAG, 1).advance(2)
        } else {
            s.set_reg(FLAG, 0).set_reg(x, ((s.reg(x) - s.reg(y)) % 256) as u8).advance(2)
        },
        Instruction::SubRegReversed { x, y } => if s.reg(y) > s.reg(x) {
            s.set_reg(FLAG, 1).advance(2)
        } else {
            s.set_reg(FLAG, 0).set_reg(x, ((s.reg(y) - s.reg(x)) % 256) as u8).advance(2)
        },
        Instruction::ShiftRight { x, y } => s.set_reg(FLAG, s.reg(x) % 2).set_reg(
            x,
            s.reg(x) / 2,
        ).advance(2),
        Instruction::ShiftLeft { x, y } => s.set_reg(FLAG, s.reg(x) / 128).set_reg(
            x,
            ((s.reg(x) * 2) % 256) as u8,
        ).advance(2),
        Instruction::SetIndex { nnn } => MachineState { index: nnn as usize, ..s }.advance(2),
        Instruction::JumpOffset { nnn } => MachineState { pc: (nnn + s.reg(0)) as usize, ..s },
        Instruction::Random { x, nn } => s.set_reg(x, nn & random).advance(2),
        Instruction::Draw { x, y, n } => s.drawn(x, y, n).advance(2),
        Instruction::SkipIfKey { x } => s.advance(if s.keys[s.reg(x) as int] { 4 } else { 2 }),
        Instruction::SkipIfNotKey { x } => s.advance(if !s.keys[s.reg(x) as int] { 4 } else { 2 }),
        Instruction::ReadDelay { x } => s.set_reg(x, s.delay_timer).advance(2),
        Instruction::WaitKey { x } => match first_pressed(s.keys) {
            Some(k) => s.set_reg(x, k as u8).advance(2),
            None => if s.key_wait_blocks {
                s
            } else {
                s.advance(2)
            },
        },
        Instruction::SetDelay { x } => MachineState { delay_timer: s.reg(x), ..s }.advance(2),
        Instruction::SetSound { x } => MachineState { sound_timer: s.reg(x), ..s }.advance(2),
        Instruction::AddIndex { x } => MachineState {
            index: (s.index + s.reg(x)) as usize,
            ..s
        }.advance(2),
        Instruction::FontSprite { x } => MachineState {
            index: font_address(x as int) as usize,
            ..s
        }.advance(2),
        Instruction::StoreBcd { x } => {
            let v = s.reg(x);
            MachineState {
                memory: s.memory.update(s.index as int, v / 100).update(
                    s.index + 1,
                    (v % 100) / 10,
                ).update(s.index + 2, v % 10),
                ..s
            }.advance(2)
        },
        Instruction::StoreRegisters { x } => MachineState {
            memory: s.stored_registers(x),
            ..s
        }.advance(2),
        Instruction::LoadRegisters { x } => MachineState {
            registers: s.loaded_registers(x),
            ..s
        }.advance(2),
        Instruction::Unknown { word } => s.advance(2),
    }
}

/// Executing the instruction that `word` encodes in state `s`: the fault it
/// reports, or the next state.
pub open spec fn run_spec(s: MachineState, word: u16, random: u8) -> Result<MachineState, Fault> {
    match fault_spec(s, decode_spec(word)) {
        Some(e) => Err(e),
        None => Ok(exec_spec(s, decode_spec(word), random)),
    }
}

/// The big-endian instruction word at the program counter.
pub open spec fn fetch_spec(s: MachineState) -> u16 {
    (s.memory[s.pc as int] as int * 256 + s.memory[s.pc + 1]) as u16
}

/// One step of the machine: both timers count down, then the instruction at
/// the program counter is executed. Gives the next state and the word
/// executed, or the fault reported (the state then stays as it was).
pub open spec fn step_spec(s: MachineState, random: u8) -> Result<(MachineState, u16), Fault> {
    if s.pc >= MEMORY_SIZE - 1 {
        Err(Fault::PcOutOfRange)
    } else {
        match run_spec(s.tick_timers(), fetch_spec(s), random) {
            Err(e) => Err(e),
            Ok(t) => Ok((t, fetch_spec(s))),
        }
    }
}

} // verus!
