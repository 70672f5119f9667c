//! The executable machine.

use vstd::prelude::*;
use crate::instruction::{Instruction, decode};
use crate::machine::{
    MachineState, Fault, initial_state, font, loaded, sprite_row, first_pressed,
    first_pressed_from, fault_spec, exec_spec, run_spec, fetch_spec, step_spec, MEMORY_SIZE,
    REGISTER_COUNT, KEY_COUNT, DISPLAY_ROWS, PROGRAM_START, FLAG, FONT_SPRITE_LEN,
};

verus! {

/// A CHIP-8 machine: registers, memory, display, keys, call stack and timers.
pub struct Computer {
    registers: Vec<u8>,
    pc: usize,
    register_i: usize,
    delay_timer: u8,
    sound_timer: u8,
    memory: Vec<u8>,
    keys: Vec<bool>,
    pixels: Vec<u64>,
    stack: Vec<u16>,
    key_wait_blocks: bool,
}

impl View for Computer {
    type V = MachineState;

    closed spec fn view(&self) -> MachineState {
        MachineState {
            registers: self.registers@,
            index: self.register_i,
            pc: self.pc,
            delay_timer: self.delay_timer,
            sound_timer: self.sound_timer,
            memory: self.memory@,
            keys: self.keys@,
            display: self.pixels@,
            stack: self.stack@,
            key_wait_blocks: self.key_wait_blocks,
        }
    }
}

/// Relies on `rand::random::<u8>`, a byte from the thread-local generator;
/// nothing is known of its value.
#[verifier::external_body]
fn random_byte() -> (r: u8) {
    rand::random::<u8>()
}

/// A vector of `n` copies of `v`.
fn filled<T: Copy>(v: T, n: usize) -> (r: Vec<T>)
    ensures
        r@ == Seq::new(n as nat, |_i: int| v),
{
    let mut r: Vec<T> = Vec::new();
    while r.len() < n
        invariant
            r.len() <= n,
            forall|i: int| 0 <= i < r.len() ==> r@[i] == v,
        decreases n - r.len(),
    {
        r.push(v);
    }
    assert(r@ =~= Seq::new(n as nat, |_i: int| v));
    r
}

impl Computer {
    /// All components have their architectural sizes.
    pub open spec fn wf(&self) -> bool {
        self@.wf()
    }

    /// A fresh machine: the font sprites at the start of memory, the program
    /// counter at the program start, everything else zero.
    pub fn new() -> (r: Computer)
        ensures
            r.wf(),
            r@ == initial_state(),
    {
        let mut memory: Vec<u8> = vec![
            0xF0, 0x90, 0x90, 0x90, 0xF0, 0x20, 0x60, 0x20, 0x20, 0x70,
            0xF0, 0x10, 0xF0, 0x80, 0xF0, 0xF0, 0x10, 0xF0, 0x10, 0xF0,
            0x90, 0x90, 0xF0, 0x10, 0x10, 0xF0, 0x80, 0xF0, 0x10, 0xF0,
            0xF0, 0x80, 0xF0, 0x90, 0xF0, 0xF0, 0x10, 0x20, 0x40, 0x40,
            0xF0, 0x90, 0xF0, 0x90, 0xF0, 0xF0, 0x90, 0xF0, 0x10, 0xF0,
            0xF0, 0x90, 0xF0, 0x90, 0x90, 0xE0, 0x90, 0xE0, 0x90, 0xE0,
            0xF0, 0x80, 0x80, 0x80, 0xF0, 0xE0, 0x90, 0x90, 0x90, 0xE0,
            0xF0, 0x80, 0xF0, 0x80, 0xF0, 0xF0, 0x80, 0xF0, 0x80, 0x80,
        ];
        assert(memory@ =~= font());
        while memory.len() < MEMORY_SIZE
            invariant
                font().len() <= memory.len() <= MEMORY_SIZE,
                forall|a: int| 0 <= a < memory.len() ==> memory@[a] == (if a < font().len() {
                    font()[a]
                } else {
                    0u8
                }),
            decreases MEMORY_SIZE - memory.len(),
        {
            memory.push(0);
        }
        let r = Computer {
            registers: filled(0u8, REGISTER_COUNT),
            pc: PROGRAM_START,
            register_i: 0,
            delay_timer: 0,
            sound_timer: 0,
            memory,
            keys: filled(false, KEY_COUNT),
            pixels: filled(0u64, DISPLAY_ROWS),
            stack: Vec::new(),
            key_wait_blocks: false,
        };
        assert(r@ =~= initial_state());
        r
    }

    /// The register file, `V0` to `VF`.
    pub fn registers(&self) -> (r: &[u8])
        ensures
            r@ == self@.registers,
    {
        self.registers.as_slice()
    }

    /// Marks key `key` as pressed. Keys are never released by the machine.
    pub fn keypress(&mut self, key: usize)
        requires
            old(self).wf(),
            key < KEY_COUNT,
        ensures
            final(self).wf(),
            final(self)@ == (MachineState { keys: old(self)@.keys.update(key as int, true), ..old(self)@ }),
    {
        self.keys.set(key, true);
    }

    /// Copies `data` into memory from the program start on; bytes that would
    /// fall past the end of memory are dropped.
    pub fn load(&mut self, data: &[u8])
        requires
            old(self).wf(),
        ensures
            final(self).wf(),
            final(self)@ == (MachineState { memory: loaded(old(self)@.memory, data@), ..old(self)@ }),
    {
        let mut i: usize = 0;
        while i < data.len() && i < MEMORY_SIZE - PROGRAM_START
            invariant
                self.wf(),
                i <= data.len(),
                i <= MEMORY_SIZE - PROGRAM_START,
                self@ == (MachineState { memory: self@.memory, ..old(self)@ }),
                forall|a: int|
                    0 <= a < MEMORY_SIZE ==> self@.memory[a] == (if PROGRAM_START <= a
                        < PROGRAM_START + i {
                        data@[a - PROGRAM_START]
                    } else {
                        old(self)@.memory[a]
                    }),
            decreases data.len() - i,
        {
            self.memory.set(PROGRAM_START + i, data[i]);
            i = i + 1;
        }
        assert(self@.memory =~= loaded(old(self)@.memory, data@));
        assert(self@ =~= (MachineState { memory: loaded(old(self)@.memory, data@), ..old(self)@ }));
    }

    /// The program counter.
    pub fn pc(&self) -> (r: usize)
        ensures
            r == self@.pc,
    {
        self.pc
    }

    /// The display, one 64-bit word per row, the leftmost pixel in the high
    /// bit.
    pub fn pixels(&self) -> (r: &[u64])
        ensures
            r@ == self@.display,
    {
        self.pixels.as_slice()
    }

    /// The whole memory.
    pub fn memory(&self) -> (r: &[u8])
        ensures
            r@ == self@.memory,
    {
        self.memory.as_slice()
    }

    /// The index register.
    pub fn i(&self) -> (r: usize)
        ensures
            r == self@.index,
    {
        self.register_i
    }

    /// The delay timer.
    pub fn delay_timer(&self) -> (r: u8)
        ensures
            r == self@.delay_timer,
    {
        self.delay_timer
    }

    /// The sound timer.
    pub fn sound_timer(&self) -> (r: u8)
        ensures
            r == self@.sound_timer,
    {
        self.sound_timer
    }

    /// Chooses what `Fx0A` does while no key is pressed: with `blocks` it
    /// leaves the program counter on itself, so that the machine waits;
    /// without, which is how a fresh machine starts, it moves on.
    pub fn set_key_wait_blocks(&mut self, blocks: bool)
        ensures
            final(self)@ == (MachineState { key_wait_blocks: blocks, ..old(self)@ }),
    {
        self.key_wait_blocks = blocks;
    }

    /// Whether `Fx0A` waits for a key.
    pub fn key_wait_blocks(&self) -> (r: bool)
        ensures
            r == self@.key_wait_blocks,
    {
        self.key_wait_blocks
    }

    /// The return addresses on the call stack, the most recent last.
    pub fn stack(&self) -> (r: &[u16])
        ensures
            r@ == self@.stack,
    {
        self.stack.as_slice()
    }
}


/// The display row for sprite byte `byte` drawn with its high bit at column
/// `col`.
pub fn sprite_row_of(byte: u8, col: u8) -> (r: u64)
    ensures
        r == sprite_row(byte, col),
{
    if col <= 56 {
        (byte as u64) << ((56 - col) as u64)
    } else if col < 64 {
        (byte as u64) >> ((col - 56) as u64)
    } else {
        0
    }
}

impl Computer {
    fn set_register(&mut self, r: u8, v: u8)
        requires
            old(self).wf(),
            r < REGISTER_COUNT,
        ensures
            final(self).wf(),
            final(self)@ == old(self)@.set_reg(r, v),
    {
        self.registers.set(r as usize, v);
        assert(self@ =~= old(self)@.set_reg(r, v));
    }

    /// XORs the `n`-row sprite at the index register onto the display at
    /// `(Vx, Vy)` and sets the flag register to whether a lit pixel was
    /// turned off.
    fn draw(&mut self, x: u8, y: u8, n: u8)
        requires
            old(self).wf(),
            x < REGISTER_COUNT,
            y < REGISTER_COUNT,
            old(self)@.index + n <= MEMORY_SIZE,
        ensures
            final(self).wf(),
            final(self)@ == old(self)@.drawn(x, y, n),
    {
        let ghost s = self@;
        let lx = self.registers[x as usize];
        let ly = self.registers[y as usize];
        let mut collided = false;
        let mut row: usize = 0;
        while row < n as usize && (ly as usize) + row < DISPLAY_ROWS
            invariant
                self.wf(),
                s.wf(),
                s.index + n <= MEMORY_SIZE,
                lx == s.reg(x),
                ly == s.reg(y),
                row <= n,
                self@ == (MachineState { display: self@.display, ..s }),
                forall|r: int|
                    0 <= r < DISPLAY_ROWS ==> self@.display[r] == (if ly <= r < ly + row {
                        s.display[r] ^ sprite_row(s.sprite_byte(ly, r), lx)
                    } else {
                        s.display[r]
                    }),
                collided == exists|r: int|
                    0 <= r < DISPLAY_ROWS && ly <= r < ly + row
                        && #[trigger] (s.display[r] & sprite_row(s.sprite_byte(ly, r), lx)) != 0,
            decreases n - row,
        {
            let target = ly as usize + row;
            let bits = sprite_row_of(self.memory[self.register_i + row], lx);
            let current = self.pixels[target];
            assert(s.sprite_byte(ly, target as int) == self.memory@[self.register_i + row]);
            if current & bits != 0 {
                collided = true;
            }
            self.pixels.set(target, current ^ bits);
            row = row + 1;
        }
        assert(self@.display =~= s.drawn_display(lx, ly, n));
        assert(collided == s.draw_collides(lx, ly, n));
        self.set_register(FLAG, if collided { 1 } else { 0 });
        assert(self@ =~= (MachineState { display: s.drawn_display(lx, ly, n), ..s }).set_reg(
            FLAG,
            if s.draw_collides(lx, ly, n) { 1 } else { 0 },
        ));
    }

    /// Stores `V0..=Vx` into memory from the index register on.
    fn store_registers(&mut self, x: u8)
        requires
            old(self).wf(),
            x < REGISTER_COUNT,
            old(self)@.index + x + 1 <= MEMORY_SIZE,
        ensures
            final(self).wf(),
            final(self)@ == (MachineState { memory: old(self)@.stored_registers(x), ..old(self)@ }),
    {
        let ghost s = self@;
        let mut offset: usize = 0;
        while offset <= x as usize
            invariant
                self.wf(),
                s.wf(),
                x < REGISTER_COUNT,
                s.index + x + 1 <= MEMORY_SIZE,
                offset <= x + 1,
                self@ == (MachineState { memory: self@.memory, ..s }),
                forall|a: int|
                    0 <= a < MEMORY_SIZE ==> self@.memory[a] == (if s.index <= a < s.index + offset {
                        s.registers[a - s.index]
                    } else {
                        s.memory[a]
                    }),
            decreases x + 1 - offset,
        {
            let v = self.registers[offset];
            self.memory.set(self.register_i + offset, v);
            offset = offset + 1;
        }
        assert(self@.memory =~= s.stored_registers(x));
        assert(self@ =~= (MachineState { memory: s.stored_registers(x), ..s }));
    }

    /// Loads `V0..=Vx` from memory from the index register on.
    fn load_registers(&mut self, x: u8)
        requires
            old(self).wf(),
            x < REGISTER_COUNT,
            old(self)@.index + x + 1 <= MEMORY_SIZE,
        ensures
            final(self).wf(),
            final(self)@ == (MachineState {
                registers: old(self)@.loaded_registers(x),
                ..old(self)@
            }),
    {
        let ghost s = self@;
        let mut offset: usize = 0;
        while offset <= x as usize
            invariant
                self.wf(),
                s.wf(),
                x < REGISTER_COUNT,
                s.index + x + 1 <= MEMORY_SIZE,
                offset <= x + 1,
                self@ == (MachineState { registers: self@.registers, ..s }),
                forall|r: int|
                    0 <= r < REGISTER_COUNT ==> self@.registers[r] == (if r < offset {
                        s.memory[s.index + r]
                    } else {
                        s.registers[r]
                    }),
            decreases x + 1 - offset,
        {
            let v = self.memory[self.register_i + offset];
            self.registers.set(offset, v);
            offset = offset + 1;
        }
        assert(self@.registers =~= s.loaded_registers(x));
        assert(self@ =~= (MachineState { registers: s.loaded_registers(x), ..s }));
    }

    /// The lowest index of a pressed key, if any.
    fn first_pressed_key(&self) -> (r: Option<u8>)
        requires
            self.wf(),
        ensures
            match first_pressed(self@.keys) {
                Some(k) => r == Some(k as u8) && k < KEY_COUNT,
                None => r.is_none(),
            },
    {
        let mut i: usize = 0;
        while i < KEY_COUNT
            invariant
                self.wf(),
                i <= KEY_COUNT,
                first_pressed(self@.keys) == first_pressed_from(self@.keys, i as int),
            decreases KEY_COUNT - i,
        {
            if self.keys[i] {
                return Some(i as u8);
            }
            i = i + 1;
        }
        None
    }
}


impl Computer {
    fn advance(&mut self, k: usize)
        requires
            old(self).pc + k <= usize::MAX,
        ensures
            final(self)@ == old(self)@.advance(k as int),
            final(self).wf() == old(self).wf(),
    {
        self.pc = self.pc + k;
    }

    /// The fault that executing `ins` now would report, if any.
    pub fn check(&self, ins: Instruction) -> (r: Option<Fault>)
        requires
            self.wf(),
            ins.wf(),
        ensures
            r == fault_spec(self@, ins),
    {
        if self.pc >= MEMORY_SIZE - 1 {
            return Some(Fault::PcOutOfRange);
        }
        match ins {
            Instruction::Return => if self.stack.len() == 0 {
                Some(Fault::StackUnderflow)
            } else {
                None
            },
            Instruction::Draw { x, y, n } => if self.register_i > MEMORY_SIZE - n as usize {
                Some(Fault::MemoryOutOfRange)
            } else {
                None
            },
            Instruction::SkipIfKey { x } => if self.registers[x as usize] as usize >= KEY_COUNT {
                Some(Fault::KeyOutOfRange)
            } else {
                None
            },
            Instruction::SkipIfNotKey { x } => if self.registers[x as usize] as usize
                >= KEY_COUNT {
                Some(Fault::KeyOutOfRange)
            } else {
                None
            },
            Instruction::AddIndex { x } => if self.register_i > usize::MAX
                - self.registers[x as usize] as usize {
                Some(Fault::IndexOverflow)
            } else {
                None
            },
            Instruction::StoreBcd { x } => if self.register_i > MEMORY_SIZE - 3 {
                Some(Fault::MemoryOutOfRange)
            } else {
                None
            },
            Instruction::StoreRegisters { x } => if self.register_i > MEMORY_SIZE - 1
                - x as usize {
                Some(Fault::MemoryOutOfRange)
            } else {
                None
            },
            Instruction::LoadRegisters { x } => if self.register_i > MEMORY_SIZE - 1
                - x as usize {
                Some(Fault::MemoryOutOfRange)
            } else {
                None
            },
            _ => None,
        }
    }

    /// Executes `ins`, which reports no fault in the current state; `random`
    /// is the byte that `Cxnn` masks.
    pub fn execute(&mut self, ins: Instruction, random: u8)
        requires
            old(self).wf(),
            ins.wf(),
            fault_spec(old(self)@, ins).is_none(),
        ensures
            final(self).wf(),
            final(self)@ == exec_spec(old(self)@, ins, random),
    {
        let ghost s = self@;
        match ins {
            Instruction::ClearScreen => {
                self.pixels = filled(0u64, DISPLAY_ROWS);
                self.advance(2);
            },
            Instruction::Return => {
                let address = self.stack.pop().unwrap();
                self.pc = address as usize;
            },
            Instruction::Jump { nnn } => {
                self.pc = nnn as usize;
            },
            Instruction::Call { nnn } => {
                self.stack.push((self.pc + 2) as u16);
                self.pc = nnn as usize;
            },
            Instruction::SkipIfEqualImm { x, nn } => {
                let k: usize = if self.registers[x as usize] == nn { 4 } else { 2 };
                self.advance(k);
            },
            Instruction::SkipIfNotEqualImm { x, nn } => {
                let k: usize = if self.registers[x as usize] != nn { 4 } else { 2 };
                self.advance(k);
            },
            Instruction::SkipIfEqualReg { x, y } => {
                let k: usize = if self.registers[x as usize] == self.registers[y as usize] {
                    4
                } else {
                    2
                };
                self.advance(k);
            },
            Instruction::SkipIfNotEqualReg { x, y } => {
                let k: usize = if self.registers[x as usize] != self.registers[y as usize] {
                    4
                } else {
                    2
                };
                self.advance(k);
            },
            Instruction::SetImm { x, nn } => {
                self.set_register(x, nn);
                self.advance(2);
            },
            Instruction::AddImm { x, nn } => {
                let v = ((self.registers[x as usize] as u16 + nn as u16) % 256) as u8;
                self.set_register(x, v);
                self.advance(2);
            },
            Instruction::Copy { x, y } => {
                let v = self.registers[y as usize];
                self.set_register(x, v);
                self.advance(2);
            },
            Instruction::Or { x, y } => {
                let v = self.registers[x as usize] | self.registers[y as usize];
                self.set_register(x, v);
                self.advance(2);
            },
            Instruction::And { x, y } => {
                let v = self.registers[x as usize] & self.registers[y as usize];
                self.set_register(x, v);
                self.advance(2);
            },
            Instruction::Xor { x, y } => {
                let v = self.registers[x as usize] ^ self.registers[y as usize];
                self.set_register(x, v);
                self.advance(2);
            },
            Instruction::AddReg { x, y } => {
                let sum = self.registers[x as usize] as u16 + self.registers[y as usize] as u16;
                self.set_register(x, (sum % 256) as u8);
                self.set_register(FLAG, if sum >= 256 { 1 } else { 0 });
                self.advance(2);
            },
            Instruction::SubReg { x, y } => {
                let vx = self.registers[x as usize];
                let vy = self.registers[y as usize];
                if vx > vy {
                    self.set_register(FLAG, 1);
                } else {
                    self.set_register(FLAG, 0);
                    self.set_register(x, vx.wrapping_sub(vy));
                }
                self.advance(2);
            },
            Instruction::SubRegReversed { x, y } => {
                let vx = self.registers[x as usize];
                let vy = self.registers[y as usize];
                if vy > vx {
                    self.set_register(FLAG, 1);
                } else {
                    self.set_register(FLAG, 0);
                    self.set_register(x, vy.wrapping_sub(vx));
                }
                self.advance(2);
            },
            Instruction::ShiftRight { x, y } => {
                let vx = self.registers[x as usize];
                self.set_register(FLAG, vx % 2);
                self.set_register(x, vx / 2);
                self.advance(2);
            },
            Instruction::ShiftLeft { x, y } => {
                let vx = self.registers[x as usize];
                self.set_register(FLAG, vx / 128);
                self.set_register(x, ((vx as u16 * 2) % 256) as u8);
                self.advance(2);
            },
            Instruction::SetIndex { nnn } => {
                self.register_i = nnn as usize;
                self.advance(2);
            },
            Instruction::JumpOffset { nnn } => {
                self.pc = nnn as usize + self.registers[0] as usize;
            },
            Instruction::Random { x, nn } => {
                self.set_register(x, nn & random);
                self.advance(2);
            },
            Instruction::Draw { x, y, n } => {
                self.draw(x, y, n);
                self.advance(2);
            },
            Instruction::SkipIfKey { x } => {
                let k: usize = if self.keys[self.registers[x as usize] as usize] {
                    4
                } else {
                    2
                };
                self.advance(k);
            },
            Instruction::SkipIfNotKey { x } => {
                let k: usize = if !self.keys[self.registers[x as usize] as usize] {
                    4
                } else {
                    2
                };
                self.advance(k);
            },
            Instruction::ReadDelay { x } => {
                let v = self.delay_timer;
                self.set_register(x, v);
                self.advance(2);
            },
            Instruction::WaitKey { x } => {
                match self.first_pressed_key() {
                    Some(k) => {
                        self.set_register(x, k);
                        self.advance(2);
                    },
                    None => if !self.key_wait_blocks {
                        self.advance(2);
                    },
                }
            },
            Instruction::SetDelay { x } => {
                self.delay_timer = self.registers[x as usize];
                self.advance(2);
            },
            Instruction::SetSound { x } => {
                self.sound_timer = self.registers[x as usize];
                self.advance(2);
            },
            Instruction::AddIndex { x } => {
                self.register_i = self.register_i + self.registers[x as usize] as usize;
                self.advance(2);
            },
            Instruction::FontSprite { x } => {
                self.register_i = x as usize * FONT_SPRITE_LEN;
                self.advance(2);
            },
            Instruction::StoreBcd { x } => {
                let v = self.registers[x as usize];
                let i = self.register_i;
                self.memory.set(i, v / 100);
                self.memory.set(i + 1, (v % 100) / 10);
                self.memory.set(i + 2, v % 10);
                self.advance(2);
            },
            Instruction::StoreRegisters { x } => {
                self.store_registers(x);
                self.advance(2);
            },
            Instruction::LoadRegisters { x } => {
                self.load_registers(x);
                self.advance(2);
            },
            Instruction::Unknown { word } => {
                self.advance(2);
            },
        }
        assert(self@ =~= exec_spec(s, ins, random));
    }

    /// Decodes and executes one instruction word, without touching the
    /// timers. A fault leaves the machine unchanged; `random` is the byte
    /// that `Cxnn` masks.
    pub fn run_instruction(&mut self, word: u16, random: u8) -> (r: Result<(), Fault>)
        requires
            old(self).wf(),
        ensures
            final(self).wf(),
            match run_spec(old(self)@, word, random) {
                Ok(t) => r == Ok::<(), Fault>(()) && final(self)@ == t,
                Err(e) => r == Err::<(), Fault>(e) && final(self)@ == old(self)@,
            },
    {
        let ins = decode(word);
        match self.check(ins) {
            Some(e) => Err(e),
            None => {
                self.execute(ins, random);
                Ok(())
            },
        }
    }

    /// One step, with `random` as the byte that `Cxnn` masks: both timers
    /// count down, then the instruction at the program counter runs. Returns
    /// the word executed, or the fault, in which case the machine is left
    /// unchanged.
    pub fn tick_with(&mut self, random: u8) -> (r: Result<u16, Fault>)
        requires
            old(self).wf(),
        ensures
            final(self).wf(),
            match step_spec(old(self)@, random) {
                Ok((t, w)) => r == Ok::<u16, Fault>(w) && final(self)@ == t,
                Err(e) => r == Err::<u16, Fault>(e) && final(self)@ == old(self)@,
            },
    {
        if self.pc >= MEMORY_SIZE - 1 {
            return Err(Fault::PcOutOfRange);
        }
        let word = (self.memory[self.pc] as u16) * 256 + self.memory[self.pc + 1] as u16;
        assert(word == fetch_spec(self@));
        let ins = decode(word);
        let ghost s = self@;
        assert(fault_spec(s.tick_timers(), ins) == fault_spec(s, ins));
        if let Some(e) = self.check(ins) {
            return Err(e);
        }
        if self.delay_timer > 0 {
            self.delay_timer = self.delay_timer - 1;
        }
        if self.sound_timer > 0 {
            self.sound_timer = self.sound_timer - 1;
        }
        assert(self@ =~= s.tick_timers());
        self.execute(ins, random);
        Ok(word)
    }

    /// One step, drawing the byte that `Cxnn` masks from the thread-local
    /// random generator: both timers count down, then the instruction at the
    /// program counter runs. Returns the word executed, or the fault, in
    /// which case the machine is left unchanged.
    pub fn tick(&mut self) -> (r: Result<u16, Fault>)
        requires
            old(self).wf(),
        ensures
            final(self).wf(),
            exists|random: u8|
                match #[trigger] step_spec(old(self)@, random) {
                    Ok((t, w)) => r == Ok::<u16, Fault>(w) && final(self)@ == t,
                    Err(e) => r == Err::<u16, Fault>(e) && final(self)@ == old(self)@,
                },
    {
        let random = random_byte();
        self.tick_with(random)
    }
}

} // verus!
