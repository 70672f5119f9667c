//! Laws that relate instructions to each other, proved over the model.

use vstd::prelude::*;
use crate::instruction::{Instruction, decode_spec, nibbles_of};
use crate::machine::{MachineState, Fault, run_spec, sprite_row, MEMORY_SIZE, DISPLAY_ROWS, FLAG};

verus! {

/// `8xy4` with `x` other than the flag register stores `(Vx + Vy) mod 256`
/// in `Vx` and sets the flag register to 1 exactly when `Vx + Vy >= 256`.
pub proof fn lemma_add_registers_carry(s: MachineState, x: u8, y: u8, random: u8)
    requires
        s.wf(),
        x < FLAG,
        y < 16,
        s.pc < MEMORY_SIZE - 1,
    ensures
        ({
            let word = (0x8004 + x * 256 + y * 16) as u16;
            let sum = s.reg(x) + s.reg(y);
            &&& run_spec(s, word, random) is Ok
            &&& run_spec(s, word, random)->Ok_0.reg(x) == sum % 256
            &&& run_spec(s, word, random)->Ok_0.reg(FLAG) == (if sum >= 256 { 1u8 } else { 0u8 })
        }),
{
    let word = (0x8004 + x * 256 + y * 16) as u16;
    assert(decode_spec(word) == Instruction::AddReg { x, y });
}

/// `6xnn` followed by a read of `Vx` yields `nn`.
pub proof fn lemma_set_then_read(s: MachineState, x: u8, nn: u8, random: u8)
    requires
        s.wf(),
        x < 16,
        s.pc < MEMORY_SIZE - 1,
    ensures
        ({
            let word = (0x6000 + x * 256 + nn) as u16;
            &&& run_spec(s, word, random) is Ok
            &&& run_spec(s, word, random)->Ok_0.reg(x) == nn
        }),
{
    let word = (0x6000 + x * 256 + nn) as u16;
    assert(decode_spec(word) == Instruction::SetImm { x, nn });
}

/// `00E0` leaves every display row zero.
pub proof fn lemma_clear_screen(s: MachineState, random: u8)
    requires
        s.wf(),
        s.pc < MEMORY_SIZE - 1,
    ensures
        run_spec(s, 0x00E0, random) is Ok,
        run_spec(s, 0x00E0, random)->Ok_0.display.len() == DISPLAY_ROWS,
        forall|row: int|
            0 <= row < DISPLAY_ROWS ==> #[trigger] run_spec(s, 0x00E0, random)->Ok_0.display[row]
                == 0,
{
    assert(decode_spec(0x00E0) == Instruction::ClearScreen);
}

proof fn lemma_xor_twice(a: u64, b: u64)
    ensures
        (a ^ b) ^ b == a,
{
    assert((a ^ b) ^ b == a) by (bit_vector);
}

proof fn lemma_xor_clears(a: u64, b: u64)
    requires
        b & !a != 0,
    ensures
        (a ^ b) & b != 0,
{
    assert((a ^ b) & b != 0) by (bit_vector)
        requires
            b & !a != 0,
    ;
}

proof fn lemma_run_draw(s: MachineState, x: u8, y: u8, n: u8, random: u8)
    requires
        s.wf(),
        x < 16,
        y < 16,
        n < 16,
        s.pc < MEMORY_SIZE - 1,
        s.index + n <= MEMORY_SIZE,
    ensures
        run_spec(s, (0xD000 + x * 256 + y * 16 + n) as u16, random) == Ok::<MachineState, Fault>(
            s.drawn(x, y, n).advance(2),
        ),
{
    let w = (0xD000 + x * 256 + y * 16 + n) as u16;
    assert(w == 0xD000 + x * 256 + y * 16 + n);
    assert(w / 4096 == 13 && (w / 256) % 16 == x && (w / 16) % 16 == y && w % 16 == n)
        by (nonlinear_arith)
        requires
            w == 0xD000 + x * 256 + y * 16 + n,
            x < 16,
            y < 16,
            n < 16,
    ;
    assert(nibbles_of(w) == (13u8, x, y, n));
    assert(decode_spec(w) == Instruction::Draw { x, y, n });
}

/// Drawing the same sprite twice at the same place, with neither coordinate
/// held in the flag register, restores the display; where the first draw
/// turned on some pixel, the second turns it off again and sets the flag
/// register to 1.
pub proof fn lemma_draw_twice(s: MachineState, x: u8, y: u8, n: u8, random: u8)
    requires
        s.wf(),
        x < FLAG,
        y < FLAG,
        n < 16,
        s.pc + 2 < MEMORY_SIZE - 1,
        s.index + n <= MEMORY_SIZE,
    ensures
        ({
            let word = (0xD000 + x * 256 + y * 16 + n) as u16;
            let first = run_spec(s, word, random);
            let second = run_spec(first->Ok_0, word, random);
            let lx = s.reg(x);
            let ly = s.reg(y);
            &&& first is Ok
            &&& second is Ok
            &&& second->Ok_0.display == s.display
            &&& (exists|row: int|
                0 <= row < DISPLAY_ROWS && MachineState::covers(ly, n, row)
                    && #[trigger] (sprite_row(s.sprite_byte(ly, row), lx) & !s.display[row]) != 0)
                ==> second->Ok_0.reg(FLAG) == 1
        }),
{
    lemma_run_draw(s, x, y, n, random);
    let s1 = s.drawn(x, y, n).advance(2);
    lemma_run_draw(s1, x, y, n, random);
    let s2 = s1.drawn(x, y, n).advance(2);
    let lx = s.reg(x);
    let ly = s.reg(y);
    assert(s1.reg(x) == lx && s1.reg(y) == ly);
    assert forall|row: int| 0 <= row < DISPLAY_ROWS implies s2.display[row] == s.display[row] by {
        if MachineState::covers(ly, n, row) {
            lemma_xor_twice(s.display[row], sprite_row(s.sprite_byte(ly, row), lx));
        }
    }
    assert(s2.display =~= s.display);
    if exists|row: int|
        0 <= row < DISPLAY_ROWS && MachineState::covers(ly, n, row)
            && #[trigger] (sprite_row(s.sprite_byte(ly, row), lx) & !s.display[row]) != 0 {
        let row = choose|row: int|
            0 <= row < DISPLAY_ROWS && MachineState::covers(ly, n, row)
                && #[trigger] (sprite_row(s.sprite_byte(ly, row), lx) & !s.display[row]) != 0;
        let b = sprite_row(s.sprite_byte(ly, row), lx);
        lemma_xor_clears(s.display[row], b);
        assert(s1.sprite_byte(ly, row) == s.sprite_byte(ly, row));
        assert((s1.display[row] & sprite_row(s1.sprite_byte(ly, row), lx)) != 0);
        assert(s1.draw_collides(lx, ly, n));
    }
}

/// `2nnn` followed by `00EE` at `nnn` returns to the address after the
/// call, with the call stack as it was.
pub proof fn lemma_call_return(s: MachineState, nnn: u16, random: u8)
    requires
        s.wf(),
        nnn < MEMORY_SIZE - 1,
        s.pc < MEMORY_SIZE - 1,
    ensures
        ({
            let call = run_spec(s, (0x2000 + nnn) as u16, random);
            let ret = run_spec(call->Ok_0, 0x00EE, random);
            &&& call is Ok
            &&& ret is Ok
            &&& ret->Ok_0.pc == s.pc + 2
            &&& ret->Ok_0.stack == s.stack
        }),
{
    assert(decode_spec((0x2000 + nnn) as u16) == Instruction::Call { nnn });
    assert(decode_spec(0x00EE) == Instruction::Return);
    let s1 = run_spec(s, (0x2000 + nnn) as u16, random)->Ok_0;
    assert(s1.stack.drop_last() =~= s.stack);
}

/// `Fx55` followed by `Fx65` with the same `x` and index register gives
/// back the registers as they were.
pub proof fn lemma_store_load_registers(s: MachineState, x: u8, random: u8)
    requires
        s.wf(),
        x < 16,
        s.pc + 2 < MEMORY_SIZE - 1,
        s.index + x + 1 <= MEMORY_SIZE,
    ensures
        ({
            let store = run_spec(s, (0xF055 + x * 256) as u16, random);
            let load = run_spec(store->Ok_0, (0xF065 + x * 256) as u16, random);
            &&& store is Ok
            &&& load is Ok
            &&& load->Ok_0.registers == s.registers
        }),
{
    assert(decode_spec((0xF055 + x * 256) as u16) == Instruction::StoreRegisters { x });
    assert(decode_spec((0xF065 + x * 256) as u16) == Instruction::LoadRegisters { x });
    let s1 = run_spec(s, (0xF055 + x * 256) as u16, random)->Ok_0;
    let s2 = run_spec(s1, (0xF065 + x * 256) as u16, random)->Ok_0;
    assert(s2.registers =~= s.registers);
}

} // verus!
