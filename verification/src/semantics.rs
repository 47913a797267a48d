//! What each instruction does to the machine, and what one cycle does.

use vstd::prelude::*;
use crate::display::{sprite_rows, Sprite};
use crate::error::Chip8Error;
use crate::font::glyph_address;
use crate::model::{first_down, State};
use crate::opcode::{decode_spec, Instruction};

verus! {

/// A flag as a register value.
pub open spec fn flag(b: bool) -> u8 {
    if b {
        1
    } else {
        0
    }
}

/// The sprite that a draw instruction with operands `x`, `y` and `rows`
/// places on the display: `rows` bytes from the index address, at column Vx
/// modulo 64 and row Vy modulo 32.
pub open spec fn sprite_of(s: State, x: u8, y: u8, rows: u8) -> Sprite {
    Sprite {
        rows: sprite_rows(s.ram, s.index as int, rows as int),
        x: s.v[x as int] as int % 64,
        y: s.v[y as int] as int % 32,
        wraps: s.quirks.sprite_wraps,
    }
}

/// The register that a shift reads.
pub open spec fn shift_source(s: State, x: u8, y: u8) -> u8 {
    if s.quirks.shift_reads_vy {
        s.v[y as int]
    } else {
        s.v[x as int]
    }
}

/// Why the instruction cannot be executed in state `s`, if it cannot: a
/// return on an empty stack, a call on a full one, or an access to memory
/// beyond its last address.
pub open spec fn fault(s: State, ins: Instruction) -> Option<Chip8Error> {
    match ins {
        Instruction::Return => if s.sp == 0 {
            Some(Chip8Error::StackUnderflow)
        } else {
            None
        },
        Instruction::Call { .. } => if s.sp >= 16 {
            Some(Chip8Error::StackOverflow)
        } else {
            None
        },
        Instruction::Draw { rows, .. } => if rows > 0 && s.index + rows > 4096 {
            Some(Chip8Error::AddressOutOfRange)
        } else {
            None
        },
        Instruction::StoreBcd { .. } => if s.index + 3 > 4096 {
            Some(Chip8Error::AddressOutOfRange)
        } else {
            None
        },
        Instruction::StoreRegs { x } | Instruction::LoadRegs { x } => if s.index + x + 1 > 4096 {
            Some(Chip8Error::AddressOutOfRange)
        } else {
            None
        },
        _ => None,
    }
}

/// The state with the program counter past the current instruction.
pub open spec fn advanced(s: State) -> State {
    State { pc: (s.pc + 2) as u16, ..s }
}

/// The state with the program counter past the current instruction, and past
/// the one after it if `cond` holds.
pub open spec fn skipping(s: State, cond: bool) -> State {
    State {
        pc: if cond {
            (s.pc + 4) as u16
        } else {
            (s.pc + 2) as u16
        },
        ..s
    }
}

/// The state with Vx set to `value` and the program counter advanced.
pub open spec fn setting(s: State, x: u8, value: u8) -> State {
    State { pc: (s.pc + 2) as u16, v: s.v.update(x as int, value), ..s }
}

/// The state with Vx set to `value`, then VF set to the flag, and the program
/// counter advanced. The flag is written last: with VF as the target, the
/// flag is what remains.
pub open spec fn setting_with_flag(s: State, x: u8, value: u8, f: bool) -> State {
    State { pc: (s.pc + 2) as u16, v: s.v.update(x as int, value).update(15, flag(f)), ..s }
}

/// The state after the instruction, for a state in which it has no fault.
/// `random` is the byte that a random instruction draws.
pub open spec fn effect(s: State, ins: Instruction, random: u8) -> State {
    match ins {
        Instruction::ClearScreen => State {
            screen: Seq::new(2048, |p: int| false),
            ..advanced(s)
        },
        Instruction::Return => State { pc: s.top(), ..s.popped() },
        Instruction::Jump { addr } => State { pc: addr, ..s },
        Instruction::Call { addr } => State { pc: addr, ..s.pushed((s.pc + 2) as u16) },
        Instruction::SkipEqConst { x, byte } => skipping(s, s.v[x as int] == byte),
        Instruction::SkipNeConst { x, byte } => skipping(s, s.v[x as int] != byte),
        Instruction::SkipEqReg { x, y } => skipping(s, s.v[x as int] == s.v[y as int]),
        Instruction::SkipNeReg { x, y } => skipping(s, s.v[x as int] != s.v[y as int]),
        Instruction::LoadConst { x, byte } => setting(s, x, byte),
        Instruction::AddConst { x, byte } => setting(s, x, ((s.v[x as int] + byte) % 256) as u8),
        Instruction::Copy { x, y } => setting(s, x, s.v[y as int]),
        Instruction::Or { x, y } => setting(s, x, s.v[x as int] | s.v[y as int]),
        Instruction::And { x, y } => setting(s, x, s.v[x as int] & s.v[y as int]),
        Instruction::Xor { x, y } => setting(s, x, s.v[x as int] ^ s.v[y as int]),
        Instruction::AddReg { x, y } => {
            let sum = s.v[x as int] + s.v[y as int];
            setting_with_flag(s, x, (sum % 256) as u8, sum > 255)
        },
        Instruction::SubReg { x, y } => {
            let a = s.v[x as int];
            let b = s.v[y as int];
            setting_with_flag(s, x, ((a - b) % 256) as u8, a >= b)
        },
        Instruction::SubFrom { x, y } => {
            let a = s.v[y as int];
            let b = s.v[x as int];
            setting_with_flag(s, x, ((a - b) % 256) as u8, a >= b)
        },
        Instruction::ShiftRight { x, y } => {
            let src = shift_source(s, x, y);
            setting_with_flag(s, x, src / 2, src % 2 == 1)
        },
        Instruction::ShiftLeft { x, y } => {
            let src = shift_source(s, x, y);
            setting_with_flag(s, x, ((src * 2) % 256) as u8, src >= 128)
        },
        Instruction::LoadIndex { addr } => State { index: addr, ..advanced(s) },
        Instruction::JumpOffset { addr } => State { pc: (addr + s.v[0]) as u16, ..s },
        Instruction::Random { x, byte } => setting(s, x, random & byte),
        Instruction::Draw { x, y, rows } => {
            let sprite = sprite_of(s, x, y, rows);
            State {
                screen: sprite.drawn_on(s.screen),
                v: s.v.update(15, flag(sprite.collides_with(s.screen))),
                ..advanced(s)
            }
        },
        Instruction::SkipKeyDown { x } => skipping(s, s.key_down(s.v[x as int])),
        Instruction::SkipKeyUp { x } => skipping(s, !s.key_down(s.v[x as int])),
        Instruction::ReadDelay { x } => setting(s, x, s.delay),
        Instruction::WaitKey { x } => match first_down(s.keys) {
            Some(k) => setting(s, x, k as u8),
            None => s,
        },
        Instruction::SetDelay { x } => State { delay: s.v[x as int], ..advanced(s) },
        Instruction::SetSound { x } => State { sound: s.v[x as int], ..advanced(s) },
        Instruction::AddIndex { x } => {
            let sum = s.index + s.v[x as int];
            State {
                index: (sum % 0x10000) as u16,
                v: if s.quirks.index_add_sets_flag {
                    s.v.update(15, flag(sum > 0xFFF))
                } else {
                    s.v
                },
                ..advanced(s)
            }
        },
        Instruction::FontAddr { x } => State { index: glyph_address(s.v[x as int]), ..advanced(s) },
        Instruction::StoreBcd { x } => {
            let value = s.v[x as int];
            let at = s.index as int;
            State {
                ram: s.ram.update(at, value / 100).update(at + 1, (value / 10) % 10).update(
                    at + 2,
                    value % 10,
                ),
                ..advanced(s)
            }
        },
        Instruction::StoreRegs { x } => State {
            ram: Seq::new(
                4096,
                |a: int|
                    if s.index <= a <= s.index + x {
                        s.v[a - s.index]
                    } else {
                        s.ram[a]
                    },
            ),
            ..advanced(s)
        },
        Instruction::LoadRegs { x } => State {
            v: Seq::new(
                16,
                |j: int|
                    if j <= x {
                        s.ram[s.index + j]
                    } else {
                        s.v[j]
                    },
            ),
            ..advanced(s)
        },
    }
}

/// The outcome of executing `ins` in state `s`: the next state, or the fault.
pub open spec fn run(s: State, ins: Instruction, random: u8) -> Result<State, Chip8Error> {
    match fault(s, ins) {
        Some(e) => Err(e),
        None => Ok(effect(s, ins, random)),
    }
}

/// Both bytes of the instruction word at the program counter lie in memory.
pub open spec fn can_fetch(s: State) -> bool {
    s.pc + 1 < 4096
}

/// The outcome of one cycle: fetch the word at the program counter, decode
/// it and execute the instruction.
pub open spec fn step(s: State, random: u8) -> Result<State, Chip8Error> {
    if !can_fetch(s) {
        Err(Chip8Error::AddressOutOfRange)
    } else {
        match decode_spec(s.opcode()) {
            None => Err(Chip8Error::UnknownOpcode(s.opcode())),
            Some(ins) => run(s, ins, random),
        }
    }
}

/// The next instruction draws a random byte.
pub open spec fn draws_random(s: State) -> bool {
    can_fetch(s) && decode_spec(s.opcode()) matches Some(Instruction::Random { .. })
}

/// An operation that returned `result` took the machine from `before` to
/// `after` as `outcome` says: on success to the next state, on failure
/// nowhere, with the error reported.
pub open spec fn obeys(
    outcome: Result<State, Chip8Error>,
    before: State,
    after: State,
    result: Result<(), Chip8Error>,
) -> bool {
    match outcome {
        Ok(next) => result is Ok && after == next,
        Err(e) => result == Err::<(), Chip8Error>(e) && after == before,
    }
}

} // verus!
