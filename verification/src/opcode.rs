//! Instruction words and their decoding.
//!
//! An instruction word is four hexadecimal digits. The first selects a
//! family; the others hold a register number (`x`, `y`), a 4-bit count (`n`),
//! an 8-bit constant (`kk`) or a 12-bit address (`nnn`).

use vstd::prelude::*;
use vstd::arithmetic::div_mod::lemma_fundamental_div_mod_converse;
use crate::error::Chip8Error;

verus! {

/// One decoded instruction. Register operands are register numbers 0..=15.
#[derive(Clone, Copy, Debug, PartialEq, Eq, Structural)]
pub enum Instruction {
    /// `00E0`: unlight every pixel.
    ClearScreen,
    /// `00EE`: return from a subroutine.
    Return,
    /// `1nnn`: jump to `addr`.
    Jump { addr: u16 },
    /// `2nnn`: call the subroutine at `addr`.
    Call { addr: u16 },
    /// `3xkk`: skip the next instruction if Vx equals `byte`.
    SkipEqConst { x: u8, byte: u8 },
    /// `4xkk`: skip the next instruction if Vx differs from `byte`.
    SkipNeConst { x: u8, byte: u8 },
    /// `5xy0`: skip the next instruction if Vx equals Vy.
    SkipEqReg { x: u8, y: u8 },
    /// `6xkk`: Vx = `byte`.
    LoadConst { x: u8, byte: u8 },
    /// `7xkk`: Vx = Vx + `byte` modulo 256, no flag.
    AddConst { x: u8, byte: u8 },
    /// `8xy0`: Vx = Vy.
    Copy { x: u8, y: u8 },
    /// `8xy1`: Vx = Vx | Vy.
    Or { x: u8, y: u8 },
    /// `8xy2`: Vx = Vx & Vy.
    And { x: u8, y: u8 },
    /// `8xy3`: Vx = Vx ^ Vy.
    Xor { x: u8, y: u8 },
    /// `8xy4`: Vx = Vx + Vy modulo 256, VF = carry.
    AddReg { x: u8, y: u8 },
    /// `8xy5`: Vx = Vx - Vy modulo 256, VF = no borrow.
    SubReg { x: u8, y: u8 },
    /// `8xy6`: shift right by one, VF = the bit shifted out.
    ShiftRight { x: u8, y: u8 },
    /// `8xy7`: Vx = Vy - Vx modulo 256, VF = no borrow.
    SubFrom { x: u8, y: u8 },
    /// `8xyE`: shift left by one, VF = the bit shifted out.
    ShiftLeft { x: u8, y: u8 },
    /// `9xy0`: skip the next instruction if Vx differs from Vy.
    SkipNeReg { x: u8, y: u8 },
    /// `Annn`: index register = `addr`.
    LoadIndex { addr: u16 },
    /// `Bnnn`: jump to `addr` + V0.
    JumpOffset { addr: u16 },
    /// `Cxkk`: Vx = random byte & `byte`.
    Random { x: u8, byte: u8 },
    /// `Dxyn`: draw `rows` sprite rows at (Vx, Vy), VF = collision.
    Draw { x: u8, y: u8, rows: u8 },
    /// `Ex9E`: skip the next instruction if the key named by Vx is down.
    SkipKeyDown { x: u8 },
    /// `ExA1`: skip the next instruction if the key named by Vx is up.
    SkipKeyUp { x: u8 },
    /// `Fx07`: Vx = delay timer.
    ReadDelay { x: u8 },
    /// `Fx0A`: wait for a key and store its number in Vx.
    WaitKey { x: u8 },
    /// `Fx15`: delay timer = Vx.
    SetDelay { x: u8 },
    /// `Fx18`: sound timer = Vx.
    SetSound { x: u8 },
    /// `Fx1E`: index register = index register + Vx.
    AddIndex { x: u8 },
    /// `Fx29`: index register = address of the font sprite for Vx's low digit.
    FontAddr { x: u8 },
    /// `Fx33`: store the three decimal digits of Vx at the index address.
    StoreBcd { x: u8 },
    /// `Fx55`: store V0..=Vx at the index address.
    StoreRegs { x: u8 },
    /// `Fx65`: load V0..=Vx from the index address.
    LoadRegs { x: u8 },
}

/// The first hexadecimal digit of an instruction word.
pub open spec fn family_of(op: u16) -> int {
    op as int / 0x1000
}

/// The second hexadecimal digit: the first register operand.
pub open spec fn x_of(op: u16) -> u8 {
    ((op as int / 0x100) % 0x10) as u8
}

/// The third hexadecimal digit: the second register operand.
pub open spec fn y_of(op: u16) -> u8 {
    ((op as int / 0x10) % 0x10) as u8
}

/// The last hexadecimal digit.
pub open spec fn n_of(op: u16) -> u8 {
    (op as int % 0x10) as u8
}

/// The low byte.
pub open spec fn kk_of(op: u16) -> u8 {
    (op as int % 0x100) as u8
}

/// The low twelve bits.
pub open spec fn nnn_of(op: u16) -> u16 {
    (op as int % 0x1000) as u16
}

impl Instruction {
    /// Every register operand names one of the 16 registers, every address
    /// has 12 bits and a sprite has at most 15 rows.
    pub open spec fn wf(self) -> bool {
        match self {
            Instruction::ClearScreen | Instruction::Return => true,
            Instruction::Jump { addr }
            | Instruction::Call { addr }
            | Instruction::LoadIndex { addr }
            | Instruction::JumpOffset { addr } => addr < 0x1000,
            Instruction::SkipEqConst { x, .. }
            | Instruction::SkipNeConst { x, .. }
            | Instruction::LoadConst { x, .. }
            | Instruction::AddConst { x, .. }
            | Instruction::Random { x, .. } => x < 16,
            Instruction::SkipEqReg { x, y }
            | Instruction::Copy { x, y }
            | Instruction::Or { x, y }
            | Instruction::And { x, y }
            | Instruction::Xor { x, y }
            | Instruction::AddReg { x, y }
            | Instruction::SubReg { x, y }
            | Instruction::ShiftRight { x, y }
            | Instruction::SubFrom { x, y }
            | Instruction::ShiftLeft { x, y }
            | Instruction::SkipNeReg { x, y } => x < 16 && y < 16,
            Instruction::Draw { x, y, rows } => x < 16 && y < 16 && rows < 16,
            Instruction::SkipKeyDown { x }
            | Instruction::SkipKeyUp { x }
            | Instruction::ReadDelay { x }
            | Instruction::WaitKey { x }
            | Instruction::SetDelay { x }
            | Instruction::SetSound { x }
            | Instruction::AddIndex { x }
            | Instruction::FontAddr { x }
            | Instruction::StoreBcd { x }
            | Instruction::StoreRegs { x }
            | Instruction::LoadRegs { x } => x < 16,
        }
    }

    /// The instruction word that stands for this instruction.
    pub open spec fn encode(self) -> int {
        match self {
            Instruction::ClearScreen => 0x00E0,
            Instruction::Return => 0x00EE,
            Instruction::Jump { addr } => 0x1000 + addr,
            Instruction::Call { addr } => 0x2000 + addr,
            Instruction::SkipEqConst { x, byte } => 0x3000 + x * 0x100 + byte,
            Instruction::SkipNeConst { x, byte } => 0x4000 + x * 0x100 + byte,
            Instruction::SkipEqReg { x, y } => 0x5000 + x * 0x100 + y * 0x10,
            Instruction::LoadConst { x, byte } => 0x6000 + x * 0x100 + byte,
            Instruction::AddConst { x, byte } => 0x7000 + x * 0x100 + byte,
            Instruction::Copy { x, y } => 0x8000 + x * 0x100 + y * 0x10,
            Instruction::Or { x, y } => 0x8001 + x * 0x100 + y * 0x10,
            Instruction::And { x, y } => 0x8002 + x * 0x100 + y * 0x10,
            Instruction::Xor { x, y } => 0x8003 + x * 0x100 + y * 0x10,
            Instruction::AddReg { x, y } => 0x8004 + x * 0x100 + y * 0x10,
            Instruction::SubReg { x, y } => 0x8005 + x * 0x100 + y * 0x10,
            Instruction::ShiftRight { x, y } => 0x8006 + x * 0x100 + y * 0x10,
            Instruction::SubFrom { x, y } => 0x8007 + x * 0x100 + y * 0x10,
            Instruction::ShiftLeft { x, y } => 0x800E + x * 0x100 + y * 0x10,
            Instruction::SkipNeReg { x, y } => 0x9000 + x * 0x100 + y * 0x10,
            Instruction::LoadIndex { addr } => 0xA000 + addr,
            Instruction::JumpOffset { addr } => 0xB000 + addr,
            Instruction::Random { x, byte } => 0xC000 + x * 0x100 + byte,
            Instruction::Draw { x, y, rows } => 0xD000 + x * 0x100 + y * 0x10 + rows,
            Instruction::SkipKeyDown { x } => 0xE09E + x * 0x100,
            Instruction::SkipKeyUp { x } => 0xE0A1 + x * 0x100,
            Instruction::ReadDelay { x } => 0xF007 + x * 0x100,
            Instruction::WaitKey { x } => 0xF00A + x * 0x100,
            Instruction::SetDelay { x } => 0xF015 + x * 0x100,
            Instruction::SetSound { x } => 0xF018 + x * 0x100,
            Instruction::AddIndex { x } => 0xF01E + x * 0x100,
            Instruction::FontAddr { x } => 0xF029 + x * 0x100,
            Instruction::StoreBcd { x } => 0xF033 + x * 0x100,
            Instruction::StoreRegs { x } => 0xF055 + x * 0x100,
            Instruction::LoadRegs { x } => 0xF065 + x * 0x100,
        }
    }
}

/// The instruction that a word stands for, if any: a well-formed instruction
/// whose encoding is the word.
pub open spec fn decodes_to(op: u16, ins: Instruction) -> bool {
    ins.wf() && ins.encode() == op
}

/// The word stands for some instruction.
pub open spec fn is_known(op: u16) -> bool {
    exists|ins: Instruction| decodes_to(op, ins)
}

/// The instruction table, family by family.
pub open spec fn decode_spec(op: u16) -> Option<Instruction> {
    let f = family_of(op);
    let x = x_of(op);
    let y = y_of(op);
    let n = n_of(op);
    let kk = kk_of(op);
    let nnn = nnn_of(op);
    if f == 0x0 {
        if op == 0x00E0 {
            Some(Instruction::ClearScreen)
        } else if op == 0x00EE {
            Some(Instruction::Return)
        } else {
            None
        }
    } else if f == 0x1 {
        Some(Instruction::Jump { addr: nnn })
    } else if f == 0x2 {
        Some(Instruction::Call { addr: nnn })
    } else if f == 0x3 {
        Some(Instruction::SkipEqConst { x, byte: kk })
    } else if f == 0x4 {
        Some(Instruction::SkipNeConst { x, byte: kk })
    } else if f == 0x5 {
        if n == 0 {
            Some(Instruction::SkipEqReg { x, y })
        } else {
            None
        }
    } else if f == 0x6 {
        Some(Instruction::LoadConst { x, byte: kk })
    } else if f == 0x7 {
        Some(Instruction::AddConst { x, byte: kk })
    } else if f == 0x8 {
        if n == 0x0 {
            Some(Instruction::Copy { x, y })
        } else if n == 0x1 {
            Some(Instruction::Or { x, y })
        } else if n == 0x2 {
            Some(Instruction::And { x, y })
        } else if n == 0x3 {
            Some(Instruction::Xor { x, y })
        } else if n == 0x4 {
            Some(Instruction::AddReg { x, y })
        } else if n == 0x5 {
            Some(Instruction::SubReg { x, y })
        } else if n == 0x6 {
            Some(Instruction::ShiftRight { x, y })
        } else if n == 0x7 {
            Some(Instruction::SubFrom { x, y })
        } else if n == 0xE {
            Some(Instruction::ShiftLeft { x, y })
        } else {
            None
        }
    } else if f == 0x9 {
        if n == 0 {
            Some(Instruction::SkipNeReg { x, y })
        } else {
            None
        }
    } else if f == 0xA {
        Some(Instruction::LoadIndex { addr: nnn })
    } else if f == 0xB {
        Some(Instruction::JumpOffset { addr: nnn })
    } else if f == 0xC {
        Some(Instruction::Random { x, byte: kk })
    } else if f == 0xD {
        Some(Instruction::Draw { x, y, rows: n })
    } else if f == 0xE {
        if kk == 0x9E {
            Some(Instruction::SkipKeyDown { x })
        } else if kk == 0xA1 {
            Some(Instruction::SkipKeyUp { x })
        } else {
            None
        }
    } else {
        if kk == 0x07 {
            Some(Instruction::ReadDelay { x })
        } else if kk == 0x0A {
            Some(Instruction::WaitKey { x })
        } else if kk == 0x15 {
            Some(Instruction::SetDelay { x })
        } else if kk == 0x18 {
            Some(Instruction::SetSound { x })
        } else if kk == 0x1E {
            Some(Instruction::AddIndex { x })
        } else if kk == 0x29 {
            Some(Instruction::FontAddr { x })
        } else if kk == 0x33 {
            Some(Instruction::StoreBcd { x })
        } else if kk == 0x55 {
            Some(Instruction::StoreRegs { x })
        } else if kk == 0x65 {
            Some(Instruction::LoadRegs { x })
        } else {
            None
        }
    }
}

/// A word is the sum of its four hexadecimal digits, each weighted by its
/// place, and a sum of four digits has those digits.
pub proof fn lemma_digits(f: int, x: int, y: int, n: int)
    requires
        0 <= f < 16,
        0 <= x < 16,
        0 <= y < 16,
        0 <= n < 16,
    ensures
        ({
            let op = (f * 0x1000 + x * 0x100 + y * 0x10 + n) as u16;
            &&& op == f * 0x1000 + x * 0x100 + y * 0x10 + n
            &&& family_of(op) == f
            &&& x_of(op) == x
            &&& y_of(op) == y
            &&& n_of(op) == n
            &&& kk_of(op) == y * 0x10 + n
            &&& nnn_of(op) == x * 0x100 + y * 0x10 + n
        }),
{
    let w = f * 0x1000 + x * 0x100 + y * 0x10 + n;
    lemma_fundamental_div_mod_converse(w, 0x1000, f, x * 0x100 + y * 0x10 + n);
    lemma_fundamental_div_mod_converse(w, 0x100, f * 0x10 + x, y * 0x10 + n);
    lemma_fundamental_div_mod_converse(w, 0x10, f * 0x100 + x * 0x10 + y, n);
    lemma_fundamental_div_mod_converse(w / 0x100, 0x10, f, x);
    lemma_fundamental_div_mod_converse(w / 0x10, 0x10, f * 0x10 + x, y);
}

/// Every word is the weighted sum of its own digits.
pub proof fn lemma_word_is_sum_of_digits(op: u16)
    ensures
        op == family_of(op) * 0x1000 + x_of(op) * 0x100 + y_of(op) * 0x10 + n_of(op),
        kk_of(op) == y_of(op) * 0x10 + n_of(op),
        nnn_of(op) == x_of(op) * 0x100 + y_of(op) * 0x10 + n_of(op),
        0 <= family_of(op) < 16,
        x_of(op) < 16,
        y_of(op) < 16,
        n_of(op) < 16,
        nnn_of(op) < 0x1000,
{
    let f = op as int / 0x1000;
    let low = op as int % 0x1000;
    let x = low / 0x100;
    let byte = low % 0x100;
    let y = byte / 0x10;
    let n = byte % 0x10;
    assert(op == f * 0x1000 + x * 0x100 + y * 0x10 + n);
    lemma_digits(f, x, y, n);
}

/// What the table yields is well formed and encodes to the word.
pub proof fn lemma_decode_sound(op: u16)
    ensures
        decode_spec(op) matches Some(ins) ==> decodes_to(op, ins),
{
    lemma_word_is_sum_of_digits(op);
}

/// A well-formed instruction is what the table yields for its encoding.
pub proof fn lemma_encode_decodes(ins: Instruction)
    requires
        ins.wf(),
    ensures
        0 <= ins.encode() <= 0xFFFF,
        decode_spec(ins.encode() as u16) == Some(ins),
{
    let e = ins.encode();
    match ins {
        Instruction::ClearScreen => {
            lemma_digits(0, 0, 0xE, 0);
        },
        Instruction::Return => {
            lemma_digits(0, 0, 0xE, 0xE);
        },
        Instruction::Jump { addr }
        | Instruction::Call { addr }
        | Instruction::LoadIndex { addr }
        | Instruction::JumpOffset { addr } => {
            let f = (e - addr) / 0x1000;
            lemma_digits(f, addr as int / 0x100, (addr as int / 0x10) % 0x10, addr as int % 0x10);
        },
        Instruction::SkipEqConst { x, byte }
        | Instruction::SkipNeConst { x, byte }
        | Instruction::LoadConst { x, byte }
        | Instruction::AddConst { x, byte }
        | Instruction::Random { x, byte } => {
            let f = (e - byte - x * 0x100) / 0x1000;
            lemma_digits(f, x as int, byte as int / 0x10, byte as int % 0x10);
        },
        Instruction::SkipEqReg { x, y }
        | Instruction::Copy { x, y }
        | Instruction::Or { x, y }
        | Instruction::And { x, y }
        | Instruction::Xor { x, y }
        | Instruction::AddReg { x, y }
        | Instruction::SubReg { x, y }
        | Instruction::ShiftRight { x, y }
        | Instruction::SubFrom { x, y }
        | Instruction::ShiftLeft { x, y }
        | Instruction::SkipNeReg { x, y } => {
            let n = e - x * 0x100 - y * 0x10 - ((e - x * 0x100 - y * 0x10) / 0x1000) * 0x1000;
            let f = (e - x * 0x100 - y * 0x10 - n) / 0x1000;
            lemma_digits(f, x as int, y as int, n);
        },
        Instruction::Draw { x, y, rows } => {
            lemma_digits(0xD, x as int, y as int, rows as int);
        },
        Instruction::SkipKeyDown { x }
        | Instruction::SkipKeyUp { x }
        | Instruction::ReadDelay { x }
        | Instruction::WaitKey { x }
        | Instruction::SetDelay { x }
        | Instruction::SetSound { x }
        | Instruction::AddIndex { x }
        | Instruction::FontAddr { x }
        | Instruction::StoreBcd { x }
        | Instruction::StoreRegs { x }
        | Instruction::LoadRegs { x } => {
            let low = (e - x * 0x100) % 0x1000;
            let f = (e - x * 0x100) / 0x1000;
            lemma_digits(f, x as int, low / 0x10, low % 0x10);
        },
    }
}

/// The table is the inverse of the encoding: it yields an instruction exactly
/// when that instruction is well formed and encodes to the word, and yields
/// nothing exactly when no instruction does.
pub proof fn lemma_decode_inverts_encode(op: u16, ins: Instruction)
    ensures
        decode_spec(op) == Some(ins) <==> decodes_to(op, ins),
        decode_spec(op) is None <==> !is_known(op),
{
    lemma_decode_sound(op);
    if ins.wf() {
        lemma_encode_decodes(ins);
    }
    if decode_spec(op) is None {
        assert forall|other: Instruction| !decodes_to(op, other) by {
            if other.wf() {
                lemma_encode_decodes(other);
            }
        }
    } else {
        assert(decodes_to(op, decode_spec(op)->Some_0));
    }
}

/// Decodes an instruction word.
///
/// Returns the instruction that the word encodes, or `UnknownOpcode` with the
/// word when it encodes none.
pub fn decode(op: u16) -> (r: Result<Instruction, Chip8Error>)
    ensures
        match decode_spec(op) {
            Some(ins) => r == Ok::<Instruction, Chip8Error>(ins) && ins.wf(),
            None => r == Err::<Instruction, Chip8Error>(Chip8Error::UnknownOpcode(op)),
        },
{
    let x: u8 = ((op / 0x100) % 0x10) as u8;
    let y: u8 = ((op / 0x10) % 0x10) as u8;
    let n: u8 = (op % 0x10) as u8;
    let kk: u8 = (op % 0x100) as u8;
    let nnn: u16 = op % 0x1000;
    let unknown: Result<Instruction, Chip8Error> = Err(Chip8Error::UnknownOpcode(op));
    match op / 0x1000 {
        0x0 => {
            if op == 0x00E0 {
                Ok(Instruction::ClearScreen)
            } else if op == 0x00EE {
                Ok(Instruction::Return)
            } else {
                unknown
            }
        },
        0x1 => Ok(Instruction::Jump { addr: nnn }),
        0x2 => Ok(Instruction::Call { addr: nnn }),
        0x3 => Ok(Instruction::SkipEqConst { x, byte: kk }),
        0x4 => Ok(Instruction::SkipNeConst { x, byte: kk }),
        0x5 => {
            if n == 0 {
                Ok(Instruction::SkipEqReg { x, y })
            } else {
                unknown
            }
        },
        0x6 => Ok(Instruction::LoadConst { x, byte: kk }),
        0x7 => Ok(Instruction::AddConst { x, byte: kk }),
        0x8 => match n {
            0x0 => Ok(Instruction::Copy { x, y }),
            0x1 => Ok(Instruction::Or { x, y }),
            0x2 => Ok(Instruction::And { x, y }),
            0x3 => Ok(Instruction::Xor { x, y }),
            0x4 => Ok(Instruction::AddReg { x, y }),
            0x5 => Ok(Instruction::SubReg { x, y }),
            0x6 => Ok(Instruction::ShiftRight { x, y }),
            0x7 => Ok(Instruction::SubFrom { x, y }),
            0xE => Ok(Instruction::ShiftLeft { x, y }),
            _ => unknown,
        },
        0x9 => {
            if n == 0 {
                Ok(Instruction::SkipNeReg { x, y })
            } else {
                unknown
            }
        },
        0xA => Ok(Instruction::LoadIndex { addr: nnn }),
        0xB => Ok(Instruction::JumpOffset { addr: nnn }),
        0xC => Ok(Instruction::Random { x, byte: kk }),
        0xD => Ok(Instruction::Draw { x, y, rows: n }),
        0xE => match kk {
            0x9E => Ok(Instruction::SkipKeyDown { x }),
            0xA1 => Ok(Instruction::SkipKeyUp { x }),
            _ => unknown,
        },
        _ => match kk {
            0x07 => Ok(Instruction::ReadDelay { x }),
            0x0A => Ok(Instruction::WaitKey { x }),
            0x15 => Ok(Instruction::SetDelay { x }),
            0x18 => Ok(Instruction::SetSound { x }),
            0x1E => Ok(Instruction::AddIndex { x }),
            0x29 => Ok(Instruction::FontAddr { x }),
            0x33 => Ok(Instruction::StoreBcd { x }),
            0x55 => Ok(Instruction::StoreRegs { x }),
            0x65 => Ok(Instruction::LoadRegs { x }),
            _ => unknown,
        },
    }
}

} // verus!
