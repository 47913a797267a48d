//! The machine as a mathematical value.
//!
//! [`State`] is what the contracts of the interpreter speak of: every
//! operation is described by a function from the state before to the state
//! after.

use vstd::prelude::*;
use crate::font::font;
use crate::quirks::Quirks;

verus! {

/// Bytes of memory.
pub const RAM_SIZE: usize = 4096;

/// Address at which programs are loaded and execution starts.
pub const START_ADDR: u16 = 0x200;

/// General-purpose registers.
pub const NUM_REGS: usize = 16;

/// Levels of the call stack.
pub const STACK_SIZE: usize = 16;

/// Keys of the keypad.
pub const NUM_KEYS: usize = 16;

/// Bytes that a program may occupy: from the start address to the end of
/// memory.
pub const MAX_PROGRAM_SIZE: usize = 3584;

/// The whole state of a machine.
pub struct State {
    /// Program counter.
    pub pc: u16,
    /// Index register.
    pub index: u16,
    /// Registers V0..VF.
    pub v: Seq<u8>,
    /// Memory, 4096 bytes.
    pub ram: Seq<u8>,
    /// Return addresses, 16 slots; slots below `sp` are in use.
    pub stack: Seq<u16>,
    /// Number of return addresses on the stack.
    pub sp: nat,
    /// Delay timer.
    pub delay: u8,
    /// Sound timer.
    pub sound: u8,
    /// Framebuffer, 2048 cells in row-major order.
    pub screen: Seq<bool>,
    /// Keypad, 16 keys; `true` is down.
    pub keys: Seq<bool>,
    /// How the ambiguous instructions behave.
    pub quirks: Quirks,
}

/// The lowest key that is down is `k`.
pub open spec fn is_first_down(keys: Seq<bool>, k: int) -> bool {
    &&& 0 <= k < keys.len()
    &&& keys[k]
    &&& forall|j: int| 0 <= j < k ==> !#[trigger] keys[j]
}

/// The lowest key that is down, if any key is.
pub open spec fn first_down(keys: Seq<bool>) -> Option<int> {
    if exists|k: int| is_first_down(keys, k) {
        Some(choose|k: int| is_first_down(keys, k))
    } else {
        None
    }
}

impl State {
    /// Every array has its fixed size and the stack pointer is at most 16.
    pub open spec fn wf(self) -> bool {
        &&& self.v.len() == 16
        &&& self.ram.len() == 4096
        &&& self.stack.len() == 16
        &&& self.sp <= 16
        &&& self.screen.len() == 2048
        &&& self.keys.len() == 16
    }

    /// The state of a machine just built or reset: the font in the first 80
    /// bytes of memory, the program counter at 0x200, everything else zero.
    pub open spec fn initial(quirks: Quirks) -> State {
        State {
            pc: START_ADDR,
            index: 0,
            v: Seq::new(16, |i: int| 0u8),
            ram: Seq::new(
                4096,
                |a: int|
                    if a < 80 {
                        font()[a]
                    } else {
                        0u8
                    },
            ),
            stack: Seq::new(16, |i: int| 0u16),
            sp: 0,
            delay: 0,
            sound: 0,
            screen: Seq::new(2048, |p: int| false),
            keys: Seq::new(16, |k: int| false),
            quirks,
        }
    }

    /// A tone is to be played.
    pub open spec fn sound_active(self) -> bool {
        self.sound > 0
    }

    /// The program fits between 0x200 and the end of memory.
    pub open spec fn fits(program: Seq<u8>) -> bool {
        program.len() <= MAX_PROGRAM_SIZE
    }

    /// The state with `program` copied to memory from 0x200 on.
    pub open spec fn loaded(self, program: Seq<u8>) -> State {
        State {
            ram: Seq::new(
                4096,
                |a: int|
                    if START_ADDR <= a < START_ADDR + program.len() {
                        program[a - START_ADDR]
                    } else {
                        self.ram[a]
                    },
            ),
            ..self
        }
    }

    /// The state with key `k` down or up.
    pub open spec fn with_key(self, k: int, down: bool) -> State {
        State { keys: self.keys.update(k, down), ..self }
    }

    /// The state after one timer tick: each timer that is not 0 is one less.
    pub open spec fn ticked(self) -> State {
        State {
            delay: if self.delay > 0 {
                (self.delay - 1) as u8
            } else {
                0
            },
            sound: if self.sound > 0 {
                (self.sound - 1) as u8
            } else {
                0
            },
            ..self
        }
    }

    /// The state with `addr` pushed on the stack.
    pub open spec fn pushed(self, addr: u16) -> State {
        State { stack: self.stack.update(self.sp as int, addr), sp: self.sp + 1, ..self }
    }

    /// The address on top of the stack.
    pub open spec fn top(self) -> u16 {
        self.stack[self.sp - 1]
    }

    /// The state with the top of the stack removed.
    pub open spec fn popped(self) -> State {
        State { sp: (self.sp - 1) as nat, ..self }
    }

    /// The instruction word at the program counter: two bytes, the high byte
    /// first.
    pub open spec fn opcode(self) -> u16 {
        (self.ram[self.pc as int] * 0x100 + self.ram[self.pc + 1]) as u16
    }

    /// The key whose number is `value` is down. A value of 16 or more names
    /// no key.
    pub open spec fn key_down(self, value: u8) -> bool {
        value < 16 && self.keys[value as int]
    }
}

} // verus!
