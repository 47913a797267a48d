//! The machine: its state and the operations a host drives it with.

use vstd::prelude::*;
use crate::display::draw_sprite;
use crate::entropy::random_byte;
use crate::error::Chip8Error;
use crate::font::{font, FONT, FONT_BASE, GLYPH_BYTES};
use crate::model::{first_down, is_first_down, State, MAX_PROGRAM_SIZE, START_ADDR};
use crate::opcode::{decode, Instruction};
use crate::quirks::Quirks;
use crate::semantics::{
    can_fetch, draws_random, effect, fault, obeys, run, setting, setting_with_flag, shift_source,
    skipping, sprite_of, step,
};

verus! {

/// A CHIP-8 machine.
///
/// A host loads a program, then calls [`Emu::cycle`] some number of times per
/// frame and [`Emu::tick`] once per frame, reads the framebuffer and the
/// sound flag, and reports key changes.
pub struct Emu {
    /// Program counter.
    pc: u16,
    /// Memory.
    ram: [u8; 4096],
    /// Framebuffer, one cell per pixel, row by row.
    screen: [bool; 2048],
    /// Registers V0 to VF.
    v_reg: [u8; 16],
    /// Index register.
    i_reg: u16,
    /// Number of return addresses on the stack.
    sp: u16,
    /// Return addresses.
    stack: [u16; 16],
    /// Keypad.
    keys: [bool; 16],
    /// Delay timer.
    dt: u8,
    /// Sound timer.
    st: u8,
    /// How the ambiguous instructions behave.
    quirks: Quirks,
}

impl View for Emu {
    type V = State;

    closed spec fn view(&self) -> State {
        State {
            pc: self.pc,
            index: self.i_reg,
            v: self.v_reg@,
            ram: self.ram@,
            stack: self.stack@,
            sp: self.sp as nat,
            delay: self.dt,
            sound: self.st,
            screen: self.screen@,
            keys: self.keys@,
            quirks: self.quirks,
        }
    }
}

impl Emu {
    #[verifier::type_invariant]
    spec fn stack_pointer_in_range(&self) -> bool {
        self.sp <= 16
    }

    /// Builds a machine in its initial state, with the default interpretation
    /// of the ambiguous instructions.
    pub fn new() -> (emu: Emu)
        ensures
            emu@ == State::initial(Quirks::standard()),
            emu@.wf(),
    {
        Emu::with_quirks(Quirks::new())
    }

    /// Builds a machine in its initial state, with the given interpretation
    /// of the ambiguous instructions.
    pub fn with_quirks(quirks: Quirks) -> (emu: Emu)
        ensures
            emu@ == State::initial(quirks),
            emu@.wf(),
    {
        let mut emu = Emu {
            pc: START_ADDR,
            ram: [0u8; 4096],
            screen: [false; 2048],
            v_reg: [0u8; 16],
            i_reg: 0,
            sp: 0,
            stack: [0u16; 16],
            keys: [false; 16],
            dt: 0,
            st: 0,
            quirks,
        };
        emu.load_font();
        proof {
            let init = State::initial(quirks);
            assert(emu@.v =~= init.v);
            assert(emu@.ram =~= init.ram);
            assert(emu@.stack =~= init.stack);
            assert(emu@.screen =~= init.screen);
            assert(emu@.keys =~= init.keys);
        }
        emu
    }

    /// Copies the font to the first 80 bytes of memory.
    fn load_font(&mut self)
        ensures
            forall|a: int| 0 <= a < 80 ==> final(self).ram@[a] == font()[a],
            forall|a: int| 80 <= a < 4096 ==> final(self).ram@[a] == old(self).ram@[a],
            final(self).pc == old(self).pc,
            final(self).screen == old(self).screen,
            final(self).v_reg == old(self).v_reg,
            final(self).i_reg == old(self).i_reg,
            final(self).sp == old(self).sp,
            final(self).stack == old(self).stack,
            final(self).keys == old(self).keys,
            final(self).dt == old(self).dt,
            final(self).st == old(self).st,
            final(self).quirks == old(self).quirks,
    {
        proof {
            use_type_invariant(&*self);
        }
        let mut a: usize = 0;
        while a < 80
            invariant
                a <= 80,
                forall|b: int| 0 <= b < a ==> self.ram@[b] == font()[b],
                forall|b: int| 80 <= b < 4096 ==> self.ram@[b] == old(self).ram@[b],
                self.pc == old(self).pc,
                self.screen == old(self).screen,
                self.v_reg == old(self).v_reg,
                self.i_reg == old(self).i_reg,
                self.sp == old(self).sp,
                self.stack == old(self).stack,
                self.keys == old(self).keys,
                self.dt == old(self).dt,
                self.st == old(self).st,
                self.quirks == old(self).quirks,
                self.sp <= 16,
            decreases 80 - a,
        {
            self.ram[a] = FONT[a];
            a = a + 1;
        }
    }

    /// Returns the machine to its initial state: memory, registers, stack,
    /// timers, framebuffer and keys are wiped and the font is loaded again.
    /// The interpretation of the ambiguous instructions, chosen when the
    /// machine was built, is kept.
    pub fn reset(&mut self)
        ensures
            final(self)@ == State::initial(old(self)@.quirks),
            final(self)@.wf(),
    {
        *self = Emu::with_quirks(self.quirks);
    }

    /// Copies a program to memory, starting at address 0x200.
    ///
    /// Fails with `ProgramTooLarge` if the program has more than 3584 bytes;
    /// the machine is then unchanged.
    pub fn load(&mut self, program: &[u8]) -> (r: Result<(), Chip8Error>)
        ensures
            State::fits(program@) ==> r is Ok && final(self)@ == old(self)@.loaded(program@),
            !State::fits(program@) ==> r == Err::<(), Chip8Error>(Chip8Error::ProgramTooLarge)
                && final(self)@ == old(self)@,
            final(self)@.wf(),
    {
        proof {
            use_type_invariant(&*self);
        }
        let len: usize = program.len();
        if len > MAX_PROGRAM_SIZE {
            return Err(Chip8Error::ProgramTooLarge);
        }
        let mut i: usize = 0;
        while i < len
            invariant
                i <= len <= 3584,
                len == program@.len(),
                forall|a: int| 0x200 <= a < 0x200 + i ==> self.ram@[a] == program@[a - 0x200],
                forall|a: int|
                    0 <= a < 0x200 || 0x200 + i <= a < 4096 ==> self.ram@[a] == old(self).ram@[a],
                self.pc == old(self).pc,
                self.screen == old(self).screen,
                self.v_reg == old(self).v_reg,
                self.i_reg == old(self).i_reg,
                self.sp == old(self).sp,
                self.stack == old(self).stack,
                self.keys == old(self).keys,
                self.dt == old(self).dt,
                self.st == old(self).st,
                self.quirks == old(self).quirks,
                self.sp <= 16,
            decreases len - i,
        {
            self.ram[START_ADDR as usize + i] = program[i];
            i = i + 1;
        }
        assert(self@.ram =~= old(self)@.loaded(program@).ram);
        Ok(())
    }

    /// Marks key `index` as down.
    ///
    /// Fails with `InvalidKeyIndex` if `index` is 16 or more; the keypad is
    /// then unchanged.
    pub fn key_press(&mut self, index: usize) -> (r: Result<(), Chip8Error>)
        ensures
            index < 16 ==> r is Ok && final(self)@ == old(self)@.with_key(index as int, true),
            index >= 16 ==> r == Err::<(), Chip8Error>(Chip8Error::InvalidKeyIndex) && final(self)@
                == old(self)@,
            final(self)@.wf(),
    {
        proof {
            use_type_invariant(&*self);
        }
        if index >= 16 {
            return Err(Chip8Error::InvalidKeyIndex);
        }
        self.keys[index] = true;
        Ok(())
    }

    /// Marks key `index` as up.
    ///
    /// Fails with `InvalidKeyIndex` if `index` is 16 or more; the keypad is
    /// then unchanged.
    pub fn key_release(&mut self, index: usize) -> (r: Result<(), Chip8Error>)
        ensures
            index < 16 ==> r is Ok && final(self)@ == old(self)@.with_key(index as int, false),
            index >= 16 ==> r == Err::<(), Chip8Error>(Chip8Error::InvalidKeyIndex) && final(self)@
                == old(self)@,
            final(self)@.wf(),
    {
        proof {
            use_type_invariant(&*self);
        }
        if index >= 16 {
            return Err(Chip8Error::InvalidKeyIndex);
        }
        self.keys[index] = false;
        Ok(())
    }

    /// Advances both timers by one tick: each timer that is not 0 goes down
    /// by 1. To be called 60 times a second, however many cycles are run.
    pub fn tick(&mut self)
        ensures
            final(self)@ == old(self)@.ticked(),
            final(self)@.wf(),
    {
        proof {
            use_type_invariant(&*self);
        }
        if self.dt > 0 {
            self.dt = self.dt - 1;
        }
        if self.st > 0 {
            self.st = self.st - 1;
        }
    }

    /// Whether a tone is to be played: the sound timer is not 0.
    pub fn is_sound_active(&self) -> (active: bool)
        ensures
            active == self@.sound_active(),
            self@.wf(),
    {
        proof {
            use_type_invariant(self);
        }
        self.st > 0
    }

    /// The framebuffer: 64 columns by 32 rows, row by row; `true` is lit.
    pub fn framebuffer(&self) -> (cells: &[bool; 2048])
        ensures
            cells@ == self@.screen,
            self@.wf(),
    {
        proof {
            use_type_invariant(self);
        }
        &self.screen
    }

    /// The program counter.
    pub fn pc(&self) -> (pc: u16)
        ensures
            pc == self@.pc,
            self@.wf(),
    {
        proof {
            use_type_invariant(self);
        }
        self.pc
    }

    /// The index register.
    pub fn index(&self) -> (index: u16)
        ensures
            index == self@.index,
            self@.wf(),
    {
        proof {
            use_type_invariant(self);
        }
        self.i_reg
    }

    /// The registers V0 to VF.
    pub fn registers(&self) -> (v: &[u8; 16])
        ensures
            v@ == self@.v,
            self@.wf(),
    {
        proof {
            use_type_invariant(self);
        }
        &self.v_reg
    }

    /// The memory.
    pub fn memory(&self) -> (ram: &[u8; 4096])
        ensures
            ram@ == self@.ram,
            self@.wf(),
    {
        proof {
            use_type_invariant(self);
        }
        &self.ram
    }

    /// The 16 slots of the call stack; the first [`Emu::sp`] are in use.
    pub fn stack(&self) -> (slots: &[u16; 16])
        ensures
            slots@ == self@.stack,
            self@.wf(),
    {
        proof {
            use_type_invariant(self);
        }
        &self.stack
    }

    /// The number of return addresses on the stack, at most 16.
    pub fn sp(&self) -> (sp: u16)
        ensures
            sp == self@.sp,
            sp <= 16,
            self@.wf(),
    {
        proof {
            use_type_invariant(self);
        }
        self.sp
    }

    /// The keypad; `true` is down.
    pub fn keys(&self) -> (keys: &[bool; 16])
        ensures
            keys@ == self@.keys,
            self@.wf(),
    {
        proof {
            use_type_invariant(self);
        }
        &self.keys
    }

    /// The delay timer.
    pub fn delay_timer(&self) -> (delay: u8)
        ensures
            delay == self@.delay,
            self@.wf(),
    {
        proof {
            use_type_invariant(self);
        }
        self.dt
    }

    /// The sound timer.
    pub fn sound_timer(&self) -> (sound: u8)
        ensures
            sound == self@.sound,
            self@.wf(),
    {
        proof {
            use_type_invariant(self);
        }
        self.st
    }

    /// How this machine interprets the ambiguous instructions.
    pub fn quirks(&self) -> (quirks: Quirks)
        ensures
            quirks == self@.quirks,
            self@.wf(),
    {
        proof {
            use_type_invariant(self);
        }
        self.quirks
    }

    /// Pushes a return address on the stack.
    ///
    /// Fails with `StackOverflow` if all 16 levels are in use; the machine is
    /// then unchanged.
    pub fn push(&mut self, val: u16) -> (r: Result<(), Chip8Error>)
        ensures
            old(self)@.sp < 16 ==> r is Ok && final(self)@ == old(self)@.pushed(val),
            old(self)@.sp >= 16 ==> r == Err::<(), Chip8Error>(Chip8Error::StackOverflow) && final(self)@ == old(self)@,
            final(self)@.wf(),
    {
        proof {
            use_type_invariant(&*self);
        }
        if self.sp >= 16 {
            return Err(Chip8Error::StackOverflow);
        }
        self.stack[self.sp as usize] = val;
        self.sp = self.sp + 1;
        Ok(())
    }

    /// Removes the return address on top of the stack and returns it.
    ///
    /// Fails with `StackUnderflow` if the stack is empty; the machine is then
    /// unchanged.
    pub fn pop(&mut self) -> (r: Result<u16, Chip8Error>)
        ensures
            old(self)@.sp > 0 ==> r == Ok::<u16, Chip8Error>(old(self)@.top()) && final(self)@
                == old(self)@.popped(),
            old(self)@.sp == 0 ==> r == Err::<u16, Chip8Error>(Chip8Error::StackUnderflow)
                && final(self)@ == old(self)@,
            final(self)@.wf(),
    {
        proof {
            use_type_invariant(&*self);
        }
        if self.sp == 0 {
            return Err(Chip8Error::StackUnderflow);
        }
        self.sp = self.sp - 1;
        Ok(self.stack[self.sp as usize])
    }
}

impl Default for Emu {
    fn default() -> (emu: Emu)
        ensures
            emu@ == State::initial(Quirks::standard()),
    {
        Emu::new()
    }
}

impl Emu {
    /// Executes one instruction: fetches the word at the program counter,
    /// decodes it and carries it out. A random instruction draws a new random
    /// byte.
    ///
    /// Fails with `AddressOutOfRange` if the word, or memory that the
    /// instruction reads or writes, lies beyond the last address; with
    /// `UnknownOpcode` if the word is no instruction; with `StackOverflow` or
    /// `StackUnderflow` on a call too many or a return too many. The machine
    /// is then unchanged.
    pub fn cycle(&mut self) -> (r: Result<(), Chip8Error>)
        ensures
            exists|random: u8| obeys(step(old(self)@, random), old(self)@, final(self)@, r),
            !draws_random(old(self)@) ==> obeys(step(old(self)@, 0), old(self)@, final(self)@, r),
            final(self)@.wf(),
    {
        let random: u8 = if self.next_draws_random() {
            random_byte()
        } else {
            0
        };
        self.cycle_with(random)
    }

    /// Executes one instruction as [`Emu::cycle`] does, with `random` as the
    /// byte that a random instruction draws.
    pub fn cycle_with(&mut self, random: u8) -> (r: Result<(), Chip8Error>)
        ensures
            obeys(step(old(self)@, random), old(self)@, final(self)@, r),
            final(self)@.wf(),
    {
        proof {
            use_type_invariant(&*self);
        }
        if self.pc >= 4095 {
            return Err(Chip8Error::AddressOutOfRange);
        }
        let hi: u16 = self.ram[self.pc as usize] as u16;
        let lo: u16 = self.ram[self.pc as usize + 1] as u16;
        let op: u16 = hi * 0x100 + lo;
        match decode(op) {
            Err(e) => Err(e),
            Ok(ins) => self.execute(ins, random),
        }
    }

    /// Whether the word at the program counter is a random instruction.
    fn next_draws_random(&self) -> (yes: bool)
        ensures
            yes == draws_random(self@),
    {
        if self.pc >= 4095 {
            return false;
        }
        let hi: u16 = self.ram[self.pc as usize] as u16;
        let lo: u16 = self.ram[self.pc as usize + 1] as u16;
        match decode(hi * 0x100 + lo) {
            Ok(Instruction::Random { .. }) => true,
            _ => false,
        }
    }

    /// Sets Vx and advances the program counter.
    fn set_reg(&mut self, x: u8, value: u8)
        requires
            x < 16,
            can_fetch(old(self)@),
        ensures
            final(self)@ == setting(old(self)@, x, value),
    {
        proof {
            use_type_invariant(&*self);
        }
        self.v_reg[x as usize] = value;
        self.pc = self.pc + 2;
    }

    /// Sets Vx, then VF, and advances the program counter.
    fn set_reg_and_flag(&mut self, x: u8, value: u8, f: bool)
        requires
            x < 16,
            can_fetch(old(self)@),
        ensures
            final(self)@ == setting_with_flag(old(self)@, x, value, f),
    {
        proof {
            use_type_invariant(&*self);
        }
        self.v_reg[x as usize] = value;
        self.v_reg[15] = if f {
            1
        } else {
            0
        };
        self.pc = self.pc + 2;
    }

    /// Advances the program counter past the current instruction, and past
    /// the next one if `cond` holds.
    fn skip_if(&mut self, cond: bool)
        requires
            can_fetch(old(self)@),
        ensures
            final(self)@ == skipping(old(self)@, cond),
    {
        proof {
            use_type_invariant(&*self);
        }
        self.pc = if cond {
            self.pc + 4
        } else {
            self.pc + 2
        };
    }

    /// Whether the key whose number is `value` is down.
    fn is_key_down(&self, value: u8) -> (down: bool)
        ensures
            down == self@.key_down(value),
    {
        value < 16 && self.keys[value as usize]
    }

    /// The register that a shift reads.
    fn shift_operand(&self, x: u8, y: u8) -> (src: u8)
        requires
            x < 16,
            y < 16,
        ensures
            src == shift_source(self@, x, y),
    {
        if self.quirks.shift_reads_vy {
            self.v_reg[y as usize]
        } else {
            self.v_reg[x as usize]
        }
    }

    /// The lowest key that is down, if any.
    fn lowest_key_down(&self) -> (found: Option<u8>)
        ensures
            match found {
                Some(k) => first_down(self@.keys) == Some(k as int),
                None => first_down(self@.keys) is None,
            },
    {
        let mut k: u8 = 0;
        while k < 16
            invariant
                k <= 16,
                forall|j: int| 0 <= j < k ==> !#[trigger] self.keys@[j],
            decreases 16 - k,
        {
            if self.keys[k as usize] {
                proof {
                    assert(is_first_down(self.keys@, k as int));
                    let c = choose|c: int| is_first_down(self.keys@, c);
                    assert(is_first_down(self.keys@, c));
                    if c < k {
                        assert(!self.keys@[c]);
                    }
                    if k < c {
                        assert(!self.keys@[k as int]);
                    }
                }
                return Some(k);
            }
            k = k + 1;
        }
        proof {
            assert forall|c: int| !is_first_down(self.keys@, c) by {
                if 0 <= c < 16 {
                    assert(!self.keys@[c]);
                }
            }
        }
        None
    }

    /// Draws the sprite of a draw instruction and records the collision in VF.
    fn draw(&mut self, x: u8, y: u8, rows: u8) -> (r: Result<(), Chip8Error>)
        requires
            x < 16,
            y < 16,
            rows < 16,
            can_fetch(old(self)@),
        ensures
            obeys(
                run(old(self)@, Instruction::Draw { x, y, rows }, 0),
                old(self)@,
                final(self)@,
                r,
            ),
    {
        proof {
            use_type_invariant(&*self);
        }
        let ghost sprite = sprite_of(self@, x, y, rows);
        if rows == 0 {
            proof {
                assert(sprite.drawn_on(self@.screen) =~= self@.screen);
                assert(!sprite.collides_with(self@.screen));
            }
            self.v_reg[15] = 0;
            self.pc = self.pc + 2;
            return Ok(());
        }
        if self.i_reg as usize + rows as usize > 4096 {
            return Err(Chip8Error::AddressOutOfRange);
        }
        let vx: u8 = self.v_reg[x as usize];
        let vy: u8 = self.v_reg[y as usize];
        let hit: bool = draw_sprite(
            &mut self.screen,
            &self.ram,
            self.i_reg as usize,
            rows as usize,
            vx,
            vy,
            self.quirks.sprite_wraps,
        );
        self.v_reg[15] = if hit {
            1
        } else {
            0
        };
        self.pc = self.pc + 2;
        Ok(())
    }

    /// Stores the hundreds, tens and units digit of Vx at the index address.
    fn store_bcd(&mut self, x: u8) -> (r: Result<(), Chip8Error>)
        requires
            x < 16,
            can_fetch(old(self)@),
        ensures
            obeys(run(old(self)@, Instruction::StoreBcd { x }, 0), old(self)@, final(self)@, r),
    {
        proof {
            use_type_invariant(&*self);
        }
        if self.i_reg as usize + 3 > 4096 {
            return Err(Chip8Error::AddressOutOfRange);
        }
        let value: u8 = self.v_reg[x as usize];
        let at: usize = self.i_reg as usize;
        self.ram[at] = value / 100;
        self.ram[at + 1] = (value / 10) % 10;
        self.ram[at + 2] = value % 10;
        self.pc = self.pc + 2;
        Ok(())
    }

    /// Stores V0 to Vx at the index address.
    fn store_regs(&mut self, x: u8) -> (r: Result<(), Chip8Error>)
        requires
            x < 16,
            can_fetch(old(self)@),
        ensures
            obeys(run(old(self)@, Instruction::StoreRegs { x }, 0), old(self)@, final(self)@, r),
    {
        proof {
            use_type_invariant(&*self);
        }
        if self.i_reg as usize + x as usize + 1 > 4096 {
            return Err(Chip8Error::AddressOutOfRange);
        }
        let at: usize = self.i_reg as usize;
        let mut j: usize = 0;
        while j <= x as usize
            invariant
                j <= x + 1,
                x < 16,
                at + x + 1 <= 4096,
                at == old(self).i_reg,
                forall|a: int| at <= a < at + j ==> self.ram@[a] == old(self).v_reg@[a - at],
                forall|a: int| 0 <= a < at || at + j <= a < 4096 ==> self.ram@[a] == old(self).ram@[a],
                self.pc == old(self).pc,
                self.screen == old(self).screen,
                self.v_reg == old(self).v_reg,
                self.i_reg == old(self).i_reg,
                self.sp == old(self).sp,
                self.stack == old(self).stack,
                self.keys == old(self).keys,
                self.dt == old(self).dt,
                self.st == old(self).st,
                self.quirks == old(self).quirks,
                self.sp <= 16,
            decreases x + 1 - j,
        {
            self.ram[at + j] = self.v_reg[j];
            j = j + 1;
        }
        self.pc = self.pc + 2;
        assert(self@.ram =~= effect(old(self)@, Instruction::StoreRegs { x }, 0).ram);
        Ok(())
    }

    /// Loads V0 to Vx from the index address.
    fn load_regs(&mut self, x: u8) -> (r: Result<(), Chip8Error>)
        requires
            x < 16,
            can_fetch(old(self)@),
        ensures
            obeys(run(old(self)@, Instruction::LoadRegs { x }, 0), old(self)@, final(self)@, r),
    {
        proof {
            use_type_invariant(&*self);
        }
        if self.i_reg as usize + x as usize + 1 > 4096 {
            return Err(Chip8Error::AddressOutOfRange);
        }
        let at: usize = self.i_reg as usize;
        let mut j: usize = 0;
        while j <= x as usize
            invariant
                j <= x + 1,
                x < 16,
                at + x + 1 <= 4096,
                at == old(self).i_reg,
                forall|i: int| 0 <= i < j ==> self.v_reg@[i] == old(self).ram@[at + i],
                forall|i: int| j <= i < 16 ==> self.v_reg@[i] == old(self).v_reg@[i],
                self.pc == old(self).pc,
                self.screen == old(self).screen,
                self.ram == old(self).ram,
                self.i_reg == old(self).i_reg,
                self.sp == old(self).sp,
                self.stack == old(self).stack,
                self.keys == old(self).keys,
                self.dt == old(self).dt,
                self.st == old(self).st,
                self.quirks == old(self).quirks,
                self.sp <= 16,
            decreases x + 1 - j,
        {
            self.v_reg[j] = self.ram[at + j];
            j = j + 1;
        }
        self.pc = self.pc + 2;
        assert(self@.v =~= effect(old(self)@, Instruction::LoadRegs { x }, 0).v);
        Ok(())
    }

    /// Carries out an instruction that moves the program counter and nothing
    /// else but the stack or the framebuffer as a whole.
    fn execute_control(&mut self, ins: Instruction) -> (r: Result<(), Chip8Error>)
        requires
            ins.wf(),
            is_control(ins),
            can_fetch(old(self)@),
        ensures
            obeys(run(old(self)@, ins, 0), old(self)@, final(self)@, r),
    {
        proof {
            use_type_invariant(&*self);
        }
        match ins {
            Instruction::ClearScreen => {
                self.screen = [false; 2048];
                self.pc = self.pc + 2;
                assert(self@.screen =~= effect(old(self)@, ins, 0).screen);
                Ok(())
            },
            Instruction::Return => {
                match self.pop() {
                    Ok(addr) => {
                        self.pc = addr;
                        Ok(())
                    },
                    Err(e) => Err(e),
                }
            },
            Instruction::Jump { addr } => {
                self.pc = addr;
                Ok(())
            },
            Instruction::Call { addr } => {
                match self.push(self.pc + 2) {
                    Ok(()) => {
                        self.pc = addr;
                        Ok(())
                    },
                    Err(e) => Err(e),
                }
            },
            Instruction::JumpOffset { addr } => {
                self.pc = addr + self.v_reg[0] as u16;
                Ok(())
            },
            Instruction::SkipEqConst { x, byte } => {
                self.skip_if(self.v_reg[x as usize] == byte);
                Ok(())
            },
            Instruction::SkipNeConst { x, byte } => {
                self.skip_if(self.v_reg[x as usize] != byte);
                Ok(())
            },
            Instruction::SkipEqReg { x, y } => {
                self.skip_if(self.v_reg[x as usize] == self.v_reg[y as usize]);
                Ok(())
            },
            Instruction::SkipNeReg { x, y } => {
                self.skip_if(self.v_reg[x as usize] != self.v_reg[y as usize]);
                Ok(())
            },
            Instruction::SkipKeyDown { x } => {
                let down: bool = self.is_key_down(self.v_reg[x as usize]);
                self.skip_if(down);
                Ok(())
            },
            Instruction::SkipKeyUp { x } => {
                let down: bool = self.is_key_down(self.v_reg[x as usize]);
                self.skip_if(!down);
                Ok(())
            },
            _ => Ok(()),
        }
    }

    /// Carries out an instruction that computes a value for Vx from
    /// registers, a constant, a timer or the random byte.
    fn execute_register(&mut self, ins: Instruction, random: u8)
        requires
            ins.wf(),
            is_register(ins),
            can_fetch(old(self)@),
        ensures
            fault(old(self)@, ins) is None,
            final(self)@ == effect(old(self)@, ins, random),
    {
        proof {
            use_type_invariant(&*self);
        }
        match ins {
            Instruction::LoadConst { x, byte } => {
                self.set_reg(x, byte);
            },
            Instruction::AddConst { x, byte } => {
                let sum: u16 = self.v_reg[x as usize] as u16 + byte as u16;
                self.set_reg(x, (sum % 256) as u8);
            },
            Instruction::Copy { x, y } => {
                self.set_reg(x, self.v_reg[y as usize]);
            },
            Instruction::Or { x, y } => {
                self.set_reg(x, self.v_reg[x as usize] | self.v_reg[y as usize]);
            },
            Instruction::And { x, y } => {
                self.set_reg(x, self.v_reg[x as usize] & self.v_reg[y as usize]);
            },
            Instruction::Xor { x, y } => {
                self.set_reg(x, self.v_reg[x as usize] ^ self.v_reg[y as usize]);
            },
            Instruction::AddReg { x, y } => {
                let sum: u16 = self.v_reg[x as usize] as u16 + self.v_reg[y as usize] as u16;
                self.set_reg_and_flag(x, (sum % 256) as u8, sum > 255);
            },
            Instruction::SubReg { x, y } => {
                let a: u8 = self.v_reg[x as usize];
                let b: u8 = self.v_reg[y as usize];
                let diff: u16 = (256 + a as u16 - b as u16) % 256;
                self.set_reg_and_flag(x, diff as u8, a >= b);
            },
            Instruction::SubFrom { x, y } => {
                let a: u8 = self.v_reg[y as usize];
                let b: u8 = self.v_reg[x as usize];
                let diff: u16 = (256 + a as u16 - b as u16) % 256;
                self.set_reg_and_flag(x, diff as u8, a >= b);
            },
            Instruction::ShiftRight { x, y } => {
                let src: u8 = self.shift_operand(x, y);
                self.set_reg_and_flag(x, src / 2, src % 2 == 1);
            },
            Instruction::ShiftLeft { x, y } => {
                let src: u8 = self.shift_operand(x, y);
                self.set_reg_and_flag(x, ((src as u16 * 2) % 256) as u8, src >= 128);
            },
            Instruction::Random { x, byte } => {
                self.set_reg(x, random & byte);
            },
            Instruction::ReadDelay { x } => {
                self.set_reg(x, self.dt);
            },
            Instruction::WaitKey { x } => {
                match self.lowest_key_down() {
                    Some(k) => {
                        self.set_reg(x, k);
                    },
                    None => {},
                }
            },
            _ => {},
        }
    }

    /// Carries out an instruction that sets the index register or a timer.
    fn execute_setting(&mut self, ins: Instruction)
        requires
            ins.wf(),
            is_setting(ins),
            can_fetch(old(self)@),
        ensures
            fault(old(self)@, ins) is None,
            final(self)@ == effect(old(self)@, ins, 0),
    {
        proof {
            use_type_invariant(&*self);
        }
        match ins {
            Instruction::LoadIndex { addr } => {
                self.i_reg = addr;
            },
            Instruction::SetDelay { x } => {
                self.dt = self.v_reg[x as usize];
            },
            Instruction::SetSound { x } => {
                self.st = self.v_reg[x as usize];
            },
            Instruction::AddIndex { x } => {
                let sum: u32 = self.i_reg as u32 + self.v_reg[x as usize] as u32;
                self.i_reg = (sum % 0x10000) as u16;
                if self.quirks.index_add_sets_flag {
                    self.v_reg[15] = if sum > 0xFFF {
                        1
                    } else {
                        0
                    };
                }
            },
            Instruction::FontAddr { x } => {
                let digit: u16 = (self.v_reg[x as usize] % 16) as u16;
                self.i_reg = FONT_BASE + GLYPH_BYTES * digit;
            },
            _ => {},
        }
        self.pc = self.pc + 2;
    }

    /// Carries out a decoded instruction whose word was fetched at the
    /// program counter.
    fn execute(&mut self, ins: Instruction, random: u8) -> (r: Result<(), Chip8Error>)
        requires
            ins.wf(),
            can_fetch(old(self)@),
        ensures
            obeys(run(old(self)@, ins, random), old(self)@, final(self)@, r),
    {
        match ins {
            Instruction::ClearScreen
            | Instruction::Return
            | Instruction::Jump { .. }
            | Instruction::Call { .. }
            | Instruction::JumpOffset { .. }
            | Instruction::SkipEqConst { .. }
            | Instruction::SkipNeConst { .. }
            | Instruction::SkipEqReg { .. }
            | Instruction::SkipNeReg { .. }
            | Instruction::SkipKeyDown { .. }
            | Instruction::SkipKeyUp { .. } => self.execute_control(ins),
            Instruction::LoadIndex { .. }
            | Instruction::SetDelay { .. }
            | Instruction::SetSound { .. }
            | Instruction::AddIndex { .. }
            | Instruction::FontAddr { .. } => {
                self.execute_setting(ins);
                Ok(())
            },
            Instruction::Draw { x, y, rows } => self.draw(x, y, rows),
            Instruction::StoreBcd { x } => self.store_bcd(x),
            Instruction::StoreRegs { x } => self.store_regs(x),
            Instruction::LoadRegs { x } => self.load_regs(x),
            _ => {
                self.execute_register(ins, random);
                Ok(())
            },
        }
    }
}

/// The instruction only moves the program counter, the stack or the whole
/// framebuffer.
spec fn is_control(ins: Instruction) -> bool {
    ins is ClearScreen || ins is Return || ins is Jump || ins is Call || ins is JumpOffset
        || ins is SkipEqConst || ins is SkipNeConst || ins is SkipEqReg || ins is SkipNeReg
        || ins is SkipKeyDown || ins is SkipKeyUp
}

/// The instruction sets the index register or a timer.
spec fn is_setting(ins: Instruction) -> bool {
    ins is LoadIndex || ins is SetDelay || ins is SetSound || ins is AddIndex || ins is FontAddr
}

/// The instruction touches memory or the framebuffer cell by cell.
spec fn is_bulk(ins: Instruction) -> bool {
    ins is Draw || ins is StoreBcd || ins is StoreRegs || ins is LoadRegs
}

/// The instruction computes a value for Vx.
spec fn is_register(ins: Instruction) -> bool {
    !is_control(ins) && !is_setting(ins) && !is_bulk(ins)
}

} // verus!
