//! Properties of the machine that hold for every state and every input.

use vstd::prelude::*;
use crate::display::Sprite;
use crate::error::Chip8Error;
use crate::font::font;
use crate::model::State;
use crate::opcode::{decode_spec, lemma_decode_sound, Instruction};
use crate::quirks::Quirks;
use crate::semantics::{can_fetch, draws_random, effect, fault, flag, run, sprite_of, step};

verus! {

/// The state after `n` timer ticks.
pub open spec fn ticked_times(s: State, n: nat) -> State
    decreases n,
{
    if n == 0 {
        s
    } else {
        ticked_times(s, (n - 1) as nat).ticked()
    }
}

/// A machine just built or reset holds the font in its first 80 bytes and
/// zero in the rest of memory, has its program counter at 0x200, every
/// register, timer and stack slot at zero, an empty stack, a dark screen, no
/// key down, and is silent.
pub proof fn lemma_initial_state(quirks: Quirks)
    ensures
        ({
            let s = State::initial(quirks);
            &&& s.wf()
            &&& s.ram.subrange(0, 80) == font()
            &&& forall|a: int| 80 <= a < 4096 ==> s.ram[a] == 0
            &&& s.pc == 0x200
            &&& s.index == 0
            &&& forall|i: int| 0 <= i < 16 ==> s.v[i] == 0
            &&& forall|i: int| 0 <= i < 16 ==> s.stack[i] == 0
            &&& s.sp == 0
            &&& s.delay == 0
            &&& s.sound == 0
            &&& forall|p: int| 0 <= p < 2048 ==> !s.screen[p]
            &&& forall|k: int| 0 <= k < 16 ==> !s.keys[k]
            &&& !s.sound_active()
            &&& s.quirks == quirks
        }),
{
    let s = State::initial(quirks);
    assert(font().len() == 80);
    assert(s.ram.subrange(0, 80) =~= font());
}

/// A program that fits is found byte for byte from address 0x200 on; the
/// rest of memory and the rest of the machine are as before.
pub proof fn lemma_loaded_program(s: State, program: Seq<u8>)
    requires
        s.wf(),
        State::fits(program),
    ensures
        ({
            let t = s.loaded(program);
            &&& t.wf()
            &&& forall|i: int| 0 <= i < program.len() ==> t.ram[0x200 + i] == program[i]
            &&& t.ram.subrange(0x200, 0x200 + program.len() as int) == program
            &&& forall|a: int|
                0 <= a < 0x200 || 0x200 + program.len() <= a < 4096 ==> t.ram[a] == s.ram[a]
            &&& t == State { ram: t.ram, ..s }
        }),
{
    let t = s.loaded(program);
    assert(t.ram.subrange(0x200, 0x200 + program.len() as int) =~= program);
}

/// After `n` ticks each timer is `n` less, or 0 if it was less than `n`;
/// nothing else has changed. So a tone plays after `n` ticks exactly if the
/// sound timer was more than `n`.
pub proof fn lemma_timer_decay(s: State, n: nat)
    ensures
        ({
            let t = ticked_times(s, n);
            &&& t.delay == if s.delay >= n {
                s.delay - n
            } else {
                0
            }
            &&& t.sound == if s.sound >= n {
                s.sound - n
            } else {
                0
            }
            &&& t.sound_active() <==> s.sound > n
            &&& t == State { delay: t.delay, sound: t.sound, ..s }
        }),
    decreases n,
{
    if n > 0 {
        lemma_timer_decay(s, (n - 1) as nat);
    }
}

/// Pushing an address and popping again gives the address back and leaves
/// the stack pointer and every slot in use as they were.
pub proof fn lemma_push_then_pop(s: State, addr: u16)
    requires
        s.wf(),
        s.sp < 16,
    ensures
        s.pushed(addr).wf(),
        s.pushed(addr).top() == addr,
        s.pushed(addr).popped().sp == s.sp,
        forall|i: int| 0 <= i < s.sp ==> s.pushed(addr).popped().stack[i] == s.stack[i],
{
}

/// A call can be executed exactly when fewer than 16 levels are in use, and
/// fails with `StackOverflow` otherwise; a return exactly when a level is in
/// use, and fails with `StackUnderflow` otherwise.
pub proof fn lemma_stack_discipline(s: State, addr: u16, random: u8)
    ensures
        s.sp < 16 <==> run(s, Instruction::Call { addr }, random) is Ok,
        s.sp >= 16 <==> run(s, Instruction::Call { addr }, random) == Err::<State, Chip8Error>(
            Chip8Error::StackOverflow,
        ),
        s.sp > 0 <==> run(s, Instruction::Return, random) is Ok,
        s.sp == 0 <==> run(s, Instruction::Return, random) == Err::<State, Chip8Error>(
            Chip8Error::StackUnderflow,
        ),
{
}

/// A cycle that executes a call, followed by a cycle that executes a return,
/// ends with the program counter behind the call's two bytes and the stack
/// pointer where it was. Registers, memory, timers, screen and keys are
/// untouched.
pub proof fn lemma_call_then_return(s: State, addr: u16, r1: u8, r2: u8)
    requires
        s.wf(),
        s.sp < 16,
        can_fetch(s),
        decode_spec(s.opcode()) == Some(Instruction::Call { addr }),
        step(s, r1) matches Ok(t) && can_fetch(t) && decode_spec(t.opcode()) == Some(
            Instruction::Return,
        ),
    ensures
        step(s, r1) matches Ok(t) && step(t, r2) matches Ok(u) && {
            &&& u.pc == s.pc + 2
            &&& u.sp == s.sp
            &&& u == State { pc: u.pc, stack: s.stack.update(s.sp as int, u.pc), ..s }
        },
{
}

/// Drawing a sprite twice on the same spot gives the screen back as it was.
/// The second draw reports a collision exactly if the sprite has a set bit
/// over a pixel that was dark before the first draw.
pub proof fn lemma_draw_twice(sprite: Sprite, screen: Seq<bool>)
    requires
        screen.len() == 2048,
    ensures
        sprite.drawn_on(sprite.drawn_on(screen)) == screen,
        sprite.collides_with(sprite.drawn_on(screen)) <==> exists|p: int|
            0 <= p < 2048 && sprite.lights_cell(p) && !#[trigger] screen[p],
{
    let once = sprite.drawn_on(screen);
    assert(sprite.drawn_on(once) =~= screen);
    if sprite.collides_with(once) {
        let p = choose|p: int| 0 <= p < 2048 && #[trigger] once[p] && sprite.lights_cell(p);
        assert(sprite.lights_cell(p) && !screen[p]);
    }
    if exists|p: int| 0 <= p < 2048 && sprite.lights_cell(p) && !#[trigger] screen[p] {
        let p = choose|p: int| 0 <= p < 2048 && sprite.lights_cell(p) && !#[trigger] screen[p];
        assert(once[p] && sprite.lights_cell(p));
    }
}

/// A sprite without a set bit on the screen leaves the screen as it is and
/// collides with nothing.
pub proof fn lemma_draw_nothing(sprite: Sprite, screen: Seq<bool>)
    requires
        screen.len() == 2048,
        forall|p: int| 0 <= p < 2048 ==> !sprite.lights_cell(p),
    ensures
        sprite.drawn_on(screen) == screen,
        !sprite.collides_with(screen),
{
    assert(sprite.drawn_on(screen) =~= screen);
}

/// Two draw instructions with the same operands, executed one after the
/// other on a screen where the sprite covers a dark pixel, and with neither
/// coordinate held in VF: the screen is as before and VF is 1.
pub proof fn lemma_draw_instruction_twice(s: State, x: u8, y: u8, rows: u8, r1: u8, r2: u8)
    requires
        s.wf(),
        x < 15,
        y < 15,
        rows < 16,
        fault(s, Instruction::Draw { x, y, rows }) is None,
        exists|p: int|
            0 <= p < 2048 && sprite_of(s, x, y, rows).lights_cell(p) && !#[trigger] s.screen[p],
    ensures
        ({
            let ins = Instruction::Draw { x, y, rows };
            let once = effect(s, ins, r1);
            let twice = effect(once, ins, r2);
            &&& fault(once, ins) is None
            &&& twice.screen == s.screen
            &&& twice.v[15] == 1
            &&& forall|i: int| 0 <= i < 15 ==> twice.v[i] == s.v[i]
        }),
{
    let ins = Instruction::Draw { x, y, rows };
    let once = effect(s, ins, r1);
    let sprite = sprite_of(s, x, y, rows);
    assert(sprite_of(once, x, y, rows) == sprite);
    lemma_draw_twice(sprite, s.screen);
}

/// Adding a constant to a register wraps modulo 256 and touches no other
/// register: the flag register keeps its value unless it is the target.
pub proof fn lemma_add_constant(s: State, x: u8, byte: u8, random: u8)
    requires
        s.wf(),
        x < 16,
    ensures
        ({
            let t = effect(s, Instruction::AddConst { x, byte }, random);
            &&& t.v[x as int] == (s.v[x as int] + byte) % 256
            &&& forall|i: int| 0 <= i < 16 && i != x ==> t.v[i] == s.v[i]
        }),
{
}

/// Adding two registers wraps modulo 256 and sets VF to 1 if the sum is more
/// than 255 and to 0 otherwise. With VF as the target, VF holds the flag.
pub proof fn lemma_add_registers(s: State, x: u8, y: u8, random: u8)
    requires
        s.wf(),
        x < 16,
        y < 16,
    ensures
        ({
            let t = effect(s, Instruction::AddReg { x, y }, random);
            let sum = s.v[x as int] + s.v[y as int];
            &&& x != 15 ==> t.v[x as int] == sum % 256
            &&& t.v[15] == flag(sum > 255)
            &&& forall|i: int| 0 <= i < 15 && i != x ==> t.v[i] == s.v[i]
        }),
{
}

/// Subtracting wraps modulo 256 and sets VF to 1 if the minuend is at least
/// the subtrahend and to 0 otherwise, in either order of the operands.
pub proof fn lemma_subtract_registers(s: State, x: u8, y: u8, random: u8)
    requires
        s.wf(),
        x < 15,
        y < 16,
    ensures
        ({
            let vx = s.v[x as int];
            let vy = s.v[y as int];
            let t = effect(s, Instruction::SubReg { x, y }, random);
            let u = effect(s, Instruction::SubFrom { x, y }, random);
            &&& t.v[x as int] == if vx >= vy {
                vx - vy
            } else {
                vx - vy + 256
            }
            &&& t.v[15] == flag(vx >= vy)
            &&& u.v[x as int] == if vy >= vx {
                vy - vx
            } else {
                vy - vx + 256
            }
            &&& u.v[15] == flag(vy >= vx)
        }),
{
}

/// A cycle keeps a well-formed state well formed.
pub proof fn lemma_step_preserves_wf(s: State, random: u8)
    requires
        s.wf(),
    ensures
        step(s, random) matches Ok(t) ==> t.wf(),
{
    if can_fetch(s) {
        match decode_spec(s.opcode()) {
            Some(ins) => {
                lemma_decode_sound(s.opcode());
                if fault(s, ins) is None {
                    lemma_effect_preserves_wf(s, ins, random);
                }
            },
            None => {},
        }
    }
}

/// An instruction without a fault keeps a well-formed state well formed.
pub proof fn lemma_effect_preserves_wf(s: State, ins: Instruction, random: u8)
    requires
        s.wf(),
        ins.wf(),
        fault(s, ins) is None,
    ensures
        effect(s, ins, random).wf(),
{
}

/// The program counter and every return address in use are even.
pub open spec fn aligned(s: State) -> bool {
    &&& s.pc % 2 == 0
    &&& forall|i: int| 0 <= i < s.sp ==> #[trigger] s.stack[i] % 2 == 0
}

/// The instruction, if it is a jump or a call, goes to an even address.
pub open spec fn targets_even(s: State, ins: Instruction) -> bool {
    match ins {
        Instruction::Jump { addr } | Instruction::Call { addr } => addr % 2 == 0,
        Instruction::JumpOffset { addr } => (addr + s.v[0]) % 2 == 0,
        _ => true,
    }
}

/// As long as jumps and calls go to even addresses, the program counter and
/// the return addresses in use stay even.
pub proof fn lemma_alignment_kept(s: State, ins: Instruction, random: u8)
    requires
        s.wf(),
        ins.wf(),
        can_fetch(s),
        aligned(s),
        targets_even(s, ins),
        fault(s, ins) is None,
    ensures
        aligned(effect(s, ins, random)),
{
    let t = effect(s, ins, random);
    assert forall|i: int| 0 <= i < t.sp implies #[trigger] t.stack[i] % 2 == 0 by {
        if i < s.sp {
            assert(s.stack[i] % 2 == 0);
        }
    }
}

/// Only a random instruction depends on the random byte.
pub proof fn lemma_random_only_for_random(s: State, r1: u8, r2: u8)
    requires
        !draws_random(s),
    ensures
        step(s, r1) == step(s, r2),
{
}

/// What an instruction leaves alone: no instruction changes the keypad or
/// the configuration; only clear-screen and draw change the screen; only a
/// call or a return changes the stack pointer; only the timer-setting
/// instructions change a timer; only the store instructions change memory.
pub proof fn lemma_untouched(s: State, ins: Instruction, random: u8)
    ensures
        ({
            let t = effect(s, ins, random);
            &&& t.keys == s.keys
            &&& t.quirks == s.quirks
            &&& !(ins is ClearScreen || ins is Draw) ==> t.screen == s.screen
            &&& !(ins is Call || ins is Return) ==> t.sp == s.sp && t.stack == s.stack
            &&& !(ins is SetDelay) ==> t.delay == s.delay
            &&& !(ins is SetSound) ==> t.sound == s.sound
            &&& !(ins is StoreBcd || ins is StoreRegs) ==> t.ram == s.ram
        }),
{
}

} // verus!
