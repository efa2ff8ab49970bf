//! Laws of the machine: what holds of every state, stated over the model
//! that the contracts of the processor's functions use.

use crate::cpu::model::Machine;
use crate::cpu::opcodes::{decode, nibbles, Opcode};
use crate::cpu::ProcState;
use vstd::prelude::*;

verus! {

/// Whether the operands of an instruction are as wide as the instruction
/// word allows: registers and nibbles below 16, addresses below 4096.
pub open spec fn operands_fit(op: Opcode) -> bool {
    match op {
        Opcode::CLS | Opcode::RET => true,
        Opcode::JP { addr } | Opcode::CALL { addr } | Opcode::LDIAddr { addr } | Opcode::JPV0Addr {
            addr,
        } => addr < 0x1000,
        Opcode::SEVxByte { x, .. } | Opcode::SNEVxByte { x, .. } | Opcode::LDVxByte { x, .. }
        | Opcode::ADDVxByte { x, .. } | Opcode::RNDVxByte { x, .. } | Opcode::SKPVx { x }
        | Opcode::SKNPVx { x } | Opcode::LDVxDT { x } | Opcode::LDVxK { x } | Opcode::LDDTVx { x }
        | Opcode::LDSTVx { x } | Opcode::ADDIVx { x } | Opcode::LDFVx { x } | Opcode::LDBVx { x }
        | Opcode::LDIVx { x } | Opcode::LDVxI { x } => x < 16,
        Opcode::SEVxVy { x, y } | Opcode::LDVxVy { x, y } | Opcode::ORVxVy { x, y }
        | Opcode::ANDVxVy { x, y } | Opcode::XORVxVy { x, y } | Opcode::ADDVxVy { x, y }
        | Opcode::SUBVxVy { x, y } | Opcode::SHRVxVy { x, y } | Opcode::SUBNVxVy { x, y }
        | Opcode::SHLVxVy { x, y } | Opcode::SNEVxVy { x, y } => x < 16 && y < 16,
        Opcode::DRW { x, y, nibble } => x < 16 && y < 16 && nibble < 16,
        Opcode::UNKNOWN { opcode } => opcode.0 < 16 && opcode.1 < 16 && opcode.2 < 16 && opcode.3
            < 16,
    }
}

/// Decoding is a function of the word alone: equal words decode to equal
/// instructions. Every operand of a decoded instruction fits its field, and
/// a word outside the instruction table decodes to `UNKNOWN` with the
/// word's own four digits.
pub proof fn lemma_decode_is_a_function(a: u16, b: u16)
    requires
        a == b,
    ensures
        decode(a) == decode(b),
        operands_fit(decode(a)),
        decode(a) is UNKNOWN ==> decode(a) == (Opcode::UNKNOWN { opcode: nibbles(a) }),
{
}

/// A value that was pushed is the one that the next pop returns, and that
/// pop leaves the stack as it was before the push. A push finds room exactly
/// while fewer than sixteen values are on the stack, and a pop finds a value
/// exactly while the stack is not empty.
pub proof fn lemma_push_then_pop(m: Machine, val: u16)
    requires
        m.wf(),
    ensures
        m.can_push() <==> m.stack.len() < 16,
        m.can_pop() <==> m.stack.len() > 0,
        m.push(val).can_pop(),
        m.push(val).top() == val,
        m.push(val).pop() == m,
        m.push(val).stack.len() == m.stack.len() + 1,
{
    assert(m.push(val).pop().stack =~= m.stack);
}

/// Storing registers V0 to V`x` writes exactly the `x + 1` bytes from the
/// index register on, one register each, and no other byte of memory.
pub proof fn lemma_store_regs_writes_exactly(m: Machine, x: u8)
    requires
        m.wf(),
        x < 16,
        m.i + x < 4096,
    ensures
        m.store_regs(x).mem.len() == 4096,
        forall|k: int| 0 <= k <= x ==> #[trigger] m.store_regs(x).mem[m.i + k] == m.v[k],
        forall|a: int|
            0 <= a < 4096 && !(m.i <= a <= m.i + x) ==> #[trigger] m.store_regs(x).mem[a]
                == m.mem[a],
        m.store_regs(x).v == m.v,
{
}

/// Drawing the same sprite twice at the same place restores the display.
/// Every display pixel under a set sprite pixel is flipped by the first draw;
/// where such a pixel was off, the second draw turns it off again and
/// reports the collision in VF.
///
/// The registers that hold the place must not be VF, which the first draw
/// overwrites.
pub proof fn lemma_draw_twice(m: Machine, x: u8, y: u8, n: u8)
    requires
        m.wf(),
        x < 15,
        y < 15,
    ensures
        m.draw(x, y, n).draw(x, y, n).screen == m.screen,
        forall|r: int, c: int|
            0 <= r < 32 && 0 <= c < 64 && m.sprite_pixel(m.v[x as int], m.v[y as int], n, r, c)
                ==> #[trigger] m.draw(x, y, n).screen[r][c] == !m.screen[r][c],
        forall|r: int, c: int|
            0 <= r < 32 && 0 <= c < 64 && m.sprite_pixel(m.v[x as int], m.v[y as int], n, r, c)
                && !#[trigger] m.screen[r][c] ==> m.draw(x, y, n).draw(x, y, n).v[0xF] == 1,
{
    let left = m.v[x as int];
    let top = m.v[y as int];
    let once = m.draw(x, y, n);
    let twice = once.draw(x, y, n);
    assert(once.v[x as int] == left && once.v[y as int] == top);
    assert forall|r: int, c: int| 0 <= r < 32 && 0 <= c < 64 implies once.sprite_pixel(
        left,
        top,
        n,
        r,
        c,
    ) == m.sprite_pixel(left, top, n, r, c) by {}
    assert(twice.screen =~~= m.screen);
    assert forall|r: int, c: int|
        0 <= r < 32 && 0 <= c < 64 && m.sprite_pixel(left, top, n, r, c)
            && !#[trigger] m.screen[r][c] implies twice.v[0xF] == 1 by {
        assert(once.screen[r][c] && once.sprite_pixel(left, top, n, r, c));
        assert(once.sprite_collides(left, top, n));
    }
}

/// The model of a processor state whose stack pointer is in range has the
/// proper shape, with as many addresses on its stack as the stack pointer
/// says.
pub proof fn lemma_view_has_shape(state: ProcState)
    requires
        state.wf(),
    ensures
        state@.wf(),
        state@.stack.len() == state.sp,
{
}

/// Every instruction that is defined in a state of the proper shape leaves a
/// state of the proper shape: memory, registers and display keep their
/// sizes, and the stack holds at most sixteen addresses.
pub proof fn lemma_execute_keeps_shape(m: Machine, op: Opcode, random: u8)
    requires
        m.wf(),
        m.can_execute(op),
    ensures
        m.execute(op, random) matches Ok(next) ==> next.wf(),
{
}

/// No instruction but `CLS` and `DRW` changes the display.
pub proof fn lemma_display_changes_only_by_cls_and_drw(m: Machine, op: Opcode, random: u8)
    requires
        op !is CLS,
        op !is DRW,
    ensures
        m.execute(op, random) matches Ok(next) ==> next.screen == m.screen,
{
}

/// A timer tick takes at most one from each timer and never takes a timer
/// below 0: a timer at 0 stays at 0.
pub proof fn lemma_tick_saturates(m: Machine)
    ensures
        m.delay == 0 ==> m.tick().delay == 0,
        m.sound == 0 ==> m.tick().sound == 0,
        m.delay > 0 ==> m.tick().delay == m.delay - 1,
        m.sound > 0 ==> m.tick().sound == m.sound - 1,
{
}

/// While no key is down, the instruction that waits for a key holds the
/// machine in place: after any number of cycles the program counter is where
/// it was, so that the same instruction is fetched again, and registers,
/// index register, memory, stack and display are unchanged.
pub proof fn lemma_key_wait_holds(m: Machine, x: u8, inputs: Seq<(Option<u8>, u8)>)
    requires
        m.wf(),
        m.can_fetch(),
        m.fetched() == (Opcode::LDVxK { x }),
        forall|j: int| 0 <= j < inputs.len() ==> (#[trigger] inputs[j]).0 is None,
    ensures
        m.run(inputs) is Ok,
        m.run(inputs).unwrap().pc == m.pc,
        m.run(inputs).unwrap().fetched() == m.fetched(),
        m.run(inputs).unwrap().v == m.v,
        m.run(inputs).unwrap().i == m.i,
        m.run(inputs).unwrap().mem == m.mem,
        m.run(inputs).unwrap().stack == m.stack,
        m.run(inputs).unwrap().screen == m.screen,
    decreases inputs.len(),
{
    if inputs.len() > 0 {
        lemma_key_wait_holds(m, x, inputs.drop_last());
    }
}

/// Once a key is down, the instruction that waits for a key ends the wait
/// in that cycle: the program counter moves on to the next instruction and
/// register `x` holds the key.
pub proof fn lemma_key_wait_ends(m: Machine, x: u8, key: u8, random: u8)
    requires
        m.wf(),
        m.can_fetch(),
        x < 16,
        m.fetched() == (Opcode::LDVxK { x }),
    ensures
        m.cycle(Some(key), random) is Ok,
        m.cycle(Some(key), random).unwrap().pc == m.pc + 2,
        m.cycle(Some(key), random).unwrap().v[x as int] == key,
{
}

} // verus!
