//! The effect of each instruction on the processor state.

use crate::cpu::display::{
    lemma_line_mask_pixel, lemma_nonzero_row, lemma_row_zero, lemma_xor_pixel, line_mask,
    row_pixel,
};
use crate::cpu::model::{blank_screen, wrap8, Machine};
use crate::cpu::opcodes::Opcode;
use crate::cpu::{pixel_of, ProcState};
use crate::fault::Fault;
use vstd::prelude::*;

verus! {

/// The sum of two bytes modulo 256, and whether it carried.
fn add_bytes(a: u8, b: u8) -> (sum: (u8, bool))
    ensures
        sum.0 == wrap8(a + b),
        sum.1 == (a + b > 255),
{
    (a.wrapping_add(b), a as u16 + b as u16 > 255)
}

/// The difference of two bytes modulo 256, and whether it needed no borrow.
fn sub_bytes(a: u8, b: u8) -> (diff: (u8, bool))
    ensures
        diff.0 == wrap8(a - b),
        diff.1 == (a >= b),
{
    (a.wrapping_sub(b), a >= b)
}

/// A byte shifted right by one bit, and the bit that fell off.
fn shr_byte(a: u8) -> (shifted: (u8, u8))
    ensures
        shifted.0 == a / 2,
        shifted.1 == a % 2,
{
    assert(a >> 1 == a / 2 && a & 0x1 == a % 2) by (bit_vector);
    (a >> 1, a & 0x1)
}

/// A byte shifted left by one bit, and the bit that fell off.
fn shl_byte(a: u8) -> (shifted: (u8, u8))
    ensures
        shifted.0 == wrap8(a * 2),
        shifted.1 == a / 128,
{
    assert(a << 1 == ((a * 2) % 256) as u8 && a >> 7 & 0x1 == a / 128) by (bit_vector);
    (a << 1, a >> 7 & 0x1)
}

impl ProcState {
    /// Sets register `x`.
    fn set_reg(&mut self, x: u8, val: u8)
        requires
            x < 16,
        ensures
            final(self).wf() == old(self).wf(),
            final(self)@ == old(self)@.set_reg(x, val),
    {
        self.vreg[x as usize] = val;
    }

    /// Sets the flag register VF to 1 or 0.
    fn set_flag(&mut self, flag: bool)
        ensures
            final(self).wf() == old(self).wf(),
            final(self)@ == old(self)@.set_flag(flag),
    {
        self.set_reg(
            0xF,
            if flag {
                1
            } else {
                0
            },
        );
    }

    /// Passes over the next instruction if `cond` holds.
    fn skip_if(&mut self, cond: bool)
        requires
            cond ==> old(self).pc + 2 <= 0xFFFF,
        ensures
            final(self).wf() == old(self).wf(),
            final(self)@ == old(self)@.skip_if(cond),
    {
        if cond {
            self.skip_next_instruction();
        }
    }

    /// Turns every pixel of the display off.
    fn clear_screen(&mut self)
        ensures
            final(self).wf() == old(self).wf(),
            final(self)@ == (Machine { screen: blank_screen(), ..old(self)@ }),
    {
        self.video_buffer = [0x0;32];
        proof {
            assert forall|r: int, c: int| 0 <= r < 32 && 0 <= c < 64 implies !pixel_of(
                self.video_buffer@,
                r,
                c,
            ) by {
                lemma_row_zero(c as u64);
            }
            assert(self@.screen =~~= blank_screen());
        }
    }

    /// Stores the three decimal digits of `val` at the index register.
    fn store_bcd(&mut self, val: u8)
        requires
            old(self).ireg + 2 < 4096,
        ensures
            final(self).wf() == old(self).wf(),
            final(self)@ == old(self)@.store_bcd(val),
    {
        let hundreds = val / 100;
        let tens = (val - (hundreds * 100)) / 10;
        let ones = val - (hundreds * 100) - (tens * 10);
        self.mem[self.ireg as usize] = hundreds;
        self.mem[(self.ireg as usize) + 1] = tens;
        self.mem[(self.ireg as usize) + 2] = ones;
    }

    /// Stores registers V0 to V`x` in memory from the index register on.
    fn store_regs(&mut self, x: u8)
        requires
            x < 16,
            old(self).ireg + x < 4096,
        ensures
            final(self).wf() == old(self).wf(),
            final(self)@ == old(self)@.store_regs(x),
    {
        let mut k: u8 = 0;
        while k <= x
            invariant
                x < 16,
                k <= x + 1,
                self.ireg + x < 4096,
                self.vreg == old(self).vreg,
                self.ireg == old(self).ireg,
                self.pc == old(self).pc,
                self.sp == old(self).sp,
                self.stack == old(self).stack,
                self.delay_t == old(self).delay_t,
                self.sound_t == old(self).sound_t,
                self.io_queue == old(self).io_queue,
                self.video_buffer == old(self).video_buffer,
                self.clock == old(self).clock,
                forall|a: int|
                    0 <= a < 4096 ==> self.mem@[a] == if self.ireg <= a < self.ireg + k {
                        self.vreg@[a - self.ireg]
                    } else {
                        old(self).mem@[a]
                    },
            decreases x + 1 - k,
        {
            self.mem[(self.ireg as usize) + (k as usize)] = self.vreg[k as usize];
            k += 1;
        }
        assert(self@.mem =~= old(self)@.store_regs(x).mem);
    }

    /// Loads registers V0 to V`x` from memory from the index register on.
    fn load_regs(&mut self, x: u8)
        requires
            x < 16,
            old(self).ireg + x < 4096,
        ensures
            final(self).wf() == old(self).wf(),
            final(self)@ == old(self)@.load_regs(x),
    {
        let mut k: u8 = 0;
        while k <= x
            invariant
                x < 16,
                k <= x + 1,
                self.ireg + x < 4096,
                self.mem == old(self).mem,
                self.ireg == old(self).ireg,
                self.pc == old(self).pc,
                self.sp == old(self).sp,
                self.stack == old(self).stack,
                self.delay_t == old(self).delay_t,
                self.sound_t == old(self).sound_t,
                self.io_queue == old(self).io_queue,
                self.video_buffer == old(self).video_buffer,
                self.clock == old(self).clock,
                forall|j: int|
                    0 <= j < 16 ==> self.vreg@[j] == if j < k {
                        self.mem@[self.ireg + j]
                    } else {
                        old(self).vreg@[j]
                    },
            decreases x + 1 - k,
        {
            self.vreg[k as usize] = self.mem[(self.ireg as usize) + (k as usize)];
            k += 1;
        }
        assert(self@.v =~= old(self)@.load_regs(x).v);
    }

    /// Draws the sprite of `nibble` lines that starts at the index register
    /// at the column in register `x` and the row in register `y`.
    fn draw(&mut self, x: u8, y: u8, nibble: u8)
        requires
            x < 16,
            y < 16,
            old(self).ireg + nibble <= 4096,
        ensures
            final(self).wf() == old(self).wf(),
            final(self)@ == old(self)@.draw(x, y, nibble),
    {
        let left = self.vreg[x as usize];
        let top = self.vreg[y as usize];
        let ghost before = self@;
        let mut collided = false;
        let mut k: u8 = 0;
        while k < nibble
            invariant
                k <= nibble,
                self.ireg + nibble <= 4096,
                before == old(self)@,
                self.mem == old(self).mem,
                self.vreg == old(self).vreg,
                self.ireg == old(self).ireg,
                self.pc == old(self).pc,
                self.sp == old(self).sp,
                self.stack == old(self).stack,
                self.delay_t == old(self).delay_t,
                self.sound_t == old(self).sound_t,
                self.io_queue == old(self).io_queue,
                self.clock == old(self).clock,
                forall|r: int, c: int|
                    0 <= r < 32 && 0 <= c < 64 ==> #[trigger] pixel_of(self.video_buffer@, r, c)
                        == (before.screen[r][c] != before.sprite_pixel(left, top, k, r, c)),
                collided == before.sprite_collides(left, top, k),
            decreases nibble - k,
        {
            let row = top as usize + k as usize;
            if row < 32 {
                let line = self.mem[self.ireg as usize + k as usize];
                let mask = if left >= 64 {
                    0
                } else {
                    ((line as u64) << 56) >> (left as u64)
                };
                let lit = self.video_buffer[row];
                let hit = lit & mask != 0;
                let ghost rows = self.video_buffer@;
                self.video_buffer[row] = lit ^ mask;
                proof {
                    let next = (k + 1) as u8;
                    assert(mask == line_mask(line, left));
                    assert forall|c: int| 0 <= c < 64 implies row_pixel(lit, c as u64)
                        == before.screen[row as int][c] && row_pixel(mask, c as u64)
                        == before.sprite_pixel(left, top, next, row as int, c) && row_pixel(
                        lit & mask,
                        c as u64,
                    ) == (row_pixel(lit, c as u64) && row_pixel(mask, c as u64)) && row_pixel(
                        lit ^ mask,
                        c as u64,
                    ) == (row_pixel(lit, c as u64) != row_pixel(mask, c as u64)) by {
                        assert(pixel_of(rows, row as int, c) == row_pixel(lit, c as u64));
                        lemma_xor_pixel(lit, mask, c as u64);
                        lemma_line_mask_pixel(line, left, c as u64);
                    }
                    assert forall|r: int, c: int| 0 <= r < 32 && 0 <= c < 64 implies pixel_of(
                        self.video_buffer@,
                        r,
                        c,
                    ) == (before.screen[r][c] != before.sprite_pixel(left, top, next, r, c)) by {
                        if r != row {
                            assert(pixel_of(self.video_buffer@, r, c) == pixel_of(rows, r, c));
                        }
                    }
                    if collided {
                        let (r, c) = choose|r: int, c: int|
                            0 <= r < 32 && 0 <= c < 64 && #[trigger] before.screen[r][c]
                                && before.sprite_pixel(left, top, k, r, c);
                        assert(before.screen[r][c] && before.sprite_pixel(left, top, next, r, c));
                    } else if hit {
                        lemma_nonzero_row(lit & mask);
                        let col = choose|col: u64| col < 64 && row_pixel(lit & mask, col);
                        assert(before.screen[row as int][col as int] && before.sprite_pixel(
                            left,
                            top,
                            next,
                            row as int,
                            col as int,
                        ));
                    } else if before.sprite_collides(left, top, next) {
                        let (r, c) = choose|r: int, c: int|
                            0 <= r < 32 && 0 <= c < 64 && #[trigger] before.screen[r][c]
                                && before.sprite_pixel(left, top, next, r, c);
                        if r == row {
                            lemma_nonzero_row(lit & mask);
                            assert(row_pixel(lit & mask, c as u64));
                        } else {
                            assert(before.screen[r][c] && before.sprite_pixel(left, top, k, r, c));
                        }
                    }
                }
                collided = collided || hit;
            } else {
                proof {
                    let next = (k + 1) as u8;
                    assert forall|r: int, c: int| 0 <= r < 32 && 0 <= c < 64 implies before.sprite_pixel(
                        left,
                        top,
                        next,
                        r,
                        c,
                    ) == before.sprite_pixel(left, top, k, r, c) by {}
                    if collided {
                        let (r, c) = choose|r: int, c: int|
                            0 <= r < 32 && 0 <= c < 64 && #[trigger] before.screen[r][c]
                                && before.sprite_pixel(left, top, k, r, c);
                        assert(before.screen[r][c] && before.sprite_pixel(left, top, next, r, c));
                    } else if before.sprite_collides(left, top, next) {
                        let (r, c) = choose|r: int, c: int|
                            0 <= r < 32 && 0 <= c < 64 && #[trigger] before.screen[r][c]
                                && before.sprite_pixel(left, top, next, r, c);
                        assert(before.screen[r][c] && before.sprite_pixel(left, top, k, r, c));
                    }
                }
            }
            k += 1;
        }
        assert(self@.screen =~~= (Machine {
            screen: Seq::new(
                32,
                |r: int|
                    Seq::new(
                        64,
                        |c: int| before.screen[r][c] != before.sprite_pixel(left, top, nibble, r, c),
                    ),
            ),
            ..before
        }).screen);
        self.set_flag(collided);
    }

    /// Sets the program counter.
    fn jump(&mut self, pc: u16)
        ensures
            final(self).wf() == old(self).wf(),
            final(self)@ == old(self)@.jump(pc),
    {
        self.pc = pc;
    }

    /// Executes an instruction that only moves the program counter or the
    /// stack, or that waits for a key.
    fn execute_flow(&mut self, op: Opcode) -> (done: Result<(), Fault>)
        requires
            old(self).wf(),
            old(self)@.can_execute(op),
            is_flow(op),
        ensures
            final(self).wf(),
            match old(self)@.execute(op, 0) {
                Ok(next) => done is Ok && final(self)@ == next,
                Err(fault) => done == Err::<(), Fault>(fault) && *final(self) == *old(self),
            },
    {
        match op {
            Opcode::RET => {
                match self.pop() {
                    Ok(addr) => {
                        self.jump(addr);
                    },
                    Err(fault) => {
                        return Err(fault);
                    },
                }
            },
            Opcode::JP { addr } => {
                self.jump(addr);
            },
            Opcode::CALL { addr } => {
                let cur_pc = self.pc;
                match self.push(cur_pc) {
                    Ok(()) => {
                        self.jump(addr);
                    },
                    Err(fault) => {
                        return Err(fault);
                    },
                }
            },
            Opcode::SEVxByte { x, byte } => {
                self.skip_if(self.vreg[x as usize] == byte);
            },
            Opcode::SNEVxByte { x, byte } => {
                self.skip_if(self.vreg[x as usize] != byte);
            },
            Opcode::SEVxVy { x, y } => {
                self.skip_if(self.vreg[x as usize] == self.vreg[y as usize]);
            },
            Opcode::SNEVxVy { x, y } => {
                self.skip_if(self.vreg[x as usize] != self.vreg[y as usize]);
            },
            Opcode::JPV0Addr { addr } => {
                self.jump((self.vreg[0x0] as u16).wrapping_add(addr));
            },
            Opcode::SKPVx { x } => {
                let vx = self.vreg[x as usize];
                let down = match self.io_queue {
                    None => false,
                    Some(key) => key == vx,
                };
                self.skip_if(down);
            },
            Opcode::SKNPVx { x } => {
                let vx = self.vreg[x as usize];
                let up = match self.io_queue {
                    None => true,
                    Some(key) => key != vx,
                };
                self.skip_if(up);
            },
            Opcode::LDVxK { x } => {
                match self.io_queue {
                    None => {
                        // Stay on this instruction until a key is down.
                        self.jump(self.pc - 2);
                    },
                    Some(key) => {
                        self.set_reg(x, key);
                    },
                }
            },
            _ => {},
        }
        Ok(())
    }

    /// Executes an instruction that computes a register from registers, an
    /// immediate byte or the random byte.
    fn execute_alu(&mut self, op: Opcode, random: u8)
        requires
            old(self)@.can_execute(op),
            is_alu(op),
        ensures
            final(self).wf() == old(self).wf(),
            old(self)@.execute(op, random) == Ok::<Machine, Fault>(final(self)@),
    {
        match op {
            Opcode::LDVxByte { x, byte } => {
                self.set_reg(x, byte);
            },
            Opcode::ADDVxByte { x, byte } => {
                let (val, _) = add_bytes(self.vreg[x as usize], byte);
                self.set_reg(x, val);
            },
            Opcode::LDVxVy { x, y } => {
                self.set_reg(x, self.vreg[y as usize]);
            },
            Opcode::ORVxVy { x, y } => {
                self.set_reg(x, self.vreg[x as usize] | self.vreg[y as usize]);
            },
            Opcode::ANDVxVy { x, y } => {
                self.set_reg(x, self.vreg[x as usize] & self.vreg[y as usize]);
            },
            Opcode::XORVxVy { x, y } => {
                self.set_reg(x, self.vreg[x as usize] ^ self.vreg[y as usize]);
            },
            Opcode::ADDVxVy { x, y } => {
                let (val, carried) = add_bytes(self.vreg[x as usize], self.vreg[y as usize]);
                self.set_reg(x, val);
                self.set_flag(carried);
            },
            Opcode::SUBVxVy { x, y } => {
                let (val, kept) = sub_bytes(self.vreg[x as usize], self.vreg[y as usize]);
                self.set_reg(x, val);
                self.set_flag(kept);
            },
            Opcode::SHRVxVy { x, y: _ } => {
                let (_, low) = shr_byte(self.vreg[x as usize]);
                self.set_reg(0xF, low);
                let (val, _) = shr_byte(self.vreg[x as usize]);
                self.set_reg(x, val);
            },
            Opcode::SUBNVxVy { x, y } => {
                let (val, kept) = sub_bytes(self.vreg[y as usize], self.vreg[x as usize]);
                self.set_reg(x, val);
                self.set_flag(kept);
            },
            Opcode::SHLVxVy { x, y: _ } => {
                let (_, high) = shl_byte(self.vreg[x as usize]);
                self.set_reg(0xF, high);
                let (val, _) = shl_byte(self.vreg[x as usize]);
                self.set_reg(x, val);
            },
            Opcode::RNDVxByte { x, byte } => {
                self.set_reg(x, random & byte);
            },
            _ => {},
        }
    }

    /// Executes an instruction that moves data between registers, timers,
    /// the index register and memory.
    fn execute_transfer(&mut self, op: Opcode)
        requires
            old(self)@.can_execute(op),
            is_transfer(op),
        ensures
            final(self).wf() == old(self).wf(),
            old(self)@.execute(op, 0) == Ok::<Machine, Fault>(final(self)@),
    {
        match op {
            Opcode::LDIAddr { addr } => {
                self.ireg = addr;
            },
            Opcode::LDVxDT { x } => {
                self.set_reg(x, self.delay_t);
            },
            Opcode::LDDTVx { x } => {
                self.delay_t = self.vreg[x as usize];
            },
            Opcode::LDSTVx { x } => {
                self.sound_t = self.vreg[x as usize];
            },
            Opcode::ADDIVx { x } => {
                self.ireg = self.ireg + (self.vreg[x as usize] as u16);
            },
            Opcode::LDFVx { x } => {
                self.ireg = (self.vreg[x as usize] as u16) * 5;
            },
            Opcode::LDBVx { x } => {
                self.store_bcd(self.vreg[x as usize]);
            },
            Opcode::LDIVx { x } => {
                self.store_regs(x);
            },
            Opcode::LDVxI { x } => {
                self.load_regs(x);
            },
            _ => {},
        }
    }

    /// Executes `op`, with `random` as the byte that `RND` draws.
    ///
    /// The state becomes what the instruction makes of it. A return with an
    /// empty stack, a call with a full stack and an unknown instruction are
    /// faults, and leave the state as it is.
    pub fn execute_with_random(&mut self, op: Opcode, random: u8) -> (done: Result<(), Fault>)
        requires
            old(self).wf(),
            old(self)@.can_execute(op),
        ensures
            final(self).wf(),
            old(self).executes_to(op, random, *final(self), done),
    {
        match op {
            Opcode::CLS => {
                self.clear_screen();
                Ok(())
            },
            Opcode::DRW { x, y, nibble } => {
                self.draw(x, y, nibble);
                Ok(())
            },
            Opcode::RET
            | Opcode::JP { .. }
            | Opcode::CALL { .. }
            | Opcode::SEVxByte { .. }
            | Opcode::SNEVxByte { .. }
            | Opcode::SEVxVy { .. }
            | Opcode::SNEVxVy { .. }
            | Opcode::JPV0Addr { .. }
            | Opcode::SKPVx { .. }
            | Opcode::SKNPVx { .. }
            | Opcode::LDVxK { .. } => self.execute_flow(op),
            Opcode::LDVxByte { .. }
            | Opcode::ADDVxByte { .. }
            | Opcode::LDVxVy { .. }
            | Opcode::ORVxVy { .. }
            | Opcode::ANDVxVy { .. }
            | Opcode::XORVxVy { .. }
            | Opcode::ADDVxVy { .. }
            | Opcode::SUBVxVy { .. }
            | Opcode::SHRVxVy { .. }
            | Opcode::SUBNVxVy { .. }
            | Opcode::SHLVxVy { .. }
            | Opcode::RNDVxByte { .. } => {
                self.execute_alu(op, random);
                Ok(())
            },
            Opcode::LDIAddr { .. }
            | Opcode::LDVxDT { .. }
            | Opcode::LDDTVx { .. }
            | Opcode::LDSTVx { .. }
            | Opcode::ADDIVx { .. }
            | Opcode::LDFVx { .. }
            | Opcode::LDBVx { .. }
            | Opcode::LDIVx { .. }
            | Opcode::LDVxI { .. } => {
                self.execute_transfer(op);
                Ok(())
            },
            Opcode::UNKNOWN { opcode: _ } => Err(Fault::UnknownOpcode),
        }
    }
}

/// The instructions that only move the program counter or the stack, or that
/// wait for a key.
spec fn is_flow(op: Opcode) -> bool {
    op is RET || op is JP || op is CALL || op is SEVxByte || op is SNEVxByte || op is SEVxVy
        || op is SNEVxVy || op is JPV0Addr || op is SKPVx || op is SKNPVx || op is LDVxK
}

/// The instructions that compute a register from registers, an immediate
/// byte or the random byte.
spec fn is_alu(op: Opcode) -> bool {
    op is LDVxByte || op is ADDVxByte || op is LDVxVy || op is ORVxVy || op is ANDVxVy
        || op is XORVxVy || op is ADDVxVy || op is SUBVxVy || op is SHRVxVy || op is SUBNVxVy
        || op is SHLVxVy || op is RNDVxByte
}

/// The instructions that move data between registers, timers, the index
/// register and memory.
spec fn is_transfer(op: Opcode) -> bool {
    op is LDIAddr || op is LDVxDT || op is LDDTVx || op is LDSTVx || op is ADDIVx || op is LDFVx
        || op is LDBVx || op is LDIVx || op is LDVxI
}

} // verus!
