//! The processor: its state, its instruction set and their semantics.

pub mod display;
pub mod execute;
pub mod laws;
pub mod mnemonic;
pub mod model;
pub mod opcodes;
pub mod random;

use crate::cpu::display::{lemma_row_zero, row_pixel};
use crate::cpu::model::Machine;
use crate::cpu::opcodes::{get_opcode, Opcode};
use crate::cpu::random::{random_byte, since_epoch};
use crate::fault::Fault;
use std::time::SystemTime;
use vstd::prelude::*;

verus! {

/// Number of return addresses that the call stack holds.
pub const MAX_STACK_SIZE: usize = 16;

/// Number of bytes of memory.
pub const MAX_MEMORY_SIZE: usize = 4096;

/// Address at which a program starts.
pub const STARTING_PROGRAM_COUNTER: u16 = 0x200;

/// The state of the processor.
///
/// `stack[0..sp]` holds the return addresses, the oldest first. Each word of
/// `video_buffer` is one display row, its most significant bit the leftmost
/// pixel. `io_queue` is the key that is down in the current cycle.
#[derive(Clone, Copy, Debug)]
pub struct ProcState {
    pub mem: [u8; 4096],
    pub vreg: [u8; 16],
    pub ireg: u16,
    pub pc: u16,
    pub sp: usize,
    pub stack: [u16; 16],
    pub delay_t: u8,
    pub sound_t: u8,
    pub io_queue: Option<u8>,
    pub video_buffer: [u64; 32],
    pub clock: u64,
}

/// Whether the pixel in row `r`, column `c` of a display given as one word
/// per row is lit.
pub open spec fn pixel_of(rows: Seq<u64>, r: int, c: int) -> bool {
    row_pixel(rows[r], c as u64)
}

/// The pixels of a display given as one word per row.
pub open spec fn screen_of(rows: Seq<u64>) -> Seq<Seq<bool>> {
    Seq::new(32, |r: int| Seq::new(64, |c: int| pixel_of(rows, r, c)))
}

impl View for ProcState {
    type V = Machine;

    open spec fn view(&self) -> Machine {
        Machine {
            mem: self.mem@,
            v: self.vreg@,
            i: self.ireg,
            pc: self.pc,
            stack: self.stack@.take(self.sp as int),
            delay: self.delay_t,
            sound: self.sound_t,
            key: self.io_queue,
            screen: screen_of(self.video_buffer@),
            clock: self.clock,
        }
    }
}

impl ProcState {
    /// The stack pointer is within the stack's capacity.
    pub open spec fn wf(&self) -> bool {
        self.sp <= 16
    }

    /// Whether executing `op` on this state, with `random` as the random
    /// byte, ends with `done` in the state `after`: the next state of the
    /// model, or its fault with the state unchanged.
    pub open spec fn executes_to(
        &self,
        op: Opcode,
        random: u8,
        after: ProcState,
        done: Result<(), Fault>,
    ) -> bool {
        match self@.execute(op, random) {
            Ok(next) => done is Ok && after@ == next,
            Err(fault) => done == Err::<(), Fault>(fault) && after == *self,
        }
    }

    /// Whether one cycle on this state, with `key` as the key that is down
    /// and `random` as the random byte, ends with `done` in the state
    /// `after`: the next state of the model and the instruction that was
    /// executed, or the fault and the state in which it occurred.
    pub open spec fn cycles_to(
        &self,
        key: Option<u8>,
        random: u8,
        after: ProcState,
        done: Result<Opcode, Fault>,
    ) -> bool {
        match self@.cycle(key, random) {
            Ok(next) => done == Ok::<Opcode, Fault>(self@.fetched()) && after@ == next,
            Err(fault) => done == Err::<Opcode, Fault>(fault)
                && after@ == self@.latch(key).fetch(),
        }
    }

    /// A processor that is switched on again: memory is blank, registers,
    /// stack, timers and display are as after `new`, and the key slot keeps
    /// its content.
    pub fn reset(self) -> (fresh: Self)
        ensures
            fresh.wf(),
            fresh@ == Machine::boot(Seq::new(4096, |a: int| 0u8), self@.key),
    {
        let fresh = ProcState::new([0x0;4096], self.io_queue);
        assert(fresh@.mem =~= Seq::new(4096, |a: int| 0u8));
        fresh
    }

    /// A processor with `mem` as its memory and `io_queue` in its key slot,
    /// ready to run the program at 0x200.
    pub fn new(mem: [u8; 4096], io_queue: Option<u8>) -> (fresh: Self)
        ensures
            fresh.wf(),
            fresh@ == Machine::boot(mem@, io_queue),
    {
        let fresh = ProcState {
            mem,
            vreg: [0x0;16],
            ireg: 0x0,
            pc: STARTING_PROGRAM_COUNTER,
            sp: 0x0,
            stack: [0x0;16],
            delay_t: 0,
            sound_t: 0,
            io_queue,
            video_buffer: [0x0;32],
            clock: 0,
        };
        proof {
            let booted = Machine::boot(mem@, io_queue);
            assert(fresh@.v =~= booted.v);
            assert(fresh@.stack =~= booted.stack);
            assert forall|r: int, c: int| 0 <= r < 32 && 0 <= c < 64 implies !pixel_of(
                fresh.video_buffer@,
                r,
                c,
            ) by {
                lemma_row_zero(c as u64);
            }
            assert(fresh@.screen =~~= booted.screen);
        }
        fresh
    }

    /// Takes the newest return address off the stack.
    ///
    /// With an empty stack this is the fault `StackUnderflow`, and the state
    /// stays as it is.
    pub fn pop(&mut self) -> (popped: Result<u16, Fault>)
        requires
            old(self).wf(),
        ensures
            final(self).wf(),
            old(self)@.can_pop() ==> popped == Ok::<u16, Fault>(old(self)@.top()) && final(self)@
                == old(self)@.pop(),
            !old(self)@.can_pop() ==> popped == Err::<u16, Fault>(Fault::StackUnderflow)
                && *final(self) == *old(self),
    {
        if self.sp == 0 {
            return Err(Fault::StackUnderflow);
        }
        let val = self.stack[self.sp - 1];
        self.sp = self.sp - 1;
        assert(self@.stack =~= old(self)@.stack.drop_last());
        Ok(val)
    }

    /// Puts a return address on the stack.
    ///
    /// With sixteen addresses on the stack already this is the fault
    /// `StackOverflow`, and the state stays as it is.
    pub fn push(&mut self, val: u16) -> (pushed: Result<(), Fault>)
        requires
            old(self).wf(),
        ensures
            final(self).wf(),
            old(self)@.can_push() ==> pushed is Ok && final(self)@ == old(self)@.push(val),
            !old(self)@.can_push() ==> pushed == Err::<(), Fault>(Fault::StackOverflow)
                && *final(self) == *old(self),
    {
        if self.sp >= MAX_STACK_SIZE {
            return Err(Fault::StackOverflow);
        }
        self.sp = self.sp + 1;
        self.stack[self.sp - 1] = val;
        assert(self@.stack =~= old(self)@.stack.push(val));
        Ok(())
    }

    /// Whether the stack pointer is within the stack's capacity.
    pub fn check_sp_bounds(&self) -> (ok: bool)
        ensures
            ok == self.wf(),
    {
        self.sp <= MAX_STACK_SIZE
    }

    /// One timer tick: the delay timer and the sound timer each go down by
    /// one unless they are 0 already, and the tick is counted.
    pub fn clock_tick(&mut self, _freq: u64)
        requires
            old(self).clock < u64::MAX,
        ensures
            final(self).wf() == old(self).wf(),
            final(self)@ == old(self)@.tick(),
    {
        self.clock += 1;
        self.delay_t = self.delay_t.saturating_sub(1);
        self.sound_t = self.sound_t.saturating_sub(1);
    }

    /// Reads the instruction at the program counter and moves the program
    /// counter past it.
    pub fn fetch_and_decode_opcode(&mut self) -> (opcode: Opcode)
        requires
            old(self)@.can_fetch(),
        ensures
            final(self).wf() == old(self).wf(),
            opcode == old(self)@.fetched(),
            final(self)@ == old(self)@.fetch(),
    {
        let high_byte: u8 = self.mem[self.pc as usize];
        let low_byte: u8 = self.mem[(self.pc + 1) as usize];
        self.pc = self.pc + 2;
        let opcode = (high_byte as u16) << 8 | (low_byte as u16);
        assert(opcode == (high_byte * 256 + low_byte) as u16) by (bit_vector)
            requires
                opcode == (high_byte as u16) << 8 | (low_byte as u16),
        ;
        get_opcode(opcode)
    }

    /// Executes `op`.
    ///
    /// The state becomes what the instruction makes of it; for `RND`, with
    /// some byte drawn from the system clock as the random byte. A return
    /// with an empty stack, a call with a full stack and an unknown
    /// instruction are faults, and leave the state as it is.
    pub fn execute_opcode(&mut self, op: Opcode) -> (done: Result<(), Fault>)
        requires
            old(self).wf(),
            old(self)@.can_execute(op),
        ensures
            final(self).wf(),
            op !is RNDVxByte ==> old(self).executes_to(op, 0, *final(self), done),
            exists|random: u8| old(self).executes_to(op, random, *final(self), done),
    {
        let random = match op {
            Opcode::RNDVxByte { .. } => self.rand(),
            _ => 0,
        };
        self.execute_with_random(op, random)
    }

    /// Whether `op` is defined in this state: its registers exist, the memory
    /// it reads or writes lies inside memory, and the program counter and
    /// the index register stay within sixteen bits.
    pub fn can_execute(&self, op: Opcode) -> (ok: bool)
        ensures
            ok == self@.can_execute(op),
    {
        match op {
            Opcode::CLS
            | Opcode::RET
            | Opcode::JP { .. }
            | Opcode::CALL { .. }
            | Opcode::LDIAddr { .. }
            | Opcode::JPV0Addr { .. }
            | Opcode::UNKNOWN { .. } => true,
            Opcode::SEVxByte { x, byte } => x < 16 && (self.vreg[x as usize] != byte
                || self.can_skip()),
            Opcode::SNEVxByte { x, byte } => x < 16 && (self.vreg[x as usize] == byte
                || self.can_skip()),
            Opcode::SEVxVy { x, y } => x < 16 && y < 16 && (self.vreg[x as usize]
                != self.vreg[y as usize] || self.can_skip()),
            Opcode::SNEVxVy { x, y } => x < 16 && y < 16 && (self.vreg[x as usize]
                == self.vreg[y as usize] || self.can_skip()),
            Opcode::LDVxByte { x, .. }
            | Opcode::ADDVxByte { x, .. }
            | Opcode::RNDVxByte { x, .. }
            | Opcode::LDVxDT { x }
            | Opcode::LDDTVx { x }
            | Opcode::LDSTVx { x }
            | Opcode::LDFVx { x } => x < 16,
            Opcode::LDVxVy { x, y }
            | Opcode::ORVxVy { x, y }
            | Opcode::ANDVxVy { x, y }
            | Opcode::XORVxVy { x, y }
            | Opcode::ADDVxVy { x, y }
            | Opcode::SUBVxVy { x, y }
            | Opcode::SHRVxVy { x, y }
            | Opcode::SUBNVxVy { x, y }
            | Opcode::SHLVxVy { x, y } => x < 16 && y < 16,
            Opcode::DRW { x, y, nibble } => x < 16 && y < 16 && (self.ireg as usize)
                + (nibble as usize) <= MAX_MEMORY_SIZE,
            Opcode::SKPVx { x } => x < 16 && (match self.io_queue {
                None => true,
                Some(key) => key != self.vreg[x as usize] || self.can_skip(),
            }),
            Opcode::SKNPVx { x } => x < 16 && (match self.io_queue {
                None => self.can_skip(),
                Some(key) => key == self.vreg[x as usize] || self.can_skip(),
            }),
            Opcode::LDVxK { x } => x < 16 && (self.io_queue.is_some() || self.pc >= 2),
            Opcode::ADDIVx { x } => x < 16 && (self.ireg as u32) + (self.vreg[x as usize] as u32)
                <= 0xFFFF,
            Opcode::LDBVx { x } => x < 16 && (self.ireg as usize) + 2 < MAX_MEMORY_SIZE,
            Opcode::LDIVx { x } | Opcode::LDVxI { x } => x < 16 && (self.ireg as usize)
                + (x as usize) < MAX_MEMORY_SIZE,
        }
    }

    /// Whether the program counter can move past one more instruction.
    fn can_skip(&self) -> (ok: bool)
        ensures
            ok == (self.pc + 2 <= 0xFFFF),
    {
        self.pc <= 0xFFFD
    }

    /// Whether one cycle with `key` as the key that is down is defined.
    pub fn can_cycle(&self, key: Option<u8>) -> (ok: bool)
        ensures
            ok == self@.can_cycle(key),
    {
        if (self.pc as usize) + 1 >= MAX_MEMORY_SIZE || self.clock == u64::MAX {
            return false;
        }
        let mut probe = *self;
        probe.io_queue = key;
        let op = probe.fetch_and_decode_opcode();
        probe.can_execute(op)
    }

    /// One cycle of the machine: `key`, the key that is down, goes into the
    /// key slot, the instruction at the program counter is fetched and
    /// executed, and the timers tick once.
    ///
    /// Returns the instruction that was executed. A fault ends the cycle
    /// where it occurs: the instruction is fetched, nothing else is done.
    pub fn cycle(&mut self, key: Option<u8>) -> (done: Result<Opcode, Fault>)
        requires
            old(self).wf(),
            old(self)@.can_cycle(key),
        ensures
            final(self).wf(),
            old(self)@.fetched() !is RNDVxByte ==> old(self).cycles_to(key, 0, *final(self), done),
            exists|random: u8| old(self).cycles_to(key, random, *final(self), done),
    {
        self.io_queue = key;
        let op = self.fetch_and_decode_opcode();
        let ghost fetched = *self;
        let executed = self.execute_opcode(op);
        let ghost random = choose|random: u8| fetched.executes_to(op, random, *self, executed);
        match executed {
            Ok(()) => {
                self.clock_tick(1);
                assert(old(self).cycles_to(key, random, *self, Ok::<Opcode, Fault>(op)));
                Ok(op)
            },
            Err(fault) => {
                assert(old(self).cycles_to(key, random, *self, Err::<Opcode, Fault>(fault)));
                Err(fault)
            },
        }
    }

    /// Whether the pixel in row `row`, column `col` of the display is lit.
    /// Row 0 is the top row and column 0 the leftmost column.
    pub fn pixel(&self, row: usize, col: usize) -> (lit: bool)
        requires
            row < 32,
            col < 64,
        ensures
            lit == self@.screen[row as int][col as int],
    {
        let shift = 63 - (col as u64);
        (self.video_buffer[row] >> shift) & 0x1 == 0x1
    }

    /// A byte to serve as the random byte of `RND`: the low eight bits of the
    /// system clock's nanoseconds, or 0 where the clock is set to a time
    /// before 1970.
    fn rand(&self) -> u8 {
        let now = SystemTime::now();
        let reading = match since_epoch(&now) {
            Some(elapsed) => {
                let nanos = elapsed.subsec_nanos();
                Some(nanos)
            },
            None => None,
        };
        random_byte(reading)
    }

    /// Moves the program counter past the next instruction.
    pub fn skip_next_instruction(&mut self)
        requires
            old(self).pc + 2 <= 0xFFFF,
        ensures
            final(self).wf() == old(self).wf(),
            final(self)@ == old(self)@.skip(),
    {
        self.pc = self.pc + 2;
    }
}

} // verus!
