//! The mathematical model of the machine: its abstract state, and what one
//! instruction, one fetch and one timer tick make of it.

use vstd::prelude::*;
use crate::cpu::display::line_pixel;
use crate::cpu::opcodes::{decode, Opcode};
use crate::fault::Fault;

verus! {

/// The abstract state of the machine.
pub struct Machine {
    /// The 4096 bytes of memory.
    pub mem: Seq<u8>,
    /// The sixteen general registers V0 to VF.
    pub v: Seq<u8>,
    /// The index register.
    pub i: u16,
    /// The program counter.
    pub pc: u16,
    /// The return addresses on the call stack, the oldest first.
    pub stack: Seq<u16>,
    /// The delay timer.
    pub delay: u8,
    /// The sound timer.
    pub sound: u8,
    /// The key that is down in this cycle, if any.
    pub key: Option<u8>,
    /// The display: 32 rows of 64 pixels, `true` for a lit pixel.
    pub screen: Seq<Seq<bool>>,
    /// The number of timer ticks so far.
    pub clock: u64,
}

/// A display with every pixel off.
pub open spec fn blank_screen() -> Seq<Seq<bool>> {
    Seq::new(32, |r: int| Seq::new(64, |c: int| false))
}

/// The big-endian 16-bit word that starts at `addr`.
pub open spec fn word_at(mem: Seq<u8>, addr: int) -> u16 {
    (mem[addr] * 256 + mem[addr + 1]) as u16
}

/// The value of `n` modulo 256.
pub open spec fn wrap8(n: int) -> u8 {
    (n % 256) as u8
}

/// The value of `n` modulo 65536.
pub open spec fn wrap16(n: int) -> u16 {
    (n % 65536) as u16
}

impl Machine {
    /// The state of a machine that was just switched on with `mem` as its
    /// memory and `key` in its key slot: the program counter at 0x200,
    /// everything else zero, empty or off.
    pub open spec fn boot(mem: Seq<u8>, key: Option<u8>) -> Machine {
        Machine {
            mem,
            v: Seq::new(16, |k: int| 0u8),
            i: 0,
            pc: 0x200,
            stack: Seq::empty(),
            delay: 0,
            sound: 0,
            key,
            screen: blank_screen(),
            clock: 0,
        }
    }

    /// The shape that every machine state has.
    pub open spec fn wf(self) -> bool {
        &&& self.mem.len() == 4096
        &&& self.v.len() == 16
        &&& self.stack.len() <= 16
        &&& self.screen.len() == 32
        &&& forall|r: int| 0 <= r < 32 ==> (#[trigger] self.screen[r]).len() == 64
    }

    /// The state with register `x` set to `val`.
    pub open spec fn set_reg(self, x: u8, val: u8) -> Machine {
        Machine { v: self.v.update(x as int, val), ..self }
    }

    /// The state with the flag register VF set to 1 or 0.
    pub open spec fn set_flag(self, flag: bool) -> Machine {
        self.set_reg(
            0xF,
            if flag {
                1
            } else {
                0
            },
        )
    }

    /// The state with the program counter moved to `pc`.
    pub open spec fn jump(self, pc: u16) -> Machine {
        Machine { pc, ..self }
    }

    /// The state after passing over the next instruction.
    pub open spec fn skip(self) -> Machine {
        self.jump((self.pc + 2) as u16)
    }

    /// The state after passing over the next instruction if `cond` holds.
    pub open spec fn skip_if(self, cond: bool) -> Machine {
        if cond {
            self.skip()
        } else {
            self
        }
    }

    /// Whether a push finds room on the stack.
    pub open spec fn can_push(self) -> bool {
        self.stack.len() < 16
    }

    /// The state with `val` pushed on the stack.
    pub open spec fn push(self, val: u16) -> Machine {
        Machine { stack: self.stack.push(val), ..self }
    }

    /// Whether a pop finds a value on the stack.
    pub open spec fn can_pop(self) -> bool {
        self.stack.len() > 0
    }

    /// The value on top of the stack.
    pub open spec fn top(self) -> u16 {
        self.stack.last()
    }

    /// The state with the top of the stack removed.
    pub open spec fn pop(self) -> Machine {
        Machine { stack: self.stack.drop_last(), ..self }
    }

    /// Whether the sprite of `n` lines that starts at the index register,
    /// drawn with its top left corner in column `left`, row `top`, has a set
    /// pixel at row `r`, column `c`.
    pub open spec fn sprite_pixel(self, left: u8, top: u8, n: u8, r: int, c: int) -> bool {
        &&& top <= r < top + n
        &&& left <= c < left + 8
        &&& line_pixel(self.mem[self.i + (r - top)], (c - left) as u64)
    }

    /// Whether drawing that sprite turns a lit pixel of the display off.
    pub open spec fn sprite_collides(self, left: u8, top: u8, n: u8) -> bool {
        exists|r: int, c: int|
            0 <= r < 32 && 0 <= c < 64 && #[trigger] self.screen[r][c] && self.sprite_pixel(
                left,
                top,
                n,
                r,
                c,
            )
    }

    /// The state after the sprite of `n` lines at the index register is drawn
    /// at the column in register `x` and the row in register `y`: each display
    /// pixel under a set sprite pixel is flipped, sprite pixels right of
    /// column 63 or below row 31 are lost, and VF tells whether a lit pixel
    /// went off.
    pub open spec fn draw(self, x: u8, y: u8, n: u8) -> Machine {
        let left = self.v[x as int];
        let top = self.v[y as int];
        Machine {
            screen: Seq::new(
                32,
                |r: int|
                    Seq::new(
                        64,
                        |c: int| self.screen[r][c] != self.sprite_pixel(left, top, n, r, c),
                    ),
            ),
            ..self
        }.set_flag(self.sprite_collides(left, top, n))
    }

    /// The state with registers V0 to V`x` stored in memory from the index
    /// register on; no other byte of memory changes.
    pub open spec fn store_regs(self, x: u8) -> Machine {
        Machine {
            mem: Seq::new(
                4096,
                |a: int|
                    if self.i <= a <= self.i + x {
                        self.v[a - self.i]
                    } else {
                        self.mem[a]
                    },
            ),
            ..self
        }
    }

    /// The state with registers V0 to V`x` loaded from memory from the index
    /// register on; no other register changes.
    pub open spec fn load_regs(self, x: u8) -> Machine {
        Machine {
            v: Seq::new(
                16,
                |k: int|
                    if k <= x {
                        self.mem[self.i + k]
                    } else {
                        self.v[k]
                    },
            ),
            ..self
        }
    }

    /// The state with the three decimal digits of `val` stored at the index
    /// register, the hundreds first.
    pub open spec fn store_bcd(self, val: u8) -> Machine {
        Machine {
            mem: self.mem.update(self.i as int, (val / 100) as u8).update(
                self.i + 1,
                (val / 10 % 10) as u8,
            ).update(self.i + 2, (val % 10) as u8),
            ..self
        }
    }

    /// Whether `op` is defined in this state: its registers exist, the memory
    /// it reads or writes lies inside memory, and the program counter and
    /// the index register stay within sixteen bits.
    pub open spec fn can_execute(self, op: Opcode) -> bool {
        match op {
            Opcode::CLS | Opcode::RET | Opcode::JP { .. } | Opcode::CALL { .. } | Opcode::LDIAddr {
                ..
            } | Opcode::JPV0Addr { .. } | Opcode::UNKNOWN { .. } => true,
            Opcode::SEVxByte { x, byte } => x < 16 && (self.v[x as int] == byte ==> self.pc + 2
                <= 0xFFFF),
            Opcode::SNEVxByte { x, byte } => x < 16 && (self.v[x as int] != byte ==> self.pc + 2
                <= 0xFFFF),
            Opcode::SEVxVy { x, y } => x < 16 && y < 16 && (self.v[x as int] == self.v[y as int]
                ==> self.pc + 2 <= 0xFFFF),
            Opcode::SNEVxVy { x, y } => x < 16 && y < 16 && (self.v[x as int] != self.v[y as int]
                ==> self.pc + 2 <= 0xFFFF),
            Opcode::LDVxByte { x, .. } | Opcode::ADDVxByte { x, .. } | Opcode::RNDVxByte { x, .. }
            | Opcode::LDVxDT { x } | Opcode::LDDTVx { x } | Opcode::LDSTVx { x } | Opcode::LDFVx {
                x,
            } => x < 16,
            Opcode::LDVxVy { x, y } | Opcode::ORVxVy { x, y } | Opcode::ANDVxVy { x, y }
            | Opcode::XORVxVy { x, y } | Opcode::ADDVxVy { x, y } | Opcode::SUBVxVy { x, y }
            | Opcode::SHRVxVy { x, y } | Opcode::SUBNVxVy { x, y } | Opcode::SHLVxVy { x, y } => x
                < 16 && y < 16,
            Opcode::DRW { x, y, nibble } => x < 16 && y < 16 && self.i + nibble <= 4096,
            Opcode::SKPVx { x } => x < 16 && (self.key == Some(self.v[x as int]) ==> self.pc + 2
                <= 0xFFFF),
            Opcode::SKNPVx { x } => x < 16 && (self.key != Some(self.v[x as int]) ==> self.pc + 2
                <= 0xFFFF),
            Opcode::LDVxK { x } => x < 16 && (self.key is None ==> self.pc >= 2),
            Opcode::ADDIVx { x } => x < 16 && self.i + self.v[x as int] <= 0xFFFF,
            Opcode::LDBVx { x } => x < 16 && self.i + 2 < 4096,
            Opcode::LDIVx { x } | Opcode::LDVxI { x } => x < 16 && self.i + x < 4096,
        }
    }

    /// The outcome of executing `op`, with `random` as the random byte that
    /// `RND` draws: the next state, or the fault that stops the machine.
    pub open spec fn execute(self, op: Opcode, random: u8) -> Result<Machine, Fault> {
        let v = self.v;
        match op {
            Opcode::CLS => Ok(Machine { screen: blank_screen(), ..self }),
            Opcode::RET => if self.can_pop() {
                Ok(self.pop().jump(self.top()))
            } else {
                Err(Fault::StackUnderflow)
            },
            Opcode::JP { addr } => Ok(self.jump(addr)),
            Opcode::CALL { addr } => if self.can_push() {
                Ok(self.push(self.pc).jump(addr))
            } else {
                Err(Fault::StackOverflow)
            },
            Opcode::SEVxByte { x, byte } => Ok(self.skip_if(v[x as int] == byte)),
            Opcode::SNEVxByte { x, byte } => Ok(self.skip_if(v[x as int] != byte)),
            Opcode::SEVxVy { x, y } => Ok(self.skip_if(v[x as int] == v[y as int])),
            Opcode::SNEVxVy { x, y } => Ok(self.skip_if(v[x as int] != v[y as int])),
            Opcode::LDVxByte { x, byte } => Ok(self.set_reg(x, byte)),
            Opcode::ADDVxByte { x, byte } => Ok(self.set_reg(x, wrap8(v[x as int] + byte))),
            Opcode::LDVxVy { x, y } => Ok(self.set_reg(x, v[y as int])),
            Opcode::ORVxVy { x, y } => Ok(self.set_reg(x, v[x as int] | v[y as int])),
            Opcode::ANDVxVy { x, y } => Ok(self.set_reg(x, v[x as int] & v[y as int])),
            Opcode::XORVxVy { x, y } => Ok(self.set_reg(x, v[x as int] ^ v[y as int])),
            Opcode::ADDVxVy { x, y } => Ok(
                self.set_reg(x, wrap8(v[x as int] + v[y as int])).set_flag(
                    v[x as int] + v[y as int] > 255,
                ),
            ),
            Opcode::SUBVxVy { x, y } => Ok(
                self.set_reg(x, wrap8(v[x as int] - v[y as int])).set_flag(
                    v[x as int] >= v[y as int],
                ),
            ),
            Opcode::SUBNVxVy { x, y } => Ok(
                self.set_reg(x, wrap8(v[y as int] - v[x as int])).set_flag(
                    v[y as int] >= v[x as int],
                ),
            ),
            Opcode::SHRVxVy { x, .. } => {
                let flagged = self.set_flag(v[x as int] % 2 == 1);
                Ok(flagged.set_reg(x, (flagged.v[x as int] / 2) as u8))
            },
            Opcode::SHLVxVy { x, .. } => {
                let flagged = self.set_flag(v[x as int] >= 128);
                Ok(flagged.set_reg(x, wrap8(flagged.v[x as int] * 2)))
            },
            Opcode::LDIAddr { addr } => Ok(Machine { i: addr, ..self }),
            Opcode::JPV0Addr { addr } => Ok(self.jump(wrap16(v[0] + addr))),
            Opcode::RNDVxByte { x, byte } => Ok(self.set_reg(x, random & byte)),
            Opcode::DRW { x, y, nibble } => Ok(self.draw(x, y, nibble)),
            Opcode::SKPVx { x } => Ok(self.skip_if(self.key == Some(v[x as int]))),
            Opcode::SKNPVx { x } => Ok(self.skip_if(self.key != Some(v[x as int]))),
            Opcode::LDVxDT { x } => Ok(self.set_reg(x, self.delay)),
            Opcode::LDVxK { x } => match self.key {
                None => Ok(self.jump((self.pc - 2) as u16)),
                Some(key) => Ok(self.set_reg(x, key)),
            },
            Opcode::LDDTVx { x } => Ok(Machine { delay: v[x as int], ..self }),
            Opcode::LDSTVx { x } => Ok(Machine { sound: v[x as int], ..self }),
            Opcode::ADDIVx { x } => Ok(Machine { i: (self.i + v[x as int]) as u16, ..self }),
            Opcode::LDFVx { x } => Ok(Machine { i: (v[x as int] * 5) as u16, ..self }),
            Opcode::LDBVx { x } => Ok(self.store_bcd(v[x as int])),
            Opcode::LDIVx { x } => Ok(self.store_regs(x)),
            Opcode::LDVxI { x } => Ok(self.load_regs(x)),
            Opcode::UNKNOWN { .. } => Err(Fault::UnknownOpcode),
        }
    }

    /// Whether an instruction can be fetched: both of its bytes lie inside
    /// memory.
    pub open spec fn can_fetch(self) -> bool {
        self.pc + 1 < 4096
    }

    /// The instruction at the program counter.
    pub open spec fn fetched(self) -> Opcode {
        decode(word_at(self.mem, self.pc as int))
    }

    /// The state after a fetch: the program counter is past the instruction.
    pub open spec fn fetch(self) -> Machine {
        self.skip()
    }

    /// The state after one timer tick: each timer that is not yet 0 goes
    /// down by one, and the tick is counted.
    pub open spec fn tick(self) -> Machine {
        Machine {
            delay: if self.delay > 0 {
                (self.delay - 1) as u8
            } else {
                0
            },
            sound: if self.sound > 0 {
                (self.sound - 1) as u8
            } else {
                0
            },
            clock: (self.clock + 1) as u64,
            ..self
        }
    }

    /// The state with `key` in the key slot.
    pub open spec fn latch(self, key: Option<u8>) -> Machine {
        Machine { key, ..self }
    }

    /// Whether one cycle with `key` in the key slot is defined: an
    /// instruction can be fetched, it is defined in the state after the
    /// fetch, and the tick can be counted.
    pub open spec fn can_cycle(self, key: Option<u8>) -> bool {
        &&& self.can_fetch()
        &&& self.latch(key).fetch().can_execute(self.fetched())
        &&& self.clock < u64::MAX
    }

    /// The outcome of one cycle: `key` goes into the key slot, the
    /// instruction at the program counter is fetched and executed, and the
    /// timers tick once. A fault ends the cycle before the tick.
    pub open spec fn cycle(self, key: Option<u8>, random: u8) -> Result<Machine, Fault> {
        match self.latch(key).fetch().execute(self.fetched(), random) {
            Ok(next) => Ok(next.tick()),
            Err(fault) => Err(fault),
        }
    }

    /// The outcome of a run of cycles, one for each entry of `inputs`: the key
    /// that is down in that cycle and the random byte of that cycle. The
    /// first fault ends the run.
    pub open spec fn run(self, inputs: Seq<(Option<u8>, u8)>) -> Result<Machine, Fault>
        decreases inputs.len(),
    {
        if inputs.len() == 0 {
            Ok(self)
        } else {
            match self.run(inputs.drop_last()) {
                Ok(reached) => reached.cycle(inputs.last().0, inputs.last().1),
                Err(fault) => Err(fault),
            }
        }
    }
}

} // verus!
