//! Program images: loading one, laying it out in memory, and listing it.

use crate::cpu::model::word_at;
use crate::cpu::opcodes::{decode, get_opcode, Opcode};
use crate::fault::Fault;
use vstd::prelude::*;

verus! {

/// The largest program: what fits between address 0x200 and the end of
/// memory.
pub const MAX_CART_SIZE: usize = 3584;

/// A program image: `size` bytes at the start of `buffer`.
pub struct Cartridge {
    pub buffer: [u8; 3584],
    pub size: usize,
}

impl View for Cartridge {
    type V = Seq<u8>;

    /// The bytes of the program.
    open spec fn view(&self) -> Seq<u8> {
        self.buffer@.take(self.size as int)
    }
}

/// The memory of a machine that is to run `program` with `font` as its font
/// sprites: the font from address 0 on, the program from address 0x200 on
/// where the font does not reach, and 0 elsewhere.
pub open spec fn memory_with(program: Seq<u8>, font: Seq<u8>) -> Seq<u8> {
    Seq::new(
        4096,
        |a: int|
            if a < font.len() {
                font[a]
            } else if 0x200 <= a < 0x200 + program.len() {
                program[a - 0x200]
            } else {
                0u8
            },
    )
}

/// The instruction word with number `k` of a program: its bytes `2 * k` and
/// `2 * k + 1`, the first the more significant. A byte that the program
/// lacks counts as 0.
pub open spec fn program_word(program: Seq<u8>, k: int) -> u16 {
    let high = program[2 * k];
    let low = if 2 * k + 1 < program.len() {
        program[2 * k + 1]
    } else {
        0u8
    };
    (high * 256 + low) as u16
}

/// The word with number `k` of a program is the word that a machine, whose
/// memory holds the program and no font, has at address `0x200 + 2 * k`.
pub proof fn lemma_program_word_in_memory(program: Seq<u8>, k: int)
    requires
        program.len() <= 3584,
        0 <= 2 * k < program.len(),
    ensures
        program_word(program, k) == word_at(
            memory_with(program, Seq::empty()),
            0x200 + 2 * k,
        ),
{
}

impl Cartridge {
    /// The image does not claim more bytes than its buffer holds.
    pub open spec fn wf(&self) -> bool {
        self.size <= 3584
    }

    /// The number of instruction words of the program; a last odd byte
    /// counts as a word.
    pub open spec fn words(&self) -> nat {
        ((self.size + 1) / 2) as nat
    }

    /// The address and the instruction of the word with number `k`.
    pub open spec fn listed(&self, k: int) -> (u16, Opcode) {
        ((0x200 + 2 * k) as u16, decode(program_word(self@, k)))
    }

    /// Makes a program image of `data`.
    ///
    /// Data of more than 3584 bytes is refused as `OversizedCartridge`.
    /// Otherwise the image holds the data byte for byte (the buffer is 0
    /// behind it).
    pub fn load(data: &[u8]) -> (loaded: Result<Cartridge, Fault>)
        ensures
            data@.len() > 3584 ==> loaded == Err::<Cartridge, Fault>(Fault::OversizedCartridge),
            data@.len() <= 3584 ==> loaded is Ok && loaded.unwrap().wf() && loaded.unwrap()@
                == data@ && forall|a: int|
                data@.len() <= a < 3584 ==> loaded.unwrap().buffer@[a] == 0,
    {
        if data.len() > MAX_CART_SIZE {
            return Err(Fault::OversizedCartridge);
        }
        let mut buffer = [0u8;3584];
        let mut at: usize = 0;
        while at < data.len()
            invariant
                at <= data@.len() <= 3584,
                forall|a: int| 0 <= a < at ==> buffer@[a] == data@[a],
                forall|a: int| at <= a < 3584 ==> buffer@[a] == 0,
            decreases data@.len() - at,
        {
            buffer[at] = data[at];
            at += 1;
        }
        let cart = Cartridge { buffer, size: data.len() };
        assert(cart@ =~= data@);
        Ok(cart)
    }

    /// The memory of a machine that is to run this program with `font` as
    /// its font sprites.
    pub fn memory_image(&self, font: &[u8]) -> (mem: [u8; 4096])
        requires
            self.wf(),
            font@.len() <= 4096,
        ensures
            mem@ == memory_with(self@, font@),
    {
        let mut mem = [0u8;4096];
        let mut at: usize = 0;
        while at < self.size
            invariant
                at <= self.size <= 3584,
                forall|a: int|
                    0 <= a < 4096 ==> mem@[a] == if 0x200 <= a < 0x200 + at {
                        self.buffer@[a - 0x200]
                    } else {
                        0u8
                    },
            decreases self.size - at,
        {
            mem[at + 0x200] = self.buffer[at];
            at += 1;
        }
        let mut at: usize = 0;
        while at < font.len()
            invariant
                at <= font@.len() <= 4096,
                self.size <= 3584,
                forall|a: int|
                    0 <= a < 4096 ==> mem@[a] == if a < at {
                        font@[a]
                    } else if 0x200 <= a < 0x200 + self.size {
                        self.buffer@[a - 0x200]
                    } else {
                        0u8
                    },
            decreases font@.len() - at,
        {
            mem[at] = font[at];
            at += 1;
        }
        assert(mem@ =~= memory_with(self@, font@));
        mem
    }

    /// The listing of the program: for each of its words, in order, the
    /// address at which the word is loaded and the instruction that it
    /// encodes.
    pub fn disassemble(&self) -> (listing: Vec<(u16, Opcode)>)
        requires
            self.wf(),
        ensures
            listing@.len() == self.words(),
            forall|k: int| 0 <= k < listing@.len() ==> #[trigger] listing@[k] == self.listed(k),
    {
        let mut listing: Vec<(u16, Opcode)> = Vec::new();
        let mut at: usize = 0;
        while at < self.size
            invariant
                self.size <= 3584,
                at % 2 == 0,
                at <= self.size + 1,
                listing@.len() == at / 2,
                forall|k: int| 0 <= k < listing@.len() ==> #[trigger] listing@[k] == self.listed(k),
            decreases self.size + 1 - at,
        {
            let high = self.buffer[at];
            let low = if at + 1 < self.size {
                self.buffer[at + 1]
            } else {
                0
            };
            let word = (high as u16) << 8 | (low as u16);
            assert(word == (high * 256 + low) as u16) by (bit_vector)
                requires
                    word == (high as u16) << 8 | (low as u16),
            ;
            listing.push(((at + 0x200) as u16, get_opcode(word)));
            at += 2;
        }
        listing
    }
}

} // verus!
