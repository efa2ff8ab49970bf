//! Instructions and the processor state as text, for logs and listings.

use crate::cpu::opcodes::Opcode;
use crate::cpu::ProcState;
use crate::text::{append_hex, append_hex_prefixed, hex, hex_prefixed};
use vstd::prelude::*;

verus! {

/// A register operand: `V` and the register's number in base 16.
pub open spec fn reg_text(x: u8, upper: bool) -> Seq<char> {
    "V"@ + hex(x as nat, upper)
}

/// A mnemonic with one register operand.
pub open spec fn one_reg_text(name: Seq<char>, x: u8) -> Seq<char> {
    name + " "@ + reg_text(x, false)
}

/// A mnemonic with two register operands.
pub open spec fn two_reg_text(name: Seq<char>, x: u8, y: u8) -> Seq<char> {
    name + " "@ + reg_text(x, false) + ", "@ + reg_text(y, false)
}

/// A mnemonic with a register and a second register that the instruction
/// does not use, shown in braces.
pub open spec fn shift_text(name: Seq<char>, x: u8, y: u8) -> Seq<char> {
    name + " "@ + reg_text(x, false) + " {, "@ + reg_text(y, false) + "}"@
}

/// A mnemonic with a register and an immediate byte, the byte at least
/// `width` characters wide.
pub open spec fn reg_byte_text(name: Seq<char>, x: u8, byte: u8, width: nat) -> Seq<char> {
    name + " "@ + reg_text(x, false) + ", "@ + hex_prefixed(byte as nat, width)
}

/// A mnemonic, with its fixed operands, before an address.
pub open spec fn addr_text(name: Seq<char>, addr: u16) -> Seq<char> {
    name + " "@ + hex_prefixed(addr as nat, 5)
}

impl Opcode {
    /// The instruction in assembler notation: the mnemonic and its operands,
    /// numbers in base 16.
    pub open spec fn text(self) -> Seq<char> {
        match self {
            Opcode::CLS => "CLS"@,
            Opcode::RET => "RET"@,
            Opcode::JP { addr } => addr_text("JP"@, addr),
            Opcode::CALL { addr } => addr_text("CALL"@, addr),
            Opcode::SEVxByte { x, byte } => reg_byte_text("SE"@, x, byte, 4),
            Opcode::SNEVxByte { x, byte } => reg_byte_text("SNE"@, x, byte, 2),
            Opcode::SEVxVy { x, y } => two_reg_text("SE"@, x, y),
            Opcode::LDVxByte { x, byte } => reg_byte_text("LD"@, x, byte, 4),
            Opcode::ADDVxByte { x, byte } => reg_byte_text("ADD"@, x, byte, 4),
            Opcode::LDVxVy { x, y } => two_reg_text("LD"@, x, y),
            Opcode::ORVxVy { x, y } => two_reg_text("OR"@, x, y),
            Opcode::ADDVxVy { x, y } => two_reg_text("ADD"@, x, y),
            Opcode::XORVxVy { x, y } => two_reg_text("XOR"@, x, y),
            Opcode::ANDVxVy { x, y } => two_reg_text("AND"@, x, y),
            Opcode::SUBVxVy { x, y } => two_reg_text("SUB"@, x, y),
            Opcode::SHRVxVy { x, y } => shift_text("SHR"@, x, y),
            Opcode::SUBNVxVy { x, y } => "SUBN"@ + " "@ + reg_text(x, false) + ", "@ + reg_text(
                y,
                true,
            ),
            Opcode::SHLVxVy { x, y } => shift_text("SHL"@, x, y),
            Opcode::SNEVxVy { x, y } => two_reg_text("SNE"@, x, y),
            Opcode::LDIAddr { addr } => addr_text("LD I,"@, addr),
            Opcode::JPV0Addr { addr } => addr_text("JP V0,"@, addr),
            Opcode::RNDVxByte { x, byte } => reg_byte_text("RND"@, x, byte, 4),
            Opcode::DRW { x, y, nibble } => two_reg_text("DRW"@, x, y) + ", "@ + hex_prefixed(
                nibble as nat,
                3,
            ),
            Opcode::SKPVx { x } => one_reg_text("SKP"@, x),
            Opcode::SKNPVx { x } => one_reg_text("SKNP"@, x),
            Opcode::LDVxDT { x } => one_reg_text("LD"@, x) + ", DT"@,
            Opcode::LDVxK { x } => one_reg_text("LD"@, x) + ", K"@,
            Opcode::LDDTVx { x } => one_reg_text("LD DT,"@, x),
            Opcode::LDSTVx { x } => one_reg_text("LD ST,"@, x),
            Opcode::ADDIVx { x } => one_reg_text("ADD I,"@, x),
            Opcode::LDFVx { x } => one_reg_text("LD F,"@, x),
            Opcode::LDBVx { x } => one_reg_text("LD B,"@, x),
            Opcode::LDVxI { x } => one_reg_text("LD"@, x) + ", [I]"@,
            Opcode::LDIVx { x } => one_reg_text("LD [I],"@, x),
            Opcode::UNKNOWN { opcode } => "UNKNOWN ("@ + hex_prefixed(opcode.0 as nat, 3) + ", "@
                + hex_prefixed(opcode.1 as nat, 3) + ", "@ + hex_prefixed(opcode.2 as nat, 3)
                + ", "@ + hex_prefixed(opcode.3 as nat, 3) + ")"@,
        }
    }

    /// The instruction in assembler notation.
    pub fn to_string(&self) -> (text: String)
        ensures
            text@ == self.text(),
    {
        match *self {
            Opcode::CLS => String::from_str("CLS"),
            Opcode::RET => String::from_str("RET"),
            Opcode::JP { addr } => with_addr("JP", addr),
            Opcode::CALL { addr } => with_addr("CALL", addr),
            Opcode::SEVxByte { x, byte } => with_reg_byte("SE", x, byte, 4),
            Opcode::SNEVxByte { x, byte } => with_reg_byte("SNE", x, byte, 2),
            Opcode::SEVxVy { x, y } => with_two_regs("SE", x, y),
            Opcode::LDVxByte { x, byte } => with_reg_byte("LD", x, byte, 4),
            Opcode::ADDVxByte { x, byte } => with_reg_byte("ADD", x, byte, 4),
            Opcode::LDVxVy { x, y } => with_two_regs("LD", x, y),
            Opcode::ORVxVy { x, y } => with_two_regs("OR", x, y),
            Opcode::ADDVxVy { x, y } => with_two_regs("ADD", x, y),
            Opcode::XORVxVy { x, y } => with_two_regs("XOR", x, y),
            Opcode::ANDVxVy { x, y } => with_two_regs("AND", x, y),
            Opcode::SUBVxVy { x, y } => with_two_regs("SUB", x, y),
            Opcode::SHRVxVy { x, y } => with_shift("SHR", x, y),
            Opcode::SUBNVxVy { x, y } => {
                let mut text = String::from_str("SUBN");
                text.append(" ");
                append_reg(&mut text, x, false);
                text.append(", ");
                append_reg(&mut text, y, true);
                text
            },
            Opcode::SHLVxVy { x, y } => with_shift("SHL", x, y),
            Opcode::SNEVxVy { x, y } => with_two_regs("SNE", x, y),
            Opcode::LDIAddr { addr } => with_addr("LD I,", addr),
            Opcode::JPV0Addr { addr } => with_addr("JP V0,", addr),
            Opcode::RNDVxByte { x, byte } => with_reg_byte("RND", x, byte, 4),
            Opcode::DRW { x, y, nibble } => {
                let mut text = with_two_regs("DRW", x, y);
                text.append(", ");
                append_hex_prefixed(&mut text, nibble as u64, 3);
                text
            },
            Opcode::SKPVx { x } => with_reg("SKP", x),
            Opcode::SKNPVx { x } => with_reg("SKNP", x),
            Opcode::LDVxDT { x } => {
                let mut text = with_reg("LD", x);
                text.append(", DT");
                text
            },
            Opcode::LDVxK { x } => {
                let mut text = with_reg("LD", x);
                text.append(", K");
                text
            },
            Opcode::LDDTVx { x } => with_reg("LD DT,", x),
            Opcode::LDSTVx { x } => with_reg("LD ST,", x),
            Opcode::ADDIVx { x } => with_reg("ADD I,", x),
            Opcode::LDFVx { x } => with_reg("LD F,", x),
            Opcode::LDBVx { x } => with_reg("LD B,", x),
            Opcode::LDVxI { x } => {
                let mut text = with_reg("LD", x);
                text.append(", [I]");
                text
            },
            Opcode::LDIVx { x } => with_reg("LD [I],", x),
            Opcode::UNKNOWN { opcode } => {
                let mut text = String::from_str("UNKNOWN (");
                append_hex_prefixed(&mut text, opcode.0 as u64, 3);
                text.append(", ");
                append_hex_prefixed(&mut text, opcode.1 as u64, 3);
                text.append(", ");
                append_hex_prefixed(&mut text, opcode.2 as u64, 3);
                text.append(", ");
                append_hex_prefixed(&mut text, opcode.3 as u64, 3);
                text.append(")");
                text
            },
        }
    }
}

/// Appends a register operand.
fn append_reg(out: &mut String, x: u8, upper: bool)
    ensures
        final(out)@ == old(out)@ + reg_text(x, upper),
{
    out.append("V");
    append_hex(out, x as u64, upper);
    assert(out@ =~= old(out)@ + reg_text(x, upper));
}

/// A mnemonic with one register operand.
fn with_reg(name: &str, x: u8) -> (text: String)
    ensures
        text@ == one_reg_text(name@, x),
{
    let mut text = String::from_str(name);
    text.append(" ");
    append_reg(&mut text, x, false);
    text
}

/// A mnemonic with two register operands.
fn with_two_regs(name: &str, x: u8, y: u8) -> (text: String)
    ensures
        text@ == two_reg_text(name@, x, y),
{
    let mut text = with_reg(name, x);
    text.append(", ");
    append_reg(&mut text, y, false);
    text
}

/// A mnemonic with a register and an unused second register in braces.
fn with_shift(name: &str, x: u8, y: u8) -> (text: String)
    ensures
        text@ == shift_text(name@, x, y),
{
    let mut text = with_reg(name, x);
    text.append(" {, ");
    append_reg(&mut text, y, false);
    text.append("}");
    text
}

/// A mnemonic with a register and an immediate byte.
fn with_reg_byte(name: &str, x: u8, byte: u8, width: usize) -> (text: String)
    ensures
        text@ == reg_byte_text(name@, x, byte, width as nat),
{
    let mut text = with_reg(name, x);
    text.append(", ");
    append_hex_prefixed(&mut text, byte as u64, width);
    text
}

/// A mnemonic before an address.
fn with_addr(name: &str, addr: u16) -> (text: String)
    ensures
        text@ == addr_text(name@, addr),
{
    let mut text = String::from_str(name);
    text.append(" ");
    append_hex_prefixed(&mut text, addr as u64, 5);
    text
}

impl ProcState {
    /// The state line: program counter, stack pointer and index register,
    /// in base 16.
    pub open spec fn text(&self) -> Seq<char> {
        "PC="@ + hex_prefixed(self.pc as nat, 5) + " | SP="@ + hex_prefixed(self.sp as nat, 3)
            + " | I="@ + hex_prefixed(self.ireg as nat, 5)
    }

    /// The state line, for diagnostics.
    pub fn to_string(&self) -> (text: String)
        ensures
            text@ == self.text(),
    {
        let mut text = String::from_str("PC=");
        append_hex_prefixed(&mut text, self.pc as u64, 5);
        text.append(" | SP=");
        append_hex_prefixed(&mut text, self.sp as u64, 3);
        text.append(" | I=");
        append_hex_prefixed(&mut text, self.ireg as u64, 5);
        text
    }
}

} // verus!
