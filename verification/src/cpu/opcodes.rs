//! The instruction set and the decoder from 16-bit words to instructions.

use vstd::prelude::*;

verus! {

/// One CHIP-8 instruction with its operands.
///
/// `x` and `y` name registers, `addr` is a 12-bit address, `byte` an 8-bit
/// immediate and `nibble` a 4-bit immediate.
#[derive(Clone, Copy, Debug, PartialEq, Eq)]
pub enum Opcode {
    CLS,
    RET,
    JP { addr: u16 },
    CALL { addr: u16 },
    SEVxByte { x: u8, byte: u8 },
    SNEVxByte { x: u8, byte: u8 },
    SEVxVy { x: u8, y: u8 },
    LDVxByte { x: u8, byte: u8 },
    ADDVxByte { x: u8, byte: u8 },
    LDVxVy { x: u8, y: u8 },
    ORVxVy { x: u8, y: u8 },
    ANDVxVy { x: u8, y: u8 },
    XORVxVy { x: u8, y: u8 },
    ADDVxVy { x: u8, y: u8 },
    SUBVxVy { x: u8, y: u8 },
    SHRVxVy { x: u8, y: u8 },
    SUBNVxVy { x: u8, y: u8 },
    SHLVxVy { x: u8, y: u8 },
    SNEVxVy { x: u8, y: u8 },
    LDIAddr { addr: u16 },
    JPV0Addr { addr: u16 },
    RNDVxByte { x: u8, byte: u8 },
    DRW { x: u8, y: u8, nibble: u8 },
    SKPVx { x: u8 },
    SKNPVx { x: u8 },
    LDVxDT { x: u8 },
    LDVxK { x: u8 },
    LDDTVx { x: u8 },
    LDSTVx { x: u8 },
    ADDIVx { x: u8 },
    LDFVx { x: u8 },
    LDBVx { x: u8 },
    LDIVx { x: u8 },
    LDVxI { x: u8 },
    UNKNOWN { opcode: (u8, u8, u8, u8) },
}

/// The four 4-bit digits of a word, most significant first.
pub open spec fn nibbles(word: u16) -> (u8, u8, u8, u8) {
    (
        (word / 0x1000) as u8,
        (word / 0x100 % 0x10) as u8,
        (word / 0x10 % 0x10) as u8,
        (word % 0x10) as u8,
    )
}

/// The low twelve bits of a word: the address operand.
pub open spec fn addr_of(word: u16) -> u16 {
    (word % 0x1000) as u16
}

/// The low eight bits of a word: the immediate byte operand.
pub open spec fn byte_of(word: u16) -> u8 {
    (word % 0x100) as u8
}

/// The instruction that a word encodes.
///
/// Every word encodes exactly one instruction; a word outside the
/// instruction table encodes `UNKNOWN` with the word's four digits.
pub open spec fn decode(word: u16) -> Opcode {
    let (kind, x, y, n) = nibbles(word);
    let addr = addr_of(word);
    let byte = byte_of(word);
    match (kind, x, y, n) {
        (0x0, 0x0, 0xE, 0x0) => Opcode::CLS,
        (0x0, 0x0, 0xE, 0xE) => Opcode::RET,
        (0x1, _, _, _) => Opcode::JP { addr },
        (0x2, _, _, _) => Opcode::CALL { addr },
        (0x3, _, _, _) => Opcode::SEVxByte { x, byte },
        (0x4, _, _, _) => Opcode::SNEVxByte { x, byte },
        (0x5, _, _, 0x0) => Opcode::SEVxVy { x, y },
        (0x6, _, _, _) => Opcode::LDVxByte { x, byte },
        (0x7, _, _, _) => Opcode::ADDVxByte { x, byte },
        (0x8, _, _, 0x0) => Opcode::LDVxVy { x, y },
        (0x8, _, _, 0x1) => Opcode::ORVxVy { x, y },
        (0x8, _, _, 0x2) => Opcode::ANDVxVy { x, y },
        (0x8, _, _, 0x3) => Opcode::XORVxVy { x, y },
        (0x8, _, _, 0x4) => Opcode::ADDVxVy { x, y },
        (0x8, _, _, 0x5) => Opcode::SUBVxVy { x, y },
        (0x8, _, _, 0x6) => Opcode::SHRVxVy { x, y },
        (0x8, _, _, 0x7) => Opcode::SUBNVxVy { x, y },
        (0x8, _, _, 0xE) => Opcode::SHLVxVy { x, y },
        (0x9, _, _, 0x0) => Opcode::SNEVxVy { x, y },
        (0xA, _, _, _) => Opcode::LDIAddr { addr },
        (0xB, _, _, _) => Opcode::JPV0Addr { addr },
        (0xC, _, _, _) => Opcode::RNDVxByte { x, byte },
        (0xD, _, _, _) => Opcode::DRW { x, y, nibble: n },
        (0xE, _, 0x9, 0xE) => Opcode::SKPVx { x },
        (0xE, _, 0xA, 0x1) => Opcode::SKNPVx { x },
        (0xF, _, 0x0, 0x7) => Opcode::LDVxDT { x },
        (0xF, _, 0x0, 0xA) => Opcode::LDVxK { x },
        (0xF, _, 0x1, 0x5) => Opcode::LDDTVx { x },
        (0xF, _, 0x1, 0x8) => Opcode::LDSTVx { x },
        (0xF, _, 0x1, 0xE) => Opcode::ADDIVx { x },
        (0xF, _, 0x2, 0x9) => Opcode::LDFVx { x },
        (0xF, _, 0x3, 0x3) => Opcode::LDBVx { x },
        (0xF, _, 0x5, 0x5) => Opcode::LDIVx { x },
        (0xF, _, 0x6, 0x5) => Opcode::LDVxI { x },
        _ => Opcode::UNKNOWN { opcode: (kind, x, y, n) },
    }
}

/// Splits a word into its four 4-bit digits, most significant first.
pub fn split_opcode(op: u16) -> (parts: (u8, u8, u8, u8))
    ensures
        parts == nibbles(op),
{
    assert((op >> 12) as u8 & 0xF == (op / 0x1000) as u8 && (op >> 8) as u8 & 0xF == (op / 0x100
        % 0x10) as u8 && (op >> 4) as u8 & 0xF == (op / 0x10 % 0x10) as u8 && op as u8 & 0xF == (op
        % 0x10) as u8) by (bit_vector);
    ((op >> 12) as u8 & 0xF, (op >> 8) as u8 & 0xF, (op >> 4) as u8 & 0xF, (op) as u8 & 0xF)
}

/// The address operand: the low twelve bits.
pub fn op_nnn(op: u16) -> (addr: u16)
    ensures
        addr == addr_of(op),
{
    assert(op & 0xFFF == (op % 0x1000) as u16) by (bit_vector);
    op & 0xFFF
}

/// The nibble operand: the low four bits.
pub fn op_n(op: u16) -> (nibble: u8)
    ensures
        nibble == nibbles(op).3,
{
    assert((op & 0xF) as u8 == (op % 0x10) as u8) by (bit_vector);
    (op & 0xF) as u8
}

/// The immediate byte operand: the low eight bits.
pub fn op_kk(op: u16) -> (byte: u8)
    ensures
        byte == byte_of(op),
{
    assert((op & 0xFF) as u8 == (op % 0x100) as u8) by (bit_vector);
    (op & 0xFF) as u8
}

/// The two register operands: bits 8 to 11, then bits 4 to 7.
pub fn op_xy(op: u16) -> (regs: (u8, u8))
    ensures
        regs.0 == nibbles(op).1,
        regs.1 == nibbles(op).2,
{
    assert(((op & 0xF00) >> 8) as u8 == (op / 0x100 % 0x10) as u8 && ((op & 0xF0) >> 4) as u8 == (op
        / 0x10 % 0x10) as u8) by (bit_vector);
    (((op & 0xF00) >> 8) as u8, ((op & 0xF0) >> 4) as u8)
}

/// The first register operand: bits 8 to 11.
pub fn op_x(op: u16) -> (x: u8)
    ensures
        x == nibbles(op).1,
{
    assert(((op & 0xF00) >> 8) as u8 == (op / 0x100 % 0x10) as u8) by (bit_vector);
    ((op & 0xF00) >> 8) as u8
}

/// Decodes a 16-bit instruction word.
///
/// Decoding never fails: the result is the one instruction that the word
/// encodes, and a word outside the instruction table gives `UNKNOWN`.
pub fn get_opcode(op: u16) -> (opcode: Opcode)
    ensures
        opcode == decode(op),
{
    match split_opcode(op) {
        (0x0, 0x0, 0xE, 0x0) => Opcode::CLS,
        (0x0, 0x0, 0xE, 0xE) => Opcode::RET,
        (0x1, _, _, _) => Opcode::JP { addr: op_nnn(op) },
        (0x2, _, _, _) => Opcode::CALL { addr: op_nnn(op) },
        (0x3, _, _, _) => Opcode::SEVxByte { x: op_x(op), byte: op_kk(op) },
        (0x4, _, _, _) => Opcode::SNEVxByte { x: op_x(op), byte: op_kk(op) },
        (0x5, _, _, 0x0) => Opcode::SEVxVy { x: op_xy(op).0, y: op_xy(op).1 },
        (0x6, _, _, _) => Opcode::LDVxByte { x: op_x(op), byte: op_kk(op) },
        (0x7, _, _, _) => Opcode::ADDVxByte { x: op_x(op), byte: op_kk(op) },
        (0x8, _, _, 0x0) => Opcode::LDVxVy { x: op_xy(op).0, y: op_xy(op).1 },
        (0x8, _, _, 0x1) => Opcode::ORVxVy { x: op_xy(op).0, y: op_xy(op).1 },
        (0x8, _, _, 0x2) => Opcode::ANDVxVy { x: op_xy(op).0, y: op_xy(op).1 },
        (0x8, _, _, 0x3) => Opcode::XORVxVy { x: op_xy(op).0, y: op_xy(op).1 },
        (0x8, _, _, 0x4) => Opcode::ADDVxVy { x: op_xy(op).0, y: op_xy(op).1 },
        (0x8, _, _, 0x5) => Opcode::SUBVxVy { x: op_xy(op).0, y: op_xy(op).1 },
        (0x8, _, _, 0x6) => Opcode::SHRVxVy { x: op_xy(op).0, y: op_xy(op).1 },
        (0x8, _, _, 0x7) => Opcode::SUBNVxVy { x: op_xy(op).0, y: op_xy(op).1 },
        (0x8, _, _, 0xE) => Opcode::SHLVxVy { x: op_xy(op).0, y: op_xy(op).1 },
        (0x9, _, _, 0x0) => Opcode::SNEVxVy { x: op_xy(op).0, y: op_xy(op).1 },
        (0xA, _, _, _) => Opcode::LDIAddr { addr: op_nnn(op) },
        (0xB, _, _, _) => Opcode::JPV0Addr { addr: op_nnn(op) },
        (0xC, _, _, _) => Opcode::RNDVxByte { x: op_x(op), byte: op_kk(op) },
        (0xD, _, _, _) => Opcode::DRW { x: op_xy(op).0, y: op_xy(op).1, nibble: op_n(op) },
        (0xE, _, 0x9, 0xE) => Opcode::SKPVx { x: op_x(op) },
        (0xE, _, 0xA, 0x1) => Opcode::SKNPVx { x: op_x(op) },
        (0xF, _, 0x0, 0x7) => Opcode::LDVxDT { x: op_x(op) },
        (0xF, _, 0x0, 0xA) => Opcode::LDVxK { x: op_x(op) },
        (0xF, _, 0x1, 0x5) => Opcode::LDDTVx { x: op_x(op) },
        (0xF, _, 0x1, 0x8) => Opcode::LDSTVx { x: op_x(op) },
        (0xF, _, 0x1, 0xE) => Opcode::ADDIVx { x: op_x(op) },
        (0xF, _, 0x2, 0x9) => Opcode::LDFVx { x: op_x(op) },
        (0xF, _, 0x3, 0x3) => Opcode::LDBVx { x: op_x(op) },
        (0xF, _, 0x5, 0x5) => Opcode::LDIVx { x: op_x(op) },
        (0xF, _, 0x6, 0x5) => Opcode::LDVxI { x: op_x(op) },
        _ => Opcode::UNKNOWN { opcode: split_opcode(op) },
    }
}

} // verus!
