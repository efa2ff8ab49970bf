use chip8_core::cpu::opcodes::{
    get_opcode, op_kk, op_n, op_nnn, op_x, op_xy, split_opcode, Opcode,
};

#[test]
pub fn split_opcode_test() {
    assert_eq!((0xB, 0xE, 0xE, 0xF), split_opcode(0xBEEF));
}

#[test]
pub fn op_nnn_pulls_correct_value() {
    assert_eq!(0x5C4, op_nnn(0xF5C4));
}

#[test]
pub fn op_x_pulls_correct_value() {
    assert_eq!(0x2, op_x(0x1234));
}

#[test]
pub fn op_xy_pulls_correct_values() {
    assert_eq!((0xB, 0xC), op_xy(0xABCD));
}

#[test]
pub fn op_kk_pulls_correct_value() {
    assert_eq!((0x89), op_kk(0x6789))
}

#[test]
pub fn op_n_pulls_correct_value() {
    assert_eq!((0xF), op_n(0xCDEF));
}

#[test]
pub fn decode_gives_the_documented_instructions() {
    assert_eq!(get_opcode(0xA123), Opcode::LDIAddr { addr: 0x123 });
    assert_eq!(get_opcode(0x00EE), Opcode::RET);
    assert_eq!(get_opcode(0x1ABC), Opcode::JP { addr: 0x0ABC });
}

#[test]
pub fn decode_knows_every_instruction() {
    assert_eq!(get_opcode(0x00E0), Opcode::CLS);
    assert_eq!(get_opcode(0x00EE), Opcode::RET);
    assert_eq!(get_opcode(0x1234), Opcode::JP { addr: 0x234 });
    assert_eq!(get_opcode(0x2FFF), Opcode::CALL { addr: 0xFFF });
    assert_eq!(get_opcode(0x3A12), Opcode::SEVxByte { x: 0xA, byte: 0x12 });
    assert_eq!(get_opcode(0x4B34), Opcode::SNEVxByte { x: 0xB, byte: 0x34 });
    assert_eq!(get_opcode(0x5120), Opcode::SEVxVy { x: 1, y: 2 });
    assert_eq!(get_opcode(0x6CFF), Opcode::LDVxByte { x: 0xC, byte: 0xFF });
    assert_eq!(get_opcode(0x7D01), Opcode::ADDVxByte { x: 0xD, byte: 0x01 });
    assert_eq!(get_opcode(0x8120), Opcode::LDVxVy { x: 1, y: 2 });
    assert_eq!(get_opcode(0x8341), Opcode::ORVxVy { x: 3, y: 4 });
    assert_eq!(get_opcode(0x8562), Opcode::ANDVxVy { x: 5, y: 6 });
    assert_eq!(get_opcode(0x8783), Opcode::XORVxVy { x: 7, y: 8 });
    assert_eq!(get_opcode(0x89A4), Opcode::ADDVxVy { x: 9, y: 0xA });
    assert_eq!(get_opcode(0x8BC5), Opcode::SUBVxVy { x: 0xB, y: 0xC });
    assert_eq!(get_opcode(0x8DE6), Opcode::SHRVxVy { x: 0xD, y: 0xE });
    assert_eq!(get_opcode(0x8F07), Opcode::SUBNVxVy { x: 0xF, y: 0 });
    assert_eq!(get_opcode(0x812E), Opcode::SHLVxVy { x: 1, y: 2 });
    assert_eq!(get_opcode(0x9340), Opcode::SNEVxVy { x: 3, y: 4 });
    assert_eq!(get_opcode(0xA000), Opcode::LDIAddr { addr: 0 });
    assert_eq!(get_opcode(0xB800), Opcode::JPV0Addr { addr: 0x800 });
    assert_eq!(get_opcode(0xC50F), Opcode::RNDVxByte { x: 5, byte: 0x0F });
    assert_eq!(get_opcode(0xD125), Opcode::DRW { x: 1, y: 2, nibble: 5 });
    assert_eq!(get_opcode(0xE69E), Opcode::SKPVx { x: 6 });
    assert_eq!(get_opcode(0xE7A1), Opcode::SKNPVx { x: 7 });
    assert_eq!(get_opcode(0xF807), Opcode::LDVxDT { x: 8 });
    assert_eq!(get_opcode(0xF90A), Opcode::LDVxK { x: 9 });
    assert_eq!(get_opcode(0xFA15), Opcode::LDDTVx { x: 0xA });
    assert_eq!(get_opcode(0xFB18), Opcode::LDSTVx { x: 0xB });
    assert_eq!(get_opcode(0xFC1E), Opcode::ADDIVx { x: 0xC });
    assert_eq!(get_opcode(0xFD29), Opcode::LDFVx { x: 0xD });
    assert_eq!(get_opcode(0xFE33), Opcode::LDBVx { x: 0xE });
    assert_eq!(get_opcode(0xFF55), Opcode::LDIVx { x: 0xF });
    assert_eq!(get_opcode(0xF065), Opcode::LDVxI { x: 0 });
}

#[test]
pub fn decode_gives_unknown_with_the_words_digits() {
    assert_eq!(get_opcode(0x0000), Opcode::UNKNOWN { opcode: (0, 0, 0, 0) });
    assert_eq!(get_opcode(0x0123), Opcode::UNKNOWN { opcode: (0, 1, 2, 3) });
    assert_eq!(get_opcode(0x5121), Opcode::UNKNOWN { opcode: (5, 1, 2, 1) });
    assert_eq!(get_opcode(0x8128), Opcode::UNKNOWN { opcode: (8, 1, 2, 8) });
    assert_eq!(get_opcode(0x9341), Opcode::UNKNOWN { opcode: (9, 3, 4, 1) });
    assert_eq!(get_opcode(0xE69F), Opcode::UNKNOWN { opcode: (0xE, 6, 9, 0xF) });
    assert_eq!(get_opcode(0xFFFF), Opcode::UNKNOWN { opcode: (0xF, 0xF, 0xF, 0xF) });
}

#[test]
pub fn decode_is_total_and_repeatable() {
    let mut unknown = 0u32;
    for word in 0..=0xFFFFu16 {
        let first = get_opcode(word);
        let second = get_opcode(word);
        assert_eq!(first, second);
        if let Opcode::UNKNOWN { opcode } = first {
            assert_eq!(opcode, split_opcode(word));
            unknown += 1;
        }
    }
    // 0x0000 to 0x0FFF but CLS and RET, fifteen of sixteen of 0x5000 and
    // 0x9000, seven of sixteen of 0x8000, all but the two key skips of
    // 0xE000, all but nine per register of 0xF000.
    assert_eq!(unknown, 4094 + 2 * 3840 + 1792 + (4096 - 32) + (4096 - 144));
}

#[test]
pub fn operands_come_from_their_fields() {
    for word in 0..=0xFFFFu16 {
        assert_eq!(op_nnn(word), word % 0x1000);
        assert_eq!(op_kk(word) as u16, word % 0x100);
        assert_eq!(op_n(word) as u16, word % 0x10);
        assert_eq!(op_x(word) as u16, word / 0x100 % 0x10);
        assert_eq!(op_xy(word), (op_x(word), (word / 0x10 % 0x10) as u8));
        let (a, b, c, d) = split_opcode(word);
        assert_eq!(
            (a as u16) * 0x1000 + (b as u16) * 0x100 + (c as u16) * 0x10 + d as u16,
            word
        );
    }
}

#[test]
pub fn mnemonics_of_instructions_without_numbers() {
    assert_eq!(Opcode::CLS.to_string(), "CLS");
    assert_eq!(Opcode::RET.to_string(), "RET");
}

#[test]
pub fn mnemonics_with_an_address() {
    assert_eq!(Opcode::JP { addr: 0x123 }.to_string(), "JP 0x123");
    assert_eq!(Opcode::JP { addr: 0x5 }.to_string(), "JP 0x005");
    assert_eq!(Opcode::CALL { addr: 0xFFF }.to_string(), "CALL 0xfff");
    assert_eq!(Opcode::CALL { addr: 0xABCD }.to_string(), "CALL 0xabcd");
    assert_eq!(Opcode::LDIAddr { addr: 0x0 }.to_string(), "LD I, 0x000");
    assert_eq!(Opcode::JPV0Addr { addr: 0x20 }.to_string(), "JP V0, 0x020");
}

#[test]
pub fn mnemonics_with_a_register_and_a_byte() {
    assert_eq!(Opcode::SEVxByte { x: 1, byte: 0xF }.to_string(), "SE V1, 0x0f");
    assert_eq!(Opcode::SNEVxByte { x: 1, byte: 0xF }.to_string(), "SNE V1, 0xf");
    assert_eq!(Opcode::SNEVxByte { x: 0xA, byte: 0x1F }.to_string(), "SNE Va, 0x1f");
    assert_eq!(Opcode::LDVxByte { x: 0xB, byte: 0 }.to_string(), "LD Vb, 0x00");
    assert_eq!(Opcode::ADDVxByte { x: 0, byte: 0xFF }.to_string(), "ADD V0, 0xff");
    assert_eq!(Opcode::RNDVxByte { x: 0xF, byte: 0x7 }.to_string(), "RND Vf, 0x07");
}

#[test]
pub fn mnemonics_with_two_registers() {
    assert_eq!(Opcode::SEVxVy { x: 1, y: 2 }.to_string(), "SE V1, V2");
    assert_eq!(Opcode::LDVxVy { x: 0xA, y: 0xB }.to_string(), "LD Va, Vb");
    assert_eq!(Opcode::ORVxVy { x: 0, y: 0xF }.to_string(), "OR V0, Vf");
    assert_eq!(Opcode::ANDVxVy { x: 3, y: 4 }.to_string(), "AND V3, V4");
    assert_eq!(Opcode::XORVxVy { x: 5, y: 6 }.to_string(), "XOR V5, V6");
    assert_eq!(Opcode::ADDVxVy { x: 7, y: 8 }.to_string(), "ADD V7, V8");
    assert_eq!(Opcode::SUBVxVy { x: 9, y: 0xC }.to_string(), "SUB V9, Vc");
    assert_eq!(Opcode::SNEVxVy { x: 0xD, y: 0xE }.to_string(), "SNE Vd, Ve");
    assert_eq!(Opcode::SUBNVxVy { x: 0xA, y: 0xB }.to_string(), "SUBN Va, VB");
    assert_eq!(Opcode::SUBNVxVy { x: 1, y: 2 }.to_string(), "SUBN V1, V2");
    assert_eq!(Opcode::SHRVxVy { x: 1, y: 0xA }.to_string(), "SHR V1 {, Va}");
    assert_eq!(Opcode::SHLVxVy { x: 0xE, y: 2 }.to_string(), "SHL Ve {, V2}");
    assert_eq!(Opcode::DRW { x: 1, y: 2, nibble: 3 }.to_string(), "DRW V1, V2, 0x3");
    assert_eq!(Opcode::DRW { x: 0xA, y: 0xB, nibble: 0xF }.to_string(), "DRW Va, Vb, 0xf");
}

#[test]
pub fn mnemonics_with_one_register() {
    assert_eq!(Opcode::SKPVx { x: 1 }.to_string(), "SKP V1");
    assert_eq!(Opcode::SKNPVx { x: 0xA }.to_string(), "SKNP Va");
    assert_eq!(Opcode::LDVxDT { x: 2 }.to_string(), "LD V2, DT");
    assert_eq!(Opcode::LDVxK { x: 3 }.to_string(), "LD V3, K");
    assert_eq!(Opcode::LDDTVx { x: 4 }.to_string(), "LD DT, V4");
    assert_eq!(Opcode::LDSTVx { x: 5 }.to_string(), "LD ST, V5");
    assert_eq!(Opcode::ADDIVx { x: 6 }.to_string(), "ADD I, V6");
    assert_eq!(Opcode::LDFVx { x: 7 }.to_string(), "LD F, V7");
    assert_eq!(Opcode::LDBVx { x: 8 }.to_string(), "LD B, V8");
    assert_eq!(Opcode::LDVxI { x: 9 }.to_string(), "LD V9, [I]");
    assert_eq!(Opcode::LDIVx { x: 0xF }.to_string(), "LD [I], Vf");
}

#[test]
pub fn mnemonic_of_an_unknown_word() {
    assert_eq!(
        Opcode::UNKNOWN { opcode: (0, 1, 0xA, 0xF) }.to_string(),
        "UNKNOWN (0x0, 0x1, 0xa, 0xf)"
    );
    assert_eq!(
        Opcode::UNKNOWN { opcode: (0xFF, 0x10, 0, 0) }.to_string(),
        "UNKNOWN (0xff, 0x10, 0x0, 0x0)"
    );
}

#[test]
pub fn mnemonics_write_numbers_as_the_standard_formatter_does() {
    for addr in (0..=0xFFFFu16).step_by(7) {
        assert_eq!(Opcode::JP { addr }.to_string(), format!("JP {:#05x}", addr));
        assert_eq!(Opcode::LDIAddr { addr }.to_string(), format!("LD I, {:#05x}", addr));
    }
    for x in 0..=255u8 {
        let byte = x.wrapping_mul(37);
        assert_eq!(
            Opcode::SEVxByte { x, byte }.to_string(),
            format!("SE V{:x}, {:#04x}", x, byte)
        );
        assert_eq!(
            Opcode::SNEVxByte { x, byte }.to_string(),
            format!("SNE V{:x}, {:#02x}", x, byte)
        );
        assert_eq!(
            Opcode::SUBNVxVy { x, y: byte }.to_string(),
            format!("SUBN V{:x}, V{:X}", x, byte)
        );
        assert_eq!(
            Opcode::SHRVxVy { x, y: byte }.to_string(),
            format!("SHR V{:x} {{, V{:x}}}", x, byte)
        );
        assert_eq!(
            Opcode::DRW { x, y: byte, nibble: x }.to_string(),
            format!("DRW V{:x}, V{:x}, {:#03x}", x, byte, x)
        );
    }
}
