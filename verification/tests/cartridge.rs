use chip8_core::cart::{Cartridge, MAX_CART_SIZE};
use chip8_core::cpu::opcodes::Opcode;
use chip8_core::cpu::ProcState;
use chip8_core::fault::Fault;
use chip8_core::keypad::keypad_key;
use chip8_core::{SCREEN_HEIGHT, SCREEN_WIDTH};

#[test]
pub fn load_keeps_the_data_byte_for_byte() {
    let data = [0x12u8, 0x34, 0x56];
    let cart = Cartridge::load(&data).ok().unwrap();

    assert_eq!(cart.size, 3);
    assert_eq!(cart.buffer[0..3], data);
    assert!(cart.buffer[3..].iter().all(|b| *b == 0));
}

#[test]
pub fn load_takes_an_empty_and_a_full_image() {
    let cart = Cartridge::load(&[]).ok().unwrap();
    assert_eq!(cart.size, 0);
    assert_eq!(cart.buffer, [0u8; MAX_CART_SIZE]);

    let data = vec![0xA5u8; MAX_CART_SIZE];
    let cart = Cartridge::load(&data).ok().unwrap();
    assert_eq!(cart.size, 3584);
    assert_eq!(cart.buffer, [0xA5u8; MAX_CART_SIZE]);
}

#[test]
pub fn load_refuses_an_oversized_image() {
    let data = vec![0u8; MAX_CART_SIZE + 1];
    assert_eq!(Cartridge::load(&data).err(), Some(Fault::OversizedCartridge));
    let data = vec![1u8; 10_000];
    assert_eq!(Cartridge::load(&data).err(), Some(Fault::OversizedCartridge));
}

#[test]
pub fn memory_image_has_the_program_at_0x200_and_the_font_at_0() {
    let cart = Cartridge::load(&[0xA1, 0x23, 0x00, 0xEE]).ok().unwrap();
    let font = [0xF0u8, 0x90, 0x90, 0x90, 0xF0];

    let mem = cart.memory_image(&font);

    assert_eq!(mem[0..5], font);
    assert_eq!(mem[0x200..0x204], [0xA1, 0x23, 0x00, 0xEE]);
    for (addr, byte) in mem.iter().enumerate() {
        if addr >= 5 && !(0x200..0x204).contains(&addr) {
            assert_eq!(*byte, 0, "address {:#x}", addr);
        }
    }

    let mut state = ProcState::new(mem, None);
    assert_eq!(state.fetch_and_decode_opcode(), Opcode::LDIAddr { addr: 0x123 });
    assert_eq!(state.fetch_and_decode_opcode(), Opcode::RET);
}

#[test]
pub fn memory_image_of_a_full_program_reaches_the_end_of_memory() {
    let mut data = vec![0u8; MAX_CART_SIZE];
    data[0] = 0x11;
    data[MAX_CART_SIZE - 1] = 0x99;
    let cart = Cartridge::load(&data).ok().unwrap();

    let mem = cart.memory_image(&[]);

    assert_eq!(mem[0x200], 0x11);
    assert_eq!(mem[0xFFF], 0x99);
    assert!(mem[0..0x200].iter().all(|b| *b == 0));
}

#[test]
pub fn memory_image_lets_a_long_font_cover_the_program() {
    let cart = Cartridge::load(&[0xAA, 0xBB, 0xCC]).ok().unwrap();
    let font = vec![0x77u8; 0x202];

    let mem = cart.memory_image(&font);

    assert_eq!(mem[0x1FF..0x204], [0x77, 0x77, 0x77, 0xCC, 0x00]);
}

#[test]
pub fn disassemble_lists_each_word_with_its_address() {
    let cart = Cartridge::load(&[0x00, 0xE0, 0xA1, 0x23, 0xD1, 0x25, 0x12, 0x00]).ok().unwrap();

    let listing = cart.disassemble();

    assert_eq!(
        listing,
        vec![
            (0x200, Opcode::CLS),
            (0x202, Opcode::LDIAddr { addr: 0x123 }),
            (0x204, Opcode::DRW { x: 1, y: 2, nibble: 5 }),
            (0x206, Opcode::JP { addr: 0x200 }),
        ]
    );
}

#[test]
pub fn disassemble_takes_a_last_odd_byte_as_a_word() {
    let cart = Cartridge::load(&[0x00, 0xEE, 0x12]).ok().unwrap();
    assert_eq!(
        cart.disassemble(),
        vec![(0x200, Opcode::RET), (0x202, Opcode::JP { addr: 0x200 })]
    );

    let mut odd = Cartridge::load(&[0x00, 0xEE, 0x12]).ok().unwrap();
    odd.buffer[3] = 0x34;
    assert_eq!(odd.disassemble().last(), Some(&(0x202, Opcode::JP { addr: 0x200 })));

    assert_eq!(Cartridge::load(&[]).ok().unwrap().disassemble(), vec![]);

    let full = Cartridge::load(&vec![0u8; MAX_CART_SIZE]).ok().unwrap();
    let listing = full.disassemble();
    assert_eq!(listing.len(), 1792);
    assert_eq!(listing[1791], (0xFFE, Opcode::UNKNOWN { opcode: (0, 0, 0, 0) }));
}

#[test]
pub fn keypad_lies_on_the_left_of_the_keyboard() {
    let rows = [
        (['1', '2', '3', '4'], [0x1u8, 0x2, 0x3, 0xC]),
        (['q', 'w', 'e', 'r'], [0x4, 0x5, 0x6, 0xD]),
        (['a', 's', 'd', 'f'], [0x7, 0x8, 0x9, 0xE]),
        (['z', 'x', 'c', 'v'], [0xA, 0x0, 0xB, 0xF]),
    ];
    for (symbols, codes) in rows {
        for k in 0..4 {
            assert_eq!(keypad_key(symbols[k]), Some(codes[k]));
        }
    }
}

#[test]
pub fn keypad_knows_no_other_key() {
    let mut known = 0;
    for code in 0..=0x10FFFFu32 {
        if let Some(symbol) = char::from_u32(code) {
            if let Some(key) = keypad_key(symbol) {
                assert!(key < 16);
                known += 1;
            }
        }
    }
    assert_eq!(known, 16);
    assert_eq!(keypad_key('Q'), None);
    assert_eq!(keypad_key('5'), None);
    assert_eq!(keypad_key('0'), None);
    assert_eq!(keypad_key(' '), None);
}

#[test]
pub fn display_is_64_by_32() {
    assert_eq!(SCREEN_WIDTH, 64);
    assert_eq!(SCREEN_HEIGHT, 32);
}
