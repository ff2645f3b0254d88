use chip8::emulator::Emulator;
use chip8::errors::{DecodeError, Fault, MemoryError, StackError, Status};
use chip8::quirks::Quirks;

#[test]
fn new_machine_has_reset_layout() {
    let e = Emulator::new();
    assert_eq!(e.pc, 0x200);
    assert_eq!(e.i, 0);
    assert_eq!(e.stack.len(), 0);
    assert_eq!(e.regs, vec![0u8; 16]);
    assert_eq!(e.dt, 0);
    assert_eq!(e.st, 0);
    assert_eq!(e.status, Status::Running);
    assert!(e.fb.iter().all(|p| !p));
    // The font glyph for 0 sits at the bottom of RAM.
    assert_eq!(&e.ram[0..5], &[0xF0, 0x90, 0x90, 0x90, 0xF0]);
    // Everything between the font and the program area is clear.
    assert!(e.ram[80..].iter().all(|b| *b == 0));
}

#[test]
fn add_vx_vy_wraps_and_sets_carry() {
    let mut e = Emulator::new();
    e.load_vx_byte(0, 0xFF);
    e.load_vx_byte(1, 0x01);
    e.add_vx_vy(0, 1);
    assert_eq!(e.regs[0], 0x00);
    assert_eq!(e.regs[15], 1);

    e.load_vx_byte(2, 10);
    e.load_vx_byte(3, 20);
    e.add_vx_vy(2, 3);
    assert_eq!(e.regs[2], 30);
    assert_eq!(e.regs[15], 0);
}

#[test]
fn sub_vx_vy_wraps_and_sets_not_borrow() {
    let mut e = Emulator::new();
    e.load_vx_byte(0, 5);
    e.load_vx_byte(1, 7);
    e.sub_vx_vy(0, 1);
    assert_eq!(e.regs[0], 254); // (5 - 7) mod 256
    assert_eq!(e.regs[15], 0);

    e.load_vx_byte(2, 9);
    e.load_vx_byte(3, 9);
    e.sub_vx_vy(2, 3);
    assert_eq!(e.regs[2], 0);
    assert_eq!(e.regs[15], 1); // equal operands: no borrow
}

#[test]
fn subn_vx_vy_takes_difference_the_other_way() {
    let mut e = Emulator::new();
    e.load_vx_byte(0, 3);
    e.load_vx_byte(1, 10);
    e.subn_vx_vy(0, 1);
    assert_eq!(e.regs[0], 7);
    assert_eq!(e.regs[15], 1);
}

#[test]
fn shifts_read_vx_without_the_quirk() {
    let mut e = Emulator::new();
    e.load_vx_byte(0, 0b1000_0101);
    e.load_vx_byte(1, 0b0000_0010);
    e.shr_vx_vy(0, 1);
    assert_eq!(e.regs[0], 0b0100_0010);
    assert_eq!(e.regs[15], 1);

    e.load_vx_byte(2, 0b1100_0000);
    e.shl_vx_vy(2, 1);
    assert_eq!(e.regs[2], 0b1000_0000);
    assert_eq!(e.regs[15], 1);
}

#[test]
fn shifts_read_vy_under_the_quirk() {
    let mut e = Emulator::with_quirks(Quirks::new(true, false));
    e.load_vx_byte(0, 0xFF);
    e.load_vx_byte(1, 0b0000_0110);
    e.shr_vx_vy(0, 1);
    assert_eq!(e.regs[0], 0b0000_0011);
    assert_eq!(e.regs[15], 0);
}

#[test]
fn bitwise_ops_combine_registers() {
    let mut e = Emulator::new();
    e.load_vx_byte(0, 0b1010_0000);
    e.load_vx_byte(1, 0b1000_0001);
    e.or_vx_vy(0, 1);
    assert_eq!(e.regs[0], 0b1010_0001);
    e.and_vx_vy(0, 1);
    assert_eq!(e.regs[0], 0b1000_0001);
    e.xor_vx_vy(0, 1);
    assert_eq!(e.regs[0], 0);
}

#[test]
fn add_vx_byte_wraps_without_touching_vf() {
    let mut e = Emulator::new();
    e.load_vx_byte(5, 0xF0);
    e.load_vx_byte(15, 9);
    e.add_vx_byte(5, 0x20);
    assert_eq!(e.regs[5], 0x10);
    assert_eq!(e.regs[15], 9);
}

#[test]
fn bcd_stores_three_decimal_digits() {
    let mut e = Emulator::new();
    e.load_vx_byte(3, 137);
    e.ld_i_addr(0x400);
    e.ld_b_vx(3);
    assert_eq!(e.ram[0x400], 1);
    assert_eq!(e.ram[0x401], 3);
    assert_eq!(e.ram[0x402], 7);
    assert_eq!(e.status, Status::Running);
}

#[test]
fn bcd_past_the_end_of_ram_halts() {
    let mut e = Emulator::new();
    e.ld_i_addr(4094);
    e.ld_b_vx(0);
    assert_eq!(
        e.status,
        Status::Halted(Fault::Memory(MemoryError::OutOfBounds(4096)))
    );
}

#[test]
fn font_address_is_five_bytes_per_glyph() {
    let mut e = Emulator::new();
    e.load_vx_byte(2, 0x0A);
    e.ld_f_vx(2);
    assert_eq!(e.i, 50);
    // The glyph there is the one for the digit A.
    assert_eq!(&e.ram[50..55], &[0xF0, 0x90, 0xF0, 0x90, 0x90]);
}

#[test]
fn add_i_vx_wraps_at_twelve_bits() {
    let mut e = Emulator::new();
    e.ld_i_addr(4090);
    e.load_vx_byte(0, 10);
    e.add_i_vx(0);
    assert_eq!(e.i, 4);
}

#[test]
fn jp_v0_adds_the_register() {
    let mut e = Emulator::new();
    e.load_vx_byte(0, 0x10);
    e.jp_v0_addr(0x300);
    assert_eq!(e.pc, 0x310);
}

#[test]
fn rnd_masks_the_drawn_byte() {
    let mut e = Emulator::new();
    e.load_vx_byte(0, 0xAA);
    e.rnd_vx_byte(0, 0x00);
    assert_eq!(e.regs[0], 0); // masked with 0, whatever was drawn
    e.rnd_vx_byte(1, 0x0F);
    assert!(e.regs[1] < 16);
}

#[test]
fn store_and_load_round_trip_registers() {
    let mut e = Emulator::new();
    for x in 0..5u8 {
        e.load_vx_byte(x, 10 + x);
    }
    e.ld_i_addr(0x350);
    e.ld_i_vx(4);
    assert_eq!(e.i, 0x350); // no advance without the quirk
    for x in 0..5u8 {
        e.load_vx_byte(x, 0);
    }
    e.ld_vx_i(4);
    for x in 0..5usize {
        assert_eq!(e.regs[x], 10 + x as u8);
    }
}

#[test]
fn store_advances_i_under_the_quirk() {
    let mut e = Emulator::with_quirks(Quirks::new(false, true));
    e.ld_i_addr(0x350);
    e.ld_i_vx(4);
    assert_eq!(e.i, 0x355);
}

#[test]
fn store_past_the_end_of_ram_halts() {
    let mut e = Emulator::new();
    e.ld_i_addr(4090);
    e.ld_i_vx(9);
    assert_eq!(
        e.status,
        Status::Halted(Fault::Memory(MemoryError::OutOfBounds(4099)))
    );
}

#[test]
fn skips_consider_keypad_snapshot() {
    let mut e = Emulator::new();
    e.load_vx_byte(0, 7);
    e.set_key(7, true);
    let pc = e.pc;
    e.skp_vx(0);
    assert_eq!(e.pc, pc + 4);
    e.set_key(7, false);
    let pc = e.pc;
    e.skp_vx(0);
    assert_eq!(e.pc, pc + 2);
    let pc = e.pc;
    e.sknp_vx(0);
    assert_eq!(e.pc, pc + 4);
}

#[test]
fn key_wait_suspends_until_delivery() {
    let mut e = Emulator::new();
    let pc = e.pc;
    e.ld_vx_k(4);
    assert_eq!(e.status, Status::WaitingForKey(4));
    assert_eq!(e.pc, pc); // no advance while suspended
    // A step while suspended moves nothing.
    e.step();
    assert_eq!(e.pc, pc);
    e.deliver_key(0xB);
    assert_eq!(e.status, Status::Running);
    assert_eq!(e.regs[4], 0xB);
    assert_eq!(e.pc, pc + 2); // the opcode completes on delivery
}

#[test]
fn delivery_to_a_running_machine_changes_nothing() {
    let mut e = Emulator::new();
    e.deliver_key(3);
    assert_eq!(e.status, Status::Running);
    assert_eq!(e.regs, vec![0u8; 16]);
}

#[test]
fn timer_opcodes_move_values_both_ways() {
    let mut e = Emulator::new();
    e.load_vx_byte(0, 42);
    e.ld_dt_vx(0);
    e.ld_st_vx(0);
    assert_eq!(e.dt, 42);
    assert_eq!(e.st, 42);
    e.ld_vx_dt(1);
    assert_eq!(e.regs[1], 42);
}

#[test]
fn ret_on_empty_stack_halts_with_underflow() {
    let mut e = Emulator::new();
    e.ret();
    assert_eq!(e.status, Status::Halted(Fault::Stack(StackError::Underflow)));
}

#[test]
fn memory_access_is_bounds_checked() {
    let mut e = Emulator::new();
    assert_eq!(e.write_byte(4095, 7), Ok(()));
    assert_eq!(e.read_byte(4095), Ok(7));
    assert_eq!(e.write_byte(4096, 7), Err(MemoryError::OutOfBounds(4096)));
    assert_eq!(e.read_byte(5000), Err(MemoryError::OutOfBounds(5000)));
}

#[test]
fn sprite_rows_read_consecutive_bytes() {
    let mut e = Emulator::new();
    e.write_byte(0x300, 1).unwrap();
    e.write_byte(0x301, 2).unwrap();
    e.write_byte(0x302, 3).unwrap();
    let rows = e.read_sprite_rows(0x300, 3).unwrap();
    assert_eq!(rows, vec![1, 2, 3]);
    assert_eq!(
        e.read_sprite_rows(4090, 10),
        Err(MemoryError::OutOfBounds(4099))
    );
}

#[test]
fn load_program_places_bytes_at_the_program_start() {
    let mut e = Emulator::new();
    let prog = vec![0x60, 0x05, 0x12, 0x00];
    assert!(e.load_program(&prog).is_ok());
    assert_eq!(&e.ram[0x200..0x204], &prog[..]);
    assert_eq!(e.ram[0x204], 0);
}

#[test]
fn load_program_rejects_an_oversized_program() {
    let mut e = Emulator::new();
    let prog = vec![0u8; 3585];
    assert_eq!(e.load_program(&prog), Err(MemoryError::OutOfBounds(4096)));
    let prog = vec![7u8; 3584];
    assert!(e.load_program(&prog).is_ok());
    assert_eq!(e.ram[4095], 7);
}

#[test]
fn unknown_word_halts_the_machine() {
    let mut e = Emulator::new();
    e.load_program(&vec![0xFF, 0xFF]).unwrap();
    let executed = e.run(10);
    assert_eq!(executed, 1);
    assert_eq!(
        e.status,
        Status::Halted(Fault::Decode(DecodeError::UnknownOpcode(0xFFFF)))
    );
}

#[test]
fn reset_restores_the_initial_layout_and_quirks() {
    let mut e = Emulator::with_quirks(Quirks::new(true, true));
    e.load_vx_byte(0, 9);
    e.ld_vx_k(0);
    e.reset();
    assert_eq!(e.status, Status::Running);
    assert_eq!(e.pc, 0x200);
    assert_eq!(e.regs, vec![0u8; 16]);
    assert_eq!(e.quirks, Quirks::new(true, true));
}

#[test]
fn quirk_bitmask_rejects_undefined_bits() {
    assert_eq!(Quirks::from_bits(0), Ok(Quirks::new(false, false)));
    assert_eq!(Quirks::from_bits(1), Ok(Quirks::new(true, false)));
    assert_eq!(Quirks::from_bits(2), Ok(Quirks::new(false, true)));
    assert_eq!(Quirks::from_bits(3), Ok(Quirks::new(true, true)));
    assert_eq!(
        Quirks::from_bits(4),
        Err(chip8::errors::ConfigError::InvalidQuirkCombination)
    );
}
