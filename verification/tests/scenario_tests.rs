use chip8::emulator::Emulator;
use chip8::errors::{Fault, StackError, Status};

#[test]
fn satisfied_skip_advances_an_extra_word() {
    let mut e = Emulator::new();
    // LD V0,5 ; LD V1,5 ; SE V0,V1
    let prog = vec![0x60, 0x05, 0x61, 0x05, 0x50, 0x10];
    e.load_program(&prog).unwrap();
    let executed = e.run(3);
    assert_eq!(executed, 3);
    assert_eq!(e.regs[0], 5);
    assert_eq!(e.regs[1], 5);
    // Two plain advances plus one satisfied skip: 2 + 2 + 4 bytes.
    assert_eq!(e.pc, 0x208);
    assert_eq!(e.status, Status::Running);
}

#[test]
fn unsatisfied_skip_advances_normally() {
    let mut e = Emulator::new();
    // LD V0,5 ; LD V1,6 ; SE V0,V1
    let prog = vec![0x60, 0x05, 0x61, 0x06, 0x50, 0x10];
    e.load_program(&prog).unwrap();
    e.run(3);
    assert_eq!(e.pc, 0x206);
}

#[test]
fn draw_wraps_around_the_right_edge() {
    let mut e = Emulator::new();
    e.load_vx_byte(0, 60);
    e.load_vx_byte(1, 0);
    e.ld_i_addr(0x300);
    e.write_byte(0x300, 0xFF).unwrap();
    e.drw_vx_vy_n(0, 1, 1);
    // Four bits land on columns 60..63, the other four wrap to 0..3.
    for col in 0..64usize {
        let expected = col < 4 || col >= 60;
        assert_eq!(e.fb[col], expected, "column {}", col);
    }
    // Nothing outside row 0 is touched, and nothing was erased.
    assert!(e.fb[64..].iter().all(|p| !p));
    assert_eq!(e.regs[15], 0);
}

#[test]
fn redrawing_the_same_sprite_erases_it_and_reports_collision() {
    let mut e = Emulator::new();
    e.load_vx_byte(0, 60);
    e.ld_i_addr(0x300);
    e.write_byte(0x300, 0xFF).unwrap();
    e.drw_vx_vy_n(0, 1, 1);
    e.drw_vx_vy_n(0, 1, 1);
    assert!(e.fb.iter().all(|p| !p));
    assert_eq!(e.regs[15], 1);
}

#[test]
fn draw_wraps_around_the_bottom_edge() {
    let mut e = Emulator::new();
    e.load_vx_byte(0, 0);
    e.load_vx_byte(1, 31);
    e.ld_i_addr(0x300);
    e.write_byte(0x300, 0x80).unwrap();
    e.write_byte(0x301, 0x80).unwrap();
    e.drw_vx_vy_n(0, 1, 2);
    assert!(e.fb[31 * 64]); // row 31, column 0
    assert!(e.fb[0]); // second row wraps to row 0
    assert_eq!(e.regs[15], 0);
}

#[test]
fn two_clears_both_leave_the_framebuffer_clear() {
    let mut e = Emulator::new();
    e.load_vx_byte(0, 1);
    e.ld_i_addr(0);
    e.drw_vx_vy_n(0, 0, 5); // put the glyph for 0 on screen
    assert!(e.fb.iter().any(|p| *p));
    e.clear_display();
    assert!(e.fb.iter().all(|p| !p));
    e.clear_display();
    assert!(e.fb.iter().all(|p| !p));
}

#[test]
fn call_and_return_restore_the_following_address() {
    let mut e = Emulator::new();
    // At 0x200: CALL 0x300. At 0x300: RET.
    let mut prog = vec![0u8; 0x102];
    prog[0] = 0x23;
    prog[1] = 0x00;
    prog[0x100] = 0x00;
    prog[0x101] = 0xEE;
    e.load_program(&prog).unwrap();
    e.step();
    assert_eq!(e.pc, 0x300);
    assert_eq!(e.stack, vec![0x202]);
    e.step();
    assert_eq!(e.pc, 0x202); // the instruction following the CALL
    assert_eq!(e.stack.len(), 0);
    assert_eq!(e.status, Status::Running);
}

#[test]
fn call_on_a_full_stack_overflows_and_changes_nothing_else() {
    let mut e = Emulator::new();
    for _ in 0..16 {
        e.call(0x300);
    }
    assert_eq!(e.stack.len(), 16);
    assert_eq!(e.status, Status::Running);
    let pc = e.pc;
    let stack = e.stack.clone();
    e.call(0x400);
    assert_eq!(e.status, Status::Halted(Fault::Stack(StackError::Overflow)));
    assert_eq!(e.pc, pc);
    assert_eq!(e.stack, stack);
}

#[test]
fn a_million_cycles_leave_the_timers_alone() {
    let mut e = Emulator::new();
    e.load_vx_byte(0, 5);
    e.ld_dt_vx(0);
    e.ld_st_vx(0);
    e.jump(0x200);
    e.load_program(&vec![0x12, 0x00]).unwrap(); // JP 0x200, forever
    let executed = e.run(1_000_000);
    assert_eq!(executed, 1_000_000);
    assert_eq!(e.dt, 5);
    assert_eq!(e.st, 5);
}

#[test]
fn halted_machines_stay_halted_until_reset() {
    let mut e = Emulator::new();
    e.load_program(&vec![0xFF, 0xFF]).unwrap();
    e.run(5);
    let halted = e.status;
    assert!(matches!(halted, Status::Halted(_)));
    let executed = e.run(5);
    assert_eq!(executed, 0);
    assert_eq!(e.status, halted);
    e.reset();
    assert_eq!(e.status, Status::Running);
}

#[test]
fn fetch_at_the_last_byte_halts() {
    let mut e = Emulator::new();
    e.jump(4095);
    e.step();
    assert!(matches!(
        e.status,
        Status::Halted(Fault::Memory(chip8::errors::MemoryError::OutOfBounds(4096)))
    ));
}
