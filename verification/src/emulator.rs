use vstd::prelude::*;

use crate::decode::{decode, op_wf, Opcode};
use crate::errors::{DecodeError, Fault, MemoryError, Status};
use crate::model::{
    adv, all_clear_fb, draw_row_state, draw_state, flag, font_byte, i_after_span,
    initial_ram, initial_view, lemma_steps_rel_extend, load_span, loaded_ram, skip_pc,
    spec_execute, sprite_bit, step_rel, steps_rel, store_span, MachineView, FB_SIZE,
    FONT_BYTES, NUM_KEYS, NUM_REGS, PROG_START, RAM_SIZE, STACK_CAP,
};
use crate::quirks::Quirks;

verus! {

/// The machine: RAM, registers, call stack, timers, framebuffer, keypad
/// snapshot, engine status and quirk configuration, owned as one aggregate
/// and mutated only through the methods below.
pub struct Emulator {
    /// The 16 general registers V0..VF. VF doubles as the carry, borrow
    /// and collision flag output.
    pub regs: Vec<u8>,
    /// The address register I, used for memory operations.
    pub i: u16,
    /// The program counter.
    pub pc: u16,
    /// The call stack of return addresses; its length is the stack pointer.
    pub stack: Vec<u16>,
    /// The 4096 bytes of RAM; the font glyphs sit at the bottom.
    pub ram: Vec<u8>,
    /// The 64x32 framebuffer, row-major, one bool per pixel.
    pub fb: Vec<bool>,
    /// The 16-key keypad snapshot, written by the surrounding program.
    pub keys: Vec<bool>,
    /// The delay timer.
    pub dt: u8,
    /// The sound timer; a nonzero value means "sound on".
    pub st: u8,
    /// The engine status.
    pub status: Status,
    /// The construction-time quirk configuration.
    pub quirks: Quirks,
}

impl View for Emulator {
    type V = MachineView;

    open spec fn view(&self) -> MachineView {
        MachineView {
            regs: self.regs@,
            i: self.i,
            pc: self.pc,
            stack: self.stack@,
            ram: self.ram@,
            fb: self.fb@,
            keys: self.keys@,
            dt: self.dt,
            st: self.st,
            status: self.status,
            quirks: self.quirks,
        }
    }
}

/// A vector of `n` zero bytes.
fn zero_bytes(n: usize) -> (v: Vec<u8>)
    ensures
        v@.len() == n,
        forall|j: int| 0 <= j < n ==> v@[j] == 0,
{
    let mut v: Vec<u8> = Vec::new();
    let mut k: usize = 0;
    while k < n
        invariant
            k <= n,
            v@.len() == k,
            forall|j: int| 0 <= j < k ==> v@[j] == 0,
        decreases n - k,
    {
        v.push(0);
        k = k + 1;
    }
    v
}

/// A vector of `n` cleared pixels or keys.
fn falses(n: usize) -> (v: Vec<bool>)
    ensures
        v@.len() == n,
        forall|j: int| 0 <= j < n ==> !v@[j],
{
    let mut v: Vec<bool> = Vec::new();
    let mut k: usize = 0;
    while k < n
        invariant
            k <= n,
            v@.len() == k,
            forall|j: int| 0 <= j < k ==> !v@[j],
        decreases n - k,
    {
        v.push(false);
        k = k + 1;
    }
    v
}

/// Byte `k` of the font data, as executable code.
fn font_byte_at(k: usize) -> (b: u8)
    requires
        k < FONT_BYTES,
    ensures
        b == font_byte(k as int),
{
    if k < 5 {
        if k == 0 { 0xF0 } else if k == 1 { 0x90 } else if k == 2 { 0x90 }
        else if k == 3 { 0x90 } else { 0xF0 }
    } else if k < 10 {
        if k == 5 { 0x20 } else if k == 6 { 0x60 } else if k == 7 { 0x20 }
        else if k == 8 { 0x20 } else { 0x70 }
    } else if k < 15 {
        if k == 10 { 0xF0 } else if k == 11 { 0x10 } else if k == 12 { 0xF0 }
        else if k == 13 { 0x80 } else { 0xF0 }
    } else if k < 20 {
        if k == 15 { 0xF0 } else if k == 16 { 0x10 } else if k == 17 { 0xF0 }
        else if k == 18 { 0x10 } else { 0xF0 }
    } else if k < 25 {
        if k == 20 { 0x90 } else if k == 21 { 0x90 } else if k == 22 { 0xF0 }
        else if k == 23 { 0x10 } else { 0x10 }
    } else if k < 30 {
        if k == 25 { 0xF0 } else if k == 26 { 0x80 } else if k == 27 { 0xF0 }
        else if k == 28 { 0x10 } else { 0xF0 }
    } else if k < 35 {
        if k == 30 { 0xF0 } else if k == 31 { 0x80 } else if k == 32 { 0xF0 }
        else if k == 33 { 0x90 } else { 0xF0 }
    } else if k < 40 {
        if k == 35 { 0xF0 } else if k == 36 { 0x10 } else if k == 37 { 0x20 }
        else if k == 38 { 0x40 } else { 0x40 }
    } else if k < 45 {
        if k == 40 { 0xF0 } else if k == 41 { 0x90 } else if k == 42 { 0xF0 }
        else if k == 43 { 0x90 } else { 0xF0 }
    } else if k < 50 {
        if k == 45 { 0xF0 } else if k == 46 { 0x90 } else if k == 47 { 0xF0 }
        else if k == 48 { 0x10 } else { 0xF0 }
    } else if k < 55 {
        if k == 50 { 0xF0 } else if k == 51 { 0x90 } else if k == 52 { 0xF0 }
        else if k == 53 { 0x90 } else { 0x90 }
    } else if k < 60 {
        if k == 55 { 0xE0 } else if k == 56 { 0x90 } else if k == 57 { 0xE0 }
        else if k == 58 { 0x90 } else { 0xE0 }
    } else if k < 65 {
        if k == 60 { 0xF0 } else if k == 61 { 0x80 } else if k == 62 { 0x80 }
        else if k == 63 { 0x80 } else { 0xF0 }
    } else if k < 70 {
        if k == 65 { 0xE0 } else if k == 66 { 0x90 } else if k == 67 { 0x90 }
        else if k == 68 { 0x90 } else { 0xE0 }
    } else if k < 75 {
        if k == 70 { 0xF0 } else if k == 71 { 0x80 } else if k == 72 { 0xF0 }
        else if k == 73 { 0x80 } else { 0xF0 }
    } else {
        if k == 75 { 0xF0 } else if k == 76 { 0x80 } else if k == 77 { 0xF0 }
        else if k == 78 { 0x80 } else { 0x80 }
    }
}

/// Relies on rand::random: draws one byte from the thread-local generator.
/// Any byte may come back, so nothing is promised of the result.
#[verifier::external_body]
fn random_byte() -> u8 {
    rand::random::<u8>()
}

impl Emulator {
    /// The machine's invariants, as stated on its view.
    pub open spec fn wf(&self) -> bool {
        self@.wf()
    }

    /// Builds a machine in the reset layout with the given quirk
    /// configuration.
    pub fn with_quirks(quirks: Quirks) -> (e: Emulator)
        ensures
            e@ == initial_view(quirks),
            e.wf(),
    {
        let regs = zero_bytes(16);
        let mut ram = zero_bytes(4096);
        let mut k: usize = 0;
        while k < 80
            invariant
                k <= 80,
                ram@.len() == 4096,
                forall|j: int| 0 <= j < k ==> ram@[j] == font_byte(j),
                forall|j: int| k <= j < 4096 ==> ram@[j] == 0,
            decreases 80 - k,
        {
            let b = font_byte_at(k);
            ram[k] = b;
            k = k + 1;
        }
        let fb = falses(2048);
        let keys = falses(16);
        let e = Emulator {
            regs,
            i: 0,
            pc: PROG_START,
            stack: Vec::new(),
            ram,
            fb,
            keys,
            dt: 0,
            st: 0,
            status: Status::Running,
            quirks,
        };
        proof {
            assert(e@.regs =~= initial_view(quirks).regs);
            assert(e@.ram =~= initial_ram());
            assert(e@.fb =~= all_clear_fb());
            assert(e@.keys =~= initial_view(quirks).keys);
            assert(e@.stack =~= Seq::<u16>::empty());
            assert(e@ =~= initial_view(quirks));
        }
        e
    }

    /// Builds a machine with the common later quirk behavior: shifts read
    /// Vx, I does not advance on register stores and loads.
    pub fn new() -> (e: Emulator)
        ensures
            e@ == initial_view(Quirks { shift_reads_vy: false, advance_i: false }),
            e.wf(),
    {
        Emulator::with_quirks(Quirks::new(false, false))
    }

    /// Reinitializes the machine to the reset layout, keeping its quirk
    /// configuration. The only way out of a halted status.
    pub fn reset(&mut self)
        ensures
            final(self)@ == initial_view(old(self).quirks),
            final(self).wf(),
    {
        *self = Emulator::with_quirks(self.quirks);
    }

    /// Places the program bytes at the program start address; a program
    /// that would run past the end of RAM is rejected whole.
    pub fn load_program(&mut self, program: &Vec<u8>) -> (r: Result<(), MemoryError>)
        requires
            old(self).wf(),
        ensures
            final(self).wf(),
            program@.len() <= RAM_SIZE - PROG_START ==> r is Ok && final(self)@ == (
            MachineView { ram: loaded_ram(old(self)@.ram, program@), ..old(self)@ }),
            program@.len() > RAM_SIZE - PROG_START ==> r == Result::<(), MemoryError>::Err(
                MemoryError::OutOfBounds(RAM_SIZE),
            ) && *final(self) == *old(self),
    {
        if program.len() > (RAM_SIZE - PROG_START) as usize {
            return Err(MemoryError::OutOfBounds(RAM_SIZE));
        }
        let n = program.len();
        let mut k: usize = 0;
        while k < n
            invariant
                old(self).wf(),
                k <= n,
                n == program@.len(),
                n <= RAM_SIZE - PROG_START,
                self.ram@.len() == RAM_SIZE,
                forall|j: int|
                    PROG_START <= j < PROG_START + k ==> self.ram@[j]
                        == program@[j - PROG_START],
                forall|j: int|
                    0 <= j < RAM_SIZE && !(PROG_START <= j < PROG_START + k)
                        ==> self.ram@[j] == old(self).ram@[j],
                self.regs == old(self).regs,
                self.i == old(self).i,
                self.pc == old(self).pc,
                self.stack == old(self).stack,
                self.fb == old(self).fb,
                self.keys == old(self).keys,
                self.dt == old(self).dt,
                self.st == old(self).st,
                self.status == old(self).status,
                self.quirks == old(self).quirks,
            decreases n - k,
        {
            let b = program[k];
            self.ram[PROG_START as usize + k] = b;
            k = k + 1;
        }
        proof {
            assert(self@.ram =~= loaded_ram(old(self)@.ram, program@));
            assert(self@ =~= (MachineView {
                ram: loaded_ram(old(self)@.ram, program@),
                ..old(self)@
            }));
        }
        Ok(())
    }

    /// Reads one RAM byte; an address outside the 4096-byte space fails
    /// with `OutOfBounds`.
    pub fn read_byte(&self, addr: u16) -> (r: Result<u8, MemoryError>)
        requires
            self.wf(),
        ensures
            addr < RAM_SIZE ==> r == Result::<u8, MemoryError>::Ok(self@.ram[addr as int]),
            addr >= RAM_SIZE ==> r == Result::<u8, MemoryError>::Err(
                MemoryError::OutOfBounds(addr),
            ),
    {
        if addr < RAM_SIZE {
            Ok(self.ram[addr as usize])
        } else {
            Err(MemoryError::OutOfBounds(addr))
        }
    }

    /// Writes one RAM byte; an address outside the 4096-byte space fails
    /// with `OutOfBounds` and changes nothing.
    pub fn write_byte(&mut self, addr: u16, val: u8) -> (r: Result<(), MemoryError>)
        requires
            old(self).wf(),
        ensures
            final(self).wf(),
            addr < RAM_SIZE ==> r is Ok && final(self)@ == (MachineView {
                ram: old(self)@.ram.update(addr as int, val),
                ..old(self)@
            }),
            addr >= RAM_SIZE ==> r == Result::<(), MemoryError>::Err(
                MemoryError::OutOfBounds(addr),
            ) && *final(self) == *old(self),
    {
        if addr < RAM_SIZE {
            self.ram[addr as usize] = val;
            Ok(())
        } else {
            Err(MemoryError::OutOfBounds(addr))
        }
    }

    /// Reads `count` consecutive sprite rows starting at `addr`, for
    /// rendering; a span that runs past the end of RAM fails with
    /// `OutOfBounds` naming its last address.
    pub fn read_sprite_rows(&self, addr: u16, count: u8) -> (r: Result<Vec<u8>, MemoryError>)
        requires
            self.wf(),
            count <= 15,
        ensures
            count == 0 || addr + count - 1 < RAM_SIZE ==> (r matches Ok(rows)
                && rows@.len() == count && forall|j: int|
                0 <= j < count ==> rows@[j] == self@.ram[addr + j]),
            count > 0 && addr + count - 1 >= RAM_SIZE ==> r == Result::<
                Vec<u8>,
                MemoryError,
            >::Err(MemoryError::OutOfBounds((addr + count - 1) as u16)),
    {
        if count == 0 {
            return Ok(Vec::new());
        }
        let last: usize = addr as usize + count as usize - 1;
        if last >= RAM_SIZE as usize {
            return Err(MemoryError::OutOfBounds(#[verifier::truncate] (last as u16)));
        }
        let mut rows: Vec<u8> = Vec::new();
        let mut j: usize = 0;
        while j < count as usize
            invariant
                self.wf(),
                j <= count,
                count <= 15,
                addr + count - 1 < RAM_SIZE,
                rows@.len() == j,
                forall|q: int| 0 <= q < j ==> rows@[q] == self@.ram[addr + q],
            decreases count - j,
        {
            let b = self.ram[addr as usize + j];
            rows.push(b);
            j = j + 1;
        }
        Ok(rows)
    }
}

impl Emulator {
    /// 00E0: clears the framebuffer to all-zero.
    pub fn clear_display(&mut self)
        requires
            old(self).wf(),
        ensures
            final(self).wf(),
            final(self)@ == (MachineView {
                fb: all_clear_fb(),
                pc: adv(old(self)@.pc),
                ..old(self)@
            }),
    {
        self.fb = falses(FB_SIZE as usize);
        self.pc = (self.pc + 2) % RAM_SIZE;
        proof {
            assert(self@.fb =~= all_clear_fb());
            assert(self@ =~= (MachineView {
                fb: all_clear_fb(),
                pc: adv(old(self)@.pc),
                ..old(self)@
            }));
        }
    }

    /// 00EE: returns from a subroutine by popping the return address; a
    /// pop from an empty stack halts with `StackUnderflow`.
    pub fn ret(&mut self)
        requires
            old(self).wf(),
        ensures
            final(self).wf(),
            old(self)@.stack.len() == 0 ==> final(self)@ == old(self)@.halted(
                Fault::Stack(crate::errors::StackError::Underflow),
            ),
            old(self)@.stack.len() > 0 ==> final(self)@ == (MachineView {
                pc: old(self)@.stack.last(),
                stack: old(self)@.stack.drop_last(),
                ..old(self)@
            }),
    {
        match self.stack.pop() {
            Some(addr) => {
                self.pc = addr;
            },
            None => {
                self.status = Status::Halted(Fault::Stack(
                    crate::errors::StackError::Underflow,
                ));
            },
        }
    }

    /// 1nnn: jumps to `addr`.
    pub fn jump(&mut self, addr: u16)
        requires
            old(self).wf(),
            addr < RAM_SIZE,
        ensures
            final(self).wf(),
            final(self)@ == (MachineView { pc: addr, ..old(self)@ }),
    {
        self.pc = addr;
    }

    /// 2nnn: calls the subroutine at `addr`, pushing the address of the
    /// following instruction; a push onto a full stack halts with
    /// `StackOverflow` and changes nothing else.
    pub fn call(&mut self, addr: u16)
        requires
            old(self).wf(),
            addr < RAM_SIZE,
        ensures
            final(self).wf(),
            old(self)@.stack.len() >= STACK_CAP ==> final(self)@ == old(self)@.halted(
                Fault::Stack(crate::errors::StackError::Overflow),
            ),
            old(self)@.stack.len() < STACK_CAP ==> final(self)@ == (MachineView {
                stack: old(self)@.stack.push(adv(old(self)@.pc)),
                pc: addr,
                ..old(self)@
            }),
    {
        if self.stack.len() >= STACK_CAP as usize {
            self.status = Status::Halted(Fault::Stack(crate::errors::StackError::Overflow));
        } else {
            let ret_addr = (self.pc + 2) % RAM_SIZE;
            self.stack.push(ret_addr);
            self.pc = addr;
        }
    }

    /// 3xkk: skips the next instruction if Vx == kk.
    pub fn skip_if_vx_eq_byte(&mut self, x: u8, kk: u8)
        requires
            old(self).wf(),
            x < NUM_REGS,
        ensures
            final(self).wf(),
            final(self)@ == (MachineView {
                pc: skip_pc(old(self)@.pc, old(self)@.regs[x as int] == kk),
                ..old(self)@
            }),
    {
        if self.regs[x as usize] == kk {
            self.pc = (self.pc + 4) % RAM_SIZE;
        } else {
            self.pc = (self.pc + 2) % RAM_SIZE;
        }
    }

    /// 4xkk: skips the next instruction if Vx != kk.
    pub fn skip_if_vx_ne_byte(&mut self, x: u8, kk: u8)
        requires
            old(self).wf(),
            x < NUM_REGS,
        ensures
            final(self).wf(),
            final(self)@ == (MachineView {
                pc: skip_pc(old(self)@.pc, old(self)@.regs[x as int] != kk),
                ..old(self)@
            }),
    {
        if self.regs[x as usize] != kk {
            self.pc = (self.pc + 4) % RAM_SIZE;
        } else {
            self.pc = (self.pc + 2) % RAM_SIZE;
        }
    }

    /// 5xy0: skips the next instruction if Vx == Vy.
    pub fn skip_if_vx_eq_vy(&mut self, x: u8, y: u8)
        requires
            old(self).wf(),
            x < NUM_REGS,
            y < NUM_REGS,
        ensures
            final(self).wf(),
            final(self)@ == (MachineView {
                pc: skip_pc(
                    old(self)@.pc,
                    old(self)@.regs[x as int] == old(self)@.regs[y as int],
                ),
                ..old(self)@
            }),
    {
        if self.regs[x as usize] == self.regs[y as usize] {
            self.pc = (self.pc + 4) % RAM_SIZE;
        } else {
            self.pc = (self.pc + 2) % RAM_SIZE;
        }
    }

    /// 9xy0: skips the next instruction if Vx != Vy.
    pub fn sne_vx_vy(&mut self, x: u8, y: u8)
        requires
            old(self).wf(),
            x < NUM_REGS,
            y < NUM_REGS,
        ensures
            final(self).wf(),
            final(self)@ == (MachineView {
                pc: skip_pc(
                    old(self)@.pc,
                    old(self)@.regs[x as int] != old(self)@.regs[y as int],
                ),
                ..old(self)@
            }),
    {
        if self.regs[x as usize] != self.regs[y as usize] {
            self.pc = (self.pc + 4) % RAM_SIZE;
        } else {
            self.pc = (self.pc + 2) % RAM_SIZE;
        }
    }

    /// 6xkk: Vx = kk.
    pub fn load_vx_byte(&mut self, x: u8, kk: u8)
        requires
            old(self).wf(),
            x < NUM_REGS,
        ensures
            final(self).wf(),
            final(self)@ == (MachineView {
                regs: old(self)@.regs.update(x as int, kk),
                pc: adv(old(self)@.pc),
                ..old(self)@
            }),
    {
        self.regs[x as usize] = kk;
        self.pc = (self.pc + 2) % RAM_SIZE;
    }

    /// 7xkk: Vx = Vx + kk, wrapping mod 256; flags untouched.
    pub fn add_vx_byte(&mut self, x: u8, kk: u8)
        requires
            old(self).wf(),
            x < NUM_REGS,
        ensures
            final(self).wf(),
            final(self)@ == (MachineView {
                regs: old(self)@.regs.update(
                    x as int,
                    ((old(self)@.regs[x as int] + kk) % 256) as u8,
                ),
                pc: adv(old(self)@.pc),
                ..old(self)@
            }),
    {
        let sum: u16 = self.regs[x as usize] as u16 + kk as u16;
        self.regs[x as usize] = (sum % 256) as u8;
        self.pc = (self.pc + 2) % RAM_SIZE;
    }

    /// 8xy0: Vx = Vy.
    pub fn load_vx_vy(&mut self, x: u8, y: u8)
        requires
            old(self).wf(),
            x < NUM_REGS,
            y < NUM_REGS,
        ensures
            final(self).wf(),
            final(self)@ == (MachineView {
                regs: old(self)@.regs.update(x as int, old(self)@.regs[y as int]),
                pc: adv(old(self)@.pc),
                ..old(self)@
            }),
    {
        let vy = self.regs[y as usize];
        self.regs[x as usize] = vy;
        self.pc = (self.pc + 2) % RAM_SIZE;
    }

    /// 8xy1: Vx = Vx | Vy.
    pub fn or_vx_vy(&mut self, x: u8, y: u8)
        requires
            old(self).wf(),
            x < NUM_REGS,
            y < NUM_REGS,
        ensures
            final(self).wf(),
            final(self)@ == (MachineView {
                regs: old(self)@.regs.update(
                    x as int,
                    old(self)@.regs[x as int] | old(self)@.regs[y as int],
                ),
                pc: adv(old(self)@.pc),
                ..old(self)@
            }),
    {
        let v = self.regs[x as usize] | self.regs[y as usize];
        self.regs[x as usize] = v;
        self.pc = (self.pc + 2) % RAM_SIZE;
    }

    /// 8xy2: Vx = Vx & Vy.
    pub fn and_vx_vy(&mut self, x: u8, y: u8)
        requires
            old(self).wf(),
            x < NUM_REGS,
            y < NUM_REGS,
        ensures
            final(self).wf(),
            final(self)@ == (MachineView {
                regs: old(self)@.regs.update(
                    x as int,
                    old(self)@.regs[x as int] & old(self)@.regs[y as int],
                ),
                pc: adv(old(self)@.pc),
                ..old(self)@
            }),
    {
        let v = self.regs[x as usize] & self.regs[y as usize];
        self.regs[x as usize] = v;
        self.pc = (self.pc + 2) % RAM_SIZE;
    }

    /// 8xy3: Vx = Vx ^ Vy.
    pub fn xor_vx_vy(&mut self, x: u8, y: u8)
        requires
            old(self).wf(),
            x < NUM_REGS,
            y < NUM_REGS,
        ensures
            final(self).wf(),
            final(self)@ == (MachineView {
                regs: old(self)@.regs.update(
                    x as int,
                    old(self)@.regs[x as int] ^ old(self)@.regs[y as int],
                ),
                pc: adv(old(self)@.pc),
                ..old(self)@
            }),
    {
        let v = self.regs[x as usize] ^ self.regs[y as usize];
        self.regs[x as usize] = v;
        self.pc = (self.pc + 2) % RAM_SIZE;
    }

    /// 8xy4: Vx = Vx + Vy, wrapping mod 256; VF = 1 iff the unwrapped sum
    /// exceeds 255. The flag write wins when x names VF itself.
    pub fn add_vx_vy(&mut self, x: u8, y: u8)
        requires
            old(self).wf(),
            x < NUM_REGS,
            y < NUM_REGS,
        ensures
            final(self).wf(),
            final(self)@ == (MachineView {
                regs: old(self)@.regs.update(
                    x as int,
                    ((old(self)@.regs[x as int] + old(self)@.regs[y as int]) % 256) as u8,
                ).update(
                    15,
                    flag(old(self)@.regs[x as int] + old(self)@.regs[y as int] > 255),
                ),
                pc: adv(old(self)@.pc),
                ..old(self)@
            }),
    {
        let sum: u16 = self.regs[x as usize] as u16 + self.regs[y as usize] as u16;
        self.regs[x as usize] = (sum % 256) as u8;
        self.regs[15] = if sum > 255 { 1 } else { 0 };
        self.pc = (self.pc + 2) % RAM_SIZE;
    }

    /// 8xy5: Vx = Vx - Vy, wrapping mod 256; VF = 1 iff Vx >= Vy before
    /// the operation (not-borrow). The flag write wins when x names VF.
    pub fn sub_vx_vy(&mut self, x: u8, y: u8)
        requires
            old(self).wf(),
            x < NUM_REGS,
            y < NUM_REGS,
        ensures
            final(self).wf(),
            final(self)@ == (MachineView {
                regs: old(self)@.regs.update(
                    x as int,
                    ((old(self)@.regs[x as int] - old(self)@.regs[y as int]) % 256) as u8,
                ).update(
                    15,
                    flag(old(self)@.regs[x as int] >= old(self)@.regs[y as int]),
                ),
                pc: adv(old(self)@.pc),
                ..old(self)@
            }),
    {
        let vx = self.regs[x as usize];
        let vy = self.regs[y as usize];
        let diff: u16 = vx as u16 + 256 - vy as u16;
        proof {
            vstd::arithmetic::div_mod::lemma_mod_add_multiples_vanish(
                vx as int - vy as int,
                256,
            );
        }
        self.regs[x as usize] = (diff % 256) as u8;
        self.regs[15] = if vx >= vy { 1 } else { 0 };
        self.pc = (self.pc + 2) % RAM_SIZE;
    }

    /// 8xy6: shift right by one; VF = the shifted-out low bit. The
    /// operand comes from Vy instead of Vx when the configuration says so.
    pub fn shr_vx_vy(&mut self, x: u8, y: u8)
        requires
            old(self).wf(),
            x < NUM_REGS,
            y < NUM_REGS,
        ensures
            final(self).wf(),
            final(self)@ == (MachineView {
                regs: old(self)@.regs.update(
                    x as int,
                    shift_src(old(self)@, x, y) / 2,
                ).update(15, flag(shift_src(old(self)@, x, y) % 2 == 1)),
                pc: adv(old(self)@.pc),
                ..old(self)@
            }),
    {
        let src = if self.quirks.shift_reads_vy {
            self.regs[y as usize]
        } else {
            self.regs[x as usize]
        };
        self.regs[x as usize] = src / 2;
        self.regs[15] = if src % 2 == 1 { 1 } else { 0 };
        self.pc = (self.pc + 2) % RAM_SIZE;
    }

    /// 8xy7: Vx = Vy - Vx, wrapping mod 256; VF = 1 iff Vy >= Vx before
    /// the operation. The flag write wins when x names VF.
    pub fn subn_vx_vy(&mut self, x: u8, y: u8)
        requires
            old(self).wf(),
            x < NUM_REGS,
            y < NUM_REGS,
        ensures
            final(self).wf(),
            final(self)@ == (MachineView {
                regs: old(self)@.regs.update(
                    x as int,
                    ((old(self)@.regs[y as int] - old(self)@.regs[x as int]) % 256) as u8,
                ).update(
                    15,
                    flag(old(self)@.regs[y as int] >= old(self)@.regs[x as int]),
                ),
                pc: adv(old(self)@.pc),
                ..old(self)@
            }),
    {
        let vx = self.regs[x as usize];
        let vy = self.regs[y as usize];
        let diff: u16 = vy as u16 + 256 - vx as u16;
        proof {
            vstd::arithmetic::div_mod::lemma_mod_add_multiples_vanish(
                vy as int - vx as int,
                256,
            );
        }
        self.regs[x as usize] = (diff % 256) as u8;
        self.regs[15] = if vy >= vx { 1 } else { 0 };
        self.pc = (self.pc + 2) % RAM_SIZE;
    }

    /// 8xyE: shift left by one, wrapping mod 256; VF = the shifted-out
    /// high bit. The operand comes from Vy when the configuration says so.
    pub fn shl_vx_vy(&mut self, x: u8, y: u8)
        requires
            old(self).wf(),
            x < NUM_REGS,
            y < NUM_REGS,
        ensures
            final(self).wf(),
            final(self)@ == (MachineView {
                regs: old(self)@.regs.update(
                    x as int,
                    ((shift_src(old(self)@, x, y) * 2) % 256) as u8,
                ).update(15, flag(shift_src(old(self)@, x, y) >= 128)),
                pc: adv(old(self)@.pc),
                ..old(self)@
            }),
    {
        let src = if self.quirks.shift_reads_vy {
            self.regs[y as usize]
        } else {
            self.regs[x as usize]
        };
        let doubled: u16 = src as u16 * 2;
        self.regs[x as usize] = (doubled % 256) as u8;
        self.regs[15] = if src >= 128 { 1 } else { 0 };
        self.pc = (self.pc + 2) % RAM_SIZE;
    }

    /// Annn: I = addr.
    pub fn ld_i_addr(&mut self, addr: u16)
        requires
            old(self).wf(),
            addr < RAM_SIZE,
        ensures
            final(self).wf(),
            final(self)@ == (MachineView { i: addr, pc: adv(old(self)@.pc), ..old(self)@ }),
    {
        self.i = addr;
        self.pc = (self.pc + 2) % RAM_SIZE;
    }

    /// Bnnn: jumps to (addr + V0) mod 4096.
    pub fn jp_v0_addr(&mut self, addr: u16)
        requires
            old(self).wf(),
            addr < RAM_SIZE,
        ensures
            final(self).wf(),
            final(self)@ == (MachineView {
                pc: (((addr + old(self)@.regs[0]) as int) % 4096) as u16,
                ..old(self)@
            }),
    {
        self.pc = (addr + self.regs[0] as u16) % RAM_SIZE;
    }

    /// Ex9E: skips the next instruction if the key named by the low
    /// nibble of Vx is pressed in the current keypad snapshot.
    pub fn skp_vx(&mut self, x: u8)
        requires
            old(self).wf(),
            x < NUM_REGS,
        ensures
            final(self).wf(),
            final(self)@ == (MachineView {
                pc: skip_pc(
                    old(self)@.pc,
                    old(self)@.keys[old(self)@.regs[x as int] as int % 16],
                ),
                ..old(self)@
            }),
    {
        let key = self.regs[x as usize] % 16;
        if self.keys[key as usize] {
            self.pc = (self.pc + 4) % RAM_SIZE;
        } else {
            self.pc = (self.pc + 2) % RAM_SIZE;
        }
    }

    /// ExA1: skips the next instruction if the key named by the low
    /// nibble of Vx is not pressed in the current keypad snapshot.
    pub fn sknp_vx(&mut self, x: u8)
        requires
            old(self).wf(),
            x < NUM_REGS,
        ensures
            final(self).wf(),
            final(self)@ == (MachineView {
                pc: skip_pc(
                    old(self)@.pc,
                    !old(self)@.keys[old(self)@.regs[x as int] as int % 16],
                ),
                ..old(self)@
            }),
    {
        let key = self.regs[x as usize] % 16;
        if !self.keys[key as usize] {
            self.pc = (self.pc + 4) % RAM_SIZE;
        } else {
            self.pc = (self.pc + 2) % RAM_SIZE;
        }
    }

    /// Fx07: Vx = delay timer.
    pub fn ld_vx_dt(&mut self, x: u8)
        requires
            old(self).wf(),
            x < NUM_REGS,
        ensures
            final(self).wf(),
            final(self)@ == (MachineView {
                regs: old(self)@.regs.update(x as int, old(self)@.dt),
                pc: adv(old(self)@.pc),
                ..old(self)@
            }),
    {
        let dt = self.dt;
        self.regs[x as usize] = dt;
        self.pc = (self.pc + 2) % RAM_SIZE;
    }

    /// Fx0A: suspends the engine until a key press is delivered, without
    /// advancing the program counter; the delivered key completes the
    /// opcode.
    pub fn ld_vx_k(&mut self, x: u8)
        requires
            old(self).wf(),
            x < NUM_REGS,
        ensures
            final(self).wf(),
            final(self)@ == (MachineView {
                status: Status::WaitingForKey(x),
                ..old(self)@
            }),
    {
        self.status = Status::WaitingForKey(x);
    }

    /// Fx15: delay timer = Vx.
    pub fn ld_dt_vx(&mut self, x: u8)
        requires
            old(self).wf(),
            x < NUM_REGS,
        ensures
            final(self).wf(),
            final(self)@ == (MachineView {
                dt: old(self)@.regs[x as int],
                pc: adv(old(self)@.pc),
                ..old(self)@
            }),
    {
        self.dt = self.regs[x as usize];
        self.pc = (self.pc + 2) % RAM_SIZE;
    }

    /// Fx18: sound timer = Vx.
    pub fn ld_st_vx(&mut self, x: u8)
        requires
            old(self).wf(),
            x < NUM_REGS,
        ensures
            final(self).wf(),
            final(self)@ == (MachineView {
                st: old(self)@.regs[x as int],
                pc: adv(old(self)@.pc),
                ..old(self)@
            }),
    {
        self.st = self.regs[x as usize];
        self.pc = (self.pc + 2) % RAM_SIZE;
    }

    /// Fx1E: I = (I + Vx) mod 4096.
    pub fn add_i_vx(&mut self, x: u8)
        requires
            old(self).wf(),
            x < NUM_REGS,
        ensures
            final(self).wf(),
            final(self)@ == (MachineView {
                i: (((old(self)@.i + old(self)@.regs[x as int]) as int) % 4096) as u16,
                pc: adv(old(self)@.pc),
                ..old(self)@
            }),
    {
        self.i = (self.i + self.regs[x as usize] as u16) % RAM_SIZE;
        self.pc = (self.pc + 2) % RAM_SIZE;
    }

    /// Fx29: I = address of the font glyph for the low nibble of Vx; each
    /// glyph is five bytes from the bottom of RAM.
    pub fn ld_f_vx(&mut self, x: u8)
        requires
            old(self).wf(),
            x < NUM_REGS,
        ensures
            final(self).wf(),
            final(self)@ == (MachineView {
                i: (5 * (old(self)@.regs[x as int] as int % 16)) as u16,
                pc: adv(old(self)@.pc),
                ..old(self)@
            }),
    {
        let digit = self.regs[x as usize] % 16;
        self.i = 5 * digit as u16;
        self.pc = (self.pc + 2) % RAM_SIZE;
    }

    /// Cxkk: Vx = random byte & kk, the byte drawn from the random
    /// source; every draw satisfies the masked-bits contract below.
    pub fn rnd_vx_byte(&mut self, x: u8, kk: u8)
        requires
            old(self).wf(),
            x < NUM_REGS,
        ensures
            final(self).wf(),
            exists|r: u8|
                final(self)@ == (MachineView {
                    regs: old(self)@.regs.update(x as int, #[trigger] (r & kk)),
                    pc: adv(old(self)@.pc),
                    ..old(self)@
                }),
    {
        let r = random_byte();
        self.apply_rnd(x, kk, r);
        proof {
            assert(final(self)@ == (MachineView {
                regs: old(self)@.regs.update(x as int, r & kk),
                pc: adv(old(self)@.pc),
                ..old(self)@
            }));
        }
    }

    /// Completes a Cxkk draw: writes `r & kk` to Vx and moves past the
    /// instruction, for whatever byte `r` the random source produced.
    pub fn apply_rnd(&mut self, x: u8, kk: u8, r: u8)
        requires
            old(self).wf(),
            x < NUM_REGS,
        ensures
            final(self).wf(),
            final(self)@ == (MachineView {
                regs: old(self)@.regs.update(x as int, r & kk),
                pc: adv(old(self)@.pc),
                ..old(self)@
            }),
    {
        self.regs[x as usize] = r & kk;
        self.pc = (self.pc + 2) % RAM_SIZE;
    }
}

impl Emulator {
    /// Fx33: stores the three decimal digits of Vx (hundreds, tens, ones)
    /// at I, I+1, I+2; a span past the end of RAM halts with `OutOfBounds`
    /// and changes nothing else.
    pub fn ld_b_vx(&mut self, x: u8)
        requires
            old(self).wf(),
            x < NUM_REGS,
        ensures
            final(self).wf(),
            old(self)@.i + 2 >= RAM_SIZE ==> final(self)@ == old(self)@.halted(
                Fault::Memory(MemoryError::OutOfBounds((old(self)@.i + 2) as u16)),
            ),
            old(self)@.i + 2 < RAM_SIZE ==> final(self)@ == (MachineView {
                ram: old(self)@.ram.update(
                    old(self)@.i as int,
                    old(self)@.regs[x as int] / 100,
                ).update(
                    old(self)@.i as int + 1,
                    old(self)@.regs[x as int] / 10 % 10,
                ).update(old(self)@.i as int + 2, old(self)@.regs[x as int] % 10),
                pc: adv(old(self)@.pc),
                ..old(self)@
            }),
    {
        if self.i + 2 >= RAM_SIZE {
            self.status = Status::Halted(Fault::Memory(MemoryError::OutOfBounds(
                self.i + 2,
            )));
            return;
        }
        let vx = self.regs[x as usize];
        let base = self.i as usize;
        self.ram[base] = vx / 100;
        self.ram[base + 1] = vx / 10 % 10;
        self.ram[base + 2] = vx % 10;
        self.pc = (self.pc + 2) % RAM_SIZE;
    }

    /// Fx55: stores V0..Vx into RAM starting at I; I advances past the
    /// span when the configuration says so. A span past the end of RAM
    /// halts with `OutOfBounds` and changes nothing else.
    pub fn ld_i_vx(&mut self, x: u8)
        requires
            old(self).wf(),
            x < NUM_REGS,
        ensures
            final(self).wf(),
            old(self)@.i + x >= RAM_SIZE ==> final(self)@ == old(self)@.halted(
                Fault::Memory(MemoryError::OutOfBounds((old(self)@.i + x) as u16)),
            ),
            old(self)@.i + x < RAM_SIZE ==> final(self)@ == (MachineView {
                ram: store_span(old(self)@.ram, old(self)@.regs, old(self)@.i as int, x as int),
                i: i_after_span(old(self)@.i, x, old(self)@.quirks),
                pc: adv(old(self)@.pc),
                ..old(self)@
            }),
    {
        if self.i + x as u16 >= RAM_SIZE {
            self.status = Status::Halted(Fault::Memory(MemoryError::OutOfBounds(
                self.i + x as u16,
            )));
            return;
        }
        let base = self.i as usize;
        let count = x as usize + 1;
        let mut j: usize = 0;
        while j < count
            invariant
                old(self).wf(),
                j <= count,
                count == x + 1,
                x < NUM_REGS,
                old(self)@.i + x < RAM_SIZE,
                base == old(self)@.i,
                self.ram@.len() == RAM_SIZE,
                self.ram@ == store_span(
                    old(self)@.ram,
                    old(self)@.regs,
                    old(self)@.i as int,
                    j - 1,
                ),
                self.regs == old(self).regs,
                self.i == old(self).i,
                self.pc == old(self).pc,
                self.stack == old(self).stack,
                self.fb == old(self).fb,
                self.keys == old(self).keys,
                self.dt == old(self).dt,
                self.st == old(self).st,
                self.status == old(self).status,
                self.quirks == old(self).quirks,
            decreases count - j,
        {
            let b = self.regs[j];
            self.ram[base + j] = b;
            j = j + 1;
        }
        if self.quirks.advance_i {
            self.i = (self.i + x as u16 + 1) % RAM_SIZE;
        }
        self.pc = (self.pc + 2) % RAM_SIZE;
    }

    /// Fx65: loads V0..Vx from RAM starting at I; I advances past the
    /// span when the configuration says so. A span past the end of RAM
    /// halts with `OutOfBounds` and changes nothing else.
    pub fn ld_vx_i(&mut self, x: u8)
        requires
            old(self).wf(),
            x < NUM_REGS,
        ensures
            final(self).wf(),
            old(self)@.i + x >= RAM_SIZE ==> final(self)@ == old(self)@.halted(
                Fault::Memory(MemoryError::OutOfBounds((old(self)@.i + x) as u16)),
            ),
            old(self)@.i + x < RAM_SIZE ==> final(self)@ == (MachineView {
                regs: load_span(old(self)@.regs, old(self)@.ram, old(self)@.i as int, x as int),
                i: i_after_span(old(self)@.i, x, old(self)@.quirks),
                pc: adv(old(self)@.pc),
                ..old(self)@
            }),
    {
        if self.i + x as u16 >= RAM_SIZE {
            self.status = Status::Halted(Fault::Memory(MemoryError::OutOfBounds(
                self.i + x as u16,
            )));
            return;
        }
        let base = self.i as usize;
        let count = x as usize + 1;
        let mut j: usize = 0;
        while j < count
            invariant
                old(self).wf(),
                j <= count,
                count == x + 1,
                x < NUM_REGS,
                old(self)@.i + x < RAM_SIZE,
                base == old(self)@.i,
                self.regs@.len() == NUM_REGS,
                self.regs@ == load_span(
                    old(self)@.regs,
                    old(self)@.ram,
                    old(self)@.i as int,
                    j - 1,
                ),
                self.ram == old(self).ram,
                self.i == old(self).i,
                self.pc == old(self).pc,
                self.stack == old(self).stack,
                self.fb == old(self).fb,
                self.keys == old(self).keys,
                self.dt == old(self).dt,
                self.st == old(self).st,
                self.status == old(self).status,
                self.quirks == old(self).quirks,
            decreases count - j,
        {
            let b = self.ram[base + j];
            self.regs[j] = b;
            j = j + 1;
        }
        if self.quirks.advance_i {
            self.i = (self.i + x as u16 + 1) % RAM_SIZE;
        }
        self.pc = (self.pc + 2) % RAM_SIZE;
    }

    /// Dxyn: XOR-blits `n` sprite rows read from I onto the framebuffer
    /// at (Vx mod 64, Vy mod 32), wrapping on both axes; VF = 1 iff some
    /// set pixel was turned off. A sprite span past the end of RAM halts
    /// with `OutOfBounds` and changes nothing else.
    pub fn drw_vx_vy_n(&mut self, x: u8, y: u8, n: u8)
        requires
            old(self).wf(),
            x < NUM_REGS,
            y < NUM_REGS,
            n < 16,
        ensures
            final(self).wf(),
            n > 0 && old(self)@.i + n - 1 >= RAM_SIZE ==> final(self)@ == old(self)@.halted(
                Fault::Memory(MemoryError::OutOfBounds((old(self)@.i + n - 1) as u16)),
            ),
            !(n > 0 && old(self)@.i + n - 1 >= RAM_SIZE) ==> final(self)@ == (MachineView {
                fb: drawn_of(old(self)@, x, y, n).0,
                regs: old(self)@.regs.update(15, flag(drawn_of(old(self)@, x, y, n).1)),
                pc: adv(old(self)@.pc),
                ..old(self)@
            }),
    {
        if n > 0 && self.i + n as u16 - 1 >= RAM_SIZE {
            self.status = Status::Halted(Fault::Memory(MemoryError::OutOfBounds(
                self.i + n as u16 - 1,
            )));
            return;
        }
        let x0 = self.regs[x as usize] % 64;
        let y0 = self.regs[y as usize] % 32;
        let base = self.i as usize;
        let mut collision = false;
        let mut r: usize = 0;
        while r < n as usize
            invariant
                old(self).wf(),
                r <= n,
                n < 16,
                n > 0 ==> old(self)@.i + n - 1 < RAM_SIZE,
                base == old(self)@.i,
                x0 == old(self)@.regs[x as int] % 64,
                y0 == old(self)@.regs[y as int] % 32,
                x < NUM_REGS,
                y < NUM_REGS,
                self.fb@.len() == FB_SIZE,
                self.fb@ == draw_state(
                    old(self)@.fb,
                    old(self)@.ram,
                    old(self)@.i as int,
                    x0 as int,
                    y0 as int,
                    r as int,
                ).0,
                collision == draw_state(
                    old(self)@.fb,
                    old(self)@.ram,
                    old(self)@.i as int,
                    x0 as int,
                    y0 as int,
                    r as int,
                ).1,
                self.regs == old(self).regs,
                self.ram == old(self).ram,
                self.i == old(self).i,
                self.pc == old(self).pc,
                self.stack == old(self).stack,
                self.keys == old(self).keys,
                self.dt == old(self).dt,
                self.st == old(self).st,
                self.status == old(self).status,
                self.quirks == old(self).quirks,
            decreases n - r,
        {
            let byte = self.ram[base + r];
            let row: usize = (y0 as usize + r) % 32;
            let ghost fb_row_start = self.fb@;
            let ghost coll_row_start = collision;
            let mut j: usize = 0;
            while j < 8
                invariant
                    j <= 8,
                    row < 32,
                    x0 < 64,
                    self.fb@.len() == FB_SIZE,
                    self.fb@ == draw_row_state(
                        fb_row_start,
                        byte,
                        x0 as int,
                        row as int,
                        j as int,
                    ).0,
                    collision == (coll_row_start || draw_row_state(
                        fb_row_start,
                        byte,
                        x0 as int,
                        row as int,
                        j as int,
                    ).1),
                    fb_row_start.len() == FB_SIZE,
                    self.regs == old(self).regs,
                    self.ram == old(self).ram,
                    self.i == old(self).i,
                    self.pc == old(self).pc,
                    self.stack == old(self).stack,
                    self.keys == old(self).keys,
                    self.dt == old(self).dt,
                    self.st == old(self).st,
                    self.status == old(self).status,
                    self.quirks == old(self).quirks,
                decreases 8 - j,
            {
                let col: usize = (x0 as usize + j) % 64;
                let idx: usize = row * 64 + col;
                let bit = sprite_bit_at(byte, j);
                let px = self.fb[idx];
                if px && bit {
                    collision = true;
                }
                self.fb[idx] = px != bit;
                j = j + 1;
            }
            proof {
                assert(self.fb@ == draw_state(
                    old(self)@.fb,
                    old(self)@.ram,
                    old(self)@.i as int,
                    x0 as int,
                    y0 as int,
                    r as int + 1,
                ).0);
            }
            r = r + 1;
        }
        self.regs[15] = if collision { 1 } else { 0 };
        self.pc = (self.pc + 2) % RAM_SIZE;
    }

    /// Writes one key of the keypad snapshot, as the surrounding program
    /// reports presses and releases.
    pub fn set_key(&mut self, key: u8, pressed: bool)
        requires
            old(self).wf(),
            key < NUM_KEYS,
        ensures
            final(self).wf(),
            final(self)@ == (MachineView {
                keys: old(self)@.keys.update(key as int, pressed),
                ..old(self)@
            }),
    {
        self.keys[key as usize] = pressed;
    }

    /// Delivers a discrete key-press event. A machine suspended by Fx0A
    /// stores the key code, resumes, and moves past the instruction; any
    /// other machine ignores the event.
    pub fn deliver_key(&mut self, key: u8)
        requires
            old(self).wf(),
            key < NUM_KEYS,
        ensures
            final(self).wf(),
            old(self)@.status matches Status::WaitingForKey(x) ==> final(self)@ == (
            MachineView {
                regs: old(self)@.regs.update(x as int, key),
                status: Status::Running,
                pc: adv(old(self)@.pc),
                ..old(self)@
            }),
            !(old(self)@.status is WaitingForKey) ==> *final(self) == *old(self),
    {
        match self.status {
            Status::WaitingForKey(x) => {
                self.regs[x as usize] = key;
                self.status = Status::Running;
                self.pc = (self.pc + 2) % RAM_SIZE;
            },
            _ => {},
        }
    }

    /// One 60 Hz tick: decrements each timer that is positive by exactly
    /// one; a timer at zero stays at zero. Timers are touched by nothing
    /// else but the Fx15/Fx18 opcodes.
    pub fn tick_timers(&mut self)
        requires
            old(self).wf(),
        ensures
            final(self).wf(),
            final(self)@ == (MachineView {
                dt: if old(self)@.dt > 0 { (old(self)@.dt - 1) as u8 } else { 0 },
                st: if old(self)@.st > 0 { (old(self)@.st - 1) as u8 } else { 0 },
                ..old(self)@
            }),
    {
        if self.dt > 0 {
            self.dt = self.dt - 1;
        }
        if self.st > 0 {
            self.st = self.st - 1;
        }
    }
}

impl Emulator {
    /// Applies one decoded opcode against the machine. The effect is
    /// exactly `spec_execute` for the byte the random source produced;
    /// every opcode but Cxkk ignores that byte.
    pub fn execute(&mut self, op: Opcode)
        requires
            old(self).wf(),
            op_wf(op),
        ensures
            final(self).wf(),
            exists|rnd: u8| final(self)@ == spec_execute(old(self)@, op, rnd),
            !(op is Rnd) ==> final(self)@ == spec_execute(old(self)@, op, 0),
    {
        match op {
            Opcode::Cls => self.clear_display(),
            Opcode::Ret => self.ret(),
            Opcode::Jp { addr } => self.jump(addr),
            Opcode::Call { addr } => self.call(addr),
            Opcode::SeByte { x, kk } => self.skip_if_vx_eq_byte(x, kk),
            Opcode::SneByte { x, kk } => self.skip_if_vx_ne_byte(x, kk),
            Opcode::SeReg { x, y } => self.skip_if_vx_eq_vy(x, y),
            Opcode::LdByte { x, kk } => self.load_vx_byte(x, kk),
            Opcode::AddByte { x, kk } => self.add_vx_byte(x, kk),
            Opcode::LdReg { x, y } => self.load_vx_vy(x, y),
            Opcode::Or { x, y } => self.or_vx_vy(x, y),
            Opcode::And { x, y } => self.and_vx_vy(x, y),
            Opcode::Xor { x, y } => self.xor_vx_vy(x, y),
            Opcode::AddReg { x, y } => self.add_vx_vy(x, y),
            Opcode::Sub { x, y } => self.sub_vx_vy(x, y),
            Opcode::Shr { x, y } => self.shr_vx_vy(x, y),
            Opcode::Subn { x, y } => self.subn_vx_vy(x, y),
            Opcode::Shl { x, y } => self.shl_vx_vy(x, y),
            Opcode::SneReg { x, y } => self.sne_vx_vy(x, y),
            Opcode::LdI { addr } => self.ld_i_addr(addr),
            Opcode::JpV0 { addr } => self.jp_v0_addr(addr),
            Opcode::Rnd { x, kk } => {
                self.rnd_vx_byte(x, kk);
                proof {
                    let rnd = choose|rnd: u8|
                        self@ == (MachineView {
                            regs: old(self)@.regs.update(x as int, #[trigger] (rnd & kk)),
                            pc: adv(old(self)@.pc),
                            ..old(self)@
                        });
                    assert(self@ == spec_execute(old(self)@, op, rnd));
                }
            },
            Opcode::Drw { x, y, n } => self.drw_vx_vy_n(x, y, n),
            Opcode::Skp { x } => self.skp_vx(x),
            Opcode::Sknp { x } => self.sknp_vx(x),
            Opcode::LdVxDt { x } => self.ld_vx_dt(x),
            Opcode::LdKey { x } => self.ld_vx_k(x),
            Opcode::LdDtVx { x } => self.ld_dt_vx(x),
            Opcode::LdStVx { x } => self.ld_st_vx(x),
            Opcode::AddI { x } => self.add_i_vx(x),
            Opcode::LdFont { x } => self.ld_f_vx(x),
            Opcode::LdBcd { x } => self.ld_b_vx(x),
            Opcode::StoreRegs { x } => self.ld_i_vx(x),
            Opcode::LoadRegs { x } => self.ld_vx_i(x),
        }
    }

    /// One fetch-decode-execute cycle: reads the big-endian word at the
    /// program counter, decodes it, and applies it. A machine that is not
    /// running does not move; a fetch past the end of RAM or an
    /// unrecognized word halts the machine, never a silent no-op.
    pub fn step(&mut self)
        requires
            old(self).wf(),
        ensures
            final(self).wf(),
            step_rel(old(self)@, final(self)@),
    {
        match self.status {
            Status::Running => {},
            _ => {
                return;
            },
        }
        if self.pc >= RAM_SIZE - 1 {
            self.status = Status::Halted(Fault::Memory(MemoryError::OutOfBounds(
                self.pc + 1,
            )));
            return;
        }
        let hi = self.ram[self.pc as usize];
        let lo = self.ram[self.pc as usize + 1];
        let word: u16 = hi as u16 * 256 + lo as u16;
        match decode(word) {
            Ok(op) => {
                self.execute(op);
            },
            Err(DecodeError::UnknownOpcode(w)) => {
                self.status = Status::Halted(Fault::Decode(DecodeError::UnknownOpcode(w)));
            },
        }
    }

    /// Runs up to `max_cycles` fetch-decode-execute cycles, stopping as
    /// soon as the machine is no longer running; returns how many cycles
    /// were performed. Timer ticks are no part of this: they come only
    /// from `tick_timers`, at the clock's own rate.
    pub fn run(&mut self, max_cycles: u64) -> (executed: u64)
        requires
            old(self).wf(),
        ensures
            final(self).wf(),
            executed <= max_cycles,
            steps_rel(old(self)@, final(self)@, executed as nat),
            executed < max_cycles ==> !(final(self)@.status is Running),
    {
        let mut executed: u64 = 0;
        while executed < max_cycles
            invariant
                self.wf(),
                executed <= max_cycles,
                steps_rel(old(self)@, self@, executed as nat),
            decreases max_cycles - executed,
        {
            match self.status {
                Status::Running => {},
                _ => {
                    return executed;
                },
            }
            let ghost mid = self@;
            self.step();
            proof {
                lemma_steps_rel_extend(old(self)@, mid, self@, executed as nat);
            }
            executed = executed + 1;
        }
        executed
    }
}

/// Bit `j` of a sprite byte, as executable code.
fn sprite_bit_at(b: u8, j: usize) -> (r: bool)
    requires
        j < 8,
    ensures
        r == sprite_bit(b, j as int),
{
    if j == 0 { b / 128 % 2 == 1 } else if j == 1 { b / 64 % 2 == 1 }
    else if j == 2 { b / 32 % 2 == 1 } else if j == 3 { b / 16 % 2 == 1 }
    else if j == 4 { b / 8 % 2 == 1 } else if j == 5 { b / 4 % 2 == 1 }
    else if j == 6 { b / 2 % 2 == 1 } else { b % 2 == 1 }
}

/// The framebuffer and collision flag a Dxyn opcode produces, named once
/// for the contract above.
pub open spec fn drawn_of(pre: MachineView, x: u8, y: u8, n: u8) -> (Seq<bool>, bool) {
    draw_state(
        pre.fb,
        pre.ram,
        pre.i as int,
        pre.regs[x as int] as int % 64,
        pre.regs[y as int] as int % 32,
        n as int,
    )
}

/// The byte a shift opcode operates on: Vy under the original behavior,
/// Vx under the common later one.
pub open spec fn shift_src(v: MachineView, x: u8, y: u8) -> u8 {
    if v.quirks.shift_reads_vy {
        v.regs[y as int]
    } else {
        v.regs[x as int]
    }
}

} // verus!
