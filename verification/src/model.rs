use vstd::prelude::*;

use crate::decode::{spec_decode, Opcode};
use crate::errors::{DecodeError, Fault, MemoryError, StackError, Status};
use crate::quirks::Quirks;

verus! {

/// Number of addressable RAM bytes.
pub const RAM_SIZE: u16 = 4096;

/// Framebuffer width in pixels.
pub const FB_WIDTH: u16 = 64;

/// Framebuffer height in pixels.
pub const FB_HEIGHT: u16 = 32;

/// Number of framebuffer pixels.
pub const FB_SIZE: u16 = 2048;

/// Number of general registers.
pub const NUM_REGS: u16 = 16;

/// Call-stack capacity.
pub const STACK_CAP: u16 = 16;

/// Number of keypad keys.
pub const NUM_KEYS: u16 = 16;

/// Address at which program bytes are placed.
pub const PROG_START: u16 = 0x200;

/// Number of font bytes: 16 glyphs of 5 rows each.
pub const FONT_BYTES: u16 = 80;

/// The machine state as mathematics: every field of the engine as a plain
/// value or a sequence. Contracts and laws speak of this view.
#[verifier::ext_equal]
pub ghost struct MachineView {
    /// The 16 general registers V0..VF.
    pub regs: Seq<u8>,
    /// The address register I.
    pub i: u16,
    /// The program counter.
    pub pc: u16,
    /// The call stack of return addresses; its length is the stack pointer.
    pub stack: Seq<u16>,
    /// The 4096 RAM bytes.
    pub ram: Seq<u8>,
    /// The 64x32 framebuffer, row-major, one bool per pixel.
    pub fb: Seq<bool>,
    /// The 16-key keypad snapshot.
    pub keys: Seq<bool>,
    /// The delay timer.
    pub dt: u8,
    /// The sound timer.
    pub st: u8,
    /// The engine status.
    pub status: Status,
    /// The construction-time quirk configuration.
    pub quirks: Quirks,
}

impl MachineView {
    /// The invariants that hold at every instruction boundary: fixed
    /// component sizes, 12-bit PC and I, a stack of at most 16 return
    /// addresses each below 4096, and a register index recorded by a
    /// pending key wait that names a real register.
    pub open spec fn wf(self) -> bool {
        &&& self.regs.len() == NUM_REGS
        &&& self.stack.len() <= STACK_CAP
        &&& (forall|j: int| 0 <= j < self.stack.len() ==> self.stack[j] < RAM_SIZE)
        &&& self.ram.len() == RAM_SIZE
        &&& self.fb.len() == FB_SIZE
        &&& self.keys.len() == NUM_KEYS
        &&& self.pc < RAM_SIZE
        &&& self.i < RAM_SIZE
        &&& (self.status matches Status::WaitingForKey(x) ==> x < NUM_REGS)
    }

    /// The same state, halted with the given fault.
    pub open spec fn halted(self, fault: Fault) -> MachineView {
        MachineView { status: Status::Halted(fault), ..self }
    }
}

/// The framebuffer with every pixel clear.
pub open spec fn all_clear_fb() -> Seq<bool> {
    Seq::new(FB_SIZE as nat, |p: int| false)
}

/// The program counter advanced past one 2-byte instruction, wrapping at
/// the end of the address space.
pub open spec fn adv(pc: u16) -> u16 {
    (((pc + 2) as int) % 4096) as u16
}

/// The program counter after a conditional skip: past two instructions
/// when the condition holds, past one otherwise.
pub open spec fn skip_pc(pc: u16, cond: bool) -> u16 {
    if cond {
        (((pc + 4) as int) % 4096) as u16
    } else {
        adv(pc)
    }
}

///1 when the condition holds, 0 otherwise: the value written to VF.
pub open spec fn flag(cond: bool) -> u8 {
    if cond {
        1
    } else {
        0
    }
}

/// Bit `j` of a sprite byte, most significant bit first, as drawn at
/// column offset `j`.
pub open spec fn sprite_bit(b: u8, j: int) -> bool {
    if j == 0 {
        b / 128 % 2 == 1
    } else if j == 1 {
        b / 64 % 2 == 1
    } else if j == 2 {
        b / 32 % 2 == 1
    } else if j == 3 {
        b / 16 % 2 == 1
    } else if j == 4 {
        b / 8 % 2 == 1
    } else if j == 5 {
        b / 4 % 2 == 1
    } else if j == 6 {
        b / 2 % 2 == 1
    } else if j == 7 {
        b % 2 == 1
    } else {
        false
    }
}

/// The framebuffer and collision flag after XOR-blitting the first `jn`
/// bits of one sprite byte onto row `row` starting at column `x0`,
/// wrapping at the right edge. The collision flag records whether any
/// set pixel was turned off.
pub open spec fn draw_row_state(fb: Seq<bool>, b: u8, x0: int, row: int, jn: int) -> (
    Seq<bool>,
    bool,
)
    decreases jn,
{
    if jn <= 0 {
        (fb, false)
    } else {
        let prev = draw_row_state(fb, b, x0, row, jn - 1);
        let col = (x0 + (jn - 1)) % 64;
        let idx = row * 64 + col;
        let bit = sprite_bit(b, jn - 1);
        (
            prev.0.update(idx, prev.0[idx] != bit),
            prev.1 || (prev.0[idx] && bit),
        )
    }
}

/// The framebuffer and collision flag after XOR-blitting the first `rn`
/// sprite rows read from `ram` at `i` onto the rows below `y0`, both axes
/// wrapping.
pub open spec fn draw_state(
    fb: Seq<bool>,
    ram: Seq<u8>,
    i: int,
    x0: int,
    y0: int,
    rn: int,
) -> (Seq<bool>, bool)
    decreases rn,
{
    if rn <= 0 {
        (fb, false)
    } else {
        let prev = draw_state(fb, ram, i, x0, y0, rn - 1);
        let row = draw_row_state(prev.0, ram[i + (rn - 1)], x0, (y0 + (rn - 1)) % 32, 8);
        (row.0, prev.1 || row.1)
    }
}

/// RAM after storing registers V0..Vk at addresses i..i+k.
pub open spec fn store_span(ram: Seq<u8>, regs: Seq<u8>, i: int, k: int) -> Seq<u8>
    decreases k + 1,
{
    if k < 0 {
        ram
    } else {
        store_span(ram, regs, i, k - 1).update(i + k, regs[k])
    }
}

/// Registers after loading V0..Vk from RAM addresses i..i+k.
pub open spec fn load_span(regs: Seq<u8>, ram: Seq<u8>, i: int, k: int) -> Seq<u8>
    decreases k + 1,
{
    if k < 0 {
        regs
    } else {
        load_span(regs, ram, i, k - 1).update(k, ram[i + k])
    }
}

/// The address register after `LD [I],Vx` / `LD Vx,[I]`: advanced past the
/// span when the configuration says so, untouched otherwise.
pub open spec fn i_after_span(i: u16, x: u8, q: Quirks) -> u16 {
    if q.advance_i {
        (((i + x + 1) as int) % 4096) as u16
    } else {
        i
    }
}

/// The machine after applying one decoded opcode. `rnd` is the byte the
/// random source produced, read only by the RND arm; every other arm gives
/// the same result for every `rnd`. The program counter moves past the
/// instruction as part of the opcode's effect, so a fault leaves it (and
/// everything else but the status) at the faulting instruction.
pub open spec fn spec_execute(pre: MachineView, op: Opcode, rnd: u8) -> MachineView {
    match op {
        Opcode::Cls => MachineView { fb: all_clear_fb(), pc: adv(pre.pc), ..pre },
        Opcode::Ret => {
            if pre.stack.len() == 0 {
                pre.halted(Fault::Stack(StackError::Underflow))
            } else {
                MachineView { pc: pre.stack.last(), stack: pre.stack.drop_last(), ..pre }
            }
        },
        Opcode::Jp { addr } => MachineView { pc: addr, ..pre },
        Opcode::Call { addr } => {
            if pre.stack.len() >= STACK_CAP {
                pre.halted(Fault::Stack(StackError::Overflow))
            } else {
                MachineView { stack: pre.stack.push(adv(pre.pc)), pc: addr, ..pre }
            }
        },
        Opcode::SeByte { x, kk } => MachineView {
            pc: skip_pc(pre.pc, pre.regs[x as int] == kk),
            ..pre
        },
        Opcode::SneByte { x, kk } => MachineView {
            pc: skip_pc(pre.pc, pre.regs[x as int] != kk),
            ..pre
        },
        Opcode::SeReg { x, y } => MachineView {
            pc: skip_pc(pre.pc, pre.regs[x as int] == pre.regs[y as int]),
            ..pre
        },
        Opcode::LdByte { x, kk } => MachineView {
            regs: pre.regs.update(x as int, kk),
            pc: adv(pre.pc),
            ..pre
        },
        Opcode::AddByte { x, kk } => MachineView {
            regs: pre.regs.update(x as int, ((pre.regs[x as int] + kk) % 256) as u8),
            pc: adv(pre.pc),
            ..pre
        },
        Opcode::LdReg { x, y } => MachineView {
            regs: pre.regs.update(x as int, pre.regs[y as int]),
            pc: adv(pre.pc),
            ..pre
        },
        Opcode::Or { x, y } => MachineView {
            regs: pre.regs.update(x as int, pre.regs[x as int] | pre.regs[y as int]),
            pc: adv(pre.pc),
            ..pre
        },
        Opcode::And { x, y } => MachineView {
            regs: pre.regs.update(x as int, pre.regs[x as int] & pre.regs[y as int]),
            pc: adv(pre.pc),
            ..pre
        },
        Opcode::Xor { x, y } => MachineView {
            regs: pre.regs.update(x as int, pre.regs[x as int] ^ pre.regs[y as int]),
            pc: adv(pre.pc),
            ..pre
        },
        Opcode::AddReg { x, y } => {
            let sum = pre.regs[x as int] + pre.regs[y as int];
            MachineView {
                regs: pre.regs.update(x as int, (sum % 256) as u8).update(
                    15,
                    flag(sum > 255),
                ),
                pc: adv(pre.pc),
                ..pre
            }
        },
        Opcode::Sub { x, y } => {
            let vx = pre.regs[x as int];
            let vy = pre.regs[y as int];
            MachineView {
                regs: pre.regs.update(x as int, ((vx - vy) % 256) as u8).update(
                    15,
                    flag(vx >= vy),
                ),
                pc: adv(pre.pc),
                ..pre
            }
        },
        Opcode::Shr { x, y } => {
            let src = if pre.quirks.shift_reads_vy {
                pre.regs[y as int]
            } else {
                pre.regs[x as int]
            };
            MachineView {
                regs: pre.regs.update(x as int, src / 2).update(15, flag(src % 2 == 1)),
                pc: adv(pre.pc),
                ..pre
            }
        },
        Opcode::Subn { x, y } => {
            let vx = pre.regs[x as int];
            let vy = pre.regs[y as int];
            MachineView {
                regs: pre.regs.update(x as int, ((vy - vx) % 256) as u8).update(
                    15,
                    flag(vy >= vx),
                ),
                pc: adv(pre.pc),
                ..pre
            }
        },
        Opcode::Shl { x, y } => {
            let src = if pre.quirks.shift_reads_vy {
                pre.regs[y as int]
            } else {
                pre.regs[x as int]
            };
            MachineView {
                regs: pre.regs.update(x as int, ((src * 2) % 256) as u8).update(
                    15,
                    flag(src >= 128),
                ),
                pc: adv(pre.pc),
                ..pre
            }
        },
        Opcode::SneReg { x, y } => MachineView {
            pc: skip_pc(pre.pc, pre.regs[x as int] != pre.regs[y as int]),
            ..pre
        },
        Opcode::LdI { addr } => MachineView { i: addr, pc: adv(pre.pc), ..pre },
        Opcode::JpV0 { addr } => MachineView {
            pc: (((addr + pre.regs[0]) as int) % 4096) as u16,
            ..pre
        },
        Opcode::Rnd { x, kk } => MachineView {
            regs: pre.regs.update(x as int, rnd & kk),
            pc: adv(pre.pc),
            ..pre
        },
        Opcode::Drw { x, y, n } => {
            if n > 0 && pre.i + n - 1 >= RAM_SIZE {
                pre.halted(Fault::Memory(MemoryError::OutOfBounds((pre.i + n - 1) as u16)))
            } else {
                let drawn = draw_state(
                    pre.fb,
                    pre.ram,
                    pre.i as int,
                    pre.regs[x as int] as int % 64,
                    pre.regs[y as int] as int % 32,
                    n as int,
                );
                MachineView {
                    fb: drawn.0,
                    regs: pre.regs.update(15, flag(drawn.1)),
                    pc: adv(pre.pc),
                    ..pre
                }
            }
        },
        Opcode::Skp { x } => MachineView {
            pc: skip_pc(pre.pc, pre.keys[pre.regs[x as int] as int % 16]),
            ..pre
        },
        Opcode::Sknp { x } => MachineView {
            pc: skip_pc(pre.pc, !pre.keys[pre.regs[x as int] as int % 16]),
            ..pre
        },
        Opcode::LdVxDt { x } => MachineView {
            regs: pre.regs.update(x as int, pre.dt),
            pc: adv(pre.pc),
            ..pre
        },
        Opcode::LdKey { x } => MachineView { status: Status::WaitingForKey(x), ..pre },
        Opcode::LdDtVx { x } => MachineView {
            dt: pre.regs[x as int],
            pc: adv(pre.pc),
            ..pre
        },
        Opcode::LdStVx { x } => MachineView {
            st: pre.regs[x as int],
            pc: adv(pre.pc),
            ..pre
        },
        Opcode::AddI { x } => MachineView {
            i: (((pre.i + pre.regs[x as int]) as int) % 4096) as u16,
            pc: adv(pre.pc),
            ..pre
        },
        Opcode::LdFont { x } => MachineView {
            i: (5 * (pre.regs[x as int] as int % 16)) as u16,
            pc: adv(pre.pc),
            ..pre
        },
        Opcode::LdBcd { x } => {
            if pre.i + 2 >= RAM_SIZE {
                pre.halted(Fault::Memory(MemoryError::OutOfBounds((pre.i + 2) as u16)))
            } else {
                let vx = pre.regs[x as int];
                MachineView {
                    ram: pre.ram.update(pre.i as int, vx / 100).update(
                        pre.i as int + 1,
                        vx / 10 % 10,
                    ).update(pre.i as int + 2, vx % 10),
                    pc: adv(pre.pc),
                    ..pre
                }
            }
        },
        Opcode::StoreRegs { x } => {
            if pre.i + x >= RAM_SIZE {
                pre.halted(Fault::Memory(MemoryError::OutOfBounds((pre.i + x) as u16)))
            } else {
                MachineView {
                    ram: store_span(pre.ram, pre.regs, pre.i as int, x as int),
                    i: i_after_span(pre.i, x, pre.quirks),
                    pc: adv(pre.pc),
                    ..pre
                }
            }
        },
        Opcode::LoadRegs { x } => {
            if pre.i + x >= RAM_SIZE {
                pre.halted(Fault::Memory(MemoryError::OutOfBounds((pre.i + x) as u16)))
            } else {
                MachineView {
                    regs: load_span(pre.regs, pre.ram, pre.i as int, x as int),
                    i: i_after_span(pre.i, x, pre.quirks),
                    pc: adv(pre.pc),
                    ..pre
                }
            }
        },
    }
}

/// One fetch-decode-execute cycle as a relation between machine states.
/// A machine that is not `Running` does not move; a fetch that would read
/// past the end of RAM or a word with no defined form halts the machine;
/// otherwise some random byte explains the step.
pub open spec fn step_rel(pre: MachineView, post: MachineView) -> bool {
    if !(pre.status is Running) {
        post == pre
    } else if pre.pc + 1 >= RAM_SIZE {
        post == pre.halted(Fault::Memory(MemoryError::OutOfBounds((pre.pc + 1) as u16)))
    } else {
        let word = (pre.ram[pre.pc as int] * 256 + pre.ram[pre.pc as int + 1]) as u16;
        match spec_decode(word) {
            Option::Some(op) => exists|rnd: u8| post == spec_execute(pre, op, rnd),
            Option::None => post == pre.halted(
                Fault::Decode(DecodeError::UnknownOpcode(word)),
            ),
        }
    }
}

/// `post` is reachable from `pre` in exactly `k` cycles.
pub open spec fn steps_rel(pre: MachineView, post: MachineView, k: nat) -> bool
    decreases k,
{
    if k == 0 {
        post == pre
    } else {
        exists|mid: MachineView|
            steps_rel(pre, mid, (k - 1) as nat) && step_rel(mid, post)
    }
}

/// Byte `k` of the font data: 16 fixed glyphs of 5 rows each, one glyph
/// per hexadecimal digit, loaded at the bottom of RAM at construction.
pub open spec fn font_byte(k: int) -> u8 {
    if k < 5 {
        if k == 0 { 0xF0 } else if k == 1 { 0x90 } else if k == 2 { 0x90 }
        else if k == 3 { 0x90 } else { 0xF0 }
    } else if k < 10 {
        if k == 5 { 0x20 } else if k == 6 { 0x60 } else if k == 7 { 0x20 }
        else if k == 8 { 0x20 } else { 0x70 }
    } else if k < 15 {
        if k == 10 { 0xF0 } else if k == 11 { 0x10 } else if k == 12 { 0xF0 }
        else if k == 13 { 0x80 } else { 0xF0 }
    } else if k < 20 {
        if k == 15 { 0xF0 } else if k == 16 { 0x10 } else if k == 17 { 0xF0 }
        else if k == 18 { 0x10 } else { 0xF0 }
    } else if k < 25 {
        if k == 20 { 0x90 } else if k == 21 { 0x90 } else if k == 22 { 0xF0 }
        else if k == 23 { 0x10 } else { 0x10 }
    } else if k < 30 {
        if k == 25 { 0xF0 } else if k == 26 { 0x80 } else if k == 27 { 0xF0 }
        else if k == 28 { 0x10 } else { 0xF0 }
    } else if k < 35 {
        if k == 30 { 0xF0 } else if k == 31 { 0x80 } else if k == 32 { 0xF0 }
        else if k == 33 { 0x90 } else { 0xF0 }
    } else if k < 40 {
        if k == 35 { 0xF0 } else if k == 36 { 0x10 } else if k == 37 { 0x20 }
        else if k == 38 { 0x40 } else { 0x40 }
    } else if k < 45 {
        if k == 40 { 0xF0 } else if k == 41 { 0x90 } else if k == 42 { 0xF0 }
        else if k == 43 { 0x90 } else { 0xF0 }
    } else if k < 50 {
        if k == 45 { 0xF0 } else if k == 46 { 0x90 } else if k == 47 { 0xF0 }
        else if k == 48 { 0x10 } else { 0xF0 }
    } else if k < 55 {
        if k == 50 { 0xF0 } else if k == 51 { 0x90 } else if k == 52 { 0xF0 }
        else if k == 53 { 0x90 } else { 0x90 }
    } else if k < 60 {
        if k == 55 { 0xE0 } else if k == 56 { 0x90 } else if k == 57 { 0xE0 }
        else if k == 58 { 0x90 } else { 0xE0 }
    } else if k < 65 {
        if k == 60 { 0xF0 } else if k == 61 { 0x80 } else if k == 62 { 0x80 }
        else if k == 63 { 0x80 } else { 0xF0 }
    } else if k < 70 {
        if k == 65 { 0xE0 } else if k == 66 { 0x90 } else if k == 67 { 0x90 }
        else if k == 68 { 0x90 } else { 0xE0 }
    } else if k < 75 {
        if k == 70 { 0xF0 } else if k == 71 { 0x80 } else if k == 72 { 0xF0 }
        else if k == 73 { 0x80 } else { 0xF0 }
    } else {
        if k == 75 { 0xF0 } else if k == 76 { 0x80 } else if k == 77 { 0xF0 }
        else if k == 78 { 0x80 } else { 0x80 }
    }
}

/// RAM in the reset layout: the font glyphs at the bottom, zero elsewhere.
pub open spec fn initial_ram() -> Seq<u8> {
    Seq::new(RAM_SIZE as nat, |k: int| if k < FONT_BYTES { font_byte(k) } else { 0u8 })
}

/// The fixed layout the machine is reset to before each run: font
/// preloaded, everything else cleared, the program counter at the start
/// of program memory, the engine running.
pub open spec fn initial_view(q: Quirks) -> MachineView {
    MachineView {
        regs: Seq::new(NUM_REGS as nat, |j: int| 0u8),
        i: 0,
        pc: PROG_START,
        stack: Seq::empty(),
        ram: initial_ram(),
        fb: all_clear_fb(),
        keys: Seq::new(NUM_KEYS as nat, |j: int| false),
        dt: 0,
        st: 0,
        status: Status::Running,
        quirks: q,
    }
}

/// RAM after a program of `prog.len()` bytes is placed at the program
/// start address; everything outside the program span keeps its byte.
pub open spec fn loaded_ram(ram: Seq<u8>, prog: Seq<u8>) -> Seq<u8> {
    Seq::new(RAM_SIZE as nat, |k: int|
        if PROG_START <= k < PROG_START + prog.len() {
            prog[k - PROG_START]
        } else {
            ram[k]
        })
}

/// Reaching a state in `k` cycles and stepping once more reaches it in
/// `k + 1`.
pub proof fn lemma_steps_rel_extend(
    pre: MachineView,
    mid: MachineView,
    post: MachineView,
    k: nat,
)
    requires
        steps_rel(pre, mid, k),
        step_rel(mid, post),
    ensures
        steps_rel(pre, post, k + 1),
{
    assert(steps_rel(pre, mid, ((k + 1) - 1) as nat));
}

} // verus!
