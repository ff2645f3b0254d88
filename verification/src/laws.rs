use vstd::prelude::*;

use crate::decode::{op_wf, spec_decode, Opcode};
use crate::errors::{Fault, StackError};
use crate::model::{
    adv, all_clear_fb, draw_row_state, draw_state, flag, load_span, spec_execute,
    step_rel, steps_rel, store_span, MachineView, FB_SIZE, RAM_SIZE, STACK_CAP,
};
use crate::timing::TICK_NS;

verus! {

/// After 8xy4, VF is 1 exactly when the unwrapped sum of the old Vx and
/// Vy exceeds 255, and (unless x names VF itself, where the flag write
/// wins) the new Vx is that sum reduced mod 256.
pub proof fn lemma_add_reg_sum_and_carry(pre: MachineView, x: u8, y: u8, rnd: u8)
    requires
        pre.wf(),
        x < 16,
        y < 16,
    ensures
        spec_execute(pre, Opcode::AddReg { x, y }, rnd).regs[15] == flag(
            pre.regs[x as int] + pre.regs[y as int] > 255,
        ),
        x != 15 ==> spec_execute(pre, Opcode::AddReg { x, y }, rnd).regs[x as int] == ((
        pre.regs[x as int] + pre.regs[y as int]) % 256) as u8,
{
}

/// After 8xy5, VF is 1 exactly when the old Vx was at least the old Vy
/// (not-borrow), and (unless x names VF itself) the new Vx is the old
/// difference reduced mod 256.
pub proof fn lemma_sub_reg_diff_and_borrow(pre: MachineView, x: u8, y: u8, rnd: u8)
    requires
        pre.wf(),
        x < 16,
        y < 16,
    ensures
        spec_execute(pre, Opcode::Sub { x, y }, rnd).regs[15] == flag(
            pre.regs[x as int] >= pre.regs[y as int],
        ),
        x != 15 ==> spec_execute(pre, Opcode::Sub { x, y }, rnd).regs[x as int] == ((
        pre.regs[x as int] - pre.regs[y as int]) % 256) as u8,
{
}

/// Storing V0..Vk keeps the RAM length.
pub proof fn lemma_store_span_len(ram: Seq<u8>, regs: Seq<u8>, i: int, k: int)
    requires
        k >= 0 ==> 0 <= i && i + k < ram.len(),
    ensures
        store_span(ram, regs, i, k).len() == ram.len(),
    decreases k + 1,
{
    if k >= 0 {
        lemma_store_span_len(ram, regs, i, k - 1);
    }
}

/// Storing V0..Vk puts register j at address i+j, for every j up to k.
pub proof fn lemma_store_span_at(ram: Seq<u8>, regs: Seq<u8>, i: int, k: int, j: int)
    requires
        0 <= j <= k,
        0 <= i,
        i + k < ram.len(),
    ensures
        store_span(ram, regs, i, k)[i + j] == regs[j],
    decreases k + 1,
{
    lemma_store_span_len(ram, regs, i, k - 1);
    if j < k {
        lemma_store_span_at(ram, regs, i, k - 1, j);
    }
}

/// Loading V0..Vk keeps the register-file length.
pub proof fn lemma_load_span_len(regs: Seq<u8>, ram: Seq<u8>, i: int, k: int)
    requires
        k < regs.len(),
    ensures
        load_span(regs, ram, i, k).len() == regs.len(),
    decreases k + 1,
{
    if k >= 0 {
        lemma_load_span_len(regs, ram, i, k - 1);
    }
}

/// Loading V0..Vk reads register j from address i+j, for every j up to k.
pub proof fn lemma_load_span_at(regs: Seq<u8>, ram: Seq<u8>, i: int, k: int, j: int)
    requires
        0 <= j <= k,
        k < regs.len(),
    ensures
        load_span(regs, ram, i, k)[j] == ram[i + j],
    decreases k + 1,
{
    lemma_load_span_len(regs, ram, i, k - 1);
    if j < k {
        lemma_load_span_at(regs, ram, i, k - 1, j);
    }
}

/// Round trip: Fx55 followed immediately by Fx65 (with I unchanged, so
/// under a configuration that does not advance I) reproduces the
/// original register values V0..Vx exactly.
pub proof fn lemma_store_load_round_trip(pre: MachineView, x: u8, r1: u8, r2: u8)
    requires
        pre.wf(),
        x < 16,
        !pre.quirks.advance_i,
        pre.i + x < RAM_SIZE,
    ensures
        forall|j: int|
            0 <= j <= x ==> spec_execute(
                spec_execute(pre, Opcode::StoreRegs { x }, r1),
                Opcode::LoadRegs { x },
                r2,
            ).regs[j] == pre.regs[j],
{
    let mid = spec_execute(pre, Opcode::StoreRegs { x }, r1);
    let post = spec_execute(mid, Opcode::LoadRegs { x }, r2);
    assert(mid.ram == store_span(pre.ram, pre.regs, pre.i as int, x as int));
    assert(mid.i == pre.i);
    assert(post.regs == load_span(mid.regs, mid.ram, pre.i as int, x as int));
    assert forall|j: int| 0 <= j <= x implies post.regs[j] == pre.regs[j] by {
        lemma_load_span_at(mid.regs, mid.ram, pre.i as int, x as int, j);
        lemma_store_span_at(pre.ram, pre.regs, pre.i as int, x as int, j);
    }
}

/// Idempotence: one 00E0 leaves the framebuffer all-zero, and a second
/// one leaves it all-zero again.
pub proof fn lemma_cls_idempotent(pre: MachineView, r1: u8, r2: u8)
    requires
        pre.wf(),
    ensures
        spec_execute(pre, Opcode::Cls, r1).fb == all_clear_fb(),
        spec_execute(spec_execute(pre, Opcode::Cls, r1), Opcode::Cls, r2).fb
            == all_clear_fb(),
{
}

/// Timer independence, instruction side: no opcode but Fx15/Fx18 touches
/// either timer, so any number of cycles in zero elapsed wall-clock time
/// (which yields zero clock ticks) changes DT and ST only as those two
/// opcodes dictate.
pub proof fn lemma_cycles_leave_timers(pre: MachineView, op: Opcode, rnd: u8)
    requires
        !(op is LdDtVx),
        !(op is LdStVx),
    ensures
        spec_execute(pre, op, rnd).dt == pre.dt,
        spec_execute(pre, op, rnd).st == pre.st,
{
}

/// Timer independence, clock side: zero elapsed wall-clock time pays out
/// zero ticks, and a fresh clock pays out exactly one tick after 1/60
/// second, however many instructions ran meanwhile.
pub proof fn lemma_tick_rate(acc_ns: u64)
    requires
        acc_ns < TICK_NS,
    ensures
        (acc_ns + 0) as int / (TICK_NS as int) == 0,
        (0 + TICK_NS) as int / (TICK_NS as int) == 1,
{
    vstd::arithmetic::div_mod::lemma_basic_div(acc_ns as int, TICK_NS as int);
    vstd::arithmetic::div_mod::lemma_div_by_self(TICK_NS as int);
}

/// 2nnn then 00EE: the return lands on the instruction following the
/// call, with the stack as it was before the call.
pub proof fn lemma_call_ret_round_trip(pre: MachineView, addr: u16, r1: u8, r2: u8)
    requires
        pre.wf(),
        pre.stack.len() < STACK_CAP,
        addr < RAM_SIZE,
    ensures
        spec_execute(spec_execute(pre, Opcode::Call { addr }, r1), Opcode::Ret, r2).pc
            == adv(pre.pc),
        spec_execute(spec_execute(pre, Opcode::Call { addr }, r1), Opcode::Ret, r2).stack
            == pre.stack,
        spec_execute(pre, Opcode::Call { addr }, r1).pc == addr,
{
    let mid = spec_execute(pre, Opcode::Call { addr }, r1);
    assert(mid.stack == pre.stack.push(adv(pre.pc)));
    assert(mid.stack.last() == adv(pre.pc));
    assert(mid.stack.drop_last() =~= pre.stack);
}

/// 2nnn against a full stack fails with `StackOverflow` and leaves the
/// whole state unchanged but for the halted status.
pub proof fn lemma_call_full_stack(pre: MachineView, addr: u16, rnd: u8)
    requires
        pre.wf(),
        pre.stack.len() == STACK_CAP,
        addr < RAM_SIZE,
    ensures
        spec_execute(pre, Opcode::Call { addr }, rnd) == pre.halted(
            Fault::Stack(StackError::Overflow),
        ),
        spec_execute(pre, Opcode::Call { addr }, rnd).pc == pre.pc,
        spec_execute(pre, Opcode::Call { addr }, rnd).stack == pre.stack,
        spec_execute(pre, Opcode::Call { addr }, rnd).regs == pre.regs,
{
}

/// XOR-blitting one sprite row keeps the framebuffer size.
pub proof fn lemma_draw_row_state_len(fb: Seq<bool>, b: u8, x0: int, row: int, jn: int)
    requires
        fb.len() == FB_SIZE,
        0 <= row < 32,
        0 <= x0,
    ensures
        draw_row_state(fb, b, x0, row, jn).0.len() == FB_SIZE,
    decreases jn,
{
    if jn > 0 {
        lemma_draw_row_state_len(fb, b, x0, row, jn - 1);
    }
}

/// XOR-blitting a whole sprite keeps the framebuffer size.
pub proof fn lemma_draw_state_len(
    fb: Seq<bool>,
    ram: Seq<u8>,
    i: int,
    x0: int,
    y0: int,
    rn: int,
)
    requires
        fb.len() == FB_SIZE,
        0 <= x0,
        0 <= y0,
    ensures
        draw_state(fb, ram, i, x0, y0, rn).0.len() == FB_SIZE,
    decreases rn,
{
    if rn > 0 {
        lemma_draw_state_len(fb, ram, i, x0, y0, rn - 1);
        lemma_draw_row_state_len(
            draw_state(fb, ram, i, x0, y0, rn - 1).0,
            ram[i + (rn - 1)],
            x0,
            (y0 + (rn - 1)) % 32,
            8,
        );
    }
}

/// Every word the decoder accepts carries operand fields in range.
pub proof fn lemma_decoded_op_wf(word: u16)
    ensures
        spec_decode(word) matches Some(op) ==> op_wf(op),
{
}

/// The machine's invariants hold at every instruction boundary: applying
/// any well-formed opcode to a well-formed machine yields a well-formed
/// machine.
pub proof fn lemma_execute_preserves_invariants(pre: MachineView, op: Opcode, rnd: u8)
    requires
        pre.wf(),
        op_wf(op),
    ensures
        spec_execute(pre, op, rnd).wf(),
{
    match op {
        Opcode::Drw { x, y, n } => {
            if !(n > 0 && pre.i + n - 1 >= RAM_SIZE) {
                lemma_draw_state_len(
                    pre.fb,
                    pre.ram,
                    pre.i as int,
                    pre.regs[x as int] as int % 64,
                    pre.regs[y as int] as int % 32,
                    n as int,
                );
            }
        },
        Opcode::StoreRegs { x } => {
            if pre.i + x < RAM_SIZE {
                lemma_store_span_len(pre.ram, pre.regs, pre.i as int, x as int);
            }
        },
        Opcode::LoadRegs { x } => {
            if pre.i + x < RAM_SIZE {
                lemma_load_span_len(pre.regs, pre.ram, pre.i as int, x as int);
            }
        },
        _ => {},
    }
}

/// One fetch-decode-execute cycle, however it went, keeps the machine
/// well-formed.
pub proof fn lemma_step_preserves_invariants(pre: MachineView, post: MachineView)
    requires
        pre.wf(),
        step_rel(pre, post),
    ensures
        post.wf(),
{
    if pre.status is Running && pre.pc + 1 < RAM_SIZE {
        let word = (pre.ram[pre.pc as int] * 256 + pre.ram[pre.pc as int + 1]) as u16;
        match spec_decode(word) {
            Option::Some(op) => {
                let rnd = choose|rnd: u8| post == spec_execute(pre, op, rnd);
                lemma_decoded_op_wf(word);
                lemma_execute_preserves_invariants(pre, op, rnd);
            },
            Option::None => {},
        }
    }
}

/// Any number of cycles keeps the machine well-formed.
pub proof fn lemma_cycles_preserve_invariants(pre: MachineView, post: MachineView, k: nat)
    requires
        pre.wf(),
        steps_rel(pre, post, k),
    ensures
        post.wf(),
    decreases k,
{
    if k > 0 {
        let mid = choose|mid: MachineView|
            steps_rel(pre, mid, (k - 1) as nat) && step_rel(mid, post);
        lemma_cycles_preserve_invariants(pre, mid, (k - 1) as nat);
        lemma_step_preserves_invariants(mid, post);
    }
}

} // verus!
