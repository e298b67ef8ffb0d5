//! Properties of the machine, stated over its model and proved.
use vstd::prelude::*;
use crate::isa::{Instruction, Operation, OperandType, OperationArgs, is_arith, is_branch, sentinel};
use crate::parser::{
    hazard_warning, hazard_warnings, immediate_warning, port_warning, read_registers,
    static_warnings, warn_if, writes_a, written_register, zero_write_warning,
};
use crate::machine::{Core, fetch_at, pc_next, reg_read, reg_write, run, sp_down, takes_branch, tick};

verus! {

/// A tick keeps the stack pointer in RAM and the sizes of register file,
/// ports and RAM; register 0 keeps its value; every register, port and the
/// accumulator hold a byte.
pub proof fn lemma_tick_invariants(c: Core, prog: Seq<Instruction>)
    requires
        c.wf(),
    ensures
        tick(c, prog).wf(),
        tick(c, prog).regs[0] == c.regs[0],
        forall|i: int| 0 <= i < 8 ==> 0 <= #[trigger] tick(c, prog).ports[i] <= 255,
        forall|i: int| 0 <= i < 8 ==> 0 <= #[trigger] tick(c, prog).regs[i] <= 255,
        0 <= tick(c, prog).alu.accumulator <= 255,
{
}

/// Register 0 reads as zero whatever the register file holds.
pub proof fn lemma_register_zero_reads_zero(regs: Seq<u8>)
    ensures
        reg_read(regs, 0) == 0,
{
}

/// A write to register 0 leaves the staged register file as it was.
pub proof fn lemma_register_zero_write_dropped(next: Seq<u8>, data: u8)
    ensures
        reg_write(next, 0, data) == next,
{
}

/// A branch target that cannot take the program counter below zero.
pub open spec fn target_ok(i: Instruction) -> bool {
    is_branch(i.operation) ==> i.a.data >= 0
}

/// While every branch target is non-negative, the program counter stays in
/// 0..=254.
pub proof fn lemma_pc_in_range(c: Core, prog: Seq<Instruction>)
    requires
        c.wf(),
        0 <= c.pc <= 254,
        target_ok(c.fetch),
        target_ok(c.decode),
        forall|i: int| 0 <= i < prog.len() ==> target_ok(#[trigger] prog[i]),
    ensures
        0 <= tick(c, prog).pc <= 254,
        target_ok(tick(c, prog).fetch),
        target_ok(tick(c, prog).decode),
{
}

/// Without a branch, the program counter after 254 is 0.
pub proof fn lemma_pc_wraps(c: Core, prog: Seq<Instruction>)
    requires
        c.wf(),
        !c.waiting,
        c.pc == 254,
        !takes_branch(c.decode.operation, c.alu.flags),
    ensures
        tick(c, prog).pc == 0,
{
}

/// A PUSH with the stack pointer at 0 leaves it at 15.
pub proof fn lemma_push_wraps(c: Core, prog: Seq<Instruction>)
    requires
        c.wf(),
        !c.waiting,
        c.sp == 0,
        c.execute.operation == Operation::PUSH,
        c.decode.operation != Operation::RET,
    ensures
        tick(c, prog).sp == 15,
{
}

/// A POP with the stack pointer at 15 leaves it at 0.
pub proof fn lemma_pop_wraps(c: Core, prog: Seq<Instruction>)
    requires
        c.wf(),
        !c.waiting,
        c.sp == 15,
        c.execute.operation == Operation::POP,
        c.decode.operation != Operation::RET,
    ensures
        tick(c, prog).sp == 0,
{
}

/// An OUT to a port outside 0..=7 leaves every port as it was.
pub proof fn lemma_out_of_range_port_ignored(c: Core, prog: Seq<Instruction>)
    requires
        c.wf(),
        c.execute.operation == Operation::OUT,
        c.execute.a.data >= 8,
    ensures
        tick(c, prog).ports == c.ports,
{
}

/// No instruction in flight and no input pending.
pub open spec fn pipeline_empty(c: Core) -> bool {
    &&& c.fetch == sentinel()
    &&& c.decode == sentinel()
    &&& c.execute == sentinel()
    &&& !c.waiting
}

proof fn lemma_byte_cast(v: i32)
    by (bit_vector)
    requires
        0 <= v <= 255,
    ensures
        (v as u8) as i32 == v,
{
}

proof fn lemma_run_unfold(c: Core, prog: Seq<Instruction>, n: nat)
    requires
        n > 0,
    ensures
        run(c, prog, n) == run(tick(c, prog), prog, (n - 1) as nat),
{
}

/// `IMM r v` followed by four NOOPs: four ticks after it is fetched,
/// register `r` reads `v`.
pub proof fn lemma_imm_then_read(c: Core, prog: Seq<Instruction>, r: i32, v: i32)
    requires
        c.wf(),
        pipeline_empty(c),
        0 <= c.pc,
        c.pc + 4 < prog.len(),
        c.pc + 4 <= 254,
        1 <= r <= 7,
        0 <= v <= 255,
        prog[c.pc].operation == Operation::IMM,
        prog[c.pc].a.type_ == OperandType::Register,
        prog[c.pc].a.data == r,
        prog[c.pc].b.data == v,
        forall|k: int| 1 <= k <= 4 ==> (#[trigger] prog[c.pc + k]).operation == Operation::NOOP,
    ensures
        reg_read(run(c, prog, 4).regs, r as int) == v,
{
    let p = c.pc;
    let c1 = tick(c, prog);
    let c2 = tick(c1, prog);
    let c3 = tick(c2, prog);
    let c4 = tick(c3, prog);
    assert(c1.fetch == prog[p]);
    assert(c2.decode == prog[p]);
    assert(c3.execute == prog[p]);
    assert(c4.writeback == prog[p]);
    lemma_byte_cast(v);
    lemma_run_unfold(c, prog, 4);
    lemma_run_unfold(c1, prog, 3);
    lemma_run_unfold(c2, prog, 2);
    lemma_run_unfold(c3, prog, 1);
}

/// `STORE #a R_r`, three NOOPs, then `LOAD R_k #a`: four ticks after the
/// load is fetched, register `k` holds what register `r` held.
pub proof fn lemma_store_then_load(c: Core, prog: Seq<Instruction>, a: i32, r: i32, k: i32)
    requires
        c.wf(),
        pipeline_empty(c),
        0 <= c.pc,
        c.pc + 4 < prog.len(),
        c.pc + 4 <= 254,
        0 <= a <= 15,
        1 <= k <= 7,
        prog[c.pc].operation == Operation::STORE,
        prog[c.pc].a.data == a,
        prog[c.pc].b.data == r,
        forall|j: int| 1 <= j <= 3 ==> (#[trigger] prog[c.pc + j]).operation == Operation::NOOP,
        prog[c.pc + 4].operation == Operation::LOAD,
        prog[c.pc + 4].a.data == k,
        prog[c.pc + 4].b.data == a,
    ensures
        reg_read(run(c, prog, 8).regs, k as int) == reg_read(c.regs, r as int),
{
    let p = c.pc;
    let c1 = tick(c, prog);
    let c2 = tick(c1, prog);
    let c3 = tick(c2, prog);
    let c4 = tick(c3, prog);
    assert(c3.execute == prog[p]);
    assert(c3.regs == c.regs);
    assert(c4.ram[a as int] == reg_read(c.regs, r as int));
    assert(c4.fetch == prog[p + 3]);
    assert(c4.decode == prog[p + 2]);
    assert(c4.execute == prog[p + 1]);
    let c5 = tick(c4, prog);
    assert(c5.fetch == prog[p + 4]);
    let c6 = tick(c5, prog);
    let c7 = tick(c6, prog);
    assert(c7.execute == prog[p + 4]);
    assert(c7.ram[a as int] == reg_read(c.regs, r as int));
    let c8 = tick(c7, prog);
    lemma_run_unfold(c, prog, 8);
    lemma_run_unfold(c1, prog, 7);
    lemma_run_unfold(c2, prog, 6);
    lemma_run_unfold(c3, prog, 5);
    lemma_run_unfold(c4, prog, 4);
    lemma_run_unfold(c5, prog, 3);
    lemma_run_unfold(c6, prog, 2);
    lemma_run_unfold(c7, prog, 1);
}

/// `PUSH R_r`, three NOOPs, then `POP R_k`: four ticks after the pop is
/// fetched, register `k` holds what register `r` held.
pub proof fn lemma_push_then_pop(c: Core, prog: Seq<Instruction>, r: i32, k: i32)
    requires
        c.wf(),
        pipeline_empty(c),
        0 <= c.pc,
        c.pc + 4 < prog.len(),
        c.pc + 4 <= 254,
        1 <= k <= 7,
        prog[c.pc].operation == Operation::PUSH,
        prog[c.pc].a.data == r,
        forall|j: int| 1 <= j <= 3 ==> (#[trigger] prog[c.pc + j]).operation == Operation::NOOP,
        prog[c.pc + 4].operation == Operation::POP,
        prog[c.pc + 4].a.data == k,
    ensures
        reg_read(run(c, prog, 8).regs, k as int) == reg_read(c.regs, r as int),
{
    let p = c.pc;
    let c1 = tick(c, prog);
    let c2 = tick(c1, prog);
    let c3 = tick(c2, prog);
    let c4 = tick(c3, prog);
    assert(c3.execute == prog[p]);
    assert(c3.regs == c.regs);
    assert(c3.sp == c.sp);
    assert(c4.ram[c.sp] == reg_read(c.regs, r as int));
    assert(c4.fetch == prog[p + 3]);
    assert(c4.decode == prog[p + 2]);
    assert(c4.execute == prog[p + 1]);
    let c5 = tick(c4, prog);
    assert(c5.fetch == prog[p + 4]);
    let c6 = tick(c5, prog);
    let c7 = tick(c6, prog);
    assert(c7.execute == prog[p + 4]);
    assert(c7.ram[c.sp] == reg_read(c.regs, r as int));
    assert(c7.sp == c4.sp);
    let c8 = tick(c7, prog);
    lemma_run_unfold(c, prog, 8);
    lemma_run_unfold(c1, prog, 7);
    lemma_run_unfold(c2, prog, 6);
    lemma_run_unfold(c3, prog, 5);
    lemma_run_unfold(c4, prog, 4);
    lemma_run_unfold(c5, prog, 3);
    lemma_run_unfold(c6, prog, 2);
    lemma_run_unfold(c7, prog, 1);
}

proof fn lemma_run_split(c: Core, prog: Seq<Instruction>, n: nat, k: nat)
    ensures
        run(c, prog, n + k) == run(run(c, prog, n), prog, k),
    decreases n,
{
    if n > 0 {
        lemma_run_split(tick(c, prog), prog, (n - 1) as nat, k);
        assert((n + k - 1) as nat == (n - 1) as nat + k);
    }
}

/// Where the machine stands `j` ticks after a CALL from `p` took effect,
/// inside a subroutine at `t`: the return address is on the stack, and
/// only NOOPs have left decode since.
pub open spec fn in_subroutine(d: Core, c: Core, prog: Seq<Instruction>, t: int, j: int) -> bool {
    &&& d.wf()
    &&& !d.waiting
    &&& d.sp == sp_down(c.sp)
    &&& d.ram[c.sp] == (c.pc + 1) as u8
    &&& d.execute.operation == Operation::NOOP
    &&& d.decode == prog[t + j]
    &&& d.fetch == fetch_at(prog, t + j + 1)
    &&& d.pc == t + j + 2
}

proof fn lemma_subroutine_step(d: Core, c: Core, prog: Seq<Instruction>, t: int, j: int, m: int)
    requires
        0 <= j < m,
        0 <= t,
        t + m < prog.len(),
        t + m + 2 <= 254,
        0 <= c.sp <= 15,
        forall|k: int| 0 <= k < m ==> (#[trigger] prog[t + k]).operation == Operation::NOOP,
        in_subroutine(d, c, prog, t, j),
    ensures
        in_subroutine(tick(d, prog), c, prog, t, j + 1),
{
    assert(prog[t + j].operation == Operation::NOOP);
    assert(fetch_at(prog, t + j + 1) == prog[t + j + 1]);
}

proof fn lemma_subroutine_run(d: Core, c: Core, prog: Seq<Instruction>, t: int, j: nat, m: int)
    requires
        j <= m,
        0 <= t,
        t + m < prog.len(),
        t + m + 2 <= 254,
        0 <= c.sp <= 15,
        forall|k: int| 0 <= k < m ==> (#[trigger] prog[t + k]).operation == Operation::NOOP,
        in_subroutine(d, c, prog, t, 0),
    ensures
        in_subroutine(run(d, prog, j), c, prog, t, j as int),
    decreases j,
{
    if j > 0 {
        lemma_subroutine_run(d, c, prog, t, (j - 1) as nat, m);
        let e = run(d, prog, (j - 1) as nat);
        lemma_subroutine_step(e, c, prog, t, j - 1, m);
        lemma_run_split(d, prog, (j - 1) as nat, 1);
        lemma_run_unfold(e, prog, 1);
    }
}

/// `CALL t` at address `p` into a subroutine of `m` NOOPs and a RET: once
/// the RET has executed, the next instruction fetched is the one after the
/// CALL, and the stack pointer is back where it was.
pub proof fn lemma_call_then_ret(c: Core, prog: Seq<Instruction>, t: i32, m: nat)
    requires
        c.wf(),
        pipeline_empty(c),
        0 <= c.pc <= 253,
        c.pc < prog.len(),
        0 <= t,
        t + m < prog.len(),
        t + m + 2 <= 254,
        prog[c.pc].operation == Operation::CALL,
        prog[c.pc].address == c.pc,
        prog[c.pc].a.data == t,
        forall|k: int| 0 <= k < m ==> (#[trigger] prog[t + k]).operation == Operation::NOOP,
        prog[t + m].operation == Operation::RET,
    ensures
        run(c, prog, 5 + m).fetch == fetch_at(prog, c.pc + 1),
        run(c, prog, 5 + m).pc == pc_next(c.pc + 1),
        run(c, prog, 5 + m).sp == c.sp,
{
    let p = c.pc;
    let c1 = tick(c, prog);
    let c2 = tick(c1, prog);
    let c3 = tick(c2, prog);
    assert(c2.decode == prog[p]);
    assert(c3.execute == prog[p]);
    assert(c3.fetch == prog[t as int]);
    assert(c3.decode == sentinel());
    let c4 = tick(c3, prog);
    let ret = p + 1;
    lemma_byte_cast(ret as i32);
    assert(c4.ram[c.sp] == ret);
    assert(in_subroutine(c4, c, prog, t as int, 0));
    lemma_subroutine_run(c4, c, prog, t as int, m, m as int);
    let dm = run(c4, prog, m);
    assert(dm.decode.operation == Operation::RET);
    let last = tick(dm, prog);
    assert(last.execute.a.data == ret);
    lemma_run_unfold(c, prog, 4);
    lemma_run_unfold(c1, prog, 3);
    lemma_run_unfold(c2, prog, 2);
    lemma_run_unfold(c3, prog, 1);
    lemma_run_split(c, prog, 4, m);
    lemma_run_split(c, prog, 4 + m, 1);
    lemma_run_unfold(dm, prog, 1);
    assert((4 + m) + 1 == 5 + m);
}

/// An OUT to an immediate port outside 0..=7 draws a port warning.
pub proof fn lemma_out_of_range_port_warned(i: Instruction, line: i32)
    requires
        i.operation == Operation::OUT,
        i.a.type_ == OperandType::Port,
        i.a.data > 7 || i.a.data < 0,
    ensures
        static_warnings(i, line).contains(port_warning(line, i.a.data)),
{
    let w = static_warnings(i, line);
    assert(w[w.len() - 1] == port_warning(line, i.a.data));
}

/// An immediate operand A outside 0..=255 of an operation that is no branch
/// draws a wrap warning.
pub proof fn lemma_wide_immediate_warned(i: Instruction, line: i32)
    requires
        !is_branch(i.operation),
        i.a.type_ == OperandType::Immediate,
        i.a.data > 255 || i.a.data < 0,
    ensures
        static_warnings(i, line).contains(immediate_warning(line, i.a.data)),
{
    let w = static_warnings(i, line);
    assert(w[0] == immediate_warning(line, i.a.data));
}

/// An immediate operand B outside 0..=255 draws a wrap warning, whatever
/// the operation.
pub proof fn lemma_wide_immediate_b_warned(i: Instruction, line: i32)
    requires
        i.b.type_ == OperandType::Immediate,
        i.b.data > 255 || i.b.data < 0,
    ensures
        static_warnings(i, line).contains(immediate_warning(line, i.b.data)),
{
    let w = static_warnings(i, line);
    let op = i.operation;
    let a = i.a;
    let p0 = warn_if(
        writes_a(op) && a.type_ == OperandType::Register && a.data == 0 && !(
        is_arith(op) && i.args == OperationArgs::X),
        zero_write_warning(line),
    );
    let p1 = warn_if(
        a.type_ == OperandType::Immediate && (a.data < 0 || a.data > 255) && !is_branch(op),
        immediate_warning(line, a.data),
    );
    assert(w[(p0.len() + p1.len()) as int] == immediate_warning(line, i.b.data));
}

/// The read-after-write warning comes exactly when the instruction before
/// writes a register that this one reads.
pub proof fn lemma_hazard_rule(prev: Seq<Instruction>, i: Instruction, line: i32)
    requires
        prev.len() > 0,
    ensures
        hazard_warnings(prev, i, line).len() > 0 <==> (written_register(prev.last()) is Some
            && read_registers(i).contains(written_register(prev.last())->0)),
        hazard_warnings(prev, i, line).len() > 0 ==> hazard_warnings(prev, i, line)[0]
            == hazard_warning(line, written_register(prev.last())->0),
{
}

/// With prefix X, an arithmetic operation reads only operand B as a
/// register.
pub proof fn lemma_x_prefix_reads_only_b(i: Instruction)
    requires
        is_arith(i.operation),
        i.args == OperationArgs::X,
    ensures
        read_registers(i) == if i.b.type_ == OperandType::Register {
            seq![i.b.data]
        } else {
            Seq::<i32>::empty()
        },
{
    assert(read_registers(i) =~= if i.b.type_ == OperandType::Register {
        seq![i.b.data]
    } else {
        Seq::<i32>::empty()
    });
}

} // verus!
