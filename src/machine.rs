//! The register file, the ALU and the pipelined emulator core.
use vstd::prelude::*;
use crate::parser::{Parser, assemble_lines, clean_lines, string_views};
use crate::isa::{Instruction, Operand, Operation, OperationArgs, is_alu_op, sentinel};

verus! {

/// What reading register `addr` of the file `regs` yields: register 0 and
/// indices outside the file read as zero.
pub open spec fn reg_read(regs: Seq<u8>, addr: int) -> u8 {
    if addr <= 0 || addr > 7 {
        0
    } else {
        regs[addr]
    }
}

/// The staged register file after writing `data` to register `addr`: writes
/// to register 0 or outside the file are dropped.
pub open spec fn reg_write(next: Seq<u8>, addr: int, data: u8) -> Seq<u8> {
    if 0 < addr && addr < 8 {
        next.update(addr, data)
    } else {
        next
    }
}

/// Eight 8-bit registers. Writes go to `next_regs` and become visible in
/// `regs` at the end of the cycle.
pub struct Registers {
    pub regs: [u8; 8],
    pub next_regs: [u8; 8],
}

impl Default for Registers {
    fn default() -> (r: Self)
        ensures
            r.regs@ == Seq::new(8, |i: int| 0u8),
            r.next_regs@ == Seq::new(8, |i: int| 0u8),
    {
        Self::new()
    }
}

impl Registers {
    pub fn new() -> (r: Self)
        ensures
            r.regs@ == Seq::new(8, |i: int| 0u8),
            r.next_regs@ == Seq::new(8, |i: int| 0u8),
    {
        let r = Self { regs: [0u8; 8], next_regs: [0u8; 8] };
        assert(r.regs@ =~= Seq::new(8, |i: int| 0u8));
        assert(r.next_regs@ =~= Seq::new(8, |i: int| 0u8));
        r
    }

    pub fn begin_cycle(&mut self)
        ensures
            final(self).regs == old(self).regs,
            final(self).next_regs == old(self).regs,
    {
        self.next_regs = self.regs;
    }

    pub fn end_cycle(&mut self)
        ensures
            final(self).regs == old(self).next_regs,
            final(self).next_regs == old(self).next_regs,
    {
        self.regs = self.next_regs;
    }

    pub fn read(&self, addr: i32) -> (r: u8)
        ensures
            r == reg_read(self.regs@, addr as int),
    {
        if addr <= 0 || addr > 7 {
            0
        } else {
            self.regs[addr as usize]
        }
    }

    pub fn write(&mut self, addr: i32, data: u8)
        ensures
            final(self).regs == old(self).regs,
            final(self).next_regs@ == reg_write(old(self).next_regs@, addr as int, data),
    {
        if addr > 0 && addr < 8 {
            self.next_regs[addr as usize] = data;
        }
    }

    /// The current values of all eight registers.
    pub fn get_all(&self) -> (r: Vec<u8>)
        ensures
            r@ == self.regs@,
    {
        let mut r: Vec<u8> = Vec::new();
        let mut i: usize = 0;
        while i < 8
            invariant
                i <= 8,
                r@ == self.regs@.subrange(0, i as int),
            decreases 8 - i,
        {
            r.push(self.regs[i]);
            i = i + 1;
        }
        assert(r@ =~= self.regs@);
        r
    }
}

#[derive(Clone, Copy, PartialEq, Eq, Structural, Debug)]
pub struct AluFlags {
    pub equals: bool,
    pub greater: bool,
    pub less: bool,
    pub overflow: bool,
}

#[derive(Clone, Copy, PartialEq, Eq, Structural, Debug)]
pub struct ALU {
    pub accumulator: u8,
    pub flags: AluFlags,
}

/// Source A of an instruction: the accumulator under prefix U or X, else
/// register A.
pub open spec fn source_a(acc: u8, regs: Seq<u8>, instr: Instruction) -> u8 {
    if instr.args == OperationArgs::U || instr.args == OperationArgs::X {
        acc
    } else {
        reg_read(regs, instr.a.data as int)
    }
}

/// The unwrapped result of an arithmetic/logical operation.
pub open spec fn alu_value(op: Operation, a: u8, b: u8, carry: bool) -> int {
    match op {
        Operation::ADD => a + b,
        Operation::ADDC => a + b + if carry { 1int } else { 0int },
        Operation::SUB => a - b,
        Operation::OR => (a | b) as int,
        Operation::XOR => (a ^ b) as int,
        Operation::AND => (a & b) as int,
        Operation::SHR => (b >> 1u8) as int,
        Operation::NOT => (!b) as int,
        _ => 0,
    }
}

/// The ALU after executing `instr` against the register file `regs`.
pub open spec fn alu_next(alu: ALU, regs: Seq<u8>, instr: Instruction) -> ALU {
    if is_alu_op(instr.operation) {
        let a = source_a(alu.accumulator, regs, instr);
        let b = reg_read(regs, instr.b.data as int);
        let v = alu_value(instr.operation, a, b, alu.flags.overflow);
        ALU {
            accumulator: v as u8,
            flags: AluFlags { equals: a == b, greater: a > b, less: a < b, overflow: !(0 <= v <= 255) },
        }
    } else {
        alu
    }
}

pub open spec fn initial_alu() -> ALU {
    ALU { accumulator: 0, flags: AluFlags { equals: false, greater: false, less: false, overflow: false } }
}

impl Default for ALU {
    fn default() -> (r: Self)
        ensures
            r == initial_alu(),
    {
        Self::new()
    }
}

impl ALU {
    pub fn new() -> (r: Self)
        ensures
            r == initial_alu(),
    {
        Self {
            accumulator: 0,
            flags: AluFlags { equals: false, greater: false, less: false, overflow: false },
        }
    }

    /// Executes `instr`: arithmetic and logical operations update the flags
    /// and the accumulator, INP starts waiting for input into register A.
    pub fn execute(
        &mut self,
        registers: &Registers,
        instr: &Instruction,
        input_register: &mut i32,
        waiting_for_input: &mut bool,
    )
        ensures
            *final(self) == alu_next(*old(self), registers.regs@, *instr),
            instr.operation == Operation::INP ==> *final(waiting_for_input) && *final(input_register)
                == instr.a.data,
            instr.operation != Operation::INP ==> *final(waiting_for_input) == *old(waiting_for_input)
                && *final(input_register) == *old(input_register),
    {
        let a_data = if instr.args == OperationArgs::U || instr.args == OperationArgs::X {
            self.accumulator
        } else {
            registers.read(instr.a.data)
        };
        let b_data = registers.read(instr.b.data);
        let op = instr.operation;
        let result: i32 = match op {
            Operation::ADD => a_data as i32 + b_data as i32,
            Operation::ADDC => {
                let carry: i32 = if self.flags.overflow { 1 } else { 0 };
                a_data as i32 + b_data as i32 + carry
            },
            Operation::SUB => a_data as i32 - b_data as i32,
            Operation::OR => (a_data | b_data) as i32,
            Operation::XOR => (a_data ^ b_data) as i32,
            Operation::AND => (a_data & b_data) as i32,
            Operation::SHR => (b_data >> 1u8) as i32,
            Operation::NOT => (!b_data) as i32,
            Operation::INP => {
                *waiting_for_input = true;
                *input_register = instr.a.data;
                0
            },
            _ => 0,
        };
        let is_alu = match op {
            Operation::ADD | Operation::ADDC | Operation::SUB | Operation::OR | Operation::XOR
            | Operation::AND | Operation::SHR | Operation::NOT => true,
            _ => false,
        };
        if is_alu {
            self.flags.equals = a_data == b_data;
            self.flags.greater = a_data > b_data;
            self.flags.less = a_data < b_data;
            self.flags.overflow = !(0 <= result && result <= 255);
            self.accumulator = result as u8;
        }
    }
}

/// The runtime state of the emulator, as mathematical values.
pub struct Core {
    pub pc: int,
    pub sp: int,
    pub fetch: Instruction,
    pub decode: Instruction,
    pub execute: Instruction,
    pub writeback: Instruction,
    pub regs: Seq<u8>,
    pub next_regs: Seq<u8>,
    pub alu: ALU,
    pub ports: Seq<u8>,
    pub ram: Seq<u8>,
    pub waiting: bool,
    pub input_register: int,
}

/// The stack pointer after a pop: one up, wrapping 15 to 0.
pub open spec fn sp_up(sp: int) -> int {
    if sp + 1 > 15 {
        0
    } else {
        sp + 1
    }
}

/// The stack pointer after a push: one down, wrapping 0 to 15.
pub open spec fn sp_down(sp: int) -> int {
    if sp - 1 < 0 {
        15
    } else {
        sp - 1
    }
}

/// The program counter after a cycle: one up, wrapping to 0 at 255.
pub open spec fn pc_next(pc: int) -> int {
    if pc + 1 >= 255 {
        0
    } else {
        pc + 1
    }
}

impl Core {
    /// Sizes of the register file, ports and RAM, and the stack pointer in range.
    pub open spec fn wf(self) -> bool {
        &&& self.regs.len() == 8
        &&& self.next_regs.len() == 8
        &&& self.ports.len() == 8
        &&& self.ram.len() == 16
        &&& 0 <= self.sp <= 15
    }

    pub open spec fn write_reg(self, addr: int, data: u8) -> Core {
        Core { next_regs: reg_write(self.next_regs, addr, data), ..self }
    }

    pub open spec fn read_reg(self, addr: int) -> u8 {
        reg_read(self.regs, addr)
    }
}

/// The writeback stage: the instruction leaving execute takes effect.
pub open spec fn writeback_stage(c0: Core) -> Core {
    let w = c0.execute;
    let c = Core { writeback: w, ..c0 };
    let a = w.a.data as int;
    let b = w.b.data as int;
    match w.operation {
        Operation::IMM => c.write_reg(a, w.b.data as u8),
        Operation::MOV => c.write_reg(a, c.read_reg(b)),
        Operation::ADD | Operation::ADDC | Operation::SUB | Operation::OR | Operation::XOR
        | Operation::AND => if w.args != OperationArgs::X {
            c.write_reg(a, c.alu.accumulator)
        } else {
            c
        },
        Operation::SHR | Operation::NOT | Operation::INP => c.write_reg(a, c.alu.accumulator),
        Operation::OUT => if 0 <= a < 8 {
            Core { ports: c.ports.update(a, c.read_reg(b)), ..c }
        } else {
            c
        },
        Operation::ROUT => {
            let p = c.read_reg(a) as int;
            if p < 8 {
                Core { ports: c.ports.update(p, c.read_reg(b)), ..c }
            } else {
                c
            }
        },
        Operation::STORE => if 0 <= a < 16 {
            Core { ram: c.ram.update(a, c.read_reg(b)), ..c }
        } else {
            c
        },
        Operation::LOAD => if 0 <= b < 16 {
            c.write_reg(a, c.ram[b])
        } else {
            c
        },
        Operation::PUSH => Core { ram: c.ram.update(c.sp, c.read_reg(a)), sp: sp_down(c.sp), ..c },
        Operation::POP => {
            let sp = sp_up(c.sp);
            Core { sp, ..c }.write_reg(a, c.ram[sp])
        },
        Operation::CALL => Core {
            ram: c.ram.update(c.sp, (w.address + 1) as u8),
            sp: sp_down(c.sp),
            ..c
        },
        _ => c,
    }
}

/// Whether the instruction entering execute redirects the program counter.
pub open spec fn takes_branch(op: Operation, flags: AluFlags) -> bool {
    ||| op == Operation::JMP
    ||| op == Operation::CALL
    ||| op == Operation::RET
    ||| (op == Operation::BIE && flags.equals)
    ||| (op == Operation::BIG && flags.greater)
    ||| (op == Operation::BIO && flags.overflow)
    ||| (op == Operation::BIL && flags.less)
}

/// The execute stage: the decoded instruction moves to execute, branches
/// redirect the program counter and flush fetch, and the ALU runs.
pub open spec fn execute_stage(c: Core) -> Core {
    let d = c.decode;
    let sp = if d.operation == Operation::RET {
        sp_up(c.sp)
    } else {
        c.sp
    };
    let e = if d.operation == Operation::RET {
        Instruction { a: Operand { data: c.ram[sp] as i32, ..d.a }, ..d }
    } else {
        d
    };
    let branch = takes_branch(e.operation, c.alu.flags);
    Core {
        execute: e,
        sp,
        pc: if branch {
            e.a.data as int
        } else {
            c.pc
        },
        fetch: if branch {
            sentinel()
        } else {
            c.fetch
        },
        alu: alu_next(c.alu, c.regs, e),
        waiting: if e.operation == Operation::INP {
            true
        } else {
            c.waiting
        },
        input_register: if e.operation == Operation::INP {
            e.a.data as int
        } else {
            c.input_register
        },
        ..c
    }
}

/// The instruction at `pc`, or the sentinel outside the program.
pub open spec fn fetch_at(prog: Seq<Instruction>, pc: int) -> Instruction {
    if 0 <= pc < prog.len() {
        prog[pc]
    } else {
        sentinel()
    }
}

/// One clock tick of the machine running `prog`.
pub open spec fn tick(c: Core, prog: Seq<Instruction>) -> Core {
    if c.waiting {
        c
    } else {
        let c1 = writeback_stage(Core { next_regs: c.regs, ..c });
        let c2 = execute_stage(c1);
        let c3 = Core { decode: c2.fetch, ..c2 };
        let c4 = Core { fetch: fetch_at(prog, c3.pc), ..c3 };
        Core { pc: pc_next(c4.pc), regs: c4.next_regs, ..c4 }
    }
}

/// The state after `n` ticks.
pub open spec fn run(c: Core, prog: Seq<Instruction>, n: nat) -> Core
    decreases n,
{
    if n == 0 {
        c
    } else {
        run(tick(c, prog), prog, (n - 1) as nat)
    }
}

/// The state after a program is loaded: everything zero, the stack pointer
/// at the top, every pipeline slot empty.
pub open spec fn reset_core() -> Core {
    Core {
        pc: 0,
        sp: 15,
        fetch: sentinel(),
        decode: sentinel(),
        execute: sentinel(),
        writeback: sentinel(),
        regs: Seq::new(8, |i: int| 0u8),
        next_regs: Seq::new(8, |i: int| 0u8),
        alu: initial_alu(),
        ports: Seq::new(8, |i: int| 0u8),
        ram: Seq::new(16, |i: int| 0u8),
        waiting: false,
        input_register: 0,
    }
}

pub struct Emulator {
    pub instructions: Vec<Instruction>,
    pub pc: i32,
    pub sp: i32,
    pub fetch_reg: Instruction,
    pub decode_reg: Instruction,
    pub execute_reg: Instruction,
    pub writeback_reg: Instruction,
    pub registers: Registers,
    pub alu: ALU,
    pub ports_out: [u8; 8],
    pub ram: [u8; 16],
    pub waiting_for_input: bool,
    pub input_register: i32,
    pub errors: Vec<String>,
    pub warnings: Vec<String>,
}

impl Emulator {
    pub open spec fn state(&self) -> Core {
        Core {
            pc: self.pc as int,
            sp: self.sp as int,
            fetch: self.fetch_reg,
            decode: self.decode_reg,
            execute: self.execute_reg,
            writeback: self.writeback_reg,
            regs: self.registers.regs@,
            next_regs: self.registers.next_regs@,
            alu: self.alu,
            ports: self.ports_out@,
            ram: self.ram@,
            waiting: self.waiting_for_input,
            input_register: self.input_register as int,
        }
    }

    /// The stack pointer lies in RAM.
    pub open spec fn wf(&self) -> bool {
        0 <= self.sp <= 15
    }

    /// The program and the diagnostics of `self` are those of `other`.
    pub open spec fn same_program(&self, other: &Emulator) -> bool {
        &&& self.instructions@ == other.instructions@
        &&& self.errors@ == other.errors@
        &&& self.warnings@ == other.warnings@
    }

    /// The program and diagnostics are those that assembling `code` gives.
    pub open spec fn holds_program(&self, code: Seq<char>) -> bool {
        let l = assemble_lines(clean_lines(code));
        &&& self.instructions@ == l.instructions
        &&& string_views(self.errors@) == l.errors
        &&& string_views(self.warnings@) == l.warnings
    }

    /// Assembles `code` and starts the machine from the reset state.
    pub fn new(code: String) -> (r: Emulator)
        requires
            code@.len() < i32::MAX,
        ensures
            r.wf(),
            r.state() == reset_core(),
            r.holds_program(code@),
    {
        let mut emu = Emulator {
            instructions: Vec::new(),
            pc: 0,
            sp: 15,
            fetch_reg: Instruction::none(),
            decode_reg: Instruction::none(),
            execute_reg: Instruction::none(),
            writeback_reg: Instruction::none(),
            registers: Registers::new(),
            alu: ALU::new(),
            ports_out: [0u8; 8],
            ram: [0u8; 16],
            waiting_for_input: false,
            input_register: 0,
            errors: Vec::new(),
            warnings: Vec::new(),
        };
        emu.load_program(code);
        emu
    }

    /// Replaces the program by `code`, assembled, and resets the runtime
    /// state; the register of a pending input is kept.
    pub fn load_program(&mut self, code: String)
        requires
            code@.len() < i32::MAX,
        ensures
            final(self).wf(),
            final(self).state() == (Core { input_register: old(self).input_register as int, ..reset_core() }),
            final(self).holds_program(code@),
    {
        self.instructions.clear();
        self.errors.clear();
        self.warnings.clear();
        self.pc = 0;
        self.sp = 15;
        self.reset_state();
        let (instrs, errs, warns) = Parser::parse(code);
        self.instructions = instrs;
        self.errors = errs;
        self.warnings = warns;
    }

    fn reset_state(&mut self)
        ensures
            final(self).state() == (Core {
                pc: old(self).pc as int,
                sp: old(self).sp as int,
                input_register: old(self).input_register as int,
                ..reset_core()
            }),
            final(self).same_program(old(self)),
    {
        self.registers = Registers::new();
        self.alu = ALU::new();
        self.fetch_reg = Instruction::none();
        self.decode_reg = Instruction::none();
        self.execute_reg = Instruction::none();
        self.writeback_reg = Instruction::none();
        self.ports_out = [0u8; 8];
        self.ram = [0u8; 16];
        self.waiting_for_input = false;
        assert(self.ports_out@ =~= Seq::new(8, |i: int| 0u8));
        assert(self.ram@ =~= Seq::new(16, |i: int| 0u8));
        assert(self.registers.regs@ =~= Seq::new(8, |i: int| 0u8));
        assert(self.registers.next_regs@ =~= Seq::new(8, |i: int| 0u8));
    }

    /// Advances the machine by one tick; does nothing while input is pending.
    pub fn clock(&mut self)
        requires
            old(self).wf(),
        ensures
            final(self).wf(),
            final(self).state() == tick(old(self).state(), old(self).instructions@),
            final(self).same_program(old(self)),
    {
        if self.waiting_for_input {
            return;
        }
        self.registers.begin_cycle();
        self.write_back_stage();
        self.execute_stage();
        self.decode_stage();
        self.fetch_stage();
        self.increment_pc();
        self.registers.end_cycle();
    }

    /// Supplies the value that a pending INP waits for.
    pub fn resolve_input(&mut self, val: i32)
        ensures
            final(self).same_program(old(self)),
            old(self).waiting_for_input ==> final(self).state() == (Core {
                alu: ALU { accumulator: val as u8, ..old(self).alu },
                waiting: false,
                ..old(self).state()
            }),
            !old(self).waiting_for_input ==> final(self).state() == old(self).state(),
            final(self).sp == old(self).sp,
    {
        if self.waiting_for_input {
            self.alu.accumulator = val as u8;
            self.waiting_for_input = false;
        }
    }

    fn increment_pc(&mut self)
        ensures
            final(self).state() == (Core { pc: pc_next(old(self).pc as int), ..old(self).state() }),
            final(self).same_program(old(self)),
            final(self).sp == old(self).sp,
    {
        if self.pc >= 254 {
            self.pc = 0;
        } else {
            self.pc = self.pc + 1;
        }
    }

    fn fetch_stage(&mut self)
        ensures
            final(self).state() == (Core {
                fetch: fetch_at(old(self).instructions@, old(self).pc as int),
                ..old(self).state()
            }),
            final(self).same_program(old(self)),
            final(self).sp == old(self).sp,
    {
        if self.pc >= 0 && (self.pc as usize) < self.instructions.len() {
            self.fetch_reg = self.instructions[self.pc as usize];
        } else {
            self.fetch_reg = Instruction::none();
        }
    }

    fn decode_stage(&mut self)
        ensures
            final(self).state() == (Core { decode: old(self).fetch_reg, ..old(self).state() }),
            final(self).same_program(old(self)),
            final(self).sp == old(self).sp,
    {
        self.decode_reg = self.fetch_reg;
    }

    fn execute_stage(&mut self)
        requires
            old(self).wf(),
        ensures
            final(self).wf(),
            final(self).state() == execute_stage(old(self).state()),
            final(self).same_program(old(self)),
    {
        self.execute_reg = self.decode_reg;
        let op = self.execute_reg.operation;
        let mut take_branch = false;
        if op == Operation::JMP {
            take_branch = true;
        } else if op == Operation::CALL {
            take_branch = true;
        } else if op == Operation::BIE && self.alu.flags.equals {
            take_branch = true;
        } else if op == Operation::BIG && self.alu.flags.greater {
            take_branch = true;
        } else if op == Operation::BIO && self.alu.flags.overflow {
            take_branch = true;
        } else if op == Operation::BIL && self.alu.flags.less {
            take_branch = true;
        } else if op == Operation::RET {
            take_branch = true;
            self.sp = self.sp + 1;
            if self.sp > 15 {
                self.sp = 0;
            }
            let ret_addr = self.ram[self.sp as usize];
            self.execute_reg.a.data = ret_addr as i32;
        }
        if take_branch {
            self.pc = self.execute_reg.a.data;
            self.fetch_reg = Instruction::none();
        }
        let instr = self.execute_reg;
        self.alu.execute(&self.registers, &instr, &mut self.input_register, &mut self.waiting_for_input);
    }

    fn write_back_stage(&mut self)
        requires
            old(self).wf(),
        ensures
            final(self).wf(),
            final(self).state() == writeback_stage(old(self).state()),
            final(self).same_program(old(self)),
    {
        self.writeback_reg = self.execute_reg;
        let op = self.writeback_reg.operation;
        let a = self.writeback_reg.a.data;
        let b = self.writeback_reg.b.data;
        let address = self.writeback_reg.address;
        match op {
            Operation::IMM => self.registers.write(a, b as u8),
            Operation::MOV => {
                let val = self.registers.read(b);
                self.registers.write(a, val);
            },
            Operation::ADD | Operation::ADDC | Operation::SUB | Operation::OR | Operation::XOR
            | Operation::AND => {
                if self.writeback_reg.args != OperationArgs::X {
                    let acc = self.alu.accumulator;
                    self.registers.write(a, acc);
                }
            },
            Operation::SHR | Operation::NOT | Operation::INP => {
                let acc = self.alu.accumulator;
                self.registers.write(a, acc);
            },
            Operation::OUT => {
                if 0 <= a && a < 8 {
                    let val = self.registers.read(b);
                    self.ports_out[a as usize] = val;
                }
            },
            Operation::ROUT => {
                let p = self.registers.read(a);
                if p < 8 {
                    let val = self.registers.read(b);
                    self.ports_out[p as usize] = val;
                }
            },
            Operation::STORE => {
                if 0 <= a && a < 16 {
                    let val = self.registers.read(b);
                    self.ram[a as usize] = val;
                }
            },
            Operation::LOAD => {
                if 0 <= b && b < 16 {
                    let val = self.ram[b as usize];
                    self.registers.write(a, val);
                }
            },
            Operation::PUSH => {
                let val = self.registers.read(a);
                self.ram[self.sp as usize] = val;
                self.sp = self.sp - 1;
                if self.sp < 0 {
                    self.sp = 15;
                }
            },
            Operation::POP => {
                self.sp = self.sp + 1;
                if self.sp > 15 {
                    self.sp = 0;
                }
                let val = self.ram[self.sp as usize];
                self.registers.write(a, val);
            },
            Operation::CALL => {
                let ret = (address as i64 + 1) as u8;
                self.ram[self.sp as usize] = ret;
                self.sp = self.sp - 1;
                if self.sp < 0 {
                    self.sp = 15;
                }
            },
            _ => {},
        }
    }
}

} // verus!
