use electron2::isa::{Instruction, Operand, OperandType, Operation, OperationArgs};
use electron2::machine::{Emulator, Registers, ALU};

fn run(src: &str, ticks: usize) -> Emulator {
    let mut emu = Emulator::new(src.to_string());
    for _ in 0..ticks {
        emu.clock();
    }
    emu
}

#[test]
fn add_two_immediates() {
    let src = "IMM R1 7\nNOOP\nNOOP\nNOOP\nIMM R2 5\nNOOP\nNOOP\nNOOP\nADD R1 R2\nNOOP\nNOOP\nNOOP\nNOOP";
    let emu = run(src, 20);
    assert!(emu.errors.is_empty());
    assert_eq!(emu.registers.read(1), 12);
    assert_eq!(emu.alu.accumulator, 12);
    assert!(emu.alu.flags.greater);
    assert!(!emu.alu.flags.equals);
}

#[test]
fn port_output() {
    let src = "IMM R1 B10101010\nNOOP\nNOOP\nNOOP\nOUT %3 R1\nNOOP\nNOOP\nNOOP";
    let emu = run(src, 12);
    assert_eq!(emu.ports_out[3], 0b10101010);
    assert_eq!(emu.ports_out[3], 170);
}

#[test]
fn call_and_return() {
    let src = "CALL SUB\nIMM R1 9\nNOOP\nNOOP\nNOOP\nJMP END\nSUB: IMM R2 4\nRET\nEND: NOOP";
    let emu = run(src, 30);
    assert!(emu.errors.is_empty());
    assert_eq!(emu.registers.read(2), 4);
    assert_eq!(emu.registers.read(1), 9);
    assert_eq!(emu.sp, 15);
}

#[test]
fn call_returns_to_next_instruction() {
    let src = "CALL SUB\nNOOP\nNOOP\nSUB: RET";
    let mut emu = Emulator::new(src.to_string());
    for _ in 0..5 {
        emu.clock();
    }
    assert_eq!(emu.fetch_reg.address, 1);
    assert_eq!(emu.pc, 2);
    assert_eq!(emu.sp, 15);
    assert_eq!(emu.ram[15], 1);
}

#[test]
fn call_returns_after_subroutine_body() {
    let src = "CALL SUB\nNOOP\nNOOP\nSUB: NOOP\nNOOP\nRET";
    let mut emu = Emulator::new(src.to_string());
    for _ in 0..7 {
        emu.clock();
    }
    assert_eq!(emu.fetch_reg.address, 1);
    assert_eq!(emu.pc, 2);
    assert_eq!(emu.sp, 15);
}

fn branch_program(second: u8) -> String {
    format!(
        "IMM R1 5\nIMM R2 {}\nNOOP\nNOOP\nNOOP\nSUB R1 R2\nBIE TARGET\nIMM R3 1\nNOOP\nNOOP\nNOOP\nJMP END\nTARGET: IMM R4 1\nNOOP\nNOOP\nNOOP\nEND: NOOP\nNOOP\nNOOP\nNOOP",
        second
    )
}

#[test]
fn branch_on_equal_taken() {
    let emu = run(&branch_program(5), 40);
    assert!(emu.errors.is_empty());
    assert_eq!(emu.registers.read(4), 1);
    assert_eq!(emu.registers.read(3), 0);
}

#[test]
fn branch_on_equal_not_taken() {
    let emu = run(&branch_program(6), 40);
    assert_eq!(emu.registers.read(4), 0);
    assert_eq!(emu.registers.read(3), 1);
}

#[test]
fn input_blocks_until_resolved() {
    let mut emu = run("INP R3\nNOOP\nNOOP\nNOOP\nNOOP", 3);
    assert!(emu.waiting_for_input);
    assert_eq!(emu.input_register, 3);
    let pc = emu.pc;
    for _ in 0..10 {
        emu.clock();
    }
    assert_eq!(emu.pc, pc);
    assert!(emu.waiting_for_input);
    assert_eq!(emu.registers.read(3), 0);
    emu.resolve_input(42);
    assert!(!emu.waiting_for_input);
    assert_eq!(emu.alu.accumulator, 42);
    emu.clock();
    emu.clock();
    assert_eq!(emu.registers.read(3), 42);
}

#[test]
fn resolve_input_wraps_to_a_byte() {
    let mut emu = run("INP R1\nNOOP\nNOOP", 3);
    emu.resolve_input(300);
    assert_eq!(emu.alu.accumulator, 44);
    emu.clock();
    assert_eq!(emu.registers.read(1), 44);
}

#[test]
fn resolve_input_without_pending_input_does_nothing() {
    let mut emu = Emulator::new("NOOP".to_string());
    emu.resolve_input(9);
    assert_eq!(emu.alu.accumulator, 0);
    assert!(!emu.waiting_for_input);
}

#[test]
fn imm_visible_after_four_ticks() {
    let mut emu = run("IMM R3 200\nNOOP\nNOOP\nNOOP\nNOOP", 3);
    assert_eq!(emu.registers.read(3), 0);
    emu.clock();
    assert_eq!(emu.registers.read(3), 200);
}

#[test]
fn store_then_load() {
    let src = "IMM R1 77\nNOOP\nNOOP\nNOOP\nSTORE #5 R1\nNOOP\nNOOP\nNOOP\nLOAD R2 #5\nNOOP\nNOOP\nNOOP";
    let emu = run(src, 16);
    assert_eq!(emu.ram[5], 77);
    assert_eq!(emu.registers.read(2), 77);
}

#[test]
fn push_then_pop() {
    let src = "IMM R1 33\nNOOP\nNOOP\nNOOP\nPUSH R1\nNOOP\nNOOP\nNOOP\nPOP R4\nNOOP\nNOOP\nNOOP";
    let emu = run(src, 16);
    assert_eq!(emu.registers.read(4), 33);
    assert_eq!(emu.sp, 15);
}

#[test]
fn pc_wraps_after_254() {
    let mut emu = Emulator::new("NOOP".to_string());
    for _ in 0..254 {
        emu.clock();
    }
    assert_eq!(emu.pc, 254);
    emu.clock();
    assert_eq!(emu.pc, 0);
}

#[test]
fn sp_wraps_on_push_and_pop() {
    let pushes = vec!["PUSH R1"; 16].join("\n");
    let mut emu = Emulator::new(pushes);
    for _ in 0..3 {
        emu.clock();
    }
    assert_eq!(emu.sp, 15);
    for _ in 0..15 {
        emu.clock();
    }
    assert_eq!(emu.sp, 0);
    emu.clock();
    assert_eq!(emu.sp, 15);
    let emu = run("POP R1", 4);
    assert_eq!(emu.sp, 0);
}

#[test]
fn register_zero_stays_zero() {
    let emu = run("IMM R0 5\nNOOP\nNOOP\nNOOP\nNOOP", 6);
    assert_eq!(emu.registers.read(0), 0);
    assert_eq!(emu.registers.regs[0], 0);
    assert_eq!(emu.warnings.len(), 1);
    assert_eq!(emu.warnings[0], "Line 1: Writing to Register 0 (Zero Register) effectively does nothing.");
}

#[test]
fn out_to_high_port_is_ignored() {
    let emu = run("IMM R1 3\nNOOP\nNOOP\nNOOP\nOUT %9 R1\nNOOP\nNOOP\nNOOP", 12);
    assert_eq!(emu.ports_out, [0u8; 8]);
    assert_eq!(emu.warnings, vec!["Line 5: Port %9 is out of range (0-7).".to_string()]);
}

#[test]
fn rout_writes_port_named_by_register() {
    let src = "IMM R1 6\nIMM R2 99\nNOOP\nNOOP\nNOOP\nROUT R1 R2\nNOOP\nNOOP\nNOOP";
    let emu = run(src, 12);
    assert_eq!(emu.ports_out[6], 99);
}

#[test]
fn invariants_hold_while_running() {
    let src = "IMM R1 250\nIMM R2 9\nNOOP\nNOOP\nADD R1 R2\nPUSH R1\nPOP R3\nSHR R4 R1\nNOT R5 R2\nOUT %1 R1\nJMP 0";
    let mut emu = Emulator::new(src.to_string());
    for _ in 0..600 {
        emu.clock();
        assert!(emu.sp >= 0 && emu.sp <= 15);
        assert!(emu.pc >= 0 && emu.pc <= 254);
        assert_eq!(emu.registers.read(0), 0);
    }
}

#[test]
fn load_program_resets_state() {
    let mut emu = run("IMM R1 7\nNOOP\nNOOP\nNOOP\nPUSH R1", 8);
    assert_eq!(emu.registers.read(1), 7);
    emu.load_program("NOOP\nFOO".to_string());
    assert_eq!(emu.pc, 0);
    assert_eq!(emu.sp, 15);
    assert_eq!(emu.registers.read(1), 0);
    assert_eq!(emu.ram, [0u8; 16]);
    assert_eq!(emu.instructions.len(), 1);
    assert_eq!(emu.errors, vec!["Line 2: Invalid operation: FOO".to_string()]);
    assert_eq!(emu.fetch_reg.address, -1);
}

#[test]
fn registers_write_visible_after_cycle() {
    let mut r = Registers::new();
    r.begin_cycle();
    r.write(3, 17);
    r.write(0, 5);
    r.write(8, 5);
    assert_eq!(r.read(3), 0);
    r.end_cycle();
    assert_eq!(r.read(3), 17);
    assert_eq!(r.read(0), 0);
    assert_eq!(r.read(-1), 0);
    assert_eq!(r.get_all(), vec![0, 0, 0, 17, 0, 0, 0, 0]);
}

fn instr(op: Operation, args: OperationArgs, a: i32, b: i32) -> Instruction {
    Instruction {
        operation: op,
        args,
        a: Operand::new(OperandType::Register, a),
        b: Operand::new(OperandType::Register, b),
        address: 0,
        source_line: 1,
    }
}

fn regs_with(values: [u8; 8]) -> Registers {
    let mut r = Registers::new();
    r.regs = values;
    r
}

#[test]
fn alu_add_overflow_wraps() {
    let regs = regs_with([0, 200, 100, 0, 0, 0, 0, 0]);
    let mut alu = ALU::new();
    let mut reg = 0;
    let mut waiting = false;
    alu.execute(&regs, &instr(Operation::ADD, OperationArgs::NoPrefix, 1, 2), &mut reg, &mut waiting);
    assert_eq!(alu.accumulator, 44);
    assert!(alu.flags.overflow);
    assert!(alu.flags.greater);
    alu.execute(&regs, &instr(Operation::ADDC, OperationArgs::NoPrefix, 0, 0), &mut reg, &mut waiting);
    assert_eq!(alu.accumulator, 1);
    assert!(!alu.flags.overflow);
    assert!(alu.flags.equals);
}

#[test]
fn alu_sub_shr_not_and_prefixes() {
    let regs = regs_with([0, 3, 5, 0x0F, 0, 0, 0, 0]);
    let mut alu = ALU::new();
    let mut reg = 0;
    let mut waiting = false;
    alu.execute(&regs, &instr(Operation::SUB, OperationArgs::NoPrefix, 1, 2), &mut reg, &mut waiting);
    assert_eq!(alu.accumulator, 254);
    assert!(alu.flags.overflow);
    assert!(alu.flags.less);
    alu.execute(&regs, &instr(Operation::SHR, OperationArgs::NoPrefix, 1, 2), &mut reg, &mut waiting);
    assert_eq!(alu.accumulator, 2);
    alu.execute(&regs, &instr(Operation::NOT, OperationArgs::NoPrefix, 1, 3), &mut reg, &mut waiting);
    assert_eq!(alu.accumulator, 0xF0);
    alu.execute(&regs, &instr(Operation::AND, OperationArgs::X, 0, 3), &mut reg, &mut waiting);
    assert_eq!(alu.accumulator, 0);
    alu.execute(&regs, &instr(Operation::OR, OperationArgs::U, 0, 2), &mut reg, &mut waiting);
    assert_eq!(alu.accumulator, 5);
    alu.execute(&regs, &instr(Operation::XOR, OperationArgs::S, 2, 3), &mut reg, &mut waiting);
    assert_eq!(alu.accumulator, 5 ^ 0x0F);
    assert!(!waiting);
}

#[test]
fn alu_inp_starts_waiting_without_touching_flags() {
    let regs = Registers::new();
    let mut alu = ALU::new();
    let mut reg = 0;
    let mut waiting = false;
    alu.execute(&regs, &instr(Operation::INP, OperationArgs::NoPrefix, 6, 0), &mut reg, &mut waiting);
    assert!(waiting);
    assert_eq!(reg, 6);
    assert!(!alu.flags.equals);
    assert_eq!(alu.accumulator, 0);
}

#[test]
fn defaults_are_zero() {
    let r = Registers::default();
    assert_eq!(r.get_all(), vec![0u8; 8]);
    let alu = ALU::default();
    assert_eq!(alu.accumulator, 0);
    assert!(!alu.flags.overflow && !alu.flags.equals && !alu.flags.greater && !alu.flags.less);
}

#[test]
fn sentinel_instruction() {
    let n = Instruction::none();
    assert_eq!(n.operation, Operation::NOOP);
    assert_eq!(n.args, OperationArgs::NoPrefix);
    assert_eq!(n.address, -1);
    assert_eq!(n.a.type_, OperandType::Immediate);
    assert_eq!(n.b.data, 0);
}

#[test]
fn operation_names() {
    assert_eq!(Operation::ROUT.get_name(), "ROUT");
    assert_eq!(Operation::NOOP.get_name(), "NOOP");
    assert_eq!(Operation::ADDC.get_name(), "ADDC");
}
