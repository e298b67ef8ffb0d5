use electron2::isa::{OperandType, Operation, OperationArgs};
use electron2::parser::Parser;

fn parse(src: &str) -> (Vec<electron2::isa::Instruction>, Vec<String>, Vec<String>) {
    Parser::parse(src.to_string())
}

#[test]
fn raw_hazard_warning_present() {
    let (instrs, errors, warnings) = parse("IMM R1 5\nADD R2 R1");
    assert_eq!(instrs.len(), 2);
    assert!(errors.is_empty());
    assert_eq!(
        warnings,
        vec!["Line 2: RAW Hazard. Reading R1 immediately after writing may yield old value due to pipeline latency. Insert a NOOP.".to_string()]
    );
}

#[test]
fn no_raw_hazard_after_noop() {
    let (_, errors, warnings) = parse("IMM R1 5\nNOOP\nADD R2 R1");
    assert!(errors.is_empty());
    assert!(warnings.is_empty());
}

#[test]
fn no_raw_hazard_with_x_prefix() {
    let (instrs, errors, warnings) = parse("IMM R1 5\nXADD R2 R1");
    assert!(errors.is_empty());
    assert!(warnings.is_empty());
    assert_eq!(instrs[1].args, OperationArgs::X);
    assert_eq!(instrs[1].b.data, 2);
}

#[test]
fn binary_literal_with_underscores() {
    let (instrs, errors, warnings) = parse("IMM R1 B1111_1111");
    assert!(errors.is_empty());
    assert!(warnings.is_empty());
    assert_eq!(instrs[0].b.type_, OperandType::Immediate);
    assert_eq!(instrs[0].b.data, 255);
}

#[test]
fn wide_immediate_warns() {
    let (instrs, _, warnings) = parse("IMM R1 256");
    assert_eq!(instrs[0].b.data, 256);
    assert_eq!(
        warnings,
        vec!["Line 1: Immediate value 256 is out of 8-bit range (0-255). It will be wrapped.".to_string()]
    );
    let (_, _, warnings) = parse("JMP 256");
    assert!(warnings.is_empty());
    let (_, _, warnings) = parse("PUSH -5");
    assert_eq!(
        warnings,
        vec!["Line 1: Immediate value -5 is out of 8-bit range (0-255). It will be wrapped.".to_string()]
    );
}

#[test]
fn memory_address_warnings() {
    let (_, _, warnings) = parse("STORE #16 R1\nLOAD R1 @20");
    assert_eq!(
        warnings,
        vec![
            "Line 1: Memory address #16 is out of RAM range (0-15).".to_string(),
            "Line 2: Memory address #20 is out of RAM range (0-15).".to_string(),
        ]
    );
}

#[test]
fn labels_resolve_to_instruction_index() {
    let src = "; header comment\n\nSTART:\n  IMM R1 1 ; set\nLOOP: ADD R1 R1\nJMP LOOP\nJMP START";
    let (instrs, errors, _) = parse(src);
    assert!(errors.is_empty());
    assert_eq!(instrs.len(), 4);
    assert_eq!(instrs[2].operation, Operation::JMP);
    assert_eq!(instrs[2].a.data, 1);
    assert_eq!(instrs[3].a.data, 0);
    assert_eq!(instrs[1].address, 1);
    assert_eq!(instrs[1].source_line, 5);
}

#[test]
fn lower_case_source_is_accepted() {
    let (instrs, errors, _) = parse("loop: imm r2 b101\nnop\njmp loop");
    assert!(errors.is_empty());
    assert_eq!(instrs[0].operation, Operation::IMM);
    assert_eq!(instrs[0].a.type_, OperandType::Register);
    assert_eq!(instrs[0].a.data, 2);
    assert_eq!(instrs[0].b.data, 5);
    assert_eq!(instrs[1].operation, Operation::NOOP);
    assert_eq!(instrs[2].a.data, 0);
}

#[test]
fn operand_sigils() {
    let (instrs, errors, _) = parse("OUT %2 $3\nSTORE @4 R1\nUADD R1 R2\nSSUB R3 R4");
    assert!(errors.is_empty());
    assert_eq!(instrs[0].a.type_, OperandType::Port);
    assert_eq!(instrs[0].a.data, 2);
    assert_eq!(instrs[0].b.type_, OperandType::Register);
    assert_eq!(instrs[0].b.data, 3);
    assert_eq!(instrs[1].a.type_, OperandType::MemoryAddress);
    assert_eq!(instrs[1].a.data, 4);
    assert_eq!(instrs[2].args, OperationArgs::U);
    assert_eq!(instrs[3].args, OperationArgs::S);
    assert_eq!(instrs[3].operation, Operation::SUB);
}

#[test]
fn missing_operands_default_to_zero() {
    let (instrs, errors, _) = parse("IMM R1");
    assert!(errors.is_empty());
    assert_eq!(instrs[0].b.type_, OperandType::Immediate);
    assert_eq!(instrs[0].b.data, 0);
}

#[test]
fn invalid_operation_error() {
    let (instrs, errors, _) = parse("NOOP\nFOO R1\nQADD R1 R2");
    assert_eq!(instrs.len(), 1);
    assert_eq!(
        errors,
        vec![
            "Line 2: Invalid operation: FOO".to_string(),
            "Line 3: Invalid operation: QADD".to_string(),
        ]
    );
}

#[test]
fn invalid_number_and_binary_errors() {
    let (instrs, errors, _) = parse("STORE #X R1\nOUT %B2 R1");
    assert!(instrs.is_empty());
    assert_eq!(
        errors,
        vec!["Line 1: Invalid number: X".to_string(), "Line 2: Invalid binary: B2".to_string()]
    );
}

#[test]
fn unknown_label_error() {
    let (_, errors, _) = parse("JMP NOWHERE");
    assert_eq!(errors, vec!["Line 1: Invalid value or unknown label: NOWHERE".to_string()]);
}

#[test]
fn errors_do_not_stop_parsing() {
    let (instrs, errors, _) = parse("FOO\nIMM R1 1\nBAR\nIMM R2 2");
    assert_eq!(errors.len(), 2);
    assert_eq!(instrs.len(), 2);
    assert_eq!(instrs[1].address, 1);
    assert_eq!(instrs[1].source_line, 4);
}

#[test]
fn parse_lines_takes_cleaned_lines() {
    let lines: Vec<Vec<char>> = vec!["IMM R1 5".chars().collect(), "ADD R2 R1".chars().collect()];
    let (instrs, errors, warnings) = Parser::parse_lines(&lines);
    assert_eq!(instrs.len(), 2);
    assert!(errors.is_empty());
    assert_eq!(warnings.len(), 1);
}

#[test]
fn parse_binary_values() {
    let c = |s: &str| s.chars().collect::<Vec<char>>();
    assert_eq!(Parser::parse_binary(&c("B1010")), Ok(10));
    assert_eq!(Parser::parse_binary(&c("1_000")), Ok(1000));
    assert_eq!(Parser::parse_binary(&c("-12")), Ok(-12));
    assert_eq!(Parser::parse_binary(&c("99999999999")), Err(c("Invalid number: 99999999999")));
    assert_eq!(Parser::parse_binary(&c("B")), Err(c("Invalid binary: B")));
}
