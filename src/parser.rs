//! The two-pass assembler: labels first, then instructions with their
//! diagnostics.
use vstd::prelude::*;
use crate::isa::{Instruction, Operand, Operation, OperationArgs, OperandType, is_arith, is_branch};
use crate::text::{
    decimal, eq_chars, eq_str, find, find_char, i32_from_radix, lines, push_chars,
    push_decimal, push_str, radix_value, has_char, split_lines, split_words, string_of, to_upper, trim,
    trim_chars, upper_of, views, words, chars_of,
};

verus! {

/// The operation that a mnemonic names.
pub open spec fn op_of(s: Seq<char>) -> Option<Operation> {
    if s == "NOOP"@ || s == "NOP"@ {
        Some(Operation::NOOP)
    } else if s == "IMM"@ {
        Some(Operation::IMM)
    } else if s == "MOV"@ {
        Some(Operation::MOV)
    } else if s == "ADD"@ {
        Some(Operation::ADD)
    } else if s == "ADDC"@ {
        Some(Operation::ADDC)
    } else if s == "SUB"@ {
        Some(Operation::SUB)
    } else if s == "OR"@ {
        Some(Operation::OR)
    } else if s == "XOR"@ {
        Some(Operation::XOR)
    } else if s == "AND"@ {
        Some(Operation::AND)
    } else if s == "SHR"@ {
        Some(Operation::SHR)
    } else if s == "NOT"@ {
        Some(Operation::NOT)
    } else if s == "OUT"@ {
        Some(Operation::OUT)
    } else if s == "ROUT"@ {
        Some(Operation::ROUT)
    } else if s == "INP"@ {
        Some(Operation::INP)
    } else if s == "JMP"@ {
        Some(Operation::JMP)
    } else if s == "BIE"@ {
        Some(Operation::BIE)
    } else if s == "BIG"@ {
        Some(Operation::BIG)
    } else if s == "BIL"@ {
        Some(Operation::BIL)
    } else if s == "BIO"@ {
        Some(Operation::BIO)
    } else if s == "STORE"@ {
        Some(Operation::STORE)
    } else if s == "LOAD"@ {
        Some(Operation::LOAD)
    } else if s == "PUSH"@ {
        Some(Operation::PUSH)
    } else if s == "POP"@ {
        Some(Operation::POP)
    } else if s == "CALL"@ {
        Some(Operation::CALL)
    } else if s == "RET"@ {
        Some(Operation::RET)
    } else {
        None
    }
}

pub open spec fn invalid_operation(s: Seq<char>) -> Seq<char> {
    "Invalid operation: "@ + s
}

/// A mnemonic with an optional S, U or X prefix.
pub open spec fn operation_of(s: Seq<char>) -> Result<(Operation, OperationArgs), Seq<char>> {
    match op_of(s) {
        Some(op) => Ok((op, OperationArgs::NoPrefix)),
        None => if s.len() > 0 && op_of(s.drop_first()) is Some {
            let op = op_of(s.drop_first())->0;
            if s[0] == 'S' {
                Ok((op, OperationArgs::S))
            } else if s[0] == 'U' {
                Ok((op, OperationArgs::U))
            } else if s[0] == 'X' {
                Ok((op, OperationArgs::X))
            } else {
                Err(invalid_operation(s))
            }
        } else {
            Err(invalid_operation(s))
        },
    }
}

/// Which of operands A and B an operation takes.
pub open spec fn needed(op: Operation, args: OperationArgs) -> (bool, bool) {
    match op {
        Operation::NOOP | Operation::RET => (false, false),
        Operation::IMM | Operation::MOV | Operation::SHR | Operation::NOT | Operation::OUT
        | Operation::STORE | Operation::LOAD | Operation::ROUT => (true, true),
        Operation::ADD | Operation::ADDC | Operation::SUB | Operation::OR | Operation::XOR
        | Operation::AND => if args == OperationArgs::X {
            (false, true)
        } else {
            (true, true)
        },
        _ => (true, false),
    }
}

/// `s` without its underscores.
pub open spec fn strip_underscores(s: Seq<char>) -> Seq<char>
    decreases s.len(),
{
    if s.len() == 0 {
        s
    } else {
        let r = strip_underscores(s.drop_last());
        if s.last() == '_' {
            r
        } else {
            r.push(s.last())
        }
    }
}

/// A numeric literal: decimal, or binary after a `B`; underscores ignored.
pub open spec fn number_of(s: Seq<char>) -> Result<i32, Seq<char>> {
    let t = strip_underscores(s);
    if t.len() > 0 && t[0] == 'B' {
        match radix_value(t.drop_first(), 2) {
            Some(v) => Ok(v),
            None => Err("Invalid binary: "@ + s),
        }
    } else {
        match radix_value(t, 10) {
            Some(v) => Ok(v),
            None => Err("Invalid number: "@ + s),
        }
    }
}

/// The address bound to `name`: the last binding wins.
pub open spec fn lookup(labels: Seq<(Seq<char>, i32)>, name: Seq<char>) -> Option<i32>
    decreases labels.len(),
{
    if labels.len() == 0 {
        None
    } else if labels.last().0 == name {
        Some(labels.last().1)
    } else {
        lookup(labels.drop_last(), name)
    }
}

pub open spec fn label_views(v: Seq<(Vec<char>, i32)>) -> Seq<(Seq<char>, i32)> {
    v.map_values(|x: (Vec<char>, i32)| (x.0@, x.1))
}

/// An operand: a register, memory address, port, immediate or label.
pub open spec fn operand_of(s: Seq<char>, labels: Seq<(Seq<char>, i32)>) -> Result<Operand, Seq<char>> {
    if s.len() == 0 {
        Err("Empty operand"@)
    } else {
        let first = s[0];
        let rest = s.drop_first();
        if (first == 'R' || first == '$') && number_of(rest) is Ok {
            Ok(Operand { type_: OperandType::Register, data: number_of(rest)->Ok_0 })
        } else if first == '#' || first == '@' {
            match number_of(rest) {
                Ok(v) => Ok(Operand { type_: OperandType::MemoryAddress, data: v }),
                Err(e) => Err(e),
            }
        } else if first == '%' {
            match number_of(rest) {
                Ok(v) => Ok(Operand { type_: OperandType::Port, data: v }),
                Err(e) => Err(e),
            }
        } else {
            match number_of(s) {
                Ok(v) => Ok(Operand { type_: OperandType::Immediate, data: v }),
                Err(_) => match lookup(labels, s) {
                    Some(a) => Ok(Operand { type_: OperandType::Immediate, data: a }),
                    None => Err("Invalid value or unknown label: "@ + s),
                },
            }
        }
    }
}

/// What a line holds, once a leading label is cut off: no instruction, an
/// instruction at `address`, or an error message.
pub open spec fn line_of(clean: Seq<char>, address: i32, source_line: i32, labels: Seq<(Seq<char>, i32)>) -> Result<Option<Instruction>, Seq<char>> {
    let body = match find_char(clean, ':') {
        Some(i) => trim(clean.subrange(i + 1, clean.len() as int)),
        None => clean,
    };
    let toks = words(body);
    if body.len() == 0 || toks.len() == 0 {
        Ok(None)
    } else {
        match operation_of(toks[0]) {
            Err(e) => Err(e),
            Ok((op, args)) => {
                let (need_a, need_b) = needed(op, args);
                let has_a = need_a && 1 < toks.len();
                let zero = Operand { type_: OperandType::Immediate, data: 0 };
                let a_res = if has_a {
                    operand_of(toks[1], labels)
                } else {
                    Ok(zero)
                };
                let idx = if has_a {
                    2int
                } else {
                    1int
                };
                let b_res = if need_b && idx < toks.len() {
                    operand_of(toks[idx], labels)
                } else {
                    Ok(zero)
                };
                match a_res {
                    Err(e) => Err(e),
                    Ok(a) => match b_res {
                        Err(e) => Err(e),
                        Ok(b) => Ok(
                            Some(Instruction { operation: op, args, a, b, address, source_line }),
                        ),
                    },
                }
            },
        }
    }
}

/// The operations that write operand A.
pub open spec fn writes_a(op: Operation) -> bool {
    is_arith(op) || matches!(op, Operation::IMM | Operation::MOV | Operation::SHR | Operation::NOT | Operation::LOAD | Operation::POP | Operation::INP)
}

/// The register that an instruction writes, if any.
pub open spec fn written_register(i: Instruction) -> Option<i32> {
    if i.a.type_ == OperandType::Register && writes_a(i.operation) && !(is_arith(i.operation)
        && i.args == OperationArgs::X) {
        Some(i.a.data)
    } else {
        None
    }
}

/// The registers that an instruction reads, A before B.
pub open spec fn read_registers(i: Instruction) -> Seq<i32> {
    let op = i.operation;
    let reads_a = i.a.type_ == OperandType::Register && ((is_arith(op) && i.args != OperationArgs::U
        && i.args != OperationArgs::X) || op == Operation::PUSH || op == Operation::ROUT);
    let reads_b = i.b.type_ == OperandType::Register && (is_arith(op) || matches!(op, Operation::MOV | Operation::SHR | Operation::NOT | Operation::OUT | Operation::ROUT | Operation::STORE));
    (if reads_a {
        seq![i.a.data]
    } else {
        Seq::empty()
    }) + (if reads_b {
        seq![i.b.data]
    } else {
        Seq::empty()
    })
}

pub open spec fn line_tag(line: i32) -> Seq<char> {
    "Line "@ + decimal(line as int) + ": "@
}

pub open spec fn zero_write_warning(line: i32) -> Seq<char> {
    line_tag(line) + "Writing to Register 0 (Zero Register) effectively does nothing."@
}

pub open spec fn immediate_warning(line: i32, v: i32) -> Seq<char> {
    line_tag(line) + "Immediate value "@ + decimal(v as int)
        + " is out of 8-bit range (0-255). It will be wrapped."@
}

pub open spec fn port_warning(line: i32, v: i32) -> Seq<char> {
    line_tag(line) + "Port %"@ + decimal(v as int) + " is out of range (0-7)."@
}

pub open spec fn memory_warning(line: i32, v: i32) -> Seq<char> {
    line_tag(line) + "Memory address #"@ + decimal(v as int) + " is out of RAM range (0-15)."@
}

pub open spec fn hazard_warning(line: i32, r: i32) -> Seq<char> {
    line_tag(line) + "RAW Hazard. Reading R"@ + decimal(r as int)
        + " immediately after writing may yield old value due to pipeline latency. Insert a NOOP."@
}

pub open spec fn warn_if(c: bool, m: Seq<char>) -> Seq<Seq<char>> {
    if c {
        seq![m]
    } else {
        Seq::empty()
    }
}

/// The static warnings of one instruction, in order.
pub open spec fn static_warnings(i: Instruction, line: i32) -> Seq<Seq<char>> {
    let op = i.operation;
    let a = i.a;
    let b = i.b;
    warn_if(
        writes_a(op) && a.type_ == OperandType::Register && a.data == 0 && !(is_arith(op) && i.args
            == OperationArgs::X),
        zero_write_warning(line),
    ) + warn_if(
        a.type_ == OperandType::Immediate && (a.data < 0 || a.data > 255) && !is_branch(op),
        immediate_warning(line, a.data),
    ) + warn_if(
        b.type_ == OperandType::Immediate && (b.data < 0 || b.data > 255),
        immediate_warning(line, b.data),
    ) + warn_if(
        op == Operation::OUT && a.type_ == OperandType::Port && (a.data < 0 || a.data > 7),
        port_warning(line, a.data),
    ) + warn_if(
        op == Operation::STORE && a.type_ == OperandType::MemoryAddress && (a.data < 0 || a.data
            > 15),
        memory_warning(line, a.data),
    ) + warn_if(
        op == Operation::LOAD && b.type_ == OperandType::MemoryAddress && (b.data < 0 || b.data
            > 15),
        memory_warning(line, b.data),
    )
}

/// The read-after-write warning for `i` following the instructions `prev`.
pub open spec fn hazard_warnings(prev: Seq<Instruction>, i: Instruction, line: i32) -> Seq<Seq<char>> {
    if prev.len() > 0 && written_register(prev.last()) is Some && read_registers(i).contains(
        written_register(prev.last())->0,
    ) {
        seq![hazard_warning(line, written_register(prev.last())->0)]
    } else {
        Seq::empty()
    }
}

/// The label table and the address counter after scanning `lines`.
pub open spec fn label_scan(lines: Seq<Seq<char>>) -> (Seq<(Seq<char>, i32)>, int)
    decreases lines.len(),
{
    if lines.len() == 0 {
        (Seq::empty(), 0)
    } else {
        let (labels, addr) = label_scan(lines.drop_last());
        let clean = lines.last();
        match find_char(clean, ':') {
            Some(i) => {
                let name = clean.subrange(0, i);
                let after = trim(clean.subrange(i + 1, clean.len() as int));
                (
                    if name.contains(' ') {
                        labels
                    } else {
                        labels.push((name, addr as i32))
                    },
                    if after.len() > 0 {
                        addr + 1
                    } else {
                        addr
                    },
                )
            },
            None => (labels, if clean.len() > 0 {
                addr + 1
            } else {
                addr
            }),
        }
    }
}

/// The output of the assembler.
pub struct Listing {
    pub instructions: Seq<Instruction>,
    pub errors: Seq<Seq<char>>,
    pub warnings: Seq<Seq<char>>,
}

/// The listing after the first `n` cleaned lines.
pub open spec fn assemble(lines: Seq<Seq<char>>, labels: Seq<(Seq<char>, i32)>, n: nat) -> Listing
    decreases n,
{
    if n == 0 {
        Listing { instructions: Seq::empty(), errors: Seq::empty(), warnings: Seq::empty() }
    } else {
        let prev = assemble(lines, labels, (n - 1) as nat);
        let line = n as i32;
        match line_of(lines[n - 1], prev.instructions.len() as i32, line, labels) {
            Err(e) => Listing { errors: prev.errors.push(line_tag(line) + e), ..prev },
            Ok(None) => prev,
            Ok(Some(i)) => Listing {
                instructions: prev.instructions.push(i),
                warnings: prev.warnings + static_warnings(i, line) + hazard_warnings(
                    prev.instructions,
                    i,
                    line,
                ),
                ..prev
            },
        }
    }
}

/// The listing of a whole program given as cleaned lines.
pub open spec fn assemble_lines(lines: Seq<Seq<char>>) -> Listing {
    assemble(lines, label_scan(lines).0, lines.len())
}

/// A source line without its comment, trimmed and upper-cased.
pub open spec fn clean_line(l: Seq<char>) -> Seq<char> {
    let code = match find_char(l, ';') {
        Some(i) => l.subrange(0, i),
        None => l,
    };
    upper_of(trim(code))
}

pub open spec fn clean_lines(src: Seq<char>) -> Seq<Seq<char>> {
    lines(src).map_values(|l: Seq<char>| clean_line(l))
}

pub open spec fn string_views(v: Seq<String>) -> Seq<Seq<char>> {
    v.map_values(|s: String| s@)
}

/// The assembler's result, seen as a listing.
pub open spec fn listing_of(r: (Vec<Instruction>, Vec<String>, Vec<String>)) -> Listing {
    Listing { instructions: r.0@, errors: string_views(r.1@), warnings: string_views(r.2@) }
}

/// The assembler. Its work is done by associated functions.
pub struct Parser;

impl Parser {
    fn match_op(s: &[char]) -> (r: Option<Operation>)
        ensures
            r == op_of(s@),
    {
        if eq_str(s, "NOOP") || eq_str(s, "NOP") {
            Some(Operation::NOOP)
        } else if eq_str(s, "IMM") {
            Some(Operation::IMM)
        } else if eq_str(s, "MOV") {
            Some(Operation::MOV)
        } else if eq_str(s, "ADD") {
            Some(Operation::ADD)
        } else if eq_str(s, "ADDC") {
            Some(Operation::ADDC)
        } else if eq_str(s, "SUB") {
            Some(Operation::SUB)
        } else if eq_str(s, "OR") {
            Some(Operation::OR)
        } else if eq_str(s, "XOR") {
            Some(Operation::XOR)
        } else if eq_str(s, "AND") {
            Some(Operation::AND)
        } else if eq_str(s, "SHR") {
            Some(Operation::SHR)
        } else if eq_str(s, "NOT") {
            Some(Operation::NOT)
        } else if eq_str(s, "OUT") {
            Some(Operation::OUT)
        } else if eq_str(s, "ROUT") {
            Some(Operation::ROUT)
        } else if eq_str(s, "INP") {
            Some(Operation::INP)
        } else if eq_str(s, "JMP") {
            Some(Operation::JMP)
        } else if eq_str(s, "BIE") {
            Some(Operation::BIE)
        } else if eq_str(s, "BIG") {
            Some(Operation::BIG)
        } else if eq_str(s, "BIL") {
            Some(Operation::BIL)
        } else if eq_str(s, "BIO") {
            Some(Operation::BIO)
        } else if eq_str(s, "STORE") {
            Some(Operation::STORE)
        } else if eq_str(s, "LOAD") {
            Some(Operation::LOAD)
        } else if eq_str(s, "PUSH") {
            Some(Operation::PUSH)
        } else if eq_str(s, "POP") {
            Some(Operation::POP)
        } else if eq_str(s, "CALL") {
            Some(Operation::CALL)
        } else if eq_str(s, "RET") {
            Some(Operation::RET)
        } else {
            None
        }
    }

    fn parse_operation(s: &[char]) -> (r: Result<(Operation, OperationArgs), Vec<char>>)
        ensures
            match operation_of(s@) {
                Ok(p) => r == Ok::<(Operation, OperationArgs), Vec<char>>(p),
                Err(e) => r is Err && r->Err_0@ == e,
            },
    {
        if let Some(op) = Self::match_op(s) {
            return Ok((op, OperationArgs::NoPrefix));
        }
        let mut msg: Vec<char> = Vec::new();
        push_str(&mut msg, "Invalid operation: ");
        push_chars(&mut msg, s);
        if s.len() == 0 {
            return Err(msg);
        }
        let prefix = s[0];
        let mut suffix: Vec<char> = Vec::new();
        let mut i: usize = 1;
        while i < s.len()
            invariant
                1 <= i <= s@.len(),
                suffix@ == s@.subrange(1, i as int),
            decreases s.len() - i,
        {
            suffix.push(s[i]);
            i = i + 1;
        }
        assert(suffix@ =~= s@.drop_first());
        if let Some(op) = Self::match_op(&suffix) {
            if prefix == 'S' {
                Ok((op, OperationArgs::S))
            } else if prefix == 'U' {
                Ok((op, OperationArgs::U))
            } else if prefix == 'X' {
                Ok((op, OperationArgs::X))
            } else {
                Err(msg)
            }
        } else {
            Err(msg)
        }
    }

    fn get_needed_operands(op: Operation, args: OperationArgs) -> (r: (bool, bool))
        ensures
            r == needed(op, args),
    {
        match op {
            Operation::NOOP | Operation::RET => (false, false),
            Operation::IMM | Operation::MOV | Operation::SHR | Operation::NOT | Operation::OUT
            | Operation::STORE | Operation::LOAD | Operation::ROUT => (true, true),
            Operation::ADD | Operation::ADDC | Operation::SUB | Operation::OR | Operation::XOR
            | Operation::AND => {
                if args == OperationArgs::X {
                    (false, true)
                } else {
                    (true, true)
                }
            },
            _ => (true, false),
        }
    }

    /// Parses a numeric literal: decimal, or binary after a `B`, with
    /// underscores ignored.
    pub fn parse_binary(s: &[char]) -> (r: Result<i32, Vec<char>>)
        ensures
            match number_of(s@) {
                Ok(v) => r == Ok::<i32, Vec<char>>(v),
                Err(e) => r is Err && r->Err_0@ == e,
            },
    {
        let mut clean: Vec<char> = Vec::new();
        let mut i: usize = 0;
        while i < s.len()
            invariant
                i <= s@.len(),
                clean@ == strip_underscores(s@.subrange(0, i as int)),
            decreases s.len() - i,
        {
            assert(s@.subrange(0, i + 1).drop_last() =~= s@.subrange(0, i as int));
            if s[i] != '_' {
                clean.push(s[i]);
            }
            i = i + 1;
        }
        assert(s@.subrange(0, s@.len() as int) =~= s@);
        let mut msg: Vec<char> = Vec::new();
        if clean.len() > 0 && clean[0] == 'B' {
            let mut digits: Vec<char> = Vec::new();
            let mut k: usize = 1;
            while k < clean.len()
                invariant
                    1 <= k <= clean@.len(),
                    digits@ == clean@.subrange(1, k as int),
                decreases clean.len() - k,
            {
                digits.push(clean[k]);
                k = k + 1;
            }
            assert(digits@ =~= clean@.drop_first());
            match i32_from_radix(&digits, 2) {
                Some(v) => Ok(v),
                None => {
                    push_str(&mut msg, "Invalid binary: ");
                    push_chars(&mut msg, s);
                    Err(msg)
                },
            }
        } else {
            match i32_from_radix(&clean, 10) {
                Some(v) => Ok(v),
                None => {
                    push_str(&mut msg, "Invalid number: ");
                    push_chars(&mut msg, s);
                    Err(msg)
                },
            }
        }
    }

    fn find_label(labels: &Vec<(Vec<char>, i32)>, name: &[char]) -> (r: Option<i32>)
        ensures
            r == lookup(label_views(labels@), name@),
    {
        let mut i: usize = labels.len();
        assert(label_views(labels@).subrange(0, i as int) =~= label_views(labels@));
        while i > 0
            invariant
                i <= labels@.len(),
                lookup(label_views(labels@), name@) == lookup(
                    label_views(labels@).subrange(0, i as int),
                    name@,
                ),
            decreases i,
        {
            let ghost pre = label_views(labels@).subrange(0, i as int);
            assert(pre.drop_last() =~= label_views(labels@).subrange(0, i - 1));
            if eq_chars(&labels[i - 1].0, name) {
                return Some(labels[i - 1].1);
            }
            i = i - 1;
        }
        proof {
            assert(label_views(labels@).subrange(0, 0).len() == 0);
        }
        None
    }

    fn parse_operand(s: &[char], labels: &Vec<(Vec<char>, i32)>) -> (r: Result<Operand, Vec<char>>)
        ensures
            match operand_of(s@, label_views(labels@)) {
                Ok(v) => r == Ok::<Operand, Vec<char>>(v),
                Err(e) => r is Err && r->Err_0@ == e,
            },
    {
        if s.len() == 0 {
            let mut msg: Vec<char> = Vec::new();
            push_str(&mut msg, "Empty operand");
            return Err(msg);
        }
        let first = s[0];
        let mut rest: Vec<char> = Vec::new();
        let mut i: usize = 1;
        while i < s.len()
            invariant
                1 <= i <= s@.len(),
                rest@ == s@.subrange(1, i as int),
            decreases s.len() - i,
        {
            rest.push(s[i]);
            i = i + 1;
        }
        assert(rest@ =~= s@.drop_first());
        if first == 'R' || first == '$' {
            if let Ok(val) = Self::parse_binary(&rest) {
                return Ok(Operand::new(OperandType::Register, val));
            }
        }
        if first == '#' || first == '@' {
            let val = Self::parse_binary(&rest)?;
            return Ok(Operand::new(OperandType::MemoryAddress, val));
        }
        if first == '%' {
            let val = Self::parse_binary(&rest)?;
            return Ok(Operand::new(OperandType::Port, val));
        }
        if let Ok(val) = Self::parse_binary(s) {
            Ok(Operand::new(OperandType::Immediate, val))
        } else if let Some(addr) = Self::find_label(labels, s) {
            Ok(Operand::new(OperandType::Immediate, addr))
        } else {
            let mut msg: Vec<char> = Vec::new();
            push_str(&mut msg, "Invalid value or unknown label: ");
            push_chars(&mut msg, s);
            Err(msg)
        }
    }

    fn parse_line(clean: &[char], address: i32, source_line: i32, labels: &Vec<(Vec<char>, i32)>) -> (r: Result<Option<Instruction>, Vec<char>>)
        ensures
            match line_of(clean@, address, source_line, label_views(labels@)) {
                Ok(v) => r == Ok::<Option<Instruction>, Vec<char>>(v),
                Err(e) => r is Err && r->Err_0@ == e,
            },
    {
        let n = clean.len();
        let colon = find(clean, ':');
        let body: Vec<char> = match colon {
            Some(idx) => {
                let mut after: Vec<char> = Vec::new();
                let mut i: usize = idx + 1;
                while i < clean.len()
                    invariant
                        idx + 1 <= i <= clean@.len(),
                        after@ == clean@.subrange(idx + 1, i as int),
                    decreases clean.len() - i,
                {
                    after.push(clean[i]);
                    i = i + 1;
                }
                trim_chars(&after)
            },
            None => {
                let mut copy: Vec<char> = Vec::new();
                push_chars(&mut copy, clean);
                assert(copy@ =~= clean@);
                copy
            },
        };
        assert(body@ == match find_char(clean@, ':') {
            Some(i) => trim(clean@.subrange(i + 1, clean@.len() as int)),
            None => clean@,
        });
        if body.len() == 0 {
            return Ok(None);
        }
        let tokens = split_words(&body);
        if tokens.len() == 0 {
            return Ok(None);
        }
        let (op, args) = Self::parse_operation(&tokens[0])?;
        let needed = Self::get_needed_operands(op, args);
        let mut token_idx: usize = 1;
        let mut val_a = Operand::new(OperandType::Immediate, 0);
        let mut val_b = Operand::new(OperandType::Immediate, 0);
        if needed.0 && token_idx < tokens.len() {
            val_a = Self::parse_operand(&tokens[token_idx], labels)?;
            token_idx = token_idx + 1;
        }
        if needed.1 && token_idx < tokens.len() {
            val_b = Self::parse_operand(&tokens[token_idx], labels)?;
        }
        Ok(Some(Instruction { operation: op, args, a: val_a, b: val_b, address, source_line }))
    }

    /// Returns the register index if the instruction writes to a register.
    fn get_write_register(instr: &Instruction) -> (r: Option<i32>)
        ensures
            r == written_register(*instr),
    {
        if instr.a.type_ != OperandType::Register {
            return None;
        }
        match instr.operation {
            Operation::IMM | Operation::MOV | Operation::LOAD | Operation::POP | Operation::INP => Some(
                instr.a.data,
            ),
            Operation::ADD | Operation::ADDC | Operation::SUB | Operation::AND | Operation::OR
            | Operation::XOR => {
                if instr.args == OperationArgs::X {
                    None
                } else {
                    Some(instr.a.data)
                }
            },
            Operation::SHR | Operation::NOT => Some(instr.a.data),
            _ => None,
        }
    }

    /// Returns the registers that are read by the instruction.
    fn get_read_registers(instr: &Instruction) -> (r: Vec<i32>)
        ensures
            r@ == read_registers(*instr),
    {
        let mut reads: Vec<i32> = Vec::new();
        if instr.a.type_ == OperandType::Register {
            match instr.operation {
                Operation::ADD | Operation::ADDC | Operation::SUB | Operation::AND | Operation::OR
                | Operation::XOR => {
                    if instr.args != OperationArgs::U && instr.args != OperationArgs::X {
                        reads.push(instr.a.data);
                    }
                },
                Operation::PUSH | Operation::ROUT => {
                    reads.push(instr.a.data);
                },
                _ => {},
            }
        }
        if instr.b.type_ == OperandType::Register {
            match instr.operation {
                Operation::MOV | Operation::ADD | Operation::ADDC | Operation::SUB | Operation::AND
                | Operation::OR | Operation::XOR | Operation::SHR | Operation::NOT | Operation::OUT
                | Operation::ROUT | Operation::STORE => {
                    reads.push(instr.b.data);
                },
                _ => {},
            }
        }
        assert(reads@ =~= read_registers(*instr));
        reads
    }

    fn line_prefix(line: i32) -> (r: Vec<char>)
        ensures
            r@ == line_tag(line),
    {
        let mut v: Vec<char> = Vec::new();
        push_str(&mut v, "Line ");
        push_decimal(&mut v, line);
        push_str(&mut v, ": ");
        v
    }

    fn value_message(line: i32, head: &str, v: i32, tail: &str) -> (r: String)
        ensures
            r@ == line_tag(line) + head@ + decimal(v as int) + tail@,
    {
        let mut m = Self::line_prefix(line);
        push_str(&mut m, head);
        push_decimal(&mut m, v);
        push_str(&mut m, tail);
        string_of(&m)
    }

    fn check_warnings(instr: &Instruction, line: i32) -> (r: Vec<String>)
        ensures
            string_views(r@) == static_warnings(*instr, line),
    {
        let mut warnings: Vec<String> = Vec::new();
        let op = instr.operation;
        let a = instr.a;
        let b = instr.b;
        let ghost parts: Seq<Seq<Seq<char>>> = seq![
            warn_if(
                writes_a(op) && a.type_ == OperandType::Register && a.data == 0 && !(is_arith(op)
                    && instr.args == OperationArgs::X),
                zero_write_warning(line),
            ),
            warn_if(
                a.type_ == OperandType::Immediate && (a.data < 0 || a.data > 255) && !is_branch(op),
                immediate_warning(line, a.data),
            ),
            warn_if(
                b.type_ == OperandType::Immediate && (b.data < 0 || b.data > 255),
                immediate_warning(line, b.data),
            ),
            warn_if(
                op == Operation::OUT && a.type_ == OperandType::Port && (a.data < 0 || a.data > 7),
                port_warning(line, a.data),
            ),
            warn_if(
                op == Operation::STORE && a.type_ == OperandType::MemoryAddress && (a.data < 0
                    || a.data > 15),
                memory_warning(line, a.data),
            ),
            warn_if(
                op == Operation::LOAD && b.type_ == OperandType::MemoryAddress && (b.data < 0
                    || b.data > 15),
                memory_warning(line, b.data),
            ),
        ];
        let writes = match op {
            Operation::IMM | Operation::MOV | Operation::ADD | Operation::ADDC | Operation::SUB
            | Operation::AND | Operation::OR | Operation::XOR | Operation::SHR | Operation::NOT
            | Operation::LOAD | Operation::POP | Operation::INP => true,
            _ => false,
        };
        if writes && a.type_ == OperandType::Register && a.data == 0 {
            let safe = match op {
                Operation::ADD | Operation::ADDC | Operation::SUB | Operation::AND | Operation::OR
                | Operation::XOR => instr.args == OperationArgs::X,
                _ => false,
            };
            if !safe {
                let mut m = Self::line_prefix(line);
                push_str(&mut m, "Writing to Register 0 (Zero Register) effectively does nothing.");
                warnings.push(string_of(&m));
            }
        }
        assert(string_views(warnings@) =~= parts[0]);
        let branch = match op {
            Operation::JMP | Operation::CALL | Operation::BIE | Operation::BIG | Operation::BIL
            | Operation::BIO => true,
            _ => false,
        };
        if a.type_ == OperandType::Immediate && (a.data < 0 || a.data > 255) && !branch {
            warnings.push(
                Self::value_message(
                    line,
                    "Immediate value ",
                    a.data,
                    " is out of 8-bit range (0-255). It will be wrapped.",
                ),
            );
        }
        assert(string_views(warnings@) =~= parts[0] + parts[1]);
        if b.type_ == OperandType::Immediate && (b.data < 0 || b.data > 255) {
            warnings.push(
                Self::value_message(
                    line,
                    "Immediate value ",
                    b.data,
                    " is out of 8-bit range (0-255). It will be wrapped.",
                ),
            );
        }
        assert(string_views(warnings@) =~= parts[0] + parts[1] + parts[2]);
        if op == Operation::OUT && a.type_ == OperandType::Port && (a.data < 0 || a.data > 7) {
            warnings.push(Self::value_message(line, "Port %", a.data, " is out of range (0-7)."));
        }
        assert(string_views(warnings@) =~= parts[0] + parts[1] + parts[2] + parts[3]);
        if op == Operation::STORE && a.type_ == OperandType::MemoryAddress && (a.data < 0 || a.data
            > 15) {
            warnings.push(
                Self::value_message(line, "Memory address #", a.data, " is out of RAM range (0-15)."),
            );
        }
        assert(string_views(warnings@) =~= parts[0] + parts[1] + parts[2] + parts[3] + parts[4]);
        if op == Operation::LOAD && b.type_ == OperandType::MemoryAddress && (b.data < 0 || b.data
            > 15) {
            warnings.push(
                Self::value_message(line, "Memory address #", b.data, " is out of RAM range (0-15)."),
            );
        }
        assert(string_views(warnings@) =~= parts[0] + parts[1] + parts[2] + parts[3] + parts[4]
            + parts[5]);
        warnings
    }

    /// Pass 0: binds each label to the address of the instruction it precedes.
    fn scan_labels(lines: &Vec<Vec<char>>) -> (r: Vec<(Vec<char>, i32)>)
        requires
            lines@.len() < i32::MAX,
        ensures
            label_views(r@) == label_scan(views(lines@)).0,
    {
        let mut labels: Vec<(Vec<char>, i32)> = Vec::new();
        let mut addr_counter: i32 = 0;
        let mut i: usize = 0;
        while i < lines.len()
            invariant
                i <= lines@.len(),
                lines@.len() < i32::MAX,
                0 <= addr_counter <= i,
                (label_views(labels@), addr_counter as int) == label_scan(
                    views(lines@).subrange(0, i as int),
                ),
            decreases lines.len() - i,
        {
            assert(views(lines@).subrange(0, i + 1).drop_last() =~= views(lines@).subrange(
                0,
                i as int,
            ));
            let clean = &lines[i];
            let clean_len = clean.len();
            let ghost labels_before = label_views(labels@);
            let colon = find(clean, ':');
            if let Some(idx) = colon {
                let mut label: Vec<char> = Vec::new();
                let mut k: usize = 0;
                while k < idx
                    invariant
                        k <= idx < clean@.len(),
                        label@ == clean@.subrange(0, k as int),
                    decreases idx - k,
                {
                    label.push(clean[k]);
                    k = k + 1;
                }
                let mut after: Vec<char> = Vec::new();
                let mut k: usize = idx + 1;
                while k < clean.len()
                    invariant
                        idx + 1 <= k <= clean@.len(),
                        after@ == clean@.subrange(idx + 1, k as int),
                    decreases clean.len() - k,
                {
                    after.push(clean[k]);
                    k = k + 1;
                }
                let after = trim_chars(&after);
                if !has_char(&label, ' ') {
                    labels.push((label, addr_counter));
                    assert(label_views(labels@) =~= labels_before.push((label@, addr_counter)));
                }
                if after.len() > 0 {
                    addr_counter = addr_counter + 1;
                }
            } else if clean.len() > 0 {
                addr_counter = addr_counter + 1;
            }
            i = i + 1;
        }
        assert(views(lines@).subrange(0, lines@.len() as int) =~= views(lines@));
        labels
    }

    /// Assembles cleaned lines (comments cut, trimmed, upper-cased): the
    /// instructions, then the errors and the warnings, each tagged with its
    /// 1-based line.
    pub fn parse_lines(lines: &Vec<Vec<char>>) -> (r: (Vec<Instruction>, Vec<String>, Vec<String>))
        requires
            lines@.len() < i32::MAX,
        ensures
            listing_of(r) == assemble_lines(views(lines@)),
    {
        let labels = Self::scan_labels(lines);
        let ghost ls = views(lines@);
        let ghost lv = label_views(labels@);
        let mut instructions: Vec<Instruction> = Vec::new();
        let mut errors: Vec<String> = Vec::new();
        let mut warnings: Vec<String> = Vec::new();
        let mut i: usize = 0;
        assert(string_views(errors@) =~= Seq::<Seq<char>>::empty());
        assert(string_views(warnings@) =~= Seq::<Seq<char>>::empty());
        assert(listing_of((instructions, errors, warnings)) =~= assemble(ls, lv, 0));
        while i < lines.len()
            invariant
                i <= lines@.len(),
                lines@.len() < i32::MAX,
                ls == views(lines@),
                lv == label_views(labels@),
                lv == label_scan(ls).0,
                instructions@.len() <= i,
                listing_of((instructions, errors, warnings)) == assemble(ls, lv, i as nat),
            decreases lines.len() - i,
        {
            let source_line = (i + 1) as i32;
            let ghost prev = assemble(ls, lv, i as nat);
            assert(ls[i as int] == lines@[i as int]@);
            let address = instructions.len() as i32;
            match Self::parse_line(&lines[i], address, source_line, &labels) {
                Ok(Some(instr)) => {
                    let mut warns = Self::check_warnings(&instr, source_line);
                    let ghost statics = string_views(warns@);
                    let n = instructions.len();
                    if n > 0 {
                        if let Some(written) = Self::get_write_register(&instructions[n - 1]) {
                            let reads = Self::get_read_registers(&instr);
                            let mut k: usize = 0;
                            let mut found = false;
                            while k < reads.len()
                                invariant
                                    k <= reads@.len(),
                                    found == exists|j: int| 0 <= j < k && reads@[j] == written,
                                decreases reads.len() - k,
                            {
                                if reads[k] == written {
                                    found = true;
                                }
                                k = k + 1;
                            }
                            assert(prev.instructions.last() == instructions@[n - 1]);
                            if found {
                                warns.push(
                                    Self::value_message(
                                        source_line,
                                        "RAW Hazard. Reading R",
                                        written,
                                        " immediately after writing may yield old value due to pipeline latency. Insert a NOOP.",
                                    ),
                                );
                            }
                        }
                    }
                    assert(string_views(warns@) =~= statics + hazard_warnings(
                        prev.instructions,
                        instr,
                        source_line,
                    ));
                    let ghost before = warnings@;
                    warnings.append(&mut warns);
                    assert(string_views(warnings@) =~= string_views(before) + statics
                        + hazard_warnings(prev.instructions, instr, source_line));
                    instructions.push(instr);
                },
                Ok(None) => {},
                Err(e) => {
                    let mut msg = Self::line_prefix(source_line);
                    push_chars(&mut msg, &e);
                    errors.push(string_of(&msg));
                    assert(string_views(errors@) =~= prev.errors.push(line_tag(source_line) + e@));
                },
            }
            i = i + 1;
            assert(listing_of((instructions, errors, warnings)) =~= assemble(ls, lv, i as nat));
        }
        (instructions, errors, warnings)
    }

    /// Assembles a program: each line loses its `;` comment, is trimmed and
    /// upper-cased, and the cleaned lines are assembled.
    pub fn parse(code: String) -> (r: (Vec<Instruction>, Vec<String>, Vec<String>))
        requires
            code@.len() < i32::MAX,
        ensures
            listing_of(r) == assemble_lines(clean_lines(code@)),
    {
        let chars = chars_of(code.as_str());
        let raw = split_lines(&chars);
        let mut cleaned: Vec<Vec<char>> = Vec::new();
        let mut i: usize = 0;
        while i < raw.len()
            invariant
                i <= raw@.len(),
                views(raw@) == lines(code@),
                views(cleaned@) == clean_lines(code@).subrange(0, i as int),
            decreases raw.len() - i,
        {
            let line = &raw[i];
            let mut code_part: Vec<char> = Vec::new();
            let line_len = line.len();
            let semi = find(line, ';');
            let end = match semi {
                Some(k) => k,
                None => line.len(),
            };
            let mut k: usize = 0;
            while k < end
                invariant
                    k <= end <= line@.len(),
                    code_part@ == line@.subrange(0, k as int),
                decreases end - k,
            {
                code_part.push(line[k]);
                k = k + 1;
            }
            assert(code_part@ == match find_char(line@, ';') {
                Some(j) => line@.subrange(0, j),
                None => line@,
            }) by {
                if find_char(line@, ';') is None {
                    assert(line@.subrange(0, line@.len() as int) =~= line@);
                }
            }
            let trimmed = trim_chars(&code_part);
            let upper = to_upper(&trimmed);
            let ghost before = views(cleaned@);
            cleaned.push(upper);
            assert(line@ == lines(code@)[i as int]);
            assert(views(cleaned@) =~= before.push(clean_line(line@)));
            assert(views(cleaned@) =~= clean_lines(code@).subrange(0, i + 1));
            i = i + 1;
        }
        assert(views(cleaned@) =~= clean_lines(code@));
        Self::parse_lines(&cleaned)
    }
}

} // verus!
