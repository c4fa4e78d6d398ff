//! Two-pass assembler for NRAW source: text in, a byte program and a
//! symbol table out.
//!
//! The first pass strips comments, collects `label:` declarations and
//! sizes every instruction; the second resolves label operands and
//! encodes the bytes.  Number parsing, mnemonic lookup, instruction
//! lengths and the branch-offset rule are each pinned by exact spec
//! functions; in particular a branch encodes `target - (address + 2)`
//! and fails exactly when that offset leaves `[-128, 127]`.

use vstd::prelude::*;
use vstd::string::StringSliceAdditionalSpecFns;

verus! {

/// Errors produced while assembling source text, each carrying the
/// source line and the offending text as bytes.
#[derive(Debug, Clone, PartialEq, Eq)]
pub enum AsmError {
    UnknownInstruction { line: usize, token: Vec<u8> },
    MissingOperand { line: usize, instruction: Vec<u8> },
    UnexpectedOperand { line: usize, instruction: Vec<u8> },
    InvalidNumber { line: usize, operand: Vec<u8> },
    LabelNotFound { name: Vec<u8> },
    DuplicateLabel { line: usize, name: Vec<u8> },
    BranchOutOfRange { label: Vec<u8>, offset: i32 },
}

/// Ghost image of an assembly error, over byte sequences.
pub ghost enum AsmErrV {
    UnknownInstruction { line: usize, token: Seq<u8> },
    MissingOperand { line: usize, instruction: Seq<u8> },
    UnexpectedOperand { line: usize, instruction: Seq<u8> },
    InvalidNumber { line: usize, operand: Seq<u8> },
    LabelNotFound { name: Seq<u8> },
    DuplicateLabel { line: usize, name: Seq<u8> },
    BranchOutOfRange { label: Seq<u8>, offset: i32 },
}

/// The ghost image of a returned error.
pub open spec fn err_view(e: AsmError) -> AsmErrV {
    match e {
        AsmError::UnknownInstruction { line, token } => AsmErrV::UnknownInstruction {
            line,
            token: token@,
        },
        AsmError::MissingOperand { line, instruction } => AsmErrV::MissingOperand {
            line,
            instruction: instruction@,
        },
        AsmError::UnexpectedOperand { line, instruction } => AsmErrV::UnexpectedOperand {
            line,
            instruction: instruction@,
        },
        AsmError::InvalidNumber { line, operand } => AsmErrV::InvalidNumber {
            line,
            operand: operand@,
        },
        AsmError::LabelNotFound { name } => AsmErrV::LabelNotFound { name: name@ },
        AsmError::DuplicateLabel { line, name } => AsmErrV::DuplicateLabel { line, name: name@ },
        AsmError::BranchOutOfRange { label, offset } => AsmErrV::BranchOutOfRange {
            label: label@,
            offset,
        },
    }
}

/// Label table: insertion-ordered pairs of name bytes and 24-bit
/// offsets, names unique.
pub struct SymbolTable {
    entries: Vec<(Vec<u8>, u32)>,
}

/// First-match lookup over the table's view.
pub open spec fn st_lookup(s: Seq<(Seq<u8>, u32)>, name: Seq<u8>) -> Option<u32>
    decreases s.len(),
{
    if s.len() == 0 {
        None
    } else if s[0].0 == name {
        Some(s[0].1)
    } else {
        st_lookup(s.drop_first(), name)
    }
}

/// No two entries share a name.
pub open spec fn st_wf(s: Seq<(Seq<u8>, u32)>) -> bool {
    forall|i: int, j: int| 0 <= i < j < s.len() ==> (#[trigger] s[i]).0 != (#[trigger] s[j]).0
}

impl View for SymbolTable {
    type V = Seq<(Seq<u8>, u32)>;

    closed spec fn view(&self) -> Seq<(Seq<u8>, u32)> {
        Seq::new(self.entries@.len(), |i: int| (self.entries@[i].0@, self.entries@[i].1))
    }
}

/// Two byte vectors hold the same bytes.
fn bytes_eq(a: &Vec<u8>, b: &Vec<u8>) -> (r: bool)
    ensures
        r == (a@ == b@),
{
    if a.len() != b.len() {
        proof {
            assert(a@ != b@);
        }
        return false;
    }
    let mut i: usize = 0;
    while i < a.len()
        invariant
            i <= a@.len(),
            a@.len() == b@.len(),
            forall|k: int| 0 <= k < i ==> a@[k] == b@[k],
        decreases a@.len() - i,
    {
        if a[i] != b[i] {
            proof {
                assert(a@ != b@);
            }
            return false;
        }
        i = i + 1;
    }
    proof {
        assert(a@ =~= b@);
    }
    true
}

impl SymbolTable {
    pub fn new() -> (t: SymbolTable)
        ensures
            t@ == Seq::<(Seq<u8>, u32)>::empty(),
            st_wf(t@),
    {
        let t = SymbolTable { entries: Vec::new() };
        proof {
            assert(t@ =~= Seq::<(Seq<u8>, u32)>::empty());
        }
        t
    }

    /// Look a name up by its bytes.
    pub fn get_bytes(&self, name: &Vec<u8>) -> (r: Option<u32>)
        ensures
            r == st_lookup(self@, name@),
    {
        let mut i: usize = 0;
        proof {
            assert(self@.skip(0) =~= self@);
        }
        while i < self.entries.len()
            invariant
                i <= self.entries@.len(),
                self@.len() == self.entries@.len(),
                forall|k: int|
                    0 <= k < self@.len() ==> #[trigger] self@[k] == (
                    self.entries@[k].0@,
                    self.entries@[k].1,
                ),
                st_lookup(self@, name@) == st_lookup(self@.skip(i as int), name@),
            decreases self.entries@.len() - i,
        {
            proof {
                assert(self@.skip(i as int)[0] == self@[i as int]);
                assert(self@.skip(i as int).drop_first() =~= self@.skip(i as int + 1));
            }
            if bytes_eq(&self.entries[i].0, name) {
                return Some(self.entries[i].1);
            }
            i = i + 1;
        }
        proof {
            assert(self@.skip(i as int).len() == 0);
        }
        None
    }

    /// Look a name up.
    pub fn get(&self, name: &str) -> (r: Option<u32>)
        ensures
            r == st_lookup(self@, name.spec_bytes()),
    {
        let b = name.as_bytes();
        let mut v: Vec<u8> = Vec::new();
        let mut i: usize = 0;
        while i < b.len()
            invariant
                i <= b@.len(),
                v@ == b@.subrange(0, i as int),
            decreases b@.len() - i,
        {
            v.push(b[i]);
            i = i + 1;
            proof {
                assert(v@ =~= b@.subrange(0, i as int));
            }
        }
        proof {
            assert(v@ =~= b@);
        }
        self.get_bytes(&v)
    }

    /// Number of labels.
    pub fn len(&self) -> (r: usize)
        ensures
            r == self@.len(),
    {
        self.entries.len()
    }

    /// Record a new name; the caller has ruled out duplicates.
    fn insert(&mut self, name: Vec<u8>, addr: u32)
        requires
            st_lookup(old(self)@, name@) is None,
            st_wf(old(self)@),
        ensures
            final(self)@ == old(self)@.push((name@, addr)),
            st_wf(final(self)@),
            st_lookup(final(self)@, name@) is Some,
    {
        proof {
            lemma_st_lookup_none(old(self)@, name@);
        }
        self.entries.push((name, addr));
        proof {
            assert(self@ =~= old(self)@.push((name@, addr)));
            lemma_st_lookup_push(old(self)@, name@, addr);
        }
    }
}

/// A missing name misses every entry.
proof fn lemma_st_lookup_none(s: Seq<(Seq<u8>, u32)>, name: Seq<u8>)
    requires
        st_lookup(s, name) is None,
    ensures
        forall|i: int| 0 <= i < s.len() ==> (#[trigger] s[i]).0 != name,
    decreases s.len(),
{
    if s.len() > 0 {
        lemma_st_lookup_none(s.drop_first(), name);
        assert forall|i: int| 0 <= i < s.len() implies (#[trigger] s[i]).0 != name by {
            if i > 0 {
                assert(s.drop_first()[i - 1] == s[i]);
            }
        }
    }
}

/// Looking up a just-pushed name succeeds.
proof fn lemma_st_lookup_push(s: Seq<(Seq<u8>, u32)>, name: Seq<u8>, addr: u32)
    requires
        st_lookup(s, name) is None,
    ensures
        st_lookup(s.push((name, addr)), name) == Some(addr),
    decreases s.len(),
{
    if s.len() == 0 {
        assert(s.push((name, addr))[0] == (name, addr));
    } else {
        assert(s.push((name, addr))[0] == s[0]);
        assert(s.push((name, addr)).drop_first() =~= s.drop_first().push((name, addr)));
        lemma_st_lookup_push(s.drop_first(), name, addr);
    }
}

/// Result of running the assembler.
pub struct AssembledProgram {
    pub bytes: Vec<u8>,
    pub labels: SymbolTable,
}

/// Mnemonics of the instruction set; the absolute-load variants are the
/// address forms that `LDA`, `LDX` and `LDY` take without a `#` prefix.
#[derive(Debug, Clone, Copy, PartialEq, Eq, Structural)]
pub enum Op {
    Nop,
    Lda,
    LdaAbs,
    Sta,
    Ldx,
    LdxAbs,
    Stx,
    Ldy,
    LdyAbs,
    Sty,
    Add,
    Sub,
    And,
    Or,
    Xor,
    Mul,
    Div,
    Mov,
    Inc,
    Dec,
    Bit,
    Bset,
    Bclr,
    Jmp,
    Jsr,
    Rts,
    Bra,
    Beq,
    Bne,
    Bcs,
    Bcc,
    Bmi,
    Bpl,
    Bvs,
    Bvc,
    Sei,
    Cli,
    Rti,
    Wfi,
    Cop,
    Hlt,
}

/// Operand classes: none, `#imm16`, a register name, a one-byte `#imm`,
/// a 24-bit address or label, a branch target.
#[derive(Debug, Clone, Copy, PartialEq, Eq, Structural)]
pub enum OpClass {
    NoOperand,
    Imm16,
    Register,
    Imm8,
    Address,
    Branch,
}

enum Operand {
    Value(u32),
    Label(Vec<u8>),
}

struct RawInstruction {
    op: Op,
    operand: Option<Operand>,
    address: u32,
    line: usize,
}

/// Ghost image of an operand.
pub ghost enum OperandV {
    Value(u32),
    Label(Seq<u8>),
}

/// Ghost image of a sized, not yet encoded instruction.
pub ghost struct InstrV {
    pub op: Op,
    pub operand: Option<OperandV>,
    pub address: u32,
    pub line: usize,
}

impl View for RawInstruction {
    type V = InstrV;

    closed spec fn view(&self) -> InstrV {
        InstrV {
            op: self.op,
            operand: match self.operand {
                Some(Operand::Value(v)) => Some(OperandV::Value(v)),
                Some(Operand::Label(ref n)) => Some(OperandV::Label(n@)),
                None => None,
            },
            address: self.address,
            line: self.line,
        }
    }
}

/// Views of a sequence of sized instructions.
pub open spec fn instrs_view(v: Seq<RawInstruction>) -> Seq<InstrV> {
    Seq::new(v.len(), |i: int| v[i]@)
}

/// Encoded length of each instruction in bytes.
pub open spec fn spec_op_len_of(class: OpClass) -> u32 {
    match class {
        OpClass::NoOperand => 1,
        OpClass::Imm16 => 3,
        OpClass::Register => 2,
        OpClass::Imm8 => 2,
        OpClass::Address => 4,
        OpClass::Branch => 2,
    }
}

pub open spec fn spec_class(op: Op) -> OpClass {
    match op {
        Op::Nop | Op::Rts | Op::Sei | Op::Cli | Op::Rti | Op::Wfi | Op::Hlt => OpClass::NoOperand,
        Op::Lda | Op::Ldx | Op::Ldy | Op::Add | Op::Sub | Op::And | Op::Or | Op::Xor | Op::Mul
            | Op::Div | Op::Bit | Op::Bset | Op::Bclr => OpClass::Imm16,
        Op::Mov | Op::Inc | Op::Dec => OpClass::Register,
        Op::Cop => OpClass::Imm8,
        Op::LdaAbs | Op::LdxAbs | Op::LdyAbs | Op::Sta | Op::Stx | Op::Sty | Op::Jmp
            | Op::Jsr => OpClass::Address,
        Op::Bra | Op::Beq | Op::Bne | Op::Bcs | Op::Bcc | Op::Bmi | Op::Bpl | Op::Bvs
            | Op::Bvc => OpClass::Branch,
    }
}

fn op_class(op: Op) -> (r: OpClass)
    ensures
        r == spec_class(op),
{
    match op {
        Op::Nop | Op::Rts | Op::Sei | Op::Cli | Op::Rti | Op::Wfi | Op::Hlt => OpClass::NoOperand,
        Op::Lda | Op::Ldx | Op::Ldy | Op::Add | Op::Sub | Op::And | Op::Or | Op::Xor | Op::Mul
            | Op::Div | Op::Bit | Op::Bset | Op::Bclr => OpClass::Imm16,
        Op::Mov | Op::Inc | Op::Dec => OpClass::Register,
        Op::Cop => OpClass::Imm8,
        Op::LdaAbs | Op::LdxAbs | Op::LdyAbs | Op::Sta | Op::Stx | Op::Sty | Op::Jmp
            | Op::Jsr => OpClass::Address,
        Op::Bra | Op::Beq | Op::Bne | Op::Bcs | Op::Bcc | Op::Bmi | Op::Bpl | Op::Bvs
            | Op::Bvc => OpClass::Branch,
    }
}

pub open spec fn spec_opcode(op: Op) -> u8 {
    match op {
        Op::Nop => 0x00,
        Op::Lda => 0x01,
        Op::Sta => 0x02,
        Op::Ldx => 0x03,
        Op::Stx => 0x04,
        Op::Ldy => 0x05,
        Op::Sty => 0x06,
        Op::LdaAbs => 0x07,
        Op::LdxAbs => 0x08,
        Op::LdyAbs => 0x09,
        Op::Add => 0x10,
        Op::Sub => 0x11,
        Op::And => 0x12,
        Op::Or => 0x13,
        Op::Xor => 0x14,
        Op::Mul => 0x15,
        Op::Div => 0x16,
        Op::Mov => 0x17,
        Op::Inc => 0x18,
        Op::Dec => 0x19,
        Op::Bit => 0x1A,
        Op::Bset => 0x1B,
        Op::Bclr => 0x1C,
        Op::Jmp => 0x20,
        Op::Jsr => 0x21,
        Op::Rts => 0x22,
        Op::Bra => 0x30,
        Op::Beq => 0x31,
        Op::Bne => 0x32,
        Op::Bcs => 0x33,
        Op::Bcc => 0x34,
        Op::Bmi => 0x35,
        Op::Bpl => 0x36,
        Op::Bvs => 0x37,
        Op::Bvc => 0x38,
        Op::Sei => 0x40,
        Op::Cli => 0x41,
        Op::Rti => 0x42,
        Op::Wfi => 0x43,
        Op::Cop => 0x44,
        Op::Hlt => 0xFF,
    }
}

fn opcode(op: Op) -> (r: u8)
    ensures
        r == spec_opcode(op),
{
    match op {
        Op::Nop => 0x00,
        Op::Lda => 0x01,
        Op::Sta => 0x02,
        Op::Ldx => 0x03,
        Op::Stx => 0x04,
        Op::Ldy => 0x05,
        Op::Sty => 0x06,
        Op::LdaAbs => 0x07,
        Op::LdxAbs => 0x08,
        Op::LdyAbs => 0x09,
        Op::Add => 0x10,
        Op::Sub => 0x11,
        Op::And => 0x12,
        Op::Or => 0x13,
        Op::Xor => 0x14,
        Op::Mul => 0x15,
        Op::Div => 0x16,
        Op::Mov => 0x17,
        Op::Inc => 0x18,
        Op::Dec => 0x19,
        Op::Bit => 0x1A,
        Op::Bset => 0x1B,
        Op::Bclr => 0x1C,
        Op::Jmp => 0x20,
        Op::Jsr => 0x21,
        Op::Rts => 0x22,
        Op::Bra => 0x30,
        Op::Beq => 0x31,
        Op::Bne => 0x32,
        Op::Bcs => 0x33,
        Op::Bcc => 0x34,
        Op::Bmi => 0x35,
        Op::Bpl => 0x36,
        Op::Bvs => 0x37,
        Op::Bvc => 0x38,
        Op::Sei => 0x40,
        Op::Cli => 0x41,
        Op::Rti => 0x42,
        Op::Wfi => 0x43,
        Op::Cop => 0x44,
        Op::Hlt => 0xFF,
    }
}

pub open spec fn is_ws(b: u8) -> bool {
    b == 32 || b == 9 || b == 13 || b == 10
}

pub open spec fn to_upper(b: u8) -> u8 {
    if 97 <= b <= 122 {
        (b - 32) as u8
    } else {
        b
    }
}

/// Value of one digit under the radix.
pub open spec fn digit_val(b: u8, radix: u32) -> Option<u32> {
    if 48 <= b <= 57 && (b - 48) < radix {
        Some((b - 48) as u32)
    } else if radix == 16 && 97 <= b <= 102 {
        Some((b - 87) as u32)
    } else if radix == 16 && 65 <= b <= 70 {
        Some((b - 55) as u32)
    } else {
        None
    }
}

/// The first `n` digits folded left to right; `None` on a bad digit or
/// when the value leaves 32 bits.
pub open spec fn spec_scan_num(s: Seq<u8>, radix: u32, n: int) -> Option<u32>
    recommends
        2 <= radix <= 16,
        n <= s.len(),
    decreases n,
{
    if n <= 0 {
        Some(0)
    } else {
        match spec_scan_num(s, radix, n - 1) {
            None => None,
            Some(acc) => match digit_val(s[n - 1], radix) {
                None => None,
                Some(d) => if acc <= ((0xFFFF_FFFF - d) as u32) / radix {
                    Some((acc * radix + d) as u32)
                } else {
                    None
                },
            },
        }
    }
}

/// A whole numeric token: `0x` or `$` select hex, anything else decimal;
/// empty digit strings fail.
pub open spec fn spec_parse_number(s: Seq<u8>) -> Option<u32> {
    if s.len() >= 2 && s[0] == 48 && s[1] == 120 {
        let rest = s.skip(2);
        if rest.len() == 0 {
            None
        } else {
            spec_scan_num(rest, 16, rest.len() as int)
        }
    } else if s.len() >= 1 && s[0] == 36 {
        let rest = s.skip(1);
        if rest.len() == 0 {
            None
        } else {
            spec_scan_num(rest, 16, rest.len() as int)
        }
    } else if s.len() == 0 {
        None
    } else {
        spec_scan_num(s, 10, s.len() as int)
    }
}

/// Fold the digits of `line[from..to)` under the radix.
fn scan_num(line: &Vec<u8>, from: usize, to: usize, radix: u32) -> (r: Option<u32>)
    requires
        from <= to <= line@.len(),
        2 <= radix <= 16,
    ensures
        r == spec_scan_num(line@.subrange(from as int, to as int), radix, (to - from) as int),
{
    let ghost s = line@.subrange(from as int, to as int);
    let mut acc: u32 = 0;
    let mut i = from;
    while i < to
        invariant
            from <= i <= to,
            to <= line@.len(),
            2 <= radix <= 16,
            s == line@.subrange(from as int, to as int),
            Some(acc) == spec_scan_num(s, radix, (i - from) as int),
        decreases to - i,
    {
        let b = line[i];
        let d: u32 = if 48 <= b && b <= 57 && ((b - 48) as u32) < radix {
            (b - 48) as u32
        } else if radix == 16 && 97 <= b && b <= 102 {
            (b - 87) as u32
        } else if radix == 16 && 65 <= b && b <= 70 {
            (b - 55) as u32
        } else {
            proof {
                assert(s[(i - from) as int] == line@[i as int]);
                assert(spec_scan_num(s, radix, (i + 1 - from) as int) is None);
                lemma_scan_num_none(s, radix, (i + 1 - from) as int, (to - from) as int);
            }
            return None;
        };
        proof {
            assert(s[(i - from) as int] == line@[i as int]);
        }
        if acc <= (0xFFFF_FFFFu32 - d) / radix {
            proof {
                assert(acc * radix + d <= 0xFFFF_FFFF)
                    by (nonlinear_arith)
                    requires
                        2 <= radix,
                        0 <= d < radix,
                        acc <= ((0xFFFF_FFFF - d) as u32) / radix,
                ;
            }
            acc = acc * radix + d;
        } else {
            proof {
                assert(spec_scan_num(s, radix, (i + 1 - from) as int) is None);
                lemma_scan_num_none(s, radix, (i + 1 - from) as int, (to - from) as int);
            }
            return None;
        }
        i = i + 1;
    }
    Some(acc)
}

/// Once the fold fails it stays failed.
proof fn lemma_scan_num_none(s: Seq<u8>, radix: u32, k: int, n: int)
    requires
        spec_scan_num(s, radix, k) is None,
        k <= n,
    ensures
        spec_scan_num(s, radix, n) is None,
    decreases n - k,
{
    if k < n {
        lemma_scan_num_none(s, radix, k + 1, n);
    }
}

/// Parse the numeric token in `line[from..to)`.
fn parse_number_range(line: &Vec<u8>, from: usize, to: usize) -> (r: Option<u32>)
    requires
        from <= to <= line@.len(),
    ensures
        r == spec_parse_number(line@.subrange(from as int, to as int)),
{
    let ghost s = line@.subrange(from as int, to as int);
    if to - from >= 2 && line[from] == 48 && line[from + 1] == 120 {
        proof {
            assert(s.skip(2) =~= line@.subrange(from as int + 2, to as int));
        }
        if to - from == 2 {
            None
        } else {
            scan_num(line, from + 2, to, 16)
        }
    } else if to - from >= 1 && line[from] == 36 {
        proof {
            assert(s.skip(1) =~= line@.subrange(from as int + 1, to as int));
        }
        if to - from == 1 {
            None
        } else {
            scan_num(line, from + 1, to, 16)
        }
    } else if to == from {
        None
    } else {
        scan_num(line, from, to, 10)
    }
}

/// Register encoding for MOV/INC/DEC operands: A X Y SP then R0..R7.
pub open spec fn spec_register_code(s: Seq<u8>) -> Option<u32> {
    let u = Seq::new(s.len(), |i: int| to_upper(s[i]));
    if u == seq![65u8] {
        Some(0)
    } else if u == seq![88u8] {
        Some(1)
    } else if u == seq![89u8] {
        Some(2)
    } else if u == seq![83u8, 80u8] {
        Some(3)
    } else if u.len() == 2 && u[0] == 82 && 48 <= u[1] <= 55 {
        Some((u[1] - 48 + 4) as u32)
    } else {
        None
    }
}

/// The uppercased bytes of `line[from..to)`.
fn upper_of(line: &Vec<u8>, from: usize, to: usize) -> (r: Vec<u8>)
    requires
        from <= to <= line@.len(),
    ensures
        r@ == spec_upper(line@.subrange(from as int, to as int)),
{
    let ghost s = line@.subrange(from as int, to as int);
    let mut r: Vec<u8> = Vec::new();
    let mut i = from;
    while i < to
        invariant
            from <= i <= to,
            to <= line@.len(),
            s == line@.subrange(from as int, to as int),
            r@ == Seq::new((i - from) as nat, |k: int| to_upper(s[k])),
        decreases to - i,
    {
        let b = line[i];
        let u = if 97 <= b && b <= 122 {
            b - 32
        } else {
            b
        };
        r.push(u);
        i = i + 1;
        proof {
            assert(r@ =~= Seq::new((i - from) as nat, |k: int| to_upper(s[k])));
        }
    }
    proof {
        assert(r@ =~= spec_upper(s));
    }
    r
}

/// A copy of `line[from..to)`.
fn slice_of(line: &Vec<u8>, from: usize, to: usize) -> (r: Vec<u8>)
    requires
        from <= to <= line@.len(),
    ensures
        r@ == line@.subrange(from as int, to as int),
{
    let mut r: Vec<u8> = Vec::new();
    let mut i = from;
    while i < to
        invariant
            from <= i <= to,
            to <= line@.len(),
            r@ == line@.subrange(from as int, i as int),
        decreases to - i,
    {
        r.push(line[i]);
        i = i + 1;
        proof {
            assert(r@ =~= line@.subrange(from as int, i as int));
        }
    }
    r
}

/// First position of `b` in `line[from..to)`.
fn find_byte(line: &Vec<u8>, from: usize, to: usize, b: u8) -> (r: Option<usize>)
    requires
        from <= to <= line@.len(),
    ensures
        match r {
            Some(k) => from <= k < to && line@[k as int] == b && forall|j: int|
                from <= j < k ==> line@[j] != b,
            None => forall|j: int| from <= j < to ==> line@[j] != b,
        },
        ({
            let f = spec_find(line@, from as int, to as int, b);
            &&& (r is Some <==> f >= 0)
            &&& (r is Some ==> r->Some_0 == f)
        }),
{
    let mut i = from;
    while i < to
        invariant
            from <= i <= to,
            to <= line@.len(),
            forall|j: int| from <= j < i ==> line@[j] != b,
            spec_find(line@, from as int, to as int, b) == spec_find(
                line@,
                i as int,
                to as int,
                b,
            ),
        decreases to - i,
    {
        if line[i] == b {
            return Some(i);
        }
        i = i + 1;
    }
    None
}

/// First position of `b` in `line[from..to)`, or -1.
pub open spec fn spec_find(line: Seq<u8>, from: int, to: int, b: u8) -> int
    decreases to - from,
{
    if from >= to {
        -1
    } else if line[from] == b {
        from
    } else {
        spec_find(line, from + 1, to, b)
    }
}

pub proof fn lemma_spec_find_range(line: Seq<u8>, from: int, to: int, b: u8)
    ensures
        spec_find(line, from, to, b) == -1 || from <= spec_find(line, from, to, b) < to,
    decreases to - from,
{
    if from < to && line[from] != b {
        lemma_spec_find_range(line, from + 1, to, b);
    }
}

/// Position past the leading whitespace of `line[from..to)`.
pub open spec fn spec_trim_start(line: Seq<u8>, from: int, to: int) -> int
    decreases to - from,
{
    if from >= to {
        from
    } else if is_ws(line[from]) {
        spec_trim_start(line, from + 1, to)
    } else {
        from
    }
}

pub proof fn lemma_spec_trim_start_range(line: Seq<u8>, from: int, to: int)
    requires
        from <= to,
    ensures
        from <= spec_trim_start(line, from, to) <= to,
    decreases to - from,
{
    if from < to && is_ws(line[from]) {
        lemma_spec_trim_start_range(line, from + 1, to);
    }
}

/// Position before the trailing whitespace of `line[s..e)`.
pub open spec fn spec_trim_end(line: Seq<u8>, s: int, e: int) -> int
    decreases e - s,
{
    if e <= s {
        e
    } else if is_ws(line[e - 1]) {
        spec_trim_end(line, s, e - 1)
    } else {
        e
    }
}

pub proof fn lemma_spec_trim_end_range(line: Seq<u8>, s: int, e: int)
    requires
        s <= e,
    ensures
        s <= spec_trim_end(line, s, e) <= e,
    decreases e - s,
{
    if s < e && is_ws(line[e - 1]) {
        lemma_spec_trim_end_range(line, s, e - 1);
    }
}

/// End of the token starting at `from`.
pub open spec fn spec_token_end(line: Seq<u8>, from: int, to: int) -> int
    decreases to - from,
{
    if from >= to {
        from
    } else if is_ws(line[from]) {
        from
    } else {
        spec_token_end(line, from + 1, to)
    }
}


/// The uppercased image of a byte sequence.
pub open spec fn spec_upper(s: Seq<u8>) -> Seq<u8> {
    Seq::new(s.len(), |i: int| to_upper(s[i]))
}

/// Whitespace test for one byte.
fn ws_byte(b: u8) -> (r: bool)
    ensures
        r == is_ws(b),
{
    b == 32 || b == 9 || b == 13 || b == 10
}

/// Shrink `[from, to)` past leading and trailing whitespace.
fn trim_range(line: &Vec<u8>, from: usize, to: usize) -> (r: (usize, usize))
    requires
        from <= to <= line@.len(),
    ensures
        from <= r.0 <= r.1 <= to,
        forall|j: int| from <= j < r.0 ==> is_ws(line@[j]),
        forall|j: int| r.1 <= j < to ==> is_ws(line@[j]),
        r.0 < r.1 ==> !is_ws(line@[r.0 as int]) && !is_ws(line@[r.1 - 1]),
        r.0 == spec_trim_start(line@, from as int, to as int),
        r.1 == spec_trim_end(line@, r.0 as int, to as int),
{
    let mut s = from;
    let mut e = to;
    while s < e && ws_byte(line[s])
        invariant
            from <= s <= e <= to,
            e == to,
            to <= line@.len(),
            forall|j: int| from <= j < s ==> is_ws(line@[j]),
            spec_trim_start(line@, from as int, to as int) == spec_trim_start(
                line@,
                s as int,
                to as int,
            ),
        decreases e - s,
    {
        s = s + 1;
    }
    while s < e && ws_byte(line[e - 1])
        invariant
            from <= s <= e <= to,
            to <= line@.len(),
            forall|j: int| from <= j < s ==> is_ws(line@[j]),
            forall|j: int| e <= j < to ==> is_ws(line@[j]),
            s == spec_trim_start(line@, from as int, to as int),
            spec_trim_end(line@, s as int, to as int) == spec_trim_end(
                line@,
                s as int,
                e as int,
            ),
        decreases e - s,
    {
        e = e - 1;
    }
    (s, e)
}

/// Start of the first token at or after `from`.
fn skip_ws(line: &Vec<u8>, from: usize, to: usize) -> (r: usize)
    requires
        from <= to <= line@.len(),
    ensures
        from <= r <= to,
        forall|j: int| from <= j < r ==> is_ws(line@[j]),
        r < to ==> !is_ws(line@[r as int]),
        r == spec_trim_start(line@, from as int, to as int),
{
    let mut s = from;
    while s < to && ws_byte(line[s])
        invariant
            from <= s <= to,
            to <= line@.len(),
            forall|j: int| from <= j < s ==> is_ws(line@[j]),
            spec_trim_start(line@, from as int, to as int) == spec_trim_start(
                line@,
                s as int,
                to as int,
            ),
        decreases to - s,
    {
        s = s + 1;
    }
    s
}

/// End of the token starting at `from`.
fn token_end(line: &Vec<u8>, from: usize, to: usize) -> (r: usize)
    requires
        from <= to <= line@.len(),
    ensures
        from <= r <= to,
        forall|j: int| from <= j < r ==> !is_ws(line@[j]),
        r < to ==> is_ws(line@[r as int]),
        r == spec_token_end(line@, from as int, to as int),
{
    let mut e = from;
    while e < to && !ws_byte(line[e])
        invariant
            from <= e <= to,
            to <= line@.len(),
            forall|j: int| from <= j < e ==> !is_ws(line@[j]),
            spec_token_end(line@, from as int, to as int) == spec_token_end(
                line@,
                e as int,
                to as int,
            ),
        decreases to - e,
    {
        e = e + 1;
    }
    e
}

/// Mnemonic lookup over an uppercased token.
pub open spec fn spec_mnemonic(s: Seq<u8>) -> Option<Op> {
    let n = s.len();
    if n == 3 && s[0] == 78 && s[1] == 79 && s[2] == 80 {
        Some(Op::Nop)
    } else if n == 3 && s[0] == 76 && s[1] == 68 && s[2] == 65 {
        Some(Op::Lda)
    } else if n == 3 && s[0] == 76 && s[1] == 68 && s[2] == 88 {
        Some(Op::Ldx)
    } else if n == 3 && s[0] == 76 && s[1] == 68 && s[2] == 89 {
        Some(Op::Ldy)
    } else if n == 3 && s[0] == 83 && s[1] == 84 && s[2] == 65 {
        Some(Op::Sta)
    } else if n == 3 && s[0] == 83 && s[1] == 84 && s[2] == 88 {
        Some(Op::Stx)
    } else if n == 3 && s[0] == 83 && s[1] == 84 && s[2] == 89 {
        Some(Op::Sty)
    } else if n == 3 && s[0] == 65 && s[1] == 68 && s[2] == 68 {
        Some(Op::Add)
    } else if n == 3 && s[0] == 83 && s[1] == 85 && s[2] == 66 {
        Some(Op::Sub)
    } else if n == 3 && s[0] == 65 && s[1] == 78 && s[2] == 68 {
        Some(Op::And)
    } else if n == 2 && s[0] == 79 && s[1] == 82 {
        Some(Op::Or)
    } else if n == 3 && s[0] == 88 && s[1] == 79 && s[2] == 82 {
        Some(Op::Xor)
    } else if n == 3 && s[0] == 77 && s[1] == 85 && s[2] == 76 {
        Some(Op::Mul)
    } else if n == 3 && s[0] == 68 && s[1] == 73 && s[2] == 86 {
        Some(Op::Div)
    } else if n == 3 && s[0] == 77 && s[1] == 79 && s[2] == 86 {
        Some(Op::Mov)
    } else if n == 3 && s[0] == 73 && s[1] == 78 && s[2] == 67 {
        Some(Op::Inc)
    } else if n == 3 && s[0] == 68 && s[1] == 69 && s[2] == 67 {
        Some(Op::Dec)
    } else if n == 3 && s[0] == 66 && s[1] == 73 && s[2] == 84 {
        Some(Op::Bit)
    } else if n == 4 && s[0] == 66 && s[1] == 83 && s[2] == 69 && s[3] == 84 {
        Some(Op::Bset)
    } else if n == 4 && s[0] == 66 && s[1] == 67 && s[2] == 76 && s[3] == 82 {
        Some(Op::Bclr)
    } else if n == 3 && s[0] == 74 && s[1] == 77 && s[2] == 80 {
        Some(Op::Jmp)
    } else if n == 3 && s[0] == 74 && s[1] == 83 && s[2] == 82 {
        Some(Op::Jsr)
    } else if n == 3 && s[0] == 82 && s[1] == 84 && s[2] == 83 {
        Some(Op::Rts)
    } else if n == 3 && s[0] == 66 && s[1] == 82 && s[2] == 65 {
        Some(Op::Bra)
    } else if n == 3 && s[0] == 66 && s[1] == 69 && s[2] == 81 {
        Some(Op::Beq)
    } else if n == 3 && s[0] == 66 && s[1] == 78 && s[2] == 69 {
        Some(Op::Bne)
    } else if n == 3 && s[0] == 66 && s[1] == 67 && s[2] == 83 {
        Some(Op::Bcs)
    } else if n == 3 && s[0] == 66 && s[1] == 67 && s[2] == 67 {
        Some(Op::Bcc)
    } else if n == 3 && s[0] == 66 && s[1] == 77 && s[2] == 73 {
        Some(Op::Bmi)
    } else if n == 3 && s[0] == 66 && s[1] == 80 && s[2] == 76 {
        Some(Op::Bpl)
    } else if n == 3 && s[0] == 66 && s[1] == 86 && s[2] == 83 {
        Some(Op::Bvs)
    } else if n == 3 && s[0] == 66 && s[1] == 86 && s[2] == 67 {
        Some(Op::Bvc)
    } else if n == 3 && s[0] == 83 && s[1] == 69 && s[2] == 73 {
        Some(Op::Sei)
    } else if n == 3 && s[0] == 67 && s[1] == 76 && s[2] == 73 {
        Some(Op::Cli)
    } else if n == 3 && s[0] == 82 && s[1] == 84 && s[2] == 73 {
        Some(Op::Rti)
    } else if n == 3 && s[0] == 87 && s[1] == 70 && s[2] == 73 {
        Some(Op::Wfi)
    } else if n == 3 && s[0] == 67 && s[1] == 79 && s[2] == 80 {
        Some(Op::Cop)
    } else if n == 3 && s[0] == 72 && s[1] == 76 && s[2] == 84 {
        Some(Op::Hlt)
    } else {
        None
    }
}

/// Mnemonic lookup over the uppercased token.
#[verifier::spinoff_prover]
#[verifier::rlimit(100)]
fn mnemonic_of(up: &Vec<u8>) -> (r: Option<Op>)
    ensures
        r == spec_mnemonic(up@),
{
    let n = up.len();
    if n == 3 && up[0] == 78 && up[1] == 79 && up[2] == 80 {
        Some(Op::Nop)
    } else if n == 3 && up[0] == 76 && up[1] == 68 && up[2] == 65 {
        Some(Op::Lda)
    } else if n == 3 && up[0] == 76 && up[1] == 68 && up[2] == 88 {
        Some(Op::Ldx)
    } else if n == 3 && up[0] == 76 && up[1] == 68 && up[2] == 89 {
        Some(Op::Ldy)
    } else if n == 3 && up[0] == 83 && up[1] == 84 && up[2] == 65 {
        Some(Op::Sta)
    } else if n == 3 && up[0] == 83 && up[1] == 84 && up[2] == 88 {
        Some(Op::Stx)
    } else if n == 3 && up[0] == 83 && up[1] == 84 && up[2] == 89 {
        Some(Op::Sty)
    } else if n == 3 && up[0] == 65 && up[1] == 68 && up[2] == 68 {
        Some(Op::Add)
    } else if n == 3 && up[0] == 83 && up[1] == 85 && up[2] == 66 {
        Some(Op::Sub)
    } else if n == 3 && up[0] == 65 && up[1] == 78 && up[2] == 68 {
        Some(Op::And)
    } else if n == 2 && up[0] == 79 && up[1] == 82 {
        Some(Op::Or)
    } else if n == 3 && up[0] == 88 && up[1] == 79 && up[2] == 82 {
        Some(Op::Xor)
    } else if n == 3 && up[0] == 77 && up[1] == 85 && up[2] == 76 {
        Some(Op::Mul)
    } else if n == 3 && up[0] == 68 && up[1] == 73 && up[2] == 86 {
        Some(Op::Div)
    } else if n == 3 && up[0] == 77 && up[1] == 79 && up[2] == 86 {
        Some(Op::Mov)
    } else if n == 3 && up[0] == 73 && up[1] == 78 && up[2] == 67 {
        Some(Op::Inc)
    } else if n == 3 && up[0] == 68 && up[1] == 69 && up[2] == 67 {
        Some(Op::Dec)
    } else if n == 3 && up[0] == 66 && up[1] == 73 && up[2] == 84 {
        Some(Op::Bit)
    } else if n == 4 && up[0] == 66 && up[1] == 83 && up[2] == 69 && up[3] == 84 {
        Some(Op::Bset)
    } else if n == 4 && up[0] == 66 && up[1] == 67 && up[2] == 76 && up[3] == 82 {
        Some(Op::Bclr)
    } else if n == 3 && up[0] == 74 && up[1] == 77 && up[2] == 80 {
        Some(Op::Jmp)
    } else if n == 3 && up[0] == 74 && up[1] == 83 && up[2] == 82 {
        Some(Op::Jsr)
    } else if n == 3 && up[0] == 82 && up[1] == 84 && up[2] == 83 {
        Some(Op::Rts)
    } else if n == 3 && up[0] == 66 && up[1] == 82 && up[2] == 65 {
        Some(Op::Bra)
    } else if n == 3 && up[0] == 66 && up[1] == 69 && up[2] == 81 {
        Some(Op::Beq)
    } else if n == 3 && up[0] == 66 && up[1] == 78 && up[2] == 69 {
        Some(Op::Bne)
    } else if n == 3 && up[0] == 66 && up[1] == 67 && up[2] == 83 {
        Some(Op::Bcs)
    } else if n == 3 && up[0] == 66 && up[1] == 67 && up[2] == 67 {
        Some(Op::Bcc)
    } else if n == 3 && up[0] == 66 && up[1] == 77 && up[2] == 73 {
        Some(Op::Bmi)
    } else if n == 3 && up[0] == 66 && up[1] == 80 && up[2] == 76 {
        Some(Op::Bpl)
    } else if n == 3 && up[0] == 66 && up[1] == 86 && up[2] == 83 {
        Some(Op::Bvs)
    } else if n == 3 && up[0] == 66 && up[1] == 86 && up[2] == 67 {
        Some(Op::Bvc)
    } else if n == 3 && up[0] == 83 && up[1] == 69 && up[2] == 73 {
        Some(Op::Sei)
    } else if n == 3 && up[0] == 67 && up[1] == 76 && up[2] == 73 {
        Some(Op::Cli)
    } else if n == 3 && up[0] == 82 && up[1] == 84 && up[2] == 73 {
        Some(Op::Rti)
    } else if n == 3 && up[0] == 87 && up[1] == 70 && up[2] == 73 {
        Some(Op::Wfi)
    } else if n == 3 && up[0] == 67 && up[1] == 79 && up[2] == 80 {
        Some(Op::Cop)
    } else if n == 3 && up[0] == 72 && up[1] == 76 && up[2] == 84 {
        Some(Op::Hlt)
    } else {
        None
    }
}

/// Register operand for MOV/INC/DEC.
fn parse_register(line: &Vec<u8>, from: usize, to: usize) -> (r: Option<u32>)
    requires
        from <= to <= line@.len(),
    ensures
        r == spec_register_code(line@.subrange(from as int, to as int)),
{
    let up = upper_of(line, from, to);
    let n = up.len();
    proof {
        assert(up@ =~= Seq::new(
            (to - from) as nat,
            |i: int| to_upper(line@.subrange(from as int, to as int)[i]),
        ));
    }
    if n == 1 && up[0] == 65 {
        proof {
            assert(up@ =~= seq![65u8]);
        }
        Some(0)
    } else if n == 1 && up[0] == 88 {
        proof {
            assert(up@ =~= seq![88u8]);
        }
        Some(1)
    } else if n == 1 && up[0] == 89 {
        proof {
            assert(up@ =~= seq![89u8]);
        }
        Some(2)
    } else if n == 2 && up[0] == 83 && up[1] == 80 {
        proof {
            assert(up@ =~= seq![83u8, 80u8]);
        }
        Some(3)
    } else if n == 2 && up[0] == 82 && 48 <= up[1] && up[1] <= 55 {
        proof {
            assert(up@ != seq![65u8] && up@ != seq![88u8] && up@ != seq![89u8]);
            assert(up@ != seq![83u8, 80u8]);
        }
        Some((up[1] - 48 + 4) as u32)
    } else {
        proof {
            if up@ == seq![65u8] {
                assert(n == 1 && up@[0] == 65);
            }
            if up@ == seq![88u8] {
                assert(n == 1 && up@[0] == 88);
            }
            if up@ == seq![89u8] {
                assert(n == 1 && up@[0] == 89);
            }
            if up@ == seq![83u8, 80u8] {
                assert(n == 2 && up@[0] == 83 && up@[1] == 80);
            }
        }
        None
    }
}

/// The branch operand is the signed distance from the address after the
/// operand byte to the target; it must fit in a signed byte.
pub open spec fn spec_branch_offset(target: u32, address: u32) -> int {
    target - vstd::wrapping::u32_specs::wrapping_add(address, 2)
}

/// The branch-offset law: the encoded offset is exactly
/// `target - (address_of_instruction + instruction_length)`, and a
/// branch whose distance leaves `[-128, 127]` cannot be encoded.
pub proof fn lemma_branch_offset_law(target: u32, address: u32)
    requires
        address + 2 < 0x1_0000_0000,
    ensures
        spec_branch_offset(target, address) == target - (address + spec_op_len_of(
            OpClass::Branch,
        )),
{
}

/// Compute and range-check one branch offset.
fn branch_offset(target: u32, address: u32) -> (r: Result<i8, i32>)
    ensures
        r is Ok <==> -128 <= spec_branch_offset(target, address) <= 127,
        r is Ok ==> r->Ok_0 == spec_branch_offset(target, address),
        r is Err ==> r->Err_0 == spec_branch_offset(target, address) as i32,
{
    let pc_after = address.wrapping_add(2);
    let diff: i64 = target as i64 - pc_after as i64;
    if diff < -128 || diff > 127 {
        Err(diff as i32)
    } else {
        Ok(diff as i8)
    }
}

/// First pass over the leading `label:` declarations of a line: record
/// each non-empty label at the current address, fail on a duplicate,
/// and hand back the trimmed remainder.
pub open spec fn spec_scan_labels(
    line: Seq<u8>,
    line_no: usize,
    address: u32,
    labels: Seq<(Seq<u8>, u32)>,
    s: int,
    e: int,
) -> Result<(Seq<(Seq<u8>, u32)>, int, int), AsmErrV>
    decreases e - s,
    via spec_scan_labels_dec
{
    let c = spec_find(line, s, e, 58);
    if c < 0 {
        Ok((labels, s, e))
    } else {
        let ls = spec_trim_start(line, s, c);
        let le = spec_trim_end(line, ls, c);
        if ls < le && st_lookup(labels, line.subrange(ls, le)) is Some {
            Err(AsmErrV::DuplicateLabel { line: line_no, name: line.subrange(ls, le) })
        } else {
            let labels1 = if ls < le {
                labels.push((line.subrange(ls, le), address))
            } else {
                labels
            };
            let s1 = spec_trim_start(line, c + 1, e);
            let e1 = spec_trim_end(line, s1, e);
            if s1 == e1 {
                Ok((labels1, s1, e1))
            } else {
                spec_scan_labels(line, line_no, address, labels1, s1, e1)
            }
        }
    }
}

#[via_fn]
proof fn spec_scan_labels_dec(
    line: Seq<u8>,
    line_no: usize,
    address: u32,
    labels: Seq<(Seq<u8>, u32)>,
    s: int,
    e: int,
) {
    let c = spec_find(line, s, e, 58);
    if c >= 0 {
        lemma_spec_find_range(line, s, e, 58);
        lemma_spec_trim_start_range(line, c + 1, e);
        lemma_spec_trim_end_range(line, spec_trim_start(line, c + 1, e), e);
    }
}

/// First pass over one source line: strip the comment, take the labels,
/// classify the mnemonic and its operand, and return the grown label
/// table, the sized instruction if the line holds one, and the next
/// address.
pub open spec fn spec_parse_line(
    line: Seq<u8>,
    line_no: usize,
    address: u32,
    labels: Seq<(Seq<u8>, u32)>,
) -> Result<(Seq<(Seq<u8>, u32)>, Option<InstrV>, u32), AsmErrV> {
    let f = spec_find(line, 0, line.len() as int, 59);
    let end0 = if f < 0 {
        line.len() as int
    } else {
        f
    };
    let s0 = spec_trim_start(line, 0, end0);
    let e0 = spec_trim_end(line, s0, end0);
    match spec_scan_labels(line, line_no, address, labels, s0, e0) {
        Err(err) => Err(err),
        Ok(scanned) => {
            let labels1 = scanned.0;
            let s = scanned.1;
            let e = scanned.2;
            if s == e {
                Ok((labels1, None, address))
            } else {
                let a = s;
                let b = spec_token_end(line, a, e);
                let c0 = spec_trim_start(line, b, e);
                let has = c0 < e;
                let os = c0;
                let oe = if has {
                    spec_token_end(line, c0, e)
                } else {
                    e
                };
                let up = spec_upper(line.subrange(a, b));
                if has && spec_trim_start(line, oe, e) < e {
                    Err(AsmErrV::UnexpectedOperand { line: line_no, instruction: up })
                } else {
                    match spec_mnemonic(up) {
                        None => Err(
                            AsmErrV::UnknownInstruction {
                                line: line_no,
                                token: line.subrange(a, b),
                            },
                        ),
                        Some(op0) => spec_parse_operand(
                            line,
                            line_no,
                            address,
                            labels1,
                            op0,
                            up,
                            has,
                            os,
                            oe,
                        ),
                    }
                }
            }
        },
    }
}

/// Operand classification of one recognised mnemonic, with the loads
/// polymorphic on the `#` prefix.
pub open spec fn spec_parse_operand(
    line: Seq<u8>,
    line_no: usize,
    address: u32,
    labels: Seq<(Seq<u8>, u32)>,
    op0: Op,
    up: Seq<u8>,
    has: bool,
    os: int,
    oe: int,
) -> Result<(Seq<(Seq<u8>, u32)>, Option<InstrV>, u32), AsmErrV> {
    let poly = op0 == Op::Lda || op0 == Op::Ldx || op0 == Op::Ldy;
    if poly && !(has) {
        Err(AsmErrV::MissingOperand { line: line_no, instruction: up })
    } else {
        let op = if poly && line[os] != 35 {
            if op0 == Op::Lda {
                Op::LdaAbs
            } else if op0 == Op::Ldx {
                Op::LdxAbs
            } else {
                Op::LdyAbs
            }
        } else {
            op0
        };
        let class = spec_class(op);
        let operand_r: Result<Option<OperandV>, AsmErrV> = if class is NoOperand {
            if has {
                Err(AsmErrV::UnexpectedOperand { line: line_no, instruction: up })
            } else {
                Ok(None)
            }
        } else if class is Imm16 || class is Imm8 {
            if !(has) {
                Err(AsmErrV::MissingOperand { line: line_no, instruction: up })
            } else if line[os] != 35 {
                Err(AsmErrV::InvalidNumber { line: line_no, operand: line.subrange(os, oe) })
            } else {
                let ns = spec_trim_start(line, os + 1, oe);
                let ne = spec_trim_end(line, ns, oe);
                match spec_parse_number(line.subrange(ns, ne)) {
                    Some(v) => Ok(Some(OperandV::Value(v))),
                    None => Err(
                        AsmErrV::InvalidNumber { line: line_no, operand: line.subrange(ns, ne) },
                    ),
                }
            }
        } else if class is Register {
            if !(has) {
                Err(AsmErrV::MissingOperand { line: line_no, instruction: up })
            } else {
                match spec_register_code(line.subrange(os, oe)) {
                    Some(v) => Ok(Some(OperandV::Value(v))),
                    None => Err(
                        AsmErrV::InvalidNumber { line: line_no, operand: line.subrange(os, oe) },
                    ),
                }
            }
        } else {
            if !(has) {
                Err(AsmErrV::MissingOperand { line: line_no, instruction: up })
            } else {
                match spec_parse_number(line.subrange(os, oe)) {
                    Some(v) => Ok(Some(OperandV::Value(v))),
                    None => Ok(Some(OperandV::Label(line.subrange(os, oe)))),
                }
            }
        };
        match operand_r {
            Err(err) => Err(err),
            Ok(operand) => Ok(
                (
                    labels,
                    Some(InstrV { op, operand, address, line: line_no }),
                    vstd::wrapping::u32_specs::wrapping_add(address, spec_op_len_of(class)),
                ),
            ),
        }
    }
}

/// Second pass over one sized instruction: resolve a label operand and
/// produce its encoding, or the error the opcode table prescribes.
pub open spec fn spec_encode_one(inst: InstrV, labels: Seq<(Seq<u8>, u32)>) -> Result<
    Seq<u8>,
    AsmErrV,
> {
    let class = spec_class(inst.op);
    if class is NoOperand {
        Ok(seq![spec_opcode(inst.op)])
    } else {
        let resolved: Result<u32, AsmErrV> = match inst.operand {
            None => Err(AsmErrV::MissingOperand { line: inst.line, instruction: Seq::empty() }),
            Some(OperandV::Value(v)) => Ok(v),
            Some(OperandV::Label(nm)) => match st_lookup(labels, nm) {
                Some(v) => Ok(v),
                None => Err(AsmErrV::LabelNotFound { name: nm }),
            },
        };
        match resolved {
            Err(err) => Err(err),
            Ok(v) => if class is Imm16 {
                Ok(seq![spec_opcode(inst.op), (v % 256) as u8, ((v / 256) % 256) as u8])
            } else if class is Imm8 || class is Register {
                Ok(seq![spec_opcode(inst.op), (v % 256) as u8])
            } else if class is Address {
                if v >= 0x0100_0000 {
                    Err(AsmErrV::InvalidNumber { line: inst.line, operand: spec_dec(v) })
                } else {
                    Ok(
                        seq![
                            spec_opcode(inst.op),
                            (v % 256) as u8,
                            ((v / 256) % 256) as u8,
                            ((v / 65536) % 256) as u8,
                        ],
                    )
                }
            } else {
                let off = spec_branch_offset(v, inst.address);
                if -128 <= off <= 127 {
                    Ok(
                        seq![
                            spec_opcode(inst.op),
                            if off >= 0 {
                                off as u8
                            } else {
                                (off + 256) as u8
                            },
                        ],
                    )
                } else {
                    Err(
                        AsmErrV::BranchOutOfRange {
                            label: match inst.operand {
                                Some(OperandV::Label(nm)) => nm,
                                _ => spec_dec(v),
                            },
                            offset: off as i32,
                        },
                    )
                }
            },
        }
    }
}

/// The source split at newlines, the trailing segment included.
pub open spec fn spec_lines_from(d: Seq<u8>, j: int, start: int, acc: Seq<Seq<u8>>) -> Seq<
    Seq<u8>,
>
    decreases d.len() - j,
{
    if j >= d.len() {
        acc.push(d.subrange(start, d.len() as int))
    } else if d[j] == 10 {
        spec_lines_from(d, j + 1, j + 1, acc.push(d.subrange(start, j)))
    } else {
        spec_lines_from(d, j + 1, start, acc)
    }
}

pub open spec fn spec_lines(d: Seq<u8>) -> Seq<Seq<u8>> {
    spec_lines_from(d, 0, 0, Seq::empty())
}

/// The whole first pass, line by line.
pub open spec fn spec_pass1(
    lines: Seq<Seq<u8>>,
    li: int,
    labels: Seq<(Seq<u8>, u32)>,
    instrs: Seq<InstrV>,
    address: u32,
) -> Result<(Seq<(Seq<u8>, u32)>, Seq<InstrV>, u32), AsmErrV>
    decreases lines.len() - li,
{
    if li >= lines.len() {
        Ok((labels, instrs, address))
    } else {
        match spec_parse_line(lines[li], (li + 1) as usize, address, labels) {
            Err(err) => Err(err),
            Ok(t) => spec_pass1(
                lines,
                li + 1,
                t.0,
                instrs + (match t.1 {
                    Some(iv) => seq![iv],
                    None => Seq::empty(),
                }),
                t.2,
            ),
        }
    }
}

/// The whole second pass, instruction by instruction.
pub open spec fn spec_pass2(
    instrs: Seq<InstrV>,
    k: int,
    labels: Seq<(Seq<u8>, u32)>,
    acc: Seq<u8>,
) -> Result<Seq<u8>, AsmErrV>
    decreases instrs.len() - k,
{
    if k >= instrs.len() {
        Ok(acc)
    } else {
        match spec_encode_one(instrs[k], labels) {
            Err(err) => Err(err),
            Ok(bs) => spec_pass2(instrs, k + 1, labels, acc + bs),
        }
    }
}

/// Two-pass assembly of a whole source, as bytes: the emitted program
/// and the label table, or the first error either pass raises.
pub open spec fn spec_asm(d: Seq<u8>) -> Result<(Seq<u8>, Seq<(Seq<u8>, u32)>), AsmErrV> {
    let lines = spec_lines(d);
    match spec_pass1(lines, 0, Seq::empty(), Seq::empty(), 0u32) {
        Err(err) => Err(err),
        Ok(t) => match spec_pass2(t.1, 0, t.0, Seq::empty()) {
            Err(err) => Err(err),
            Ok(bytes) => Ok((bytes, t.0)),
        },
    }
}

/// Views of split lines.
pub open spec fn lines_view(v: Seq<Vec<u8>>) -> Seq<Seq<u8>> {
    Seq::new(v.len(), |i: int| v[i]@)
}

/// Decimal digits of `v`, most significant first; zero is a single `0`.
pub open spec fn spec_dec_rec(v: u32) -> Seq<u8>
    decreases v,
{
    if v == 0 {
        Seq::empty()
    } else {
        spec_dec_rec(v / 10).push((48 + v % 10) as u8)
    }
}

pub open spec fn spec_dec(v: u32) -> Seq<u8> {
    if v == 0 {
        seq![48u8]
    } else {
        spec_dec_rec(v)
    }
}

/// Bytes of a decimal rendering of `v`.
fn dec_bytes(v: u32) -> (r: Vec<u8>)
    ensures
        r@ == spec_dec(v),
{
    if v == 0 {
        let mut r: Vec<u8> = Vec::new();
        r.push(48);
        proof {
            assert(r@ =~= spec_dec(0));
        }
        return r;
    }
    let mut digits: Vec<u8> = Vec::new();
    let mut x = v;
    while x > 0
        invariant
            spec_dec_rec(v) == spec_dec_rec(x) + digits@.reverse(),
        decreases x,
    {
        digits.push(48 + (x % 10) as u8);
        x = x / 10;
        proof {
            assert(digits@.reverse() =~= seq![digits@[digits@.len() - 1]] + digits@.drop_last().reverse());
            assert(spec_dec_rec(v) =~= spec_dec_rec(x) + digits@.reverse());
        }
    }
    let len = digits.len();
    let mut r: Vec<u8> = Vec::new();
    let mut i = len;
    while i > 0
        invariant
            i <= len,
            len == digits@.len(),
            r@.len() == len - i,
            forall|k: int| 0 <= k < r@.len() ==> r@[k] == digits@[len - 1 - k],
        decreases i,
    {
        i = i - 1;
        r.push(digits[i]);
    }
    proof {
        assert(r@ =~= digits@.reverse());
        assert(spec_dec_rec(x) + digits@.reverse() =~= digits@.reverse());
        assert(r@ =~= spec_dec(v));
    }
    r
}

/// First pass over one source line: strip the comment, record the
/// leading labels, classify the mnemonic and its operand, and advance
/// the address counter by the instruction's length.
#[verifier::spinoff_prover]
#[verifier::rlimit(100)]
fn parse_line(
    line: &Vec<u8>,
    line_no: usize,
    address: u32,
    labels: &mut SymbolTable,
    instrs: &mut Vec<RawInstruction>,
) -> (r: Result<u32, AsmError>)
    requires
        st_wf(old(labels)@),
    ensures
        st_wf(final(labels)@),
        ({
            let sp = spec_parse_line(line@, line_no, address, old(labels)@);
            &&& (r is Ok <==> sp is Ok)
            &&& (r is Ok ==> final(labels)@ == sp->Ok_0.0 && instrs_view(final(instrs)@)
                == instrs_view(old(instrs)@) + (match sp->Ok_0.1 {
                Some(iv) => seq![iv],
                None => Seq::<InstrV>::empty(),
            }) && r->Ok_0 == sp->Ok_0.2)
            &&& (r is Err ==> err_view(r->Err_0) == sp->Err_0 && final(instrs)@ == old(instrs)@)
        }),
{
    let ghost labels0 = labels@;
    let end0 = match find_byte(line, 0, line.len(), 59) {
        Some(k) => k,
        None => line.len(),
    };
    proof {
        assert(end0 as int == ({
            let f = spec_find(line@, 0, line@.len() as int, 59);
            if f < 0 {
                line@.len() as int
            } else {
                f
            }
        }));
    }
    let t = trim_range(line, 0, end0);
    let mut s = t.0;
    let mut e = t.1;
    let ghost s0 = s as int;
    let ghost e0 = e as int;
    proof {
        assert(s0 == spec_trim_start(line@, 0, end0 as int));
        assert(e0 == spec_trim_end(line@, s0, end0 as int));
    }
    let mut scanning = true;
    while scanning
        invariant
            s <= e,
            e <= line@.len(),
            st_wf(labels@),
            labels0 == old(labels)@,
            instrs@ == old(instrs)@,
            end0 <= line@.len(),
            end0 as int == ({
                let f = spec_find(line@, 0, line@.len() as int, 59);
                if f < 0 {
                    line@.len() as int
                } else {
                    f
                }
            }),
            s0 == spec_trim_start(line@, 0, end0 as int),
            e0 == spec_trim_end(line@, s0, end0 as int),
            scanning ==> spec_scan_labels(line@, line_no, address, labels0, s0, e0)
                == spec_scan_labels(line@, line_no, address, labels@, s as int, e as int),
            !scanning ==> spec_scan_labels(line@, line_no, address, labels0, s0, e0) == Ok::<
                _,
                AsmErrV,
            >((labels@, s as int, e as int)),
        decreases (if scanning {
            1int
        } else {
            0int
        }) + (e - s),
    {
        match find_byte(line, s, e, 58) {
            Some(c) => {
                let lr = trim_range(line, s, c);
                if lr.0 < lr.1 {
                    let name = slice_of(line, lr.0, lr.1);
                    match labels.get_bytes(&name) {
                        Some(_) => {
                            proof {
                                assert(spec_scan_labels(
                                    line@,
                                    line_no,
                                    address,
                                    labels@,
                                    s as int,
                                    e as int,
                                ) == Err::<(Seq<(Seq<u8>, u32)>, int, int), AsmErrV>(
                                    AsmErrV::DuplicateLabel { line: line_no, name: name@ },
                                ));
                                assert(spec_parse_line(line@, line_no, address, labels0)
                                    == Err::<(Seq<(Seq<u8>, u32)>, Option<InstrV>, u32), _>(
                                    AsmErrV::DuplicateLabel { line: line_no, name: name@ },
                                ));
                            }
                            return Err(AsmError::DuplicateLabel { line: line_no, name });
                        },
                        None => {},
                    }
                    labels.insert(name, address);
                }
                let tr = trim_range(line, c + 1, e);
                s = tr.0;
                e = tr.1;
                if s == e {
                    scanning = false;
                }
            },
            None => {
                scanning = false;
            },
        }
    }
    proof {
        assert(spec_scan_labels(line@, line_no, address, labels0, s0, e0) == Ok::<_, AsmErrV>(
            (labels@, s as int, e as int),
        ));
    }
    if s == e {
        proof {
            assert(instrs_view(instrs@) =~= instrs_view(old(instrs)@) + Seq::<InstrV>::empty());
            assert(spec_parse_line(line@, line_no, address, labels0) == Ok::<_, AsmErrV>(
                (labels@, None::<InstrV>, address),
            ));
        }
        return Ok(address);
    }
    let a = s;
    let b = token_end(line, a, e);
    let c0 = skip_ws(line, b, e);
    let has_opnd = c0 < e;
    let opnd_s = c0;
    let opnd_e = if has_opnd {
        token_end(line, c0, e)
    } else {
        e
    };
    if has_opnd {
        let c2 = skip_ws(line, opnd_e, e);
        if c2 < e {
            let bad = upper_of(line, a, b);
            proof {
                assert(spec_parse_line(line@, line_no, address, labels0) == Err::<
                    (Seq<(Seq<u8>, u32)>, Option<InstrV>, u32),
                    _,
                >(AsmErrV::UnexpectedOperand { line: line_no, instruction: bad@ }));
            }
            return Err(AsmError::UnexpectedOperand { line: line_no, instruction: bad });
        }
    }
    let up = upper_of(line, a, b);
    let op0 = match mnemonic_of(&up) {
        Some(o) => o,
        None => {
            let tok = slice_of(line, a, b);
            proof {
                assert(spec_parse_line(line@, line_no, address, labels0) == Err::<
                    (Seq<(Seq<u8>, u32)>, Option<InstrV>, u32),
                    _,
                >(AsmErrV::UnknownInstruction { line: line_no, token: tok@ }));
            }
            return Err(AsmError::UnknownInstruction { line: line_no, token: tok });
        },
    };
    let ghost spo = spec_parse_operand(
        line@,
        line_no,
        address,
        labels@,
        op0,
        up@,
        has_opnd,
        opnd_s as int,
        opnd_e as int,
    );
    proof {
        assert(spec_parse_line(line@, line_no, address, labels0) == spo);
    }
    let op = match op0 {
        Op::Lda | Op::Ldx | Op::Ldy => {
            if !has_opnd {
                proof {
                    assert(spo == Err::<(Seq<(Seq<u8>, u32)>, Option<InstrV>, u32), _>(
                        AsmErrV::MissingOperand { line: line_no, instruction: up@ },
                    ));
                }
                return Err(AsmError::MissingOperand { line: line_no, instruction: up });
            }
            if line[opnd_s] == 35 {
                op0
            } else {
                match op0 {
                    Op::Lda => Op::LdaAbs,
                    Op::Ldx => Op::LdxAbs,
                    _ => Op::LdyAbs,
                }
            }
        },
        _ => op0,
    };
    let class = op_class(op);
    let operand: Option<Operand> = match class {
        OpClass::NoOperand => {
            if has_opnd {
                proof {
                    assert(spo == Err::<(Seq<(Seq<u8>, u32)>, Option<InstrV>, u32), _>(
                        AsmErrV::UnexpectedOperand { line: line_no, instruction: up@ },
                    ));
                }
                return Err(AsmError::UnexpectedOperand { line: line_no, instruction: up });
            }
            None
        },
        OpClass::Imm16 | OpClass::Imm8 => {
            if !has_opnd {
                proof {
                    assert(spo == Err::<(Seq<(Seq<u8>, u32)>, Option<InstrV>, u32), _>(
                        AsmErrV::MissingOperand { line: line_no, instruction: up@ },
                    ));
                }
                return Err(AsmError::MissingOperand { line: line_no, instruction: up });
            }
            if line[opnd_s] != 35 {
                let bad = slice_of(line, opnd_s, opnd_e);
                proof {
                    assert(spo == Err::<(Seq<(Seq<u8>, u32)>, Option<InstrV>, u32), _>(
                        AsmErrV::InvalidNumber { line: line_no, operand: bad@ },
                    ));
                }
                return Err(AsmError::InvalidNumber { line: line_no, operand: bad });
            }
            let nr = trim_range(line, opnd_s + 1, opnd_e);
            match parse_number_range(line, nr.0, nr.1) {
                Some(v) => Some(Operand::Value(v)),
                None => {
                    let bad = slice_of(line, nr.0, nr.1);
                    proof {
                        assert(spo == Err::<(Seq<(Seq<u8>, u32)>, Option<InstrV>, u32), _>(
                            AsmErrV::InvalidNumber { line: line_no, operand: bad@ },
                        ));
                    }
                    return Err(AsmError::InvalidNumber { line: line_no, operand: bad });
                },
            }
        },
        OpClass::Register => {
            if !has_opnd {
                proof {
                    assert(spo == Err::<(Seq<(Seq<u8>, u32)>, Option<InstrV>, u32), _>(
                        AsmErrV::MissingOperand { line: line_no, instruction: up@ },
                    ));
                }
                return Err(AsmError::MissingOperand { line: line_no, instruction: up });
            }
            match parse_register(line, opnd_s, opnd_e) {
                Some(v) => Some(Operand::Value(v)),
                None => {
                    let bad = slice_of(line, opnd_s, opnd_e);
                    proof {
                        assert(spo == Err::<(Seq<(Seq<u8>, u32)>, Option<InstrV>, u32), _>(
                            AsmErrV::InvalidNumber { line: line_no, operand: bad@ },
                        ));
                    }
                    return Err(AsmError::InvalidNumber { line: line_no, operand: bad });
                },
            }
        },
        OpClass::Address | OpClass::Branch => {
            if !has_opnd {
                proof {
                    assert(spo == Err::<(Seq<(Seq<u8>, u32)>, Option<InstrV>, u32), _>(
                        AsmErrV::MissingOperand { line: line_no, instruction: up@ },
                    ));
                }
                return Err(AsmError::MissingOperand { line: line_no, instruction: up });
            }
            match parse_number_range(line, opnd_s, opnd_e) {
                Some(v) => Some(Operand::Value(v)),
                None => Some(Operand::Label(slice_of(line, opnd_s, opnd_e))),
            }
        },
    };
    let instr = RawInstruction { op, operand, address, line: line_no };
    let ghost iv = instr@;
    instrs.push(instr);
    proof {
        assert(instrs_view(instrs@) =~= instrs_view(old(instrs)@) + seq![iv]);
        assert(spo == Ok::<_, AsmErrV>(
            (
                labels@,
                Some(iv),
                vstd::wrapping::u32_specs::wrapping_add(address, spec_op_len_of(class)),
            ),
        ));
    }
    Ok(address.wrapping_add(op_len(class)))
}

/// Encoded length of an instruction.
fn op_len(class: OpClass) -> (r: u32)
    ensures
        r == spec_op_len_of(class),
{
    match class {
        OpClass::NoOperand => 1,
        OpClass::Imm16 => 3,
        OpClass::Register => 2,
        OpClass::Imm8 => 2,
        OpClass::Address => 4,
        OpClass::Branch => 2,
    }
}

/// Second pass over one instruction: resolve a label operand and append
/// the encoding.
#[verifier::spinoff_prover]
#[verifier::rlimit(100)]
fn encode_one(inst: &RawInstruction, labels: &SymbolTable, out: &mut Vec<u8>) -> (r: Result<
    (),
    AsmError,
>)
    ensures
        ({
            let sp = spec_encode_one(inst@, labels@);
            &&& (r is Ok <==> sp is Ok)
            &&& (r is Ok ==> final(out)@ == old(out)@ + sp->Ok_0)
            &&& (r is Err ==> err_view(r->Err_0) == sp->Err_0 && final(out)@ == old(out)@)
        }),
{
    let ghost se = spec_encode_one(inst@, labels@);
    let class = op_class(inst.op);
    if matches!(class, OpClass::NoOperand) {
        out.push(opcode(inst.op));
        proof {
            assert(out@ =~= old(out)@ + seq![spec_opcode(inst@.op)]);
            assert(se == Ok::<Seq<u8>, AsmErrV>(seq![spec_opcode(inst@.op)]));
        }
        return Ok(());
    }
    let value: u32 = match &inst.operand {
        Some(Operand::Value(v)) => {
            proof {
                assert(inst@.operand == Some(OperandV::Value(*v)));
            }
            *v
        },
        Some(Operand::Label(name)) => {
            proof {
                assert(inst@.operand == Some(OperandV::Label(name@)));
            }
            match labels.get_bytes(name) {
                Some(v) => v,
                None => {
                    let nm = slice_of(name, 0, name.len());
                    proof {
                        assert(nm@ =~= name@);
                        assert(se == Err::<Seq<u8>, AsmErrV>(AsmErrV::LabelNotFound {
                            name: nm@,
                        }));
                    }
                    return Err(AsmError::LabelNotFound { name: nm });
                },
            }
        },
        None => {
            proof {
                assert(inst@.operand is None);
                assert(se == Err::<Seq<u8>, AsmErrV>(AsmErrV::MissingOperand {
                    line: inst@.line,
                    instruction: Seq::empty(),
                }));
            }
            return Err(AsmError::MissingOperand { line: inst.line, instruction: Vec::new() });
        },
    };
    match class {
        OpClass::NoOperand => Ok(()),
        OpClass::Imm16 => {
            out.push(opcode(inst.op));
            out.push((value % 256) as u8);
            out.push(((value / 256) % 256) as u8);
            proof {
                assert(out@ =~= old(out)@ + spec_encode_one(inst@, labels@)->Ok_0);
            }
            Ok(())
        },
        OpClass::Imm8 | OpClass::Register => {
            out.push(opcode(inst.op));
            out.push((value % 256) as u8);
            proof {
                assert(out@ =~= old(out)@ + spec_encode_one(inst@, labels@)->Ok_0);
            }
            Ok(())
        },
        OpClass::Address => {
            if value >= 0x0100_0000 {
                let bad = dec_bytes(value);
                proof {
                    assert(se == Err::<Seq<u8>, AsmErrV>(AsmErrV::InvalidNumber {
                        line: inst@.line,
                        operand: bad@,
                    }));
                }
                return Err(AsmError::InvalidNumber { line: inst.line, operand: bad });
            }
            out.push(opcode(inst.op));
            out.push((value % 256) as u8);
            out.push(((value / 256) % 256) as u8);
            out.push(((value / 65536) % 256) as u8);
            proof {
                assert(out@ =~= old(out)@ + spec_encode_one(inst@, labels@)->Ok_0);
            }
            Ok(())
        },
        OpClass::Branch => {
            match branch_offset(value, inst.address) {
                Ok(off) => {
                    out.push(opcode(inst.op));
                    let byte: u8 = if off >= 0 {
                        off as u8
                    } else {
                        (off as i16 + 256) as u8
                    };
                    out.push(byte);
                    proof {
                        assert(out@ =~= old(out)@ + spec_encode_one(inst@, labels@)->Ok_0);
                    }
                    Ok(())
                },
                Err(offset) => {
                    let label: Vec<u8> = match &inst.operand {
                        Some(Operand::Label(name)) => {
                            proof {
                                assert(inst@.operand == Some(OperandV::Label(name@)));
                            }
                            let nm = slice_of(name, 0, name.len());
                            proof {
                                assert(nm@ =~= name@);
                            }
                            nm
                        },
                        _ => dec_bytes(value),
                    };
                    proof {
                        assert(se == Err::<Seq<u8>, AsmErrV>(AsmErrV::BranchOutOfRange {
                            label: label@,
                            offset,
                        }));
                    }
                    Err(AsmError::BranchOutOfRange { label, offset })
                },
            }
        },
    }
}

/// Assemble a small NRAW program into bytes and label positions: the
/// first pass collects labels and sizes instructions, the second
/// resolves labels and encodes.  The result is exactly the spec-level
/// two-pass assembly of the source bytes, error cases included; on
/// success the label table holds each name once.
#[verifier::spinoff_prover]
#[verifier::rlimit(100)]
pub fn assemble(source: &str) -> (r: Result<AssembledProgram, AsmError>)
    ensures
        r is Ok ==> st_wf(r->Ok_0.labels@),
        ({
            let sp = spec_asm(source.spec_bytes());
            &&& (r is Ok <==> sp is Ok)
            &&& (r is Ok ==> r->Ok_0.bytes@ == sp->Ok_0.0 && r->Ok_0.labels@ == sp->Ok_0.1)
            &&& (r is Err ==> err_view(r->Err_0) == sp->Err_0)
        }),
{
    let src = source.as_bytes();
    let mut data: Vec<u8> = Vec::new();
    let mut i: usize = 0;
    while i < src.len()
        invariant
            i <= src@.len(),
            data@ == src@.subrange(0, i as int),
        decreases src@.len() - i,
    {
        data.push(src[i]);
        i = i + 1;
        proof {
            assert(data@ =~= src@.subrange(0, i as int));
        }
    }
    proof {
        assert(data@ =~= src@);
    }
    let mut lines: Vec<Vec<u8>> = Vec::new();
    let mut start: usize = 0;
    let mut j: usize = 0;
    proof {
        assert(lines_view(lines@) =~= Seq::<Seq<u8>>::empty());
    }
    while j < data.len()
        invariant
            start <= j,
            j <= data@.len(),
            spec_lines(data@) == spec_lines_from(
                data@,
                j as int,
                start as int,
                lines_view(lines@),
            ),
        decreases data@.len() - j,
    {
        if data[j] == 10 {
            let ghost lv0 = lines_view(lines@);
            let ghost start0 = start as int;
            let line = slice_of(&data, start, j);
            lines.push(line);
            start = j + 1;
            proof {
                assert(lines_view(lines@) =~= lv0.push(data@.subrange(start0, j as int)));
            }
        }
        j = j + 1;
        proof {
            assert(spec_lines(data@) == spec_lines_from(
                data@,
                j as int,
                start as int,
                lines_view(lines@),
            ));
        }
    }
    let tail = slice_of(&data, start, data.len());
    lines.push(tail);
    proof {
        assert(lines_view(lines@) =~= spec_lines(data@));
    }
    let ghost linesv = lines_view(lines@);
    proof {
        assert(linesv == spec_lines(source.spec_bytes()));
    }
    let mut labels = SymbolTable::new();
    let mut instrs: Vec<RawInstruction> = Vec::new();
    let mut address: u32 = 0;
    let mut li: usize = 0;
    proof {
        assert(labels@ =~= Seq::<(Seq<u8>, u32)>::empty());
        assert(instrs_view(instrs@) =~= Seq::<InstrV>::empty());
    }
    while li < lines.len()
        invariant
            li <= lines@.len(),
            linesv == lines_view(lines@),
            linesv == spec_lines(source.spec_bytes()),
            st_wf(labels@),
            spec_pass1(linesv, 0, Seq::empty(), Seq::empty(), 0u32) == spec_pass1(
                linesv,
                li as int,
                labels@,
                instrs_view(instrs@),
                address,
            ),
        decreases lines@.len() - li,
    {
        proof {
            assert(lines@[li as int]@ == linesv[li as int]);
        }
        match parse_line(&lines[li], li + 1, address, &mut labels, &mut instrs) {
            Ok(a) => {
                address = a;
            },
            Err(err) => {
                proof {
                    assert(spec_pass1(linesv, 0, Seq::empty(), Seq::empty(), 0u32) == Err::<
                        (Seq<(Seq<u8>, u32)>, Seq<InstrV>, u32),
                        AsmErrV,
                    >(err_view(err)));
                    assert(spec_asm(source.spec_bytes()) == Err::<
                        (Seq<u8>, Seq<(Seq<u8>, u32)>),
                        AsmErrV,
                    >(err_view(err)));
                }
                return Err(err);
            },
        }
        li = li + 1;
    }
    let ghost labelsv = labels@;
    let ghost instrsv = instrs_view(instrs@);
    proof {
        assert(spec_pass1(linesv, 0, Seq::empty(), Seq::empty(), 0u32) == Ok::<_, AsmErrV>(
            (labelsv, instrsv, address),
        ));
    }
    let mut bytes: Vec<u8> = Vec::new();
    let mut k: usize = 0;
    proof {
        assert(bytes@ =~= Seq::<u8>::empty());
    }
    while k < instrs.len()
        invariant
            k <= instrs@.len(),
            st_wf(labels@),
            labels@ == labelsv,
            instrsv == instrs_view(instrs@),
            linesv == spec_lines(source.spec_bytes()),
            spec_pass1(linesv, 0, Seq::empty(), Seq::empty(), 0u32) == Ok::<_, AsmErrV>(
                (labelsv, instrsv, address),
            ),
            spec_pass2(instrsv, 0, labelsv, Seq::empty()) == spec_pass2(
                instrsv,
                k as int,
                labelsv,
                bytes@,
            ),
        decreases instrs@.len() - k,
    {
        proof {
            assert(instrs@[k as int]@ == instrsv[k as int]);
        }
        match encode_one(&instrs[k], &labels, &mut bytes) {
            Ok(_) => {},
            Err(err) => {
                proof {
                    assert(spec_pass2(instrsv, 0, labelsv, Seq::empty()) == Err::<
                        Seq<u8>,
                        AsmErrV,
                    >(err_view(err)));
                    assert(spec_asm(source.spec_bytes()) == Err::<
                        (Seq<u8>, Seq<(Seq<u8>, u32)>),
                        AsmErrV,
                    >(err_view(err)));
                }
                return Err(err);
            },
        }
        k = k + 1;
    }
    proof {
        assert(spec_pass2(instrsv, 0, labelsv, Seq::empty()) == Ok::<Seq<u8>, AsmErrV>(bytes@));
        assert(spec_asm(source.spec_bytes()) == Ok::<_, AsmErrV>((bytes@, labelsv)));
    }
    Ok(AssembledProgram { bytes, labels })
}

} // verus!
