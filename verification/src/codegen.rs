//! The code generator: a pure mapping from one parsed instruction to the
//! target-machine lines that realize it.
//!
//! Generation happens in two layers. An instruction first becomes a short
//! sequence of structured target operations (`Op`); each operation is then
//! rendered as one text line. The structured layer is what the machine-level
//! lemmas about the generated code are stated over.
//!
//! An operand-shape combination with no rule here is not fatal: it becomes a
//! single diagnostic line naming the opcode and the unmatched shapes, and
//! translation continues with the next instruction.
//!
//! One shape is deliberately narrow: `Adc` of an absolute address into a
//! virtual register adds into the register's low byte only and discards the
//! carry, rather than propagating it into the high byte. That 8-bit
//! behaviour is kept as a documented limitation of this opcode table.
//! Likewise, operands naming the accumulator byte registers are treated as
//! their full-width register identity; the legacy accumulator-only paths of
//! older opcode tables are subsumed by the register-to-register rules.

use vstd::prelude::*;

use crate::arg::{Arg, SpecArg};
use crate::asm_line::{AsmLine, SpecLine};
use crate::text::{dec_int, dec_nat, push_dec_i32, push_dec_u32, push_str};

verus! {

/// The opcode names used by diagnostic lines.
#[derive(Debug, Clone, Copy, PartialEq, Eq, Structural)]
pub enum OpName {
    Xor,
    Adc,
    Mov,
    MovZ,
    Cmp,
    CMov,
    Inc,
    Dec,
    Jmp,
    Push,
}

/// A storage location a target operation can address.
#[derive(Debug)]
pub enum Loc {
    /// Low byte of a virtual register's 2-byte cell.
    VregLo(char),
    /// High byte of a virtual register's 2-byte cell.
    VregHi(char),
    /// Low byte of the fixed 2-byte scratch cell.
    TmpLo,
    /// High byte of the fixed 2-byte scratch cell.
    TmpHi,
    /// The 1-byte comparison-flag cell.
    Flag,
    /// An absolute memory address.
    Abs(i32),
}

/// The mathematical value of a `Loc`.
pub enum SpecLoc {
    VregLo(char),
    VregHi(char),
    TmpLo,
    TmpHi,
    Flag,
    Abs(int),
}

impl View for Loc {
    type V = SpecLoc;

    open spec fn view(&self) -> SpecLoc {
        match self {
            Loc::VregLo(r) => SpecLoc::VregLo(*r),
            Loc::VregHi(r) => SpecLoc::VregHi(*r),
            Loc::TmpLo => SpecLoc::TmpLo,
            Loc::TmpHi => SpecLoc::TmpHi,
            Loc::Flag => SpecLoc::Flag,
            Loc::Abs(a) => SpecLoc::Abs(*a as int),
        }
    }
}

/// One structured target operation; each renders as one output line.
#[derive(Debug)]
pub enum Op {
    /// A label line: the name, standing alone.
    LabelLine(Vec<char>),
    /// An unconditional jump to a label.
    JmpL(Vec<char>),
    /// Push the accumulator.
    Pha,
    /// Pull the accumulator.
    Pla,
    /// Copy the index register to the accumulator.
    Tya,
    /// Copy the accumulator to the index register.
    Tay,
    /// Clear the carry flag.
    Clc,
    /// Set the carry flag.
    Sec,
    /// Load an immediate byte.
    LdaImm(i32),
    /// Load the low byte of a 16-bit immediate.
    LdaLo(i32),
    /// Load the high byte of a 16-bit immediate.
    LdaHi(i32),
    /// Load from a location.
    Lda(Loc),
    /// Store to a location.
    Sta(Loc),
    /// Store through the scratch-cell pointer, indexed.
    StaInd,
    /// Zero the index register.
    Ldy0,
    /// Add a location's byte into the accumulator, with carry.
    Adc(Loc),
    /// Add the low byte of a 16-bit immediate, with carry.
    AdcLo(u32),
    /// Add the high byte of a 16-bit immediate, with carry.
    AdcHi(u32),
    /// Subtract the low byte of a 16-bit immediate, with borrow.
    SbcLo(u32),
    /// Subtract the high byte of a 16-bit immediate, with borrow.
    SbcHi(u32),
    /// Compare the accumulator against an immediate byte.
    CmpImm(i32),
    /// Latch the comparison outcome into the flag cell.
    JsrCmpLatch,
    /// Branch forward to the local marker when the zero flag is set.
    Beq,
    /// The local branch marker, pulling the accumulator.
    MarkerPla,
    /// 16-bit decrement of a virtual register's cell.
    Dew(char),
    /// Diagnostic line for a binary opcode with unmatched operand shapes.
    Diag2(OpName, Arg, Arg),
    /// Diagnostic line for a unary opcode with an unmatched operand shape.
    Diag1(OpName, Arg),
}

/// The mathematical value of an `Op`.
pub enum SpecOp {
    LabelLine(Seq<char>),
    JmpL(Seq<char>),
    Pha,
    Pla,
    Tya,
    Tay,
    Clc,
    Sec,
    LdaImm(int),
    LdaLo(int),
    LdaHi(int),
    Lda(SpecLoc),
    Sta(SpecLoc),
    StaInd,
    Ldy0,
    Adc(SpecLoc),
    AdcLo(int),
    AdcHi(int),
    SbcLo(int),
    SbcHi(int),
    CmpImm(int),
    JsrCmpLatch,
    Beq,
    MarkerPla,
    Dew(char),
    Diag2(OpName, SpecArg, SpecArg),
    Diag1(OpName, SpecArg),
}

impl View for Op {
    type V = SpecOp;

    open spec fn view(&self) -> SpecOp {
        match self {
            Op::LabelLine(s) => SpecOp::LabelLine(s@),
            Op::JmpL(s) => SpecOp::JmpL(s@),
            Op::Pha => SpecOp::Pha,
            Op::Pla => SpecOp::Pla,
            Op::Tya => SpecOp::Tya,
            Op::Tay => SpecOp::Tay,
            Op::Clc => SpecOp::Clc,
            Op::Sec => SpecOp::Sec,
            Op::LdaImm(n) => SpecOp::LdaImm(*n as int),
            Op::LdaLo(n) => SpecOp::LdaLo(*n as int),
            Op::LdaHi(n) => SpecOp::LdaHi(*n as int),
            Op::Lda(l) => SpecOp::Lda(l@),
            Op::Sta(l) => SpecOp::Sta(l@),
            Op::StaInd => SpecOp::StaInd,
            Op::Ldy0 => SpecOp::Ldy0,
            Op::Adc(l) => SpecOp::Adc(l@),
            Op::AdcLo(n) => SpecOp::AdcLo(*n as int),
            Op::AdcHi(n) => SpecOp::AdcHi(*n as int),
            Op::SbcLo(n) => SpecOp::SbcLo(*n as int),
            Op::SbcHi(n) => SpecOp::SbcHi(*n as int),
            Op::CmpImm(n) => SpecOp::CmpImm(*n as int),
            Op::JsrCmpLatch => SpecOp::JsrCmpLatch,
            Op::Beq => SpecOp::Beq,
            Op::MarkerPla => SpecOp::MarkerPla,
            Op::Dew(r) => SpecOp::Dew(*r),
            Op::Diag2(n, a, b) => SpecOp::Diag2(*n, a@, b@),
            Op::Diag1(n, a) => SpecOp::Diag1(*n, a@),
        }
    }
}

/// The views of a sequence of operations.
pub open spec fn ops_views(ops: Seq<Op>) -> Seq<SpecOp> {
    ops.map(|i: int, o: Op| o@)
}

/// The code-generation table: the operations for one instruction, by
/// opcode and operand shape.
pub open spec fn spec_generate(l: SpecLine) -> Seq<SpecOp> {
    match l {
        SpecLine::Label(name) => seq![SpecOp::LabelLine(name)],
        SpecLine::Jmp(a) => match a {
            SpecArg::Label(name) => seq![SpecOp::JmpL(name)],
            _ => seq![SpecOp::Diag1(OpName::Jmp, a)],
        },
        SpecLine::Xor(a, b) => match (a, b) {
            (SpecArg::VirtualRegister(x), SpecArg::VirtualRegister(y)) => {
                if x == y {
                    seq![
                        SpecOp::Pha,
                        SpecOp::LdaImm(0),
                        SpecOp::Sta(SpecLoc::VregLo(x)),
                        SpecOp::Sta(SpecLoc::VregHi(x)),
                        SpecOp::Pla,
                    ]
                } else {
                    seq![SpecOp::Diag2(OpName::Xor, a, b)]
                }
            },
            _ => seq![SpecOp::Diag2(OpName::Xor, a, b)],
        },
        SpecLine::Adc(a, b) => match (a, b) {
            (SpecArg::Literal(n), SpecArg::VirtualRegister(r)) => {
                if n < 0 {
                    seq![
                        SpecOp::Pha,
                        SpecOp::Sec,
                        SpecOp::Lda(SpecLoc::VregLo(r)),
                        SpecOp::SbcLo(-n),
                        SpecOp::Sta(SpecLoc::VregLo(r)),
                        SpecOp::Lda(SpecLoc::VregHi(r)),
                        SpecOp::SbcHi(-n),
                        SpecOp::Sta(SpecLoc::VregHi(r)),
                        SpecOp::Pla,
                    ]
                } else {
                    seq![SpecOp::Diag2(OpName::Adc, a, b)]
                }
            },
            (SpecArg::AbsoluteAddress(addr), SpecArg::VirtualRegister(r)) => {
                seq![
                    SpecOp::Pha,
                    SpecOp::Clc,
                    SpecOp::Lda(SpecLoc::VregLo(r)),
                    SpecOp::Adc(SpecLoc::Abs(addr)),
                    SpecOp::Sta(SpecLoc::VregLo(r)),
                    SpecOp::Pla,
                ]
            },
            _ => seq![SpecOp::Diag2(OpName::Adc, a, b)],
        },
        SpecLine::MovZ(a, b) => match (a, b) {
            (SpecArg::VirtualRegister(x), SpecArg::VirtualRegister(y)) => {
                if x == y {
                    seq![]
                } else {
                    seq![
                        SpecOp::Pha,
                        SpecOp::Lda(SpecLoc::VregLo(x)),
                        SpecOp::Sta(SpecLoc::VregLo(y)),
                        SpecOp::Lda(SpecLoc::VregHi(x)),
                        SpecOp::Sta(SpecLoc::VregHi(y)),
                        SpecOp::Pla,
                    ]
                }
            },
            _ => seq![SpecOp::Diag2(OpName::MovZ, a, b)],
        },
        SpecLine::Cmp(a, b) => match (a, b) {
            (SpecArg::Literal(n), SpecArg::VirtualRegister(r)) => {
                seq![
                    SpecOp::Pha,
                    SpecOp::Lda(SpecLoc::VregLo(r)),
                    SpecOp::CmpImm(n),
                    SpecOp::JsrCmpLatch,
                    SpecOp::Pla,
                ]
            },
            _ => seq![SpecOp::Diag2(OpName::Cmp, a, b)],
        },
        SpecLine::CMov(a, b) => match (a, b) {
            (SpecArg::VirtualRegister(x), SpecArg::VirtualRegister(y)) => {
                seq![
                    SpecOp::Pha,
                    SpecOp::Lda(SpecLoc::Flag),
                    SpecOp::CmpImm(1),
                    SpecOp::Beq,
                    SpecOp::Lda(SpecLoc::VregLo(x)),
                    SpecOp::Sta(SpecLoc::VregLo(y)),
                    SpecOp::Lda(SpecLoc::VregHi(x)),
                    SpecOp::Sta(SpecLoc::VregHi(y)),
                    SpecOp::MarkerPla,
                ]
            },
            _ => seq![SpecOp::Diag2(OpName::CMov, a, b)],
        },
        SpecLine::Mov(a, b) => match (a, b) {
            (SpecArg::Literal(n), SpecArg::SumAddress(x, y)) => {
                seq![
                    SpecOp::Pha,
                    SpecOp::Tya,
                    SpecOp::Pha,
                    SpecOp::Lda(SpecLoc::VregLo(x)),
                    SpecOp::Sta(SpecLoc::TmpLo),
                    SpecOp::Lda(SpecLoc::VregHi(x)),
                    SpecOp::Sta(SpecLoc::TmpHi),
                    SpecOp::Clc,
                    SpecOp::Lda(SpecLoc::TmpLo),
                    SpecOp::Adc(SpecLoc::VregLo(y)),
                    SpecOp::Sta(SpecLoc::TmpLo),
                    SpecOp::Lda(SpecLoc::TmpHi),
                    SpecOp::Adc(SpecLoc::VregHi(y)),
                    SpecOp::Sta(SpecLoc::TmpHi),
                    SpecOp::Ldy0,
                    SpecOp::LdaImm(n),
                    SpecOp::StaInd,
                    SpecOp::Pla,
                    SpecOp::Tay,
                    SpecOp::Pla,
                ]
            },
            (SpecArg::Literal(n), SpecArg::AbsoluteAddress(addr)) => {
                seq![
                    SpecOp::Pha,
                    SpecOp::LdaImm(n),
                    SpecOp::Sta(SpecLoc::Abs(addr)),
                    SpecOp::Pla,
                ]
            },
            (SpecArg::Literal(n), SpecArg::VirtualRegister(r)) => {
                seq![
                    SpecOp::Pha,
                    SpecOp::LdaLo(n),
                    SpecOp::Sta(SpecLoc::VregLo(r)),
                    SpecOp::LdaHi(n),
                    SpecOp::Sta(SpecLoc::VregHi(r)),
                    SpecOp::Pla,
                ]
            },
            (SpecArg::AbsoluteAddress(addr), SpecArg::VirtualRegister(r)) => {
                seq![
                    SpecOp::Pha,
                    SpecOp::Lda(SpecLoc::Abs(addr)),
                    SpecOp::Sta(SpecLoc::VregLo(r)),
                    SpecOp::Pla,
                ]
            },
            (SpecArg::VirtualRegister(r), SpecArg::AbsoluteAddress(addr)) => {
                seq![
                    SpecOp::Pha,
                    SpecOp::Lda(SpecLoc::VregLo(r)),
                    SpecOp::Sta(SpecLoc::Abs(addr)),
                    SpecOp::Pla,
                ]
            },
            (SpecArg::VirtualRegister(x), SpecArg::VirtualRegister(y)) => {
                seq![
                    SpecOp::Pha,
                    SpecOp::Lda(SpecLoc::VregLo(x)),
                    SpecOp::Sta(SpecLoc::VregLo(y)),
                    SpecOp::Lda(SpecLoc::VregHi(x)),
                    SpecOp::Sta(SpecLoc::VregHi(y)),
                    SpecOp::Pla,
                ]
            },
            _ => seq![SpecOp::Diag2(OpName::Mov, a, b)],
        },
        SpecLine::Inc(a) => match a {
            SpecArg::VirtualRegister(r) => {
                seq![
                    SpecOp::Pha,
                    SpecOp::Clc,
                    SpecOp::Lda(SpecLoc::VregLo(r)),
                    SpecOp::AdcLo(1),
                    SpecOp::Sta(SpecLoc::VregLo(r)),
                    SpecOp::Lda(SpecLoc::VregHi(r)),
                    SpecOp::AdcHi(1),
                    SpecOp::Sta(SpecLoc::VregHi(r)),
                    SpecOp::Pla,
                ]
            },
            _ => seq![SpecOp::Diag1(OpName::Inc, a)],
        },
        SpecLine::Dec(a) => match a {
            SpecArg::VirtualRegister(r) => seq![SpecOp::Dew(r)],
            _ => seq![SpecOp::Diag1(OpName::Dec, a)],
        },
        SpecLine::Push(a) => match a {
            SpecArg::VirtualRegister(r) => {
                seq![
                    SpecOp::Sta(SpecLoc::TmpLo),
                    SpecOp::Lda(SpecLoc::VregLo(r)),
                    SpecOp::Pha,
                    SpecOp::Lda(SpecLoc::VregHi(r)),
                    SpecOp::Pha,
                    SpecOp::Lda(SpecLoc::TmpLo),
                ]
            },
            _ => seq![SpecOp::Diag1(OpName::Push, a)],
        },
    }
}

/// The symbol or address text a location stands for in the output.
pub open spec fn spec_loc_text(l: SpecLoc) -> Seq<char> {
    match l {
        SpecLoc::VregLo(r) => "VREG_"@.push(r),
        SpecLoc::VregHi(r) => "VREG_"@.push(r) + "+1"@,
        SpecLoc::TmpLo => "TMPW"@,
        SpecLoc::TmpHi => "TMPW+1"@,
        SpecLoc::Flag => "LAST_CMP"@,
        SpecLoc::Abs(n) => dec_int(n),
    }
}

/// The opcode name shown by a diagnostic line.
pub open spec fn spec_name_text(n: OpName) -> Seq<char> {
    match n {
        OpName::Xor => "XOR"@,
        OpName::Adc => "ADC"@,
        OpName::Mov => "MOV"@,
        OpName::MovZ => "MOVZ"@,
        OpName::Cmp => "CMP"@,
        OpName::CMov => "CMov"@,
        OpName::Inc => "INC"@,
        OpName::Dec => "DEC"@,
        OpName::Jmp => "JMP"@,
        OpName::Push => "PUSH"@,
    }
}

/// The operand shape shown by a diagnostic line: character payloads are
/// quoted like character constants, label payloads like string constants.
pub open spec fn spec_arg_text(a: SpecArg) -> Seq<char> {
    match a {
        SpecArg::Literal(n) => "Literal("@ + dec_int(n) + ")"@,
        SpecArg::VirtualRegister(r) => "VirtualRegister('"@.push(r) + "')"@,
        SpecArg::AbsoluteAddress(n) => "AbsoluteAddress("@ + dec_int(n) + ")"@,
        SpecArg::SumAddress(b, i) => "SumAddress('"@.push(b) + "', '"@.push(i) + "')"@,
        SpecArg::Label(s) => "Label(\""@ + s + "\")"@,
    }
}

/// The one output line an operation renders as.
pub open spec fn spec_render(op: SpecOp) -> Seq<char> {
    match op {
        SpecOp::LabelLine(s) => s,
        SpecOp::JmpL(s) => "\tJMP "@ + s,
        SpecOp::Pha => "\tPHA"@,
        SpecOp::Pla => "\tPLA"@,
        SpecOp::Tya => "\tTYA"@,
        SpecOp::Tay => "\tTAY"@,
        SpecOp::Clc => "\tCLC"@,
        SpecOp::Sec => "\tSEC"@,
        SpecOp::LdaImm(n) => "\tLDA #"@ + dec_int(n),
        SpecOp::LdaLo(n) => "\tLDA #<"@ + dec_int(n),
        SpecOp::LdaHi(n) => "\tLDA #>"@ + dec_int(n),
        SpecOp::Lda(l) => "\tLDA "@ + spec_loc_text(l),
        SpecOp::Sta(l) => "\tSTA "@ + spec_loc_text(l),
        SpecOp::StaInd => "\tSTA (TMPW),y"@,
        SpecOp::Ldy0 => "\tLDY #0"@,
        SpecOp::Adc(l) => "\tADC "@ + spec_loc_text(l),
        SpecOp::AdcLo(n) => "\tADC #<"@ + dec_nat(n),
        SpecOp::AdcHi(n) => "\tADC #>"@ + dec_nat(n),
        SpecOp::SbcLo(n) => "\tSBC #<"@ + dec_nat(n),
        SpecOp::SbcHi(n) => "\tSBC #>"@ + dec_nat(n),
        SpecOp::CmpImm(n) => "\tCMP #"@ + dec_int(n),
        SpecOp::JsrCmpLatch => "\tjsr LAST_CMP_EQUAL"@,
        SpecOp::Beq => "\tBEQ @+"@,
        SpecOp::MarkerPla => "@\tPLA"@,
        SpecOp::Dew(r) => "\tDEW VREG_"@.push(r),
        SpecOp::Diag2(n, a, b) => "Unable to generate code for opcode '"@ + spec_name_text(n)
            + "' with combination of arguments: '"@ + spec_arg_text(a) + "' and '"@
            + spec_arg_text(b) + "'"@,
        SpecOp::Diag1(n, a) => "Unable to generate code for opcode '"@ + spec_name_text(n)
            + "' with argument: '"@ + spec_arg_text(a) + "'"@,
    }
}

/// Appends the symbol or address text of a location.
fn push_loc_text(out: &mut Vec<char>, l: &Loc)
    ensures
        final(out)@ == old(out)@ + spec_loc_text(l@),
{
    match l {
        Loc::VregLo(r) => {
            push_str(out, "VREG_");
            out.push(*r);
        },
        Loc::VregHi(r) => {
            push_str(out, "VREG_");
            out.push(*r);
            push_str(out, "+1");
        },
        Loc::TmpLo => {
            push_str(out, "TMPW");
        },
        Loc::TmpHi => {
            push_str(out, "TMPW+1");
        },
        Loc::Flag => {
            push_str(out, "LAST_CMP");
        },
        Loc::Abs(n) => {
            push_dec_i32(out, *n);
        },
    }
    proof {
        assert(out@ =~= old(out)@ + spec_loc_text(l@));
    }
}

/// Appends the opcode name of a diagnostic line.
fn push_name_text(out: &mut Vec<char>, n: &OpName)
    ensures
        final(out)@ == old(out)@ + spec_name_text(*n),
{
    match n {
        OpName::Xor => push_str(out, "XOR"),
        OpName::Adc => push_str(out, "ADC"),
        OpName::Mov => push_str(out, "MOV"),
        OpName::MovZ => push_str(out, "MOVZ"),
        OpName::Cmp => push_str(out, "CMP"),
        OpName::CMov => push_str(out, "CMov"),
        OpName::Inc => push_str(out, "INC"),
        OpName::Dec => push_str(out, "DEC"),
        OpName::Jmp => push_str(out, "JMP"),
        OpName::Push => push_str(out, "PUSH"),
    }
}

/// Appends the shape text of an operand in a diagnostic line.
fn push_arg_text(out: &mut Vec<char>, a: &Arg)
    ensures
        final(out)@ == old(out)@ + spec_arg_text(a@),
{
    match a {
        Arg::Literal(n) => {
            push_str(out, "Literal(");
            push_dec_i32(out, *n);
            push_str(out, ")");
        },
        Arg::VirtualRegister(r) => {
            push_str(out, "VirtualRegister('");
            out.push(*r);
            push_str(out, "')");
        },
        Arg::AbsoluteAddress(n) => {
            push_str(out, "AbsoluteAddress(");
            push_dec_i32(out, *n);
            push_str(out, ")");
        },
        Arg::SumAddress(b, i) => {
            push_str(out, "SumAddress('");
            out.push(*b);
            push_str(out, "', '");
            out.push(*i);
            push_str(out, "')");
        },
        Arg::Label(s) => {
            push_str(out, "Label(\"");
            crate::text::push_chars(out, s);
            push_str(out, "\")");
        },
    }
    proof {
        assert(out@ =~= old(out)@ + spec_arg_text(a@));
    }
}

/// Renders one operation as its output line.
pub fn render(op: &Op) -> (v: Vec<char>)
    ensures
        v@ == spec_render(op@),
{
    let mut v: Vec<char> = Vec::new();
    match op {
        Op::LabelLine(s) => {
            crate::text::push_chars(&mut v, s);
        },
        Op::JmpL(s) => {
            push_str(&mut v, "\tJMP ");
            crate::text::push_chars(&mut v, s);
        },
        Op::Pha => push_str(&mut v, "\tPHA"),
        Op::Pla => push_str(&mut v, "\tPLA"),
        Op::Tya => push_str(&mut v, "\tTYA"),
        Op::Tay => push_str(&mut v, "\tTAY"),
        Op::Clc => push_str(&mut v, "\tCLC"),
        Op::Sec => push_str(&mut v, "\tSEC"),
        Op::LdaImm(n) => {
            push_str(&mut v, "\tLDA #");
            push_dec_i32(&mut v, *n);
        },
        Op::LdaLo(n) => {
            push_str(&mut v, "\tLDA #<");
            push_dec_i32(&mut v, *n);
        },
        Op::LdaHi(n) => {
            push_str(&mut v, "\tLDA #>");
            push_dec_i32(&mut v, *n);
        },
        Op::Lda(l) => {
            push_str(&mut v, "\tLDA ");
            push_loc_text(&mut v, l);
        },
        Op::Sta(l) => {
            push_str(&mut v, "\tSTA ");
            push_loc_text(&mut v, l);
        },
        Op::StaInd => push_str(&mut v, "\tSTA (TMPW),y"),
        Op::Ldy0 => push_str(&mut v, "\tLDY #0"),
        Op::Adc(l) => {
            push_str(&mut v, "\tADC ");
            push_loc_text(&mut v, l);
        },
        Op::AdcLo(n) => {
            push_str(&mut v, "\tADC #<");
            push_dec_u32(&mut v, *n);
        },
        Op::AdcHi(n) => {
            push_str(&mut v, "\tADC #>");
            push_dec_u32(&mut v, *n);
        },
        Op::SbcLo(n) => {
            push_str(&mut v, "\tSBC #<");
            push_dec_u32(&mut v, *n);
        },
        Op::SbcHi(n) => {
            push_str(&mut v, "\tSBC #>");
            push_dec_u32(&mut v, *n);
        },
        Op::CmpImm(n) => {
            push_str(&mut v, "\tCMP #");
            push_dec_i32(&mut v, *n);
        },
        Op::JsrCmpLatch => push_str(&mut v, "\tjsr LAST_CMP_EQUAL"),
        Op::Beq => push_str(&mut v, "\tBEQ @+"),
        Op::MarkerPla => push_str(&mut v, "@\tPLA"),
        Op::Dew(r) => {
            push_str(&mut v, "\tDEW VREG_");
            v.push(*r);
        },
        Op::Diag2(n, a, b) => {
            push_str(&mut v, "Unable to generate code for opcode '");
            push_name_text(&mut v, n);
            push_str(&mut v, "' with combination of arguments: '");
            push_arg_text(&mut v, a);
            push_str(&mut v, "' and '");
            push_arg_text(&mut v, b);
            push_str(&mut v, "'");
        },
        Op::Diag1(n, a) => {
            push_str(&mut v, "Unable to generate code for opcode '");
            push_name_text(&mut v, n);
            push_str(&mut v, "' with argument: '");
            push_arg_text(&mut v, a);
            push_str(&mut v, "'");
        },
    }
    proof {
        assert(v@ =~= spec_render(op@));
    }
    v
}

/// The output lines for one instruction.
pub open spec fn spec_gen_lines(l: SpecLine) -> Seq<Seq<char>> {
    spec_generate(l).map(|i: int, op: SpecOp| spec_render(op))
}

/// Generates and renders the output lines for one instruction.
pub fn generate_lines(l: &AsmLine) -> (r: Vec<Vec<char>>)
    ensures
        crate::asm_line::views_of(r@) == spec_gen_lines(l@),
{
    let ops = generate(l);
    let mut r: Vec<Vec<char>> = Vec::new();
    let mut i: usize = 0;
    proof {
        assert(crate::asm_line::views_of(r@) =~= spec_gen_lines(l@).take(0));
    }
    while i < ops.len()
        invariant
            i <= ops@.len(),
            ops_views(ops@) == spec_generate(l@),
            crate::asm_line::views_of(r@) == spec_gen_lines(l@).take(i as int),
        decreases ops@.len() - i,
    {
        let line = render(&ops[i]);
        proof {
            assert(ops_views(ops@)[i as int] == ops@[i as int]@);
            assert(spec_gen_lines(l@)[i as int] == spec_render(spec_generate(l@)[i as int]));
            assert(line@ == spec_gen_lines(l@)[i as int]);
            assert(crate::asm_line::views_of(r@.push(line)) =~= crate::asm_line::views_of(
                r@,
            ).push(line@));
            assert(crate::asm_line::views_of(r@).push(line@) =~= spec_gen_lines(l@).take(
                i + 1,
            ));
        }
        r.push(line);
        i += 1;
    }
    proof {
        assert(crate::asm_line::views_of(r@) =~= spec_gen_lines(l@));
    }
    r
}

/// A fresh copy of an operand, for a diagnostic line.
fn copy_arg(a: &Arg) -> (r: Arg)
    ensures
        r@ == a@,
{
    match a {
        Arg::Literal(n) => Arg::Literal(*n),
        Arg::VirtualRegister(r) => Arg::VirtualRegister(*r),
        Arg::AbsoluteAddress(n) => Arg::AbsoluteAddress(*n),
        Arg::SumAddress(b, i) => Arg::SumAddress(*b, *i),
        Arg::Label(s) => Arg::Label(crate::text::copy_chars(s)),
    }
}

/// Generates the structured operations for one instruction.
pub fn generate(l: &AsmLine) -> (r: Vec<Op>)
    ensures
        ops_views(r@) == spec_generate(l@),
{
    let r = match l {
        AsmLine::Label(name) => vec![Op::LabelLine(crate::text::copy_chars(name))],
        AsmLine::Jmp(Arg::Label(name)) => vec![Op::JmpL(crate::text::copy_chars(name))],
        AsmLine::Jmp(a) => vec![Op::Diag1(OpName::Jmp, copy_arg(a))],
        AsmLine::Xor(Arg::VirtualRegister(x), Arg::VirtualRegister(y)) if *x == *y => vec![
            Op::Pha,
            Op::LdaImm(0),
            Op::Sta(Loc::VregLo(*x)),
            Op::Sta(Loc::VregHi(*x)),
            Op::Pla,
        ],
        AsmLine::Xor(a, b) => vec![Op::Diag2(OpName::Xor, copy_arg(a), copy_arg(b))],
        AsmLine::Adc(Arg::Literal(n), Arg::VirtualRegister(r)) if *n < 0 => {
            let m: u32 = (-(*n as i64)) as u32;
            vec![
                Op::Pha,
                Op::Sec,
                Op::Lda(Loc::VregLo(*r)),
                Op::SbcLo(m),
                Op::Sta(Loc::VregLo(*r)),
                Op::Lda(Loc::VregHi(*r)),
                Op::SbcHi(m),
                Op::Sta(Loc::VregHi(*r)),
                Op::Pla,
            ]
        },
        AsmLine::Adc(Arg::AbsoluteAddress(addr), Arg::VirtualRegister(r)) => vec![
            Op::Pha,
            Op::Clc,
            Op::Lda(Loc::VregLo(*r)),
            Op::Adc(Loc::Abs(*addr)),
            Op::Sta(Loc::VregLo(*r)),
            Op::Pla,
        ],
        AsmLine::Adc(a, b) => vec![Op::Diag2(OpName::Adc, copy_arg(a), copy_arg(b))],
        AsmLine::MovZ(Arg::VirtualRegister(x), Arg::VirtualRegister(y)) if *x == *y => Vec::new(),
        AsmLine::MovZ(Arg::VirtualRegister(x), Arg::VirtualRegister(y)) => vec![
            Op::Pha,
            Op::Lda(Loc::VregLo(*x)),
            Op::Sta(Loc::VregLo(*y)),
            Op::Lda(Loc::VregHi(*x)),
            Op::Sta(Loc::VregHi(*y)),
            Op::Pla,
        ],
        AsmLine::MovZ(a, b) => vec![Op::Diag2(OpName::MovZ, copy_arg(a), copy_arg(b))],
        AsmLine::Cmp(Arg::Literal(n), Arg::VirtualRegister(r)) => vec![
            Op::Pha,
            Op::Lda(Loc::VregLo(*r)),
            Op::CmpImm(*n),
            Op::JsrCmpLatch,
            Op::Pla,
        ],
        AsmLine::Cmp(a, b) => vec![Op::Diag2(OpName::Cmp, copy_arg(a), copy_arg(b))],
        AsmLine::CMov(Arg::VirtualRegister(x), Arg::VirtualRegister(y)) => vec![
            Op::Pha,
            Op::Lda(Loc::Flag),
            Op::CmpImm(1),
            Op::Beq,
            Op::Lda(Loc::VregLo(*x)),
            Op::Sta(Loc::VregLo(*y)),
            Op::Lda(Loc::VregHi(*x)),
            Op::Sta(Loc::VregHi(*y)),
            Op::MarkerPla,
        ],
        AsmLine::CMov(a, b) => vec![Op::Diag2(OpName::CMov, copy_arg(a), copy_arg(b))],
        AsmLine::Mov(Arg::Literal(n), Arg::SumAddress(x, y)) => vec![
            Op::Pha,
            Op::Tya,
            Op::Pha,
            Op::Lda(Loc::VregLo(*x)),
            Op::Sta(Loc::TmpLo),
            Op::Lda(Loc::VregHi(*x)),
            Op::Sta(Loc::TmpHi),
            Op::Clc,
            Op::Lda(Loc::TmpLo),
            Op::Adc(Loc::VregLo(*y)),
            Op::Sta(Loc::TmpLo),
            Op::Lda(Loc::TmpHi),
            Op::Adc(Loc::VregHi(*y)),
            Op::Sta(Loc::TmpHi),
            Op::Ldy0,
            Op::LdaImm(*n),
            Op::StaInd,
            Op::Pla,
            Op::Tay,
            Op::Pla,
        ],
        AsmLine::Mov(Arg::Literal(n), Arg::AbsoluteAddress(addr)) => vec![
            Op::Pha,
            Op::LdaImm(*n),
            Op::Sta(Loc::Abs(*addr)),
            Op::Pla,
        ],
        AsmLine::Mov(Arg::Literal(n), Arg::VirtualRegister(r)) => vec![
            Op::Pha,
            Op::LdaLo(*n),
            Op::Sta(Loc::VregLo(*r)),
            Op::LdaHi(*n),
            Op::Sta(Loc::VregHi(*r)),
            Op::Pla,
        ],
        AsmLine::Mov(Arg::AbsoluteAddress(addr), Arg::VirtualRegister(r)) => vec![
            Op::Pha,
            Op::Lda(Loc::Abs(*addr)),
            Op::Sta(Loc::VregLo(*r)),
            Op::Pla,
        ],
        AsmLine::Mov(Arg::VirtualRegister(r), Arg::AbsoluteAddress(addr)) => vec![
            Op::Pha,
            Op::Lda(Loc::VregLo(*r)),
            Op::Sta(Loc::Abs(*addr)),
            Op::Pla,
        ],
        AsmLine::Mov(Arg::VirtualRegister(x), Arg::VirtualRegister(y)) => vec![
            Op::Pha,
            Op::Lda(Loc::VregLo(*x)),
            Op::Sta(Loc::VregLo(*y)),
            Op::Lda(Loc::VregHi(*x)),
            Op::Sta(Loc::VregHi(*y)),
            Op::Pla,
        ],
        AsmLine::Mov(a, b) => vec![Op::Diag2(OpName::Mov, copy_arg(a), copy_arg(b))],
        AsmLine::Inc(Arg::VirtualRegister(r)) => vec![
            Op::Pha,
            Op::Clc,
            Op::Lda(Loc::VregLo(*r)),
            Op::AdcLo(1),
            Op::Sta(Loc::VregLo(*r)),
            Op::Lda(Loc::VregHi(*r)),
            Op::AdcHi(1),
            Op::Sta(Loc::VregHi(*r)),
            Op::Pla,
        ],
        AsmLine::Inc(a) => vec![Op::Diag1(OpName::Inc, copy_arg(a))],
        AsmLine::Dec(Arg::VirtualRegister(r)) => vec![Op::Dew(*r)],
        AsmLine::Dec(a) => vec![Op::Diag1(OpName::Dec, copy_arg(a))],
        AsmLine::Push(Arg::VirtualRegister(r)) => vec![
            Op::Sta(Loc::TmpLo),
            Op::Lda(Loc::VregLo(*r)),
            Op::Pha,
            Op::Lda(Loc::VregHi(*r)),
            Op::Pha,
            Op::Lda(Loc::TmpLo),
        ],
        AsmLine::Push(a) => vec![Op::Diag1(OpName::Push, copy_arg(a))],
    };
    proof {
        assert(ops_views(r@) =~= spec_generate(l@));
    }
    r
}

} // verus!
