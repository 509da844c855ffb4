//! A specification-level model of the target machine, used to state what
//! the generated operation sequences do: an accumulator, an index
//! register, the zero and carry flags, the addressed byte cells, the
//! hardware stack, and the stream of indexed indirect stores.

use vstd::prelude::*;

use crate::codegen::{spec_generate, SpecLoc, SpecOp};

verus! {

/// A byte value wrapped into `0 ..= 255`.
pub open spec fn wrap8(n: int) -> int {
    ((n % 256) + 256) % 256
}

/// A 16-bit value wrapped into `0 ..= 65535`.
pub open spec fn wrap16(n: int) -> int {
    ((n % 65536) + 65536) % 65536
}

/// The low byte of a 16-bit immediate, as the assembler's `<` computes it.
pub open spec fn low_byte(n: int) -> int {
    wrap16(n) % 256
}

/// The high byte of a 16-bit immediate, as the assembler's `>` computes it.
pub open spec fn high_byte(n: int) -> int {
    wrap16(n) / 256
}

/// The machine state the generated code runs against.
pub struct Mach {
    /// The accumulator.
    pub a: int,
    /// The index register.
    pub y: int,
    /// The zero flag.
    pub z: bool,
    /// The carry flag.
    pub c: bool,
    /// The byte cells, addressed symbolically.
    pub mem: Map<SpecLoc, int>,
    /// The hardware stack.
    pub stack: Seq<int>,
    /// The indexed indirect stores performed, as (effective address, byte).
    pub writes: Seq<(int, int)>,
}

/// The byte a location holds; unwritten cells read as zero.
pub open spec fn cell(m: Mach, l: SpecLoc) -> int {
    if m.mem.dom().contains(l) {
        m.mem[l]
    } else {
        0
    }
}

/// Loading a value into the accumulator.
pub open spec fn load(m: Mach, v: int) -> Mach {
    Mach { a: v, z: v == 0, ..m }
}

/// An 8-bit add with carry into the accumulator.
pub open spec fn add_with_carry(m: Mach, v: int) -> Mach {
    let s = m.a + v + (if m.c {
        1int
    } else {
        0int
    });
    Mach { a: wrap8(s), z: wrap8(s) == 0, c: s >= 256, ..m }
}

/// An 8-bit subtract with borrow from the accumulator.
pub open spec fn sub_with_borrow(m: Mach, v: int) -> Mach {
    let s = m.a - v - (if m.c {
        0int
    } else {
        1int
    });
    Mach { a: wrap8(s), z: wrap8(s) == 0, c: s >= 0, ..m }
}

/// Pulling the accumulator from the stack.
pub open spec fn pull(m: Mach) -> Mach {
    if m.stack.len() > 0 {
        Mach { a: m.stack.last(), z: m.stack.last() == 0, stack: m.stack.drop_last(), ..m }
    } else {
        m
    }
}

/// The effect of one straight-line operation. Control transfers — label
/// lines, jumps and diagnostics — leave the state alone; the conditional
/// branch is handled by `run`.
pub open spec fn step(op: SpecOp, m: Mach) -> Mach {
    match op {
        SpecOp::LabelLine(_) => m,
        SpecOp::JmpL(_) => m,
        SpecOp::Diag2(_, _, _) => m,
        SpecOp::Diag1(_, _) => m,
        SpecOp::Beq => m,
        SpecOp::Pha => Mach { stack: m.stack.push(m.a), ..m },
        SpecOp::Pla => pull(m),
        SpecOp::MarkerPla => pull(m),
        SpecOp::Tya => load(m, m.y),
        SpecOp::Tay => Mach { y: m.a, ..m },
        SpecOp::Clc => Mach { c: false, ..m },
        SpecOp::Sec => Mach { c: true, ..m },
        SpecOp::LdaImm(n) => load(m, wrap8(n)),
        SpecOp::LdaLo(n) => load(m, low_byte(n)),
        SpecOp::LdaHi(n) => load(m, high_byte(n)),
        SpecOp::Lda(l) => load(m, cell(m, l)),
        SpecOp::Sta(l) => Mach { mem: m.mem.insert(l, m.a), ..m },
        SpecOp::StaInd => {
            let ptr = wrap16(cell(m, SpecLoc::TmpLo) + 256 * cell(m, SpecLoc::TmpHi) + m.y);
            Mach { writes: m.writes.push((ptr, m.a)), ..m }
        },
        SpecOp::Ldy0 => Mach { y: 0, ..m },
        SpecOp::Adc(l) => add_with_carry(m, cell(m, l)),
        SpecOp::AdcLo(n) => add_with_carry(m, low_byte(n)),
        SpecOp::AdcHi(n) => add_with_carry(m, high_byte(n)),
        SpecOp::SbcLo(n) => sub_with_borrow(m, low_byte(n)),
        SpecOp::SbcHi(n) => sub_with_borrow(m, high_byte(n)),
        SpecOp::CmpImm(n) => Mach { z: m.a == wrap8(n), c: m.a >= wrap8(n), ..m },
        SpecOp::JsrCmpLatch => {
            let f: int = if m.z {
                0
            } else {
                1
            };
            Mach { mem: m.mem.insert(SpecLoc::Flag, f), a: f, z: f == 0, ..m }
        },
        SpecOp::Dew(r) => {
            let w = cell(m, SpecLoc::VregLo(r)) + 256 * cell(m, SpecLoc::VregHi(r));
            let d = wrap16(w - 1);
            Mach {
                mem: m.mem.insert(SpecLoc::VregLo(r), d % 256).insert(
                    SpecLoc::VregHi(r),
                    d / 256,
                ),
                z: d % 256 == 0,
                ..m
            }
        },
    }
}

/// Index of the first local branch marker at or after `i`, or the
/// length when none follows.
pub open spec fn marker_from(ops: Seq<SpecOp>, i: int) -> int
    decreases ops.len() - i,
{
    if i < 0 || i >= ops.len() {
        ops.len() as int
    } else if ops[i] is MarkerPla {
        i
    } else {
        marker_from(ops, i + 1)
    }
}

/// Runs a generated operation sequence from position `i` on:
/// straight-line operations step the state; a taken forward branch
/// resumes at the next local marker, whose own pull still executes.
pub open spec fn run_from(ops: Seq<SpecOp>, i: int, m: Mach) -> Mach
    decreases ops.len() - i,
{
    if i < 0 || i >= ops.len() {
        m
    } else if ops[i] is Beq {
        if m.z {
            let k = marker_from(ops, i + 1);
            if i + 1 <= k < ops.len() {
                run_from(ops, k, m)
            } else {
                m
            }
        } else {
            run_from(ops, i + 1, m)
        }
    } else {
        run_from(ops, i + 1, step(ops[i], m))
    }
}

/// Runs a generated operation sequence against a starting state.
pub open spec fn run(ops: Seq<SpecOp>, m: Mach) -> Mach {
    run_from(ops, 0, m)
}

/// Moving a literal in `0 ..= 65535` into a virtual register stores the
/// literal's low byte into the low byte of the register's cell and its
/// high byte into the high byte, touches no other cell, and preserves the
/// caller's accumulator, index register, stack and store stream.
pub proof fn lemma_mov_literal_bytes(n: int, r: char, m: Mach)
    requires
        0 <= n <= 65535,
    ensures
        ({
            let f = run(
                spec_generate(
                    crate::asm_line::SpecLine::Mov(
                        crate::arg::SpecArg::Literal(n),
                        crate::arg::SpecArg::VirtualRegister(r),
                    ),
                ),
                m,
            );
            &&& f.mem == m.mem.insert(SpecLoc::VregLo(r), n % 256).insert(
                SpecLoc::VregHi(r),
                n / 256,
            )
            &&& f.a == m.a
            &&& f.y == m.y
            &&& f.stack == m.stack
            &&& f.writes == m.writes
        }),
{
    let ops = spec_generate(
        crate::asm_line::SpecLine::Mov(
            crate::arg::SpecArg::Literal(n),
            crate::arg::SpecArg::VirtualRegister(r),
        ),
    );
    let m1 = step(SpecOp::Pha, m);
    let m2 = step(SpecOp::LdaLo(n), m1);
    let m3 = step(SpecOp::Sta(SpecLoc::VregLo(r)), m2);
    let m4 = step(SpecOp::LdaHi(n), m3);
    let m5 = step(SpecOp::Sta(SpecLoc::VregHi(r)), m4);
    let m6 = step(SpecOp::Pla, m5);
    assert(run_from(ops, 0, m) == run_from(ops, 1, m1));
    assert(run_from(ops, 1, m1) == run_from(ops, 2, m2));
    assert(run_from(ops, 2, m2) == run_from(ops, 3, m3));
    assert(run_from(ops, 3, m3) == run_from(ops, 4, m4));
    assert(run_from(ops, 4, m4) == run_from(ops, 5, m5));
    assert(run_from(ops, 5, m5) == run_from(ops, 6, m6));
    assert(run_from(ops, 6, m6) == m6);
    assert(low_byte(n) == n % 256);
    assert(high_byte(n) == n / 256);
    assert(m6.stack =~= m.stack);
    assert(m6.mem == m.mem.insert(SpecLoc::VregLo(r), n % 256).insert(
        SpecLoc::VregHi(r),
        n / 256,
    ));
}

/// Clearing a register by `Xor` with itself stores zero into both bytes
/// of that register's cell, whichever identity it is, touches no other
/// cell, and preserves the caller's accumulator, index register, stack
/// and store stream.
pub proof fn lemma_xor_clears(r: char, m: Mach)
    ensures
        ({
            let f = run(
                spec_generate(
                    crate::asm_line::SpecLine::Xor(
                        crate::arg::SpecArg::VirtualRegister(r),
                        crate::arg::SpecArg::VirtualRegister(r),
                    ),
                ),
                m,
            );
            &&& f.mem == m.mem.insert(SpecLoc::VregLo(r), 0).insert(SpecLoc::VregHi(r), 0)
            &&& f.a == m.a
            &&& f.y == m.y
            &&& f.stack == m.stack
            &&& f.writes == m.writes
        }),
{
    let ops = spec_generate(
        crate::asm_line::SpecLine::Xor(
            crate::arg::SpecArg::VirtualRegister(r),
            crate::arg::SpecArg::VirtualRegister(r),
        ),
    );
    let m1 = step(SpecOp::Pha, m);
    let m2 = step(SpecOp::LdaImm(0), m1);
    let m3 = step(SpecOp::Sta(SpecLoc::VregLo(r)), m2);
    let m4 = step(SpecOp::Sta(SpecLoc::VregHi(r)), m3);
    let m5 = step(SpecOp::Pla, m4);
    assert(run_from(ops, 0, m) == run_from(ops, 1, m1));
    assert(run_from(ops, 1, m1) == run_from(ops, 2, m2));
    assert(run_from(ops, 2, m2) == run_from(ops, 3, m3));
    assert(run_from(ops, 3, m3) == run_from(ops, 4, m4));
    assert(run_from(ops, 4, m4) == run_from(ops, 5, m5));
    assert(run_from(ops, 5, m5) == m5);
    assert(wrap8(0) == 0);
    assert(m5.stack =~= m.stack);
    assert(m5.mem == m.mem.insert(SpecLoc::VregLo(r), 0).insert(SpecLoc::VregHi(r), 0));
}

/// The `Xor` expansions leave the accumulator and index register alone.
proof fn preserves_xor(a: crate::arg::SpecArg, b: crate::arg::SpecArg, m: Mach)
    ensures
        run(spec_generate(crate::asm_line::SpecLine::Xor(a, b)), m).a == m.a,
        run(spec_generate(crate::asm_line::SpecLine::Xor(a, b)), m).y == m.y,
{
    let ops = spec_generate(crate::asm_line::SpecLine::Xor(a, b));
    match (a, b) {
        (crate::arg::SpecArg::VirtualRegister(x), crate::arg::SpecArg::VirtualRegister(y)) => {
            if x == y {
                let s1 = step(SpecOp::Pha, m);
                let s2 = step(SpecOp::LdaImm(0), s1);
                let s3 = step(SpecOp::Sta(SpecLoc::VregLo(x)), s2);
                let s4 = step(SpecOp::Sta(SpecLoc::VregHi(x)), s3);
                let s5 = step(SpecOp::Pla, s4);
                assert(run_from(ops, 0, m) == run_from(ops, 1, s1));
                assert(run_from(ops, 1, s1) == run_from(ops, 2, s2));
                assert(run_from(ops, 2, s2) == run_from(ops, 3, s3));
                assert(run_from(ops, 3, s3) == run_from(ops, 4, s4));
                assert(run_from(ops, 4, s4) == run_from(ops, 5, s5));
                assert(run_from(ops, 5, s5) == s5);
                assert(s5.a == m.a && s5.y == m.y);
            } else {
                assert(run_from(ops, 0, m) == run_from(ops, 1, step(ops[0], m)));
            }
        },
        _ => {
            assert(run_from(ops, 0, m) == run_from(ops, 1, step(ops[0], m)));
        },
    }
}

/// The `Adc` expansions leave the accumulator and index register alone.
#[verifier::rlimit(30)]
proof fn preserves_adc(a: crate::arg::SpecArg, b: crate::arg::SpecArg, m: Mach)
    ensures
        run(spec_generate(crate::asm_line::SpecLine::Adc(a, b)), m).a == m.a,
        run(spec_generate(crate::asm_line::SpecLine::Adc(a, b)), m).y == m.y,
{
    let ops = spec_generate(crate::asm_line::SpecLine::Adc(a, b));
    match (a, b) {
        (crate::arg::SpecArg::Literal(n), crate::arg::SpecArg::VirtualRegister(r)) => {
            if n < 0 {
                let s1 = step(SpecOp::Pha, m);
                let s2 = step(SpecOp::Sec, s1);
                let s3 = step(SpecOp::Lda(SpecLoc::VregLo(r)), s2);
                let s4 = step(SpecOp::SbcLo(-n), s3);
                let s5 = step(SpecOp::Sta(SpecLoc::VregLo(r)), s4);
                let s6 = step(SpecOp::Lda(SpecLoc::VregHi(r)), s5);
                let s7 = step(SpecOp::SbcHi(-n), s6);
                let s8 = step(SpecOp::Sta(SpecLoc::VregHi(r)), s7);
                let s9 = step(SpecOp::Pla, s8);
                assert(run_from(ops, 0, m) == run_from(ops, 1, s1));
                assert(run_from(ops, 1, s1) == run_from(ops, 2, s2));
                assert(run_from(ops, 2, s2) == run_from(ops, 3, s3));
                assert(run_from(ops, 3, s3) == run_from(ops, 4, s4));
                assert(run_from(ops, 4, s4) == run_from(ops, 5, s5));
                assert(run_from(ops, 5, s5) == run_from(ops, 6, s6));
                assert(run_from(ops, 6, s6) == run_from(ops, 7, s7));
                assert(run_from(ops, 7, s7) == run_from(ops, 8, s8));
                assert(run_from(ops, 8, s8) == run_from(ops, 9, s9));
                assert(run_from(ops, 9, s9) == s9);
                assert(s9.a == m.a && s9.y == m.y);
            } else {
                assert(run_from(ops, 0, m) == run_from(ops, 1, step(ops[0], m)));
            }
        },
        (crate::arg::SpecArg::AbsoluteAddress(addr), crate::arg::SpecArg::VirtualRegister(r)) => {
            let s1 = step(SpecOp::Pha, m);
            let s2 = step(SpecOp::Clc, s1);
            let s3 = step(SpecOp::Lda(SpecLoc::VregLo(r)), s2);
            let s4 = step(SpecOp::Adc(SpecLoc::Abs(addr)), s3);
            let s5 = step(SpecOp::Sta(SpecLoc::VregLo(r)), s4);
            let s6 = step(SpecOp::Pla, s5);
            assert(run_from(ops, 0, m) == run_from(ops, 1, s1));
            assert(run_from(ops, 1, s1) == run_from(ops, 2, s2));
            assert(run_from(ops, 2, s2) == run_from(ops, 3, s3));
            assert(run_from(ops, 3, s3) == run_from(ops, 4, s4));
            assert(run_from(ops, 4, s4) == run_from(ops, 5, s5));
            assert(run_from(ops, 5, s5) == run_from(ops, 6, s6));
            assert(run_from(ops, 6, s6) == s6);
            assert(s6.a == m.a && s6.y == m.y);
        },
        _ => {
            assert(run_from(ops, 0, m) == run_from(ops, 1, step(ops[0], m)));
        },
    }
}

/// The `MovZ` expansions leave the accumulator and index register alone.
proof fn preserves_movz(a: crate::arg::SpecArg, b: crate::arg::SpecArg, m: Mach)
    ensures
        run(spec_generate(crate::asm_line::SpecLine::MovZ(a, b)), m).a == m.a,
        run(spec_generate(crate::asm_line::SpecLine::MovZ(a, b)), m).y == m.y,
{
    let ops = spec_generate(crate::asm_line::SpecLine::MovZ(a, b));
    match (a, b) {
        (crate::arg::SpecArg::VirtualRegister(x), crate::arg::SpecArg::VirtualRegister(y)) => {
            if x == y {
            } else {
                let s1 = step(SpecOp::Pha, m);
                let s2 = step(SpecOp::Lda(SpecLoc::VregLo(x)), s1);
                let s3 = step(SpecOp::Sta(SpecLoc::VregLo(y)), s2);
                let s4 = step(SpecOp::Lda(SpecLoc::VregHi(x)), s3);
                let s5 = step(SpecOp::Sta(SpecLoc::VregHi(y)), s4);
                let s6 = step(SpecOp::Pla, s5);
                assert(run_from(ops, 0, m) == run_from(ops, 1, s1));
                assert(run_from(ops, 1, s1) == run_from(ops, 2, s2));
                assert(run_from(ops, 2, s2) == run_from(ops, 3, s3));
                assert(run_from(ops, 3, s3) == run_from(ops, 4, s4));
                assert(run_from(ops, 4, s4) == run_from(ops, 5, s5));
                assert(run_from(ops, 5, s5) == run_from(ops, 6, s6));
                assert(run_from(ops, 6, s6) == s6);
                assert(s6.a == m.a && s6.y == m.y);
            }
        },
        _ => {
            assert(run_from(ops, 0, m) == run_from(ops, 1, step(ops[0], m)));
        },
    }
}

/// The `Cmp` expansion leaves the accumulator and index register alone.
proof fn preserves_cmp(a: crate::arg::SpecArg, b: crate::arg::SpecArg, m: Mach)
    ensures
        run(spec_generate(crate::asm_line::SpecLine::Cmp(a, b)), m).a == m.a,
        run(spec_generate(crate::asm_line::SpecLine::Cmp(a, b)), m).y == m.y,
{
    let ops = spec_generate(crate::asm_line::SpecLine::Cmp(a, b));
    match (a, b) {
        (crate::arg::SpecArg::Literal(n), crate::arg::SpecArg::VirtualRegister(r)) => {
            let s1 = step(SpecOp::Pha, m);
            let s2 = step(SpecOp::Lda(SpecLoc::VregLo(r)), s1);
            let s3 = step(SpecOp::CmpImm(n), s2);
            let s4 = step(SpecOp::JsrCmpLatch, s3);
            let s5 = step(SpecOp::Pla, s4);
            assert(run_from(ops, 0, m) == run_from(ops, 1, s1));
            assert(run_from(ops, 1, s1) == run_from(ops, 2, s2));
            assert(run_from(ops, 2, s2) == run_from(ops, 3, s3));
            assert(run_from(ops, 3, s3) == run_from(ops, 4, s4));
            assert(run_from(ops, 4, s4) == run_from(ops, 5, s5));
            assert(run_from(ops, 5, s5) == s5);
            assert(s5.a == m.a && s5.y == m.y);
        },
        _ => {
            assert(run_from(ops, 0, m) == run_from(ops, 1, step(ops[0], m)));
        },
    }
}

/// Both paths of the `CMov` expansion restore the accumulator.
#[verifier::rlimit(30)]
proof fn preserves_cmov(a: crate::arg::SpecArg, b: crate::arg::SpecArg, m: Mach)
    ensures
        run(spec_generate(crate::asm_line::SpecLine::CMov(a, b)), m).a == m.a,
        run(spec_generate(crate::asm_line::SpecLine::CMov(a, b)), m).y == m.y,
{
    let ops = spec_generate(crate::asm_line::SpecLine::CMov(a, b));
    match (a, b) {
        (crate::arg::SpecArg::VirtualRegister(x), crate::arg::SpecArg::VirtualRegister(y)) => {
            let s1 = step(SpecOp::Pha, m);
            let s2 = step(SpecOp::Lda(SpecLoc::Flag), s1);
            let s3 = step(SpecOp::CmpImm(1), s2);
            assert(run_from(ops, 0, m) == run_from(ops, 1, s1));
            assert(run_from(ops, 1, s1) == run_from(ops, 2, s2));
            assert(run_from(ops, 2, s2) == run_from(ops, 3, s3));
            assert(marker_from(ops, 8) == 8);
            assert(marker_from(ops, 7) == 8);
            assert(marker_from(ops, 6) == 8);
            assert(marker_from(ops, 5) == 8);
            assert(marker_from(ops, 4) == 8);
            if s3.z {
                assert(run_from(ops, 3, s3) == run_from(ops, 8, s3));
                let s9 = step(SpecOp::MarkerPla, s3);
                assert(run_from(ops, 8, s3) == run_from(ops, 9, s9));
                assert(run_from(ops, 9, s9) == s9);
                assert(s9.a == m.a && s9.y == m.y);
            } else {
                assert(run_from(ops, 3, s3) == run_from(ops, 4, s3));
                let s4 = step(SpecOp::Lda(SpecLoc::VregLo(x)), s3);
                let s5 = step(SpecOp::Sta(SpecLoc::VregLo(y)), s4);
                let s6 = step(SpecOp::Lda(SpecLoc::VregHi(x)), s5);
                let s7 = step(SpecOp::Sta(SpecLoc::VregHi(y)), s6);
                let s8 = step(SpecOp::MarkerPla, s7);
                assert(run_from(ops, 4, s3) == run_from(ops, 5, s4));
                assert(run_from(ops, 5, s4) == run_from(ops, 6, s5));
                assert(run_from(ops, 6, s5) == run_from(ops, 7, s6));
                assert(run_from(ops, 7, s6) == run_from(ops, 8, s7));
                assert(run_from(ops, 8, s7) == run_from(ops, 9, s8));
                assert(run_from(ops, 9, s8) == s8);
                assert(s8.a == m.a && s8.y == m.y);
            }
        },
        _ => {
            assert(run_from(ops, 0, m) == run_from(ops, 1, step(ops[0], m)));
        },
    }
}

/// The indexed-store expansion restores both registers it clobbers.
#[verifier::spinoff_prover]
#[verifier::rlimit(100)]
proof fn preserves_mov_sum(n: int, x: char, y: char, m: Mach)
    ensures
        run(
            spec_generate(
                crate::asm_line::SpecLine::Mov(
                    crate::arg::SpecArg::Literal(n),
                    crate::arg::SpecArg::SumAddress(x, y),
                ),
            ),
            m,
        ).a == m.a,
        run(
            spec_generate(
                crate::asm_line::SpecLine::Mov(
                    crate::arg::SpecArg::Literal(n),
                    crate::arg::SpecArg::SumAddress(x, y),
                ),
            ),
            m,
        ).y == m.y,
{
    let ops = spec_generate(
        crate::asm_line::SpecLine::Mov(
            crate::arg::SpecArg::Literal(n),
            crate::arg::SpecArg::SumAddress(x, y),
        ),
    );
    let s1 = step(SpecOp::Pha, m);
    let s2 = step(SpecOp::Tya, s1);
    let s3 = step(SpecOp::Pha, s2);
    let s4 = step(SpecOp::Lda(SpecLoc::VregLo(x)), s3);
    let s5 = step(SpecOp::Sta(SpecLoc::TmpLo), s4);
    let s6 = step(SpecOp::Lda(SpecLoc::VregHi(x)), s5);
    let s7 = step(SpecOp::Sta(SpecLoc::TmpHi), s6);
    let s8 = step(SpecOp::Clc, s7);
    let s9 = step(SpecOp::Lda(SpecLoc::TmpLo), s8);
    let s10 = step(SpecOp::Adc(SpecLoc::VregLo(y)), s9);
    let s11 = step(SpecOp::Sta(SpecLoc::TmpLo), s10);
    let s12 = step(SpecOp::Lda(SpecLoc::TmpHi), s11);
    let s13 = step(SpecOp::Adc(SpecLoc::VregHi(y)), s12);
    let s14 = step(SpecOp::Sta(SpecLoc::TmpHi), s13);
    let s15 = step(SpecOp::Ldy0, s14);
    let s16 = step(SpecOp::LdaImm(n), s15);
    let s17 = step(SpecOp::StaInd, s16);
    let s18 = step(SpecOp::Pla, s17);
    let s19 = step(SpecOp::Tay, s18);
    let s20 = step(SpecOp::Pla, s19);
    assert(run_from(ops, 0, m) == run_from(ops, 1, s1));
    assert(run_from(ops, 1, s1) == run_from(ops, 2, s2));
    assert(run_from(ops, 2, s2) == run_from(ops, 3, s3));
    assert(run_from(ops, 3, s3) == run_from(ops, 4, s4));
    assert(run_from(ops, 4, s4) == run_from(ops, 5, s5));
    assert(run_from(ops, 5, s5) == run_from(ops, 6, s6));
    assert(run_from(ops, 6, s6) == run_from(ops, 7, s7));
    assert(run_from(ops, 7, s7) == run_from(ops, 8, s8));
    assert(run_from(ops, 8, s8) == run_from(ops, 9, s9));
    assert(run_from(ops, 9, s9) == run_from(ops, 10, s10));
    assert(run_from(ops, 10, s10) == run_from(ops, 11, s11));
    assert(run_from(ops, 11, s11) == run_from(ops, 12, s12));
    assert(run_from(ops, 12, s12) == run_from(ops, 13, s13));
    assert(run_from(ops, 13, s13) == run_from(ops, 14, s14));
    assert(run_from(ops, 14, s14) == run_from(ops, 15, s15));
    assert(run_from(ops, 15, s15) == run_from(ops, 16, s16));
    assert(run_from(ops, 16, s16) == run_from(ops, 17, s17));
    assert(run_from(ops, 17, s17) == run_from(ops, 18, s18));
    assert(run_from(ops, 18, s18) == run_from(ops, 19, s19));
    assert(run_from(ops, 19, s19) == run_from(ops, 20, s20));
    assert(run_from(ops, 20, s20) == s20);
    assert(s20.a == m.a && s20.y == m.y);
}

/// The `Mov` expansions leave the accumulator and index register alone.
#[verifier::rlimit(40)]
proof fn preserves_mov(a: crate::arg::SpecArg, b: crate::arg::SpecArg, m: Mach)
    ensures
        run(spec_generate(crate::asm_line::SpecLine::Mov(a, b)), m).a == m.a,
        run(spec_generate(crate::asm_line::SpecLine::Mov(a, b)), m).y == m.y,
{
    let ops = spec_generate(crate::asm_line::SpecLine::Mov(a, b));
    match (a, b) {
        (crate::arg::SpecArg::Literal(n), crate::arg::SpecArg::SumAddress(x, y)) => {
            preserves_mov_sum(n, x, y, m);
        },
        (crate::arg::SpecArg::Literal(n), crate::arg::SpecArg::AbsoluteAddress(addr)) => {
            let s1 = step(SpecOp::Pha, m);
            let s2 = step(SpecOp::LdaImm(n), s1);
            let s3 = step(SpecOp::Sta(SpecLoc::Abs(addr)), s2);
            let s4 = step(SpecOp::Pla, s3);
            assert(run_from(ops, 0, m) == run_from(ops, 1, s1));
            assert(run_from(ops, 1, s1) == run_from(ops, 2, s2));
            assert(run_from(ops, 2, s2) == run_from(ops, 3, s3));
            assert(run_from(ops, 3, s3) == run_from(ops, 4, s4));
            assert(run_from(ops, 4, s4) == s4);
            assert(s4.a == m.a && s4.y == m.y);
        },
        (crate::arg::SpecArg::Literal(n), crate::arg::SpecArg::VirtualRegister(r)) => {
            let s1 = step(SpecOp::Pha, m);
            let s2 = step(SpecOp::LdaLo(n), s1);
            let s3 = step(SpecOp::Sta(SpecLoc::VregLo(r)), s2);
            let s4 = step(SpecOp::LdaHi(n), s3);
            let s5 = step(SpecOp::Sta(SpecLoc::VregHi(r)), s4);
            let s6 = step(SpecOp::Pla, s5);
            assert(run_from(ops, 0, m) == run_from(ops, 1, s1));
            assert(run_from(ops, 1, s1) == run_from(ops, 2, s2));
            assert(run_from(ops, 2, s2) == run_from(ops, 3, s3));
            assert(run_from(ops, 3, s3) == run_from(ops, 4, s4));
            assert(run_from(ops, 4, s4) == run_from(ops, 5, s5));
            assert(run_from(ops, 5, s5) == run_from(ops, 6, s6));
            assert(run_from(ops, 6, s6) == s6);
            assert(s6.a == m.a && s6.y == m.y);
        },
        (crate::arg::SpecArg::AbsoluteAddress(addr), crate::arg::SpecArg::VirtualRegister(r)) => {
            let s1 = step(SpecOp::Pha, m);
            let s2 = step(SpecOp::Lda(SpecLoc::Abs(addr)), s1);
            let s3 = step(SpecOp::Sta(SpecLoc::VregLo(r)), s2);
            let s4 = step(SpecOp::Pla, s3);
            assert(run_from(ops, 0, m) == run_from(ops, 1, s1));
            assert(run_from(ops, 1, s1) == run_from(ops, 2, s2));
            assert(run_from(ops, 2, s2) == run_from(ops, 3, s3));
            assert(run_from(ops, 3, s3) == run_from(ops, 4, s4));
            assert(run_from(ops, 4, s4) == s4);
            assert(s4.a == m.a && s4.y == m.y);
        },
        (crate::arg::SpecArg::VirtualRegister(r), crate::arg::SpecArg::AbsoluteAddress(addr)) => {
            let s1 = step(SpecOp::Pha, m);
            let s2 = step(SpecOp::Lda(SpecLoc::VregLo(r)), s1);
            let s3 = step(SpecOp::Sta(SpecLoc::Abs(addr)), s2);
            let s4 = step(SpecOp::Pla, s3);
            assert(run_from(ops, 0, m) == run_from(ops, 1, s1));
            assert(run_from(ops, 1, s1) == run_from(ops, 2, s2));
            assert(run_from(ops, 2, s2) == run_from(ops, 3, s3));
            assert(run_from(ops, 3, s3) == run_from(ops, 4, s4));
            assert(run_from(ops, 4, s4) == s4);
            assert(s4.a == m.a && s4.y == m.y);
        },
        (crate::arg::SpecArg::VirtualRegister(x), crate::arg::SpecArg::VirtualRegister(y)) => {
            let s1 = step(SpecOp::Pha, m);
            let s2 = step(SpecOp::Lda(SpecLoc::VregLo(x)), s1);
            let s3 = step(SpecOp::Sta(SpecLoc::VregLo(y)), s2);
            let s4 = step(SpecOp::Lda(SpecLoc::VregHi(x)), s3);
            let s5 = step(SpecOp::Sta(SpecLoc::VregHi(y)), s4);
            let s6 = step(SpecOp::Pla, s5);
            assert(run_from(ops, 0, m) == run_from(ops, 1, s1));
            assert(run_from(ops, 1, s1) == run_from(ops, 2, s2));
            assert(run_from(ops, 2, s2) == run_from(ops, 3, s3));
            assert(run_from(ops, 3, s3) == run_from(ops, 4, s4));
            assert(run_from(ops, 4, s4) == run_from(ops, 5, s5));
            assert(run_from(ops, 5, s5) == run_from(ops, 6, s6));
            assert(run_from(ops, 6, s6) == s6);
            assert(s6.a == m.a && s6.y == m.y);
        },
        _ => {
            assert(run_from(ops, 0, m) == run_from(ops, 1, step(ops[0], m)));
        },
    }
}

/// The `Inc` expansion leaves the accumulator and index register alone.
proof fn preserves_inc(a: crate::arg::SpecArg, m: Mach)
    ensures
        run(spec_generate(crate::asm_line::SpecLine::Inc(a)), m).a == m.a,
        run(spec_generate(crate::asm_line::SpecLine::Inc(a)), m).y == m.y,
{
    let ops = spec_generate(crate::asm_line::SpecLine::Inc(a));
    match a {
        crate::arg::SpecArg::VirtualRegister(r) => {
            let s1 = step(SpecOp::Pha, m);
            let s2 = step(SpecOp::Clc, s1);
            let s3 = step(SpecOp::Lda(SpecLoc::VregLo(r)), s2);
            let s4 = step(SpecOp::AdcLo(1), s3);
            let s5 = step(SpecOp::Sta(SpecLoc::VregLo(r)), s4);
            let s6 = step(SpecOp::Lda(SpecLoc::VregHi(r)), s5);
            let s7 = step(SpecOp::AdcHi(1), s6);
            let s8 = step(SpecOp::Sta(SpecLoc::VregHi(r)), s7);
            let s9 = step(SpecOp::Pla, s8);
            assert(run_from(ops, 0, m) == run_from(ops, 1, s1));
            assert(run_from(ops, 1, s1) == run_from(ops, 2, s2));
            assert(run_from(ops, 2, s2) == run_from(ops, 3, s3));
            assert(run_from(ops, 3, s3) == run_from(ops, 4, s4));
            assert(run_from(ops, 4, s4) == run_from(ops, 5, s5));
            assert(run_from(ops, 5, s5) == run_from(ops, 6, s6));
            assert(run_from(ops, 6, s6) == run_from(ops, 7, s7));
            assert(run_from(ops, 7, s7) == run_from(ops, 8, s8));
            assert(run_from(ops, 8, s8) == run_from(ops, 9, s9));
            assert(run_from(ops, 9, s9) == s9);
            assert(s9.a == m.a && s9.y == m.y);
        },
        _ => {
            assert(run_from(ops, 0, m) == run_from(ops, 1, step(ops[0], m)));
        },
    }
}

/// The `Push` expansion preserves the accumulator through the scratch cell.
proof fn preserves_push(a: crate::arg::SpecArg, m: Mach)
    ensures
        run(spec_generate(crate::asm_line::SpecLine::Push(a)), m).a == m.a,
        run(spec_generate(crate::asm_line::SpecLine::Push(a)), m).y == m.y,
{
    let ops = spec_generate(crate::asm_line::SpecLine::Push(a));
    match a {
        crate::arg::SpecArg::VirtualRegister(r) => {
            let s1 = step(SpecOp::Sta(SpecLoc::TmpLo), m);
            let s2 = step(SpecOp::Lda(SpecLoc::VregLo(r)), s1);
            let s3 = step(SpecOp::Pha, s2);
            let s4 = step(SpecOp::Lda(SpecLoc::VregHi(r)), s3);
            let s5 = step(SpecOp::Pha, s4);
            let s6 = step(SpecOp::Lda(SpecLoc::TmpLo), s5);
            assert(run_from(ops, 0, m) == run_from(ops, 1, s1));
            assert(run_from(ops, 1, s1) == run_from(ops, 2, s2));
            assert(run_from(ops, 2, s2) == run_from(ops, 3, s3));
            assert(run_from(ops, 3, s3) == run_from(ops, 4, s4));
            assert(run_from(ops, 4, s4) == run_from(ops, 5, s5));
            assert(run_from(ops, 5, s5) == run_from(ops, 6, s6));
            assert(run_from(ops, 6, s6) == s6);
            assert(s6.a == m.a && s6.y == m.y);
        },
        _ => {
            assert(run_from(ops, 0, m) == run_from(ops, 1, step(ops[0], m)));
        },
    }
}

/// Every expansion the generator emits preserves the caller's
/// accumulator and index register: whatever live state surrounds the
/// translated instruction survives the expansion's intermediate steps,
/// by save and restore around the expansion body.
pub proof fn lemma_expansion_preserves_caller_state(
    l: crate::asm_line::SpecLine,
    m: Mach,
)
    ensures
        run(spec_generate(l), m).a == m.a,
        run(spec_generate(l), m).y == m.y,
{
    let ops = spec_generate(l);
    match l {
        crate::asm_line::SpecLine::Label(_) => {
            assert(run_from(ops, 0, m) == run_from(ops, 1, step(ops[0], m)));
        },
        crate::asm_line::SpecLine::Jmp(_) => {
            assert(run_from(ops, 0, m) == run_from(ops, 1, step(ops[0], m)));
        },
        crate::asm_line::SpecLine::Xor(a, b) => preserves_xor(a, b, m),
        crate::asm_line::SpecLine::Adc(a, b) => preserves_adc(a, b, m),
        crate::asm_line::SpecLine::MovZ(a, b) => preserves_movz(a, b, m),
        crate::asm_line::SpecLine::Cmp(a, b) => preserves_cmp(a, b, m),
        crate::asm_line::SpecLine::CMov(a, b) => preserves_cmov(a, b, m),
        crate::asm_line::SpecLine::Mov(a, b) => preserves_mov(a, b, m),
        crate::asm_line::SpecLine::Inc(a) => preserves_inc(a, m),
        crate::asm_line::SpecLine::Dec(a) => {
            assert(run_from(ops, 0, m) == run_from(ops, 1, step(ops[0], m)));
        },
        crate::asm_line::SpecLine::Push(a) => preserves_push(a, m),
    }
}

} // verus!
