//! The virtual register allocator: tracks the set of distinct wide
//! registers referenced across all instructions, in first-seen order, so
//! that each can later be assigned a fixed, disjoint 2-byte storage cell.

use vstd::prelude::*;

use crate::arg::{Arg, SpecArg};
use crate::asm_line::{AsmLine, SpecLine};

verus! {

/// The allocator. It is fed every instruction during the first pass and
/// frozen before layout emission; the order of `vregs` is first-seen
/// order, which keeps the output deterministic across runs.
#[derive(Debug)]
pub struct Transpiler {
    pub vregs: Vec<char>,
}

/// Insertion into a first-seen-ordered register set: a no-op when the
/// identity was already seen.
pub open spec fn spec_add(s: Seq<char>, r: char) -> Seq<char> {
    if s.contains(r) {
        s
    } else {
        s.push(r)
    }
}

/// What observing one operand does to the register set.
pub open spec fn spec_observe_arg(s: Seq<char>, a: SpecArg) -> Seq<char> {
    match a {
        SpecArg::VirtualRegister(r) => spec_add(s, r),
        _ => s,
    }
}

/// What observing one instruction does to the register set: every operand
/// is inspected, and any virtual register found is inserted.
pub open spec fn spec_observe_line(s: Seq<char>, l: SpecLine) -> Seq<char> {
    match l {
        SpecLine::Label(_) => s,
        SpecLine::Xor(a, b) => spec_observe_arg(spec_observe_arg(s, a), b),
        SpecLine::Adc(a, b) => spec_observe_arg(spec_observe_arg(s, a), b),
        SpecLine::Mov(a, b) => spec_observe_arg(spec_observe_arg(s, a), b),
        SpecLine::MovZ(a, b) => spec_observe_arg(spec_observe_arg(s, a), b),
        SpecLine::Cmp(a, b) => spec_observe_arg(spec_observe_arg(s, a), b),
        SpecLine::CMov(a, b) => spec_observe_arg(spec_observe_arg(s, a), b),
        SpecLine::Inc(a) => spec_observe_arg(s, a),
        SpecLine::Dec(a) => spec_observe_arg(s, a),
        SpecLine::Jmp(a) => spec_observe_arg(s, a),
        SpecLine::Push(a) => spec_observe_arg(s, a),
    }
}

/// A register set with no duplicate identity.
pub open spec fn distinct(s: Seq<char>) -> bool {
    forall|i: int, j: int| 0 <= i < j < s.len() ==> s[i] != s[j]
}

/// Insertion keeps the set duplicate-free.
pub proof fn lemma_add_distinct(s: Seq<char>, r: char)
    requires
        distinct(s),
    ensures
        distinct(spec_add(s, r)),
{
    if !s.contains(r) {
        assert(forall|i: int| 0 <= i < s.len() ==> s[i] != r);
    }
}

/// Observing an instruction keeps the set duplicate-free.
pub proof fn lemma_observe_line_distinct(s: Seq<char>, l: SpecLine)
    requires
        distinct(s),
    ensures
        distinct(spec_observe_line(s, l)),
{
    match l {
        SpecLine::Label(_) => {},
        SpecLine::Xor(a, b) | SpecLine::Adc(a, b) | SpecLine::Mov(a, b) | SpecLine::MovZ(
            a,
            b,
        ) | SpecLine::Cmp(a, b) | SpecLine::CMov(a, b) => {
            lemma_observe_arg_distinct(s, a);
            lemma_observe_arg_distinct(spec_observe_arg(s, a), b);
        },
        SpecLine::Inc(a) | SpecLine::Dec(a) | SpecLine::Jmp(a) | SpecLine::Push(a) => {
            lemma_observe_arg_distinct(s, a);
        },
    }
}

/// Observing an operand keeps the set duplicate-free.
pub proof fn lemma_observe_arg_distinct(s: Seq<char>, a: SpecArg)
    requires
        distinct(s),
    ensures
        distinct(spec_observe_arg(s, a)),
{
    match a {
        SpecArg::VirtualRegister(r) => lemma_add_distinct(s, r),
        _ => {},
    }
}

impl Transpiler {
    /// An allocator that has seen nothing.
    pub fn new() -> (t: Transpiler)
        ensures
            t.vregs@ == Seq::<char>::empty(),
    {
        Transpiler { vregs: Vec::new() }
    }

    /// Inserts one register identity; re-encountering an identity that was
    /// already seen does not create a second slot.
    pub fn add_vreg(&mut self, r: char)
        ensures
            final(self).vregs@ == spec_add(old(self).vregs@, r),
    {
        let mut i: usize = 0;
        while i < self.vregs.len()
            invariant
                i <= self.vregs@.len(),
                self.vregs@ == old(self).vregs@,
                forall|j: int| 0 <= j < i ==> self.vregs@[j] != r,
            decreases self.vregs@.len() - i,
        {
            if self.vregs[i] == r {
                proof {
                    assert(old(self).vregs@.contains(r));
                }
                return ;
            }
            i += 1;
        }
        proof {
            assert(!old(self).vregs@.contains(r));
        }
        self.vregs.push(r);
    }

    /// Inserts the operand's identity when it is a virtual register.
    pub fn insert_if_is_virtual_register(&mut self, arg: &Arg)
        ensures
            final(self).vregs@ == spec_observe_arg(old(self).vregs@, arg@),
    {
        if let Arg::VirtualRegister(r) = arg {
            self.add_vreg(*r);
        }
    }

    /// Feeds every operand of one instruction to the allocator.
    pub fn check_for_virtual_registers(&mut self, asm_line: &AsmLine)
        ensures
            final(self).vregs@ == spec_observe_line(old(self).vregs@, asm_line@),
    {
        match asm_line {
            AsmLine::Xor(arg1, arg2)
            | AsmLine::Adc(arg1, arg2)
            | AsmLine::Mov(arg1, arg2)
            | AsmLine::MovZ(arg1, arg2)
            | AsmLine::Cmp(arg1, arg2)
            | AsmLine::CMov(arg1, arg2) => {
                self.insert_if_is_virtual_register(arg1);
                self.insert_if_is_virtual_register(arg2);
            },
            AsmLine::Inc(arg) | AsmLine::Dec(arg) | AsmLine::Jmp(arg) | AsmLine::Push(arg) => {
                self.insert_if_is_virtual_register(arg);
            },
            AsmLine::Label(_) => {},
        }
    }
}

} // verus!
