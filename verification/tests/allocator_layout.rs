use retarget::arg::Arg;
use retarget::asm_line::AsmLine;
use retarget::emit::emit_equates;
use retarget::transpiler::Transpiler;

fn equates(t: &Transpiler) -> Vec<String> {
    emit_equates(t)
        .iter()
        .map(|v| v.iter().collect::<String>())
        .collect()
}

#[test]
fn first_seen_order_gives_disjoint_gapless_windows() {
    let mut t = Transpiler::new();
    t.check_for_virtual_registers(&AsmLine::from_str("movb $1, %eax").unwrap());
    t.check_for_virtual_registers(&AsmLine::from_str("movb $1, %ecx").unwrap());
    t.check_for_virtual_registers(&AsmLine::from_str("movb $1, %edx").unwrap());
    assert_eq!(t.vregs, vec!['A', 'C', 'D']);
    // Scratch at 128..130 and flag at 130 precede the register cells;
    // three 2-byte windows follow back to back: 131, 133, 135.
    assert_eq!(
        equates(&t),
        vec![
            "TMPW equ 128",
            "LAST_CMP equ 130",
            "VREG_A equ 131",
            "VREG_C equ 133",
            "VREG_D equ 135",
        ]
    );
}

#[test]
fn reinsertion_is_a_no_op() {
    let mut t = Transpiler::new();
    t.add_vreg('A');
    t.add_vreg('C');
    t.add_vreg('A');
    assert_eq!(t.vregs, vec!['A', 'C']);
}

#[test]
fn every_operand_of_an_instruction_is_observed() {
    let mut t = Transpiler::new();
    t.check_for_virtual_registers(&AsmLine::from_str("movl %eax, %ecx").unwrap());
    assert_eq!(t.vregs, vec!['A', 'C']);
    let mut t = Transpiler::new();
    t.check_for_virtual_registers(&AsmLine::from_str("cmpb $1, %esi").unwrap());
    assert_eq!(t.vregs, vec!['S']);
    let mut t = Transpiler::new();
    t.check_for_virtual_registers(&AsmLine::from_str("pushl %ebx").unwrap());
    assert_eq!(t.vregs, vec!['B']);
}

#[test]
fn labels_and_non_register_operands_allocate_nothing() {
    let mut t = Transpiler::new();
    t.check_for_virtual_registers(&AsmLine::from_str(".start").unwrap());
    t.check_for_virtual_registers(&AsmLine::from_str("movb $1, 700").unwrap());
    t.check_for_virtual_registers(&AsmLine::from_str("jmp .start").unwrap());
    assert_eq!(t.vregs, Vec::<char>::new());
}

#[test]
fn insert_if_is_virtual_register_filters_by_shape() {
    let mut t = Transpiler::new();
    t.insert_if_is_virtual_register(&Arg::Literal(5));
    t.insert_if_is_virtual_register(&Arg::AbsoluteAddress(700));
    t.insert_if_is_virtual_register(&Arg::VirtualRegister('D'));
    assert_eq!(t.vregs, vec!['D']);
}
