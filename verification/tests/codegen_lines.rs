use retarget::asm_line::AsmLine;
use retarget::codegen::generate_lines;

fn lines_for(src: &str) -> Vec<String> {
    let l = AsmLine::from_str(src).unwrap();
    generate_lines(&l)
        .iter()
        .map(|v| v.iter().collect::<String>())
        .collect()
}

#[test]
fn literal_to_register_splits_low_and_high_byte() {
    assert_eq!(
        lines_for("movb $5, %eax"),
        vec![
            "\tPHA",
            "\tLDA #<5",
            "\tSTA VREG_A",
            "\tLDA #>5",
            "\tSTA VREG_A+1",
            "\tPLA",
        ]
    );
    assert_eq!(
        lines_for("movl $65535, %ecx"),
        vec![
            "\tPHA",
            "\tLDA #<65535",
            "\tSTA VREG_C",
            "\tLDA #>65535",
            "\tSTA VREG_C+1",
            "\tPLA",
        ]
    );
}

#[test]
fn xor_with_itself_zeroes_both_bytes() {
    assert_eq!(
        lines_for("xorl %eax, %eax"),
        vec!["\tPHA", "\tLDA #0", "\tSTA VREG_A", "\tSTA VREG_A+1", "\tPLA"]
    );
    assert_eq!(
        lines_for("xorl %esi, %esi"),
        vec!["\tPHA", "\tLDA #0", "\tSTA VREG_S", "\tSTA VREG_S+1", "\tPLA"]
    );
}

#[test]
fn adc_negative_literal_becomes_16_bit_subtract() {
    assert_eq!(
        lines_for("addb $-2, %ecx"),
        vec![
            "\tPHA",
            "\tSEC",
            "\tLDA VREG_C",
            "\tSBC #<2",
            "\tSTA VREG_C",
            "\tLDA VREG_C+1",
            "\tSBC #>2",
            "\tSTA VREG_C+1",
            "\tPLA",
        ]
    );
}

#[test]
fn adc_absolute_adds_into_low_byte_only() {
    // The carry out of the low byte is discarded, not propagated: this
    // 8-bit narrowing is part of the opcode table's contract.
    assert_eq!(
        lines_for("addb 700, %ecx"),
        vec![
            "\tPHA",
            "\tCLC",
            "\tLDA VREG_C",
            "\tADC 700",
            "\tSTA VREG_C",
            "\tPLA",
        ]
    );
}

#[test]
fn movz_same_identity_emits_nothing() {
    assert_eq!(lines_for("movzbl %eax, %eax"), Vec::<String>::new());
}

#[test]
fn movz_differing_identities_copies_both_bytes() {
    assert_eq!(
        lines_for("movzbl %eax, %ecx"),
        vec![
            "\tPHA",
            "\tLDA VREG_A",
            "\tSTA VREG_C",
            "\tLDA VREG_A+1",
            "\tSTA VREG_C+1",
            "\tPLA",
        ]
    );
}

#[test]
fn cmp_latches_low_byte_comparison() {
    assert_eq!(
        lines_for("cmpb $3, %eax"),
        vec![
            "\tPHA",
            "\tLDA VREG_A",
            "\tCMP #3",
            "\tjsr LAST_CMP_EQUAL",
            "\tPLA",
        ]
    );
}

#[test]
fn cmov_copies_when_flag_is_zero() {
    assert_eq!(
        lines_for("cmovel %eax, %ecx"),
        vec![
            "\tPHA",
            "\tLDA LAST_CMP",
            "\tCMP #1",
            "\tBEQ @+",
            "\tLDA VREG_A",
            "\tSTA VREG_C",
            "\tLDA VREG_A+1",
            "\tSTA VREG_C+1",
            "@\tPLA",
        ]
    );
}

#[test]
fn mov_literal_to_absolute_stores_one_byte() {
    assert_eq!(
        lines_for("movb $1, 53274"),
        vec!["\tPHA", "\tLDA #1", "\tSTA 53274", "\tPLA"]
    );
}

#[test]
fn mov_between_register_and_absolute_moves_low_byte() {
    assert_eq!(
        lines_for("movb 700, %eax"),
        vec!["\tPHA", "\tLDA 700", "\tSTA VREG_A", "\tPLA"]
    );
    assert_eq!(
        lines_for("movb %eax, 700"),
        vec!["\tPHA", "\tLDA VREG_A", "\tSTA 700", "\tPLA"]
    );
}

#[test]
fn mov_register_to_register_copies_both_bytes() {
    assert_eq!(
        lines_for("movl %eax, %edx"),
        vec![
            "\tPHA",
            "\tLDA VREG_A",
            "\tSTA VREG_D",
            "\tLDA VREG_A+1",
            "\tSTA VREG_D+1",
            "\tPLA",
        ]
    );
}

#[test]
fn mov_literal_to_sum_address_stores_through_computed_pointer() {
    assert_eq!(
        lines_for("movb $10, (%eax, %edx)"),
        vec![
            "\tPHA",
            "\tTYA",
            "\tPHA",
            "\tLDA VREG_A",
            "\tSTA TMPW",
            "\tLDA VREG_A+1",
            "\tSTA TMPW+1",
            "\tCLC",
            "\tLDA TMPW",
            "\tADC VREG_D",
            "\tSTA TMPW",
            "\tLDA TMPW+1",
            "\tADC VREG_D+1",
            "\tSTA TMPW+1",
            "\tLDY #0",
            "\tLDA #10",
            "\tSTA (TMPW),y",
            "\tPLA",
            "\tTAY",
            "\tPLA",
        ]
    );
}

#[test]
fn inc_chains_carry_into_high_byte() {
    assert_eq!(
        lines_for("incb %eax"),
        vec![
            "\tPHA",
            "\tCLC",
            "\tLDA VREG_A",
            "\tADC #<1",
            "\tSTA VREG_A",
            "\tLDA VREG_A+1",
            "\tADC #>1",
            "\tSTA VREG_A+1",
            "\tPLA",
        ]
    );
}

#[test]
fn dec_uses_the_word_decrement() {
    assert_eq!(lines_for("decb %ecx"), vec!["\tDEW VREG_C"]);
}

#[test]
fn push_preserves_the_accumulator_through_the_scratch_cell() {
    assert_eq!(
        lines_for("pushl %eax"),
        vec![
            "\tSTA TMPW",
            "\tLDA VREG_A",
            "\tPHA",
            "\tLDA VREG_A+1",
            "\tPHA",
            "\tLDA TMPW",
        ]
    );
}

#[test]
fn jmp_and_label_render_directly() {
    assert_eq!(lines_for("jmp .start"), vec!["\tJMP start"]);
    assert_eq!(lines_for(".start"), vec!["start"]);
}

#[test]
fn unmatched_shapes_become_one_diagnostic_line() {
    assert_eq!(
        lines_for("movzbl $1, %eax"),
        vec![
            "Unable to generate code for opcode 'MOVZ' with combination of \
             arguments: 'Literal(1)' and 'VirtualRegister('A')'",
        ]
    );
    assert_eq!(
        lines_for("adcb %eax, %esi"),
        vec![
            "Unable to generate code for opcode 'ADC' with combination of \
             arguments: 'VirtualRegister('A')' and 'VirtualRegister('S')'",
        ]
    );
    assert_eq!(
        lines_for("incb $4"),
        vec!["Unable to generate code for opcode 'INC' with argument: 'Literal(4)'"]
    );
    assert_eq!(
        lines_for("jmp %eax"),
        vec!["Unable to generate code for opcode 'JMP' with argument: 'VirtualRegister('A')'"]
    );
    assert_eq!(
        lines_for("xorl %eax, %ecx"),
        vec![
            "Unable to generate code for opcode 'XOR' with combination of \
             arguments: 'VirtualRegister('A')' and 'VirtualRegister('C')'",
        ]
    );
    assert_eq!(
        lines_for("movzbl .foo, %eax"),
        vec![
            "Unable to generate code for opcode 'MOVZ' with combination of \
             arguments: 'Label(\"foo\")' and 'VirtualRegister('A')'",
        ]
    );
    assert_eq!(
        lines_for("incb (%eax,%edx)"),
        vec!["Unable to generate code for opcode 'INC' with argument: 'SumAddress('A', 'D')'"]
    );
    assert_eq!(
        lines_for("cmovel $1, %eax"),
        vec![
            "Unable to generate code for opcode 'CMov' with combination of \
             arguments: 'Literal(1)' and 'VirtualRegister('A')'",
        ]
    );
}
