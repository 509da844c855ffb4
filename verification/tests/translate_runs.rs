use retarget::asm_line::AsmLineError;
use retarget::emit::translate;

fn run(src: &[&str]) -> Result<Vec<String>, (usize, AsmLineError)> {
    let lines: Vec<String> = src.iter().map(|s| s.to_string()).collect();
    translate(&lines).map(|out| {
        out.iter()
            .map(|v| v.iter().collect::<String>())
            .collect()
    })
}

fn runtime_tail() -> Vec<String> {
    [
        "",
        "PAL     = $D014",
        "VCOUNT  = $D40B",
        "SYNCHRO",
        "            lda PAL",
        "            beq SYN_0",
        "            lda #120\t; NTSC",
        "            jmp SYN_1",
        "SYN_0       lda #145\t; PAL",
        "SYN_1       cmp VCOUNT",
        "            bne SYN_1",
        "            rts        ",
        "",
        "LAST_CMP_EQUAL",
        "        BEQ @+",
        "        LDA #1",
        "        STA LAST_CMP",
        "        RTS",
        "@       LDA #0",
        "        STA LAST_CMP",
        "        RTS",
        "    ",
    ]
    .iter()
    .map(|s| s.to_string())
    .collect()
}

#[test]
fn small_program_translates_whole() {
    let out = run(&[
        "; compiler output",
        ".start",
        "movb $5, %eax",
        "movb $10, %ecx",
        "xorl %eax, %eax",
        "jmp .start",
    ])
    .unwrap();
    let mut expected: Vec<String> = vec![
        "\tORG $2000".to_string(),
        "; Line    0:\t.start".to_string(),
        "start".to_string(),
        "; Line    1:\tmovb $5, %eax".to_string(),
        "\tPHA".to_string(),
        "\tLDA #<5".to_string(),
        "\tSTA VREG_A".to_string(),
        "\tLDA #>5".to_string(),
        "\tSTA VREG_A+1".to_string(),
        "\tPLA".to_string(),
        "; Line    2:\tmovb $10, %ecx".to_string(),
        "\tPHA".to_string(),
        "\tLDA #<10".to_string(),
        "\tSTA VREG_C".to_string(),
        "\tLDA #>10".to_string(),
        "\tSTA VREG_C+1".to_string(),
        "\tPLA".to_string(),
        "; Line    3:\txorl %eax, %eax".to_string(),
        "\tPHA".to_string(),
        "\tLDA #0".to_string(),
        "\tSTA VREG_A".to_string(),
        "\tSTA VREG_A+1".to_string(),
        "\tPLA".to_string(),
        "; Line    4:\tjmp .start".to_string(),
        "\tJMP start".to_string(),
        "TMPW equ 128".to_string(),
        "LAST_CMP equ 130".to_string(),
        "VREG_A equ 131".to_string(),
        "VREG_C equ 133".to_string(),
    ];
    expected.extend(runtime_tail());
    assert_eq!(out, expected);
    assert!(out.iter().all(|l| !l.contains("Unable")));
}

#[test]
fn unknown_opcode_fails_the_whole_run_with_no_output() {
    let err = run(&[
        "; compiler output",
        "movb $5, %eax",
        "frobnicate %eax, %ecx",
        "movb $6, %ecx",
    ])
    .unwrap_err();
    assert_eq!(
        err,
        (
            1,
            AsmLineError::UnknownOpcode("frobnicate".chars().collect())
        )
    );
}

#[test]
fn codegen_gap_is_a_diagnostic_and_translation_continues() {
    let out = run(&[
        "; compiler output",
        "movb $1, %esi",
        "adcb %eax, %esi",
        "decb %esi",
    ])
    .unwrap();
    let text = out.join("\n");
    assert!(text.contains("\tLDA #<1\n\tSTA VREG_S\n\tLDA #>1\n\tSTA VREG_S+1"));
    assert!(text.contains(
        "Unable to generate code for opcode 'ADC' with combination of \
         arguments: 'VirtualRegister('A')' and 'VirtualRegister('S')'"
    ));
    assert!(text.contains("\tDEW VREG_S"));
}

#[test]
fn header_line_is_always_skipped() {
    let out = run(&["this is not assembly at all", "jmp .x"]).unwrap();
    assert_eq!(out[1], "; Line    0:\tjmp .x");
    assert_eq!(out[2], "\tJMP x");
}

#[test]
fn empty_input_emits_declarations_and_runtime_only() {
    let out = run(&[]).unwrap();
    let mut expected: Vec<String> = vec![
        "\tORG $2000".to_string(),
        "TMPW equ 128".to_string(),
        "LAST_CMP equ 130".to_string(),
    ];
    expected.extend(runtime_tail());
    assert_eq!(out, expected);
}

#[test]
fn the_first_failing_line_is_the_one_reported() {
    let err = run(&["header", ".a", "bogus %eax", "alsobogus %ecx"]).unwrap_err();
    assert_eq!(
        err,
        (1, AsmLineError::UnknownOpcode("bogus".chars().collect()))
    );
}

#[test]
fn error_position_counts_from_the_first_line_after_the_header() {
    let err = run(&["header", ".a", ".b", "movb $1"]).unwrap_err();
    assert_eq!(err, (2, AsmLineError::IncorrectNumberOfArguments));
}
