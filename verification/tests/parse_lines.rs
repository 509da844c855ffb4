use retarget::arg::Arg;
use retarget::asm_line::{AsmLine, AsmLineError};

fn chars(s: &str) -> Vec<char> {
    s.chars().collect()
}

#[test]
fn label_line_takes_remainder_verbatim() {
    assert_eq!(
        AsmLine::from_str(".start").unwrap(),
        AsmLine::Label(chars("start"))
    );
    assert_eq!(
        AsmLine::from_str(".loop one").unwrap(),
        AsmLine::Label(chars("loop one"))
    );
}

#[test]
fn mov_line_parses_both_operands() {
    assert_eq!(
        AsmLine::from_str("movb $5, %eax").unwrap(),
        AsmLine::Mov(Arg::Literal(5), Arg::VirtualRegister('A'))
    );
    assert_eq!(
        AsmLine::from_str("movl %eax, %ecx").unwrap(),
        AsmLine::Mov(Arg::VirtualRegister('A'), Arg::VirtualRegister('C'))
    );
}

#[test]
fn split_addressing_form_is_recombined() {
    assert_eq!(
        AsmLine::from_str("movb $10, (%eax, %edx)").unwrap(),
        AsmLine::Mov(Arg::Literal(10), Arg::SumAddress('A', 'D'))
    );
}

#[test]
fn each_mnemonic_reaches_its_constructor() {
    assert_eq!(
        AsmLine::from_str("movzbl %eax, %ecx").unwrap(),
        AsmLine::MovZ(Arg::VirtualRegister('A'), Arg::VirtualRegister('C'))
    );
    assert_eq!(
        AsmLine::from_str("xorl %eax, %eax").unwrap(),
        AsmLine::Xor(Arg::VirtualRegister('A'), Arg::VirtualRegister('A'))
    );
    assert_eq!(
        AsmLine::from_str("addb $-2, %ecx").unwrap(),
        AsmLine::Adc(Arg::Literal(-2), Arg::VirtualRegister('C'))
    );
    assert_eq!(
        AsmLine::from_str("adcb %eax, %esi").unwrap(),
        AsmLine::Adc(Arg::VirtualRegister('A'), Arg::VirtualRegister('S'))
    );
    assert_eq!(
        AsmLine::from_str("cmpb $3, %eax").unwrap(),
        AsmLine::Cmp(Arg::Literal(3), Arg::VirtualRegister('A'))
    );
    assert_eq!(
        AsmLine::from_str("cmovel %eax, %ecx").unwrap(),
        AsmLine::CMov(Arg::VirtualRegister('A'), Arg::VirtualRegister('C'))
    );
    assert_eq!(
        AsmLine::from_str("incb %esi").unwrap(),
        AsmLine::Inc(Arg::VirtualRegister('S'))
    );
    assert_eq!(
        AsmLine::from_str("decb %ecx").unwrap(),
        AsmLine::Dec(Arg::VirtualRegister('C'))
    );
    assert_eq!(
        AsmLine::from_str("pushl %eax").unwrap(),
        AsmLine::Push(Arg::VirtualRegister('A'))
    );
    assert_eq!(
        AsmLine::from_str("jmp .start").unwrap(),
        AsmLine::Jmp(Arg::Label(chars("start")))
    );
}

#[test]
fn unknown_mnemonic_is_rejected() {
    assert_eq!(
        AsmLine::from_str("frobnicate %eax, %ecx").unwrap_err(),
        AsmLineError::UnknownOpcode(chars("frobnicate"))
    );
}

#[test]
fn wrong_operand_count_is_rejected() {
    assert_eq!(
        AsmLine::from_str("movb $5").unwrap_err(),
        AsmLineError::IncorrectNumberOfArguments
    );
    assert_eq!(
        AsmLine::from_str("incb %eax, %ecx").unwrap_err(),
        AsmLineError::IncorrectNumberOfArguments
    );
    assert_eq!(
        AsmLine::from_str("jmp .a .b .c").unwrap_err(),
        AsmLineError::IncorrectNumberOfArguments
    );
    assert_eq!(
        AsmLine::from_str("movb $1, $2, $3, $4").unwrap_err(),
        AsmLineError::IncorrectNumberOfArguments
    );
}

#[test]
fn operand_failure_propagates_as_the_line_failure() {
    assert_eq!(
        AsmLine::from_str("movb $5, %foo").unwrap_err(),
        AsmLineError::MalformedRegisterName(chars("foo"))
    );
    assert_eq!(
        AsmLine::from_str("movb &x, %eax").unwrap_err(),
        AsmLineError::MalformedArgumentName(chars("&x,"))
    );
}

#[test]
fn line_with_no_tokens_is_rejected() {
    assert_eq!(AsmLine::from_str("").unwrap_err(), AsmLineError::UnknownError);
    assert_eq!(
        AsmLine::from_str("   ").unwrap_err(),
        AsmLineError::UnknownError
    );
}

#[test]
fn parsing_a_line_twice_gives_identical_values() {
    let first = AsmLine::from_str("movb $10, (%eax, %edx)");
    let second = AsmLine::from_str("movb $10, (%eax, %edx)");
    assert_eq!(first, second);
    let first = AsmLine::from_str("jmp .start");
    let second = AsmLine::from_str("jmp .start");
    assert_eq!(first, second);
}
