use retarget::arg::Arg;
use retarget::asm_line::AsmLineError;

fn chars(s: &str) -> Vec<char> {
    s.chars().collect()
}

#[test]
fn register_names_map_to_canonical_ids() {
    assert_eq!(Arg::from_str("%eax").unwrap(), Arg::VirtualRegister('A'));
    assert_eq!(Arg::from_str("%al").unwrap(), Arg::VirtualRegister('A'));
    assert_eq!(Arg::from_str("%ecx").unwrap(), Arg::VirtualRegister('C'));
    assert_eq!(Arg::from_str("%cl").unwrap(), Arg::VirtualRegister('C'));
    assert_eq!(Arg::from_str("%ebx").unwrap(), Arg::VirtualRegister('B'));
    assert_eq!(Arg::from_str("%bl").unwrap(), Arg::VirtualRegister('B'));
    assert_eq!(Arg::from_str("%edx").unwrap(), Arg::VirtualRegister('D'));
    assert_eq!(Arg::from_str("%dl").unwrap(), Arg::VirtualRegister('D'));
    assert_eq!(Arg::from_str("%esi").unwrap(), Arg::VirtualRegister('S'));
}

#[test]
fn register_token_ignores_trailing_comma() {
    assert_eq!(Arg::from_str("%ecx,").unwrap(), Arg::VirtualRegister('C'));
}

#[test]
fn unknown_register_name_is_rejected() {
    assert_eq!(
        Arg::from_str("%foo").unwrap_err(),
        AsmLineError::MalformedRegisterName(chars("foo"))
    );
}

#[test]
fn label_token_takes_remainder() {
    assert_eq!(Arg::from_str(".start").unwrap(), Arg::Label(chars("start")));
    assert_eq!(Arg::from_str(".start,").unwrap(), Arg::Label(chars("start")));
}

#[test]
fn literal_token_parses_signed_decimal() {
    assert_eq!(Arg::from_str("$5,").unwrap(), Arg::Literal(5));
    assert_eq!(Arg::from_str("$0").unwrap(), Arg::Literal(0));
    assert_eq!(Arg::from_str("$-20").unwrap(), Arg::Literal(-20));
    assert_eq!(Arg::from_str("$+7").unwrap(), Arg::Literal(7));
    assert_eq!(Arg::from_str("$2147483647").unwrap(), Arg::Literal(2147483647));
    assert_eq!(Arg::from_str("$-2147483648").unwrap(), Arg::Literal(-2147483648));
}

#[test]
fn literal_out_of_range_is_rejected() {
    assert_eq!(
        Arg::from_str("$2147483648").unwrap_err(),
        AsmLineError::MalformedArgumentName(chars("$2147483648"))
    );
    assert_eq!(
        Arg::from_str("$-2147483649").unwrap_err(),
        AsmLineError::MalformedArgumentName(chars("$-2147483649"))
    );
}

#[test]
fn literal_with_junk_is_rejected() {
    assert_eq!(
        Arg::from_str("$1x2").unwrap_err(),
        AsmLineError::MalformedArgumentName(chars("$1x2"))
    );
    assert_eq!(
        Arg::from_str("$").unwrap_err(),
        AsmLineError::MalformedArgumentName(chars("$"))
    );
}

#[test]
fn absolute_address_token_parses_decimal() {
    assert_eq!(Arg::from_str("53274").unwrap(), Arg::AbsoluteAddress(53274));
    assert_eq!(Arg::from_str("700,").unwrap(), Arg::AbsoluteAddress(700));
}

#[test]
fn absolute_address_with_junk_is_rejected() {
    assert_eq!(
        Arg::from_str("12x4").unwrap_err(),
        AsmLineError::MalformedArgumentName(chars("12x4"))
    );
}

#[test]
fn sum_address_takes_two_register_identities() {
    assert_eq!(
        Arg::from_str("(%eax,%edx)").unwrap(),
        Arg::SumAddress('A', 'D')
    );
}

#[test]
fn sum_address_without_second_register_is_rejected() {
    assert_eq!(
        Arg::from_str("(%eax)").unwrap_err(),
        AsmLineError::MalformedArgumentName(chars("(%eax)"))
    );
}

#[test]
fn sum_address_with_unknown_register_is_rejected() {
    assert_eq!(
        Arg::from_str("(%eax,%foo)").unwrap_err(),
        AsmLineError::MalformedRegisterName(chars("foo"))
    );
}

#[test]
fn empty_token_is_rejected() {
    assert_eq!(Arg::from_str("").unwrap_err(), AsmLineError::EmptyArgument);
}

#[test]
fn unclassifiable_token_is_rejected() {
    assert_eq!(
        Arg::from_str("&foo").unwrap_err(),
        AsmLineError::MalformedArgumentName(chars("&foo"))
    );
}

#[test]
fn parsing_a_token_twice_gives_identical_values() {
    let first = Arg::from_str("%eax");
    let second = Arg::from_str("%eax");
    assert_eq!(first, second);
    let first = Arg::from_str("$-17,");
    let second = Arg::from_str("$-17,");
    assert_eq!(first, second);
}
