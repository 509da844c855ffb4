use retarget::demo::{
    asm6502, asm6502_1, asm6502_source, asm6502_step, char_to_atari_code, to_atari_char,
};

const SCREEN: u16 = 48192;

fn greeting_codes() -> Vec<u8> {
    vec![40, 101, 108, 108, 111, 0, 50, 117, 115, 116]
}

#[test]
fn character_tables_map_the_greeting() {
    assert_eq!(to_atari_char('H'), 40);
    assert_eq!(to_atari_char('e'), 101);
    assert_eq!(to_atari_char('l'), 108);
    assert_eq!(to_atari_char('o'), 111);
    assert_eq!(to_atari_char(' '), 0);
    assert_eq!(to_atari_char('R'), 50);
    assert_eq!(to_atari_char('u'), 117);
    assert_eq!(to_atari_char('s'), 115);
    assert_eq!(to_atari_char('t'), 116);
    assert_eq!(to_atari_char('q'), 0);
    assert_eq!(char_to_atari_code('*'), 10);
    assert_eq!(char_to_atari_code('H'), 40);
}

#[test]
fn greeting_writes_land_on_consecutive_screen_cells() {
    let w = asm6502();
    let expected: Vec<(u16, u8)> = greeting_codes()
        .into_iter()
        .enumerate()
        .map(|(i, c)| (SCREEN + i as u16, c))
        .collect();
    assert_eq!(w, expected);
}

#[test]
fn scrolled_greeting_starts_at_the_given_column() {
    let w = asm6502_1(3);
    let expected: Vec<(u16, u8)> = greeting_codes()
        .into_iter()
        .enumerate()
        .map(|(i, c)| (SCREEN + 3 + i as u16, c))
        .collect();
    assert_eq!(w, expected);
}

#[test]
fn source_variant_writes_the_same_greeting() {
    assert_eq!(asm6502_source(), asm6502());
}

#[test]
fn colour_loop_step_writes_strobe_and_colour() {
    let (w1, w2, next) = asm6502_step(5, 3);
    assert_eq!(w1, (54282, 0));
    assert_eq!(w2, (53274, 5));
    assert_eq!(next, 8);
    let (_, _, next) = asm6502_step(250, 5);
    assert_eq!(next, 255);
}
