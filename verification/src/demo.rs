//! The display smoke-test programs, reduced to what they decide: the
//! sequence of memory-mapped writes each performs. Performing the writes
//! against the hardware registers, and looping on them, is left to the
//! surrounding program; these functions fix exactly which bytes go where.

use vstd::prelude::*;

verus! {

/// Start of the text screen region.
pub open spec fn screen_base() -> int {
    48192
}

/// The raster-wait strobe register.
pub open spec fn wsync_addr() -> int {
    54282
}

/// The background colour register.
pub open spec fn colbk_addr() -> int {
    53274
}

/// The screen code of a character, in the table the first smoke test uses.
pub open spec fn spec_to_atari_char(c: char) -> u8 {
    if c == 'H' {
        40
    } else if c == 'e' {
        101
    } else if c == 'l' {
        108
    } else if c == 'o' {
        111
    } else if c == ' ' {
        0
    } else if c == 'R' {
        50
    } else if c == 'u' {
        117
    } else if c == 's' {
        115
    } else if c == 't' {
        116
    } else {
        0
    }
}

/// The screen code of a character, in the later table that also maps `*`.
pub open spec fn spec_char_to_atari_code(c: char) -> u8 {
    if c == '*' {
        10
    } else {
        spec_to_atari_char(c)
    }
}

/// Converts a character to its screen code.
pub fn to_atari_char(c: char) -> (r: u8)
    ensures
        r == spec_to_atari_char(c),
{
    match c {
        'H' => 40,
        'e' => 101,
        'l' => 108,
        'o' => 111,
        ' ' => 0,
        'R' => 50,
        'u' => 117,
        's' => 115,
        't' => 116,
        _ => 0,
    }
}

/// Converts a character to its screen code, with the `*` glyph mapped.
pub fn char_to_atari_code(c: char) -> (r: u8)
    ensures
        r == spec_char_to_atari_code(c),
{
    match c {
        'H' => 40,
        'e' => 101,
        'l' => 108,
        'o' => 111,
        ' ' => 0,
        'R' => 50,
        'u' => 117,
        's' => 115,
        't' => 116,
        '*' => 10,
        _ => 0,
    }
}

/// The greeting's screen writes when it starts at column `p` of the top
/// row: one byte per character, at consecutive screen addresses.
pub open spec fn spec_greeting_writes(p: int) -> Seq<(u16, u8)> {
    seq![
        ((screen_base() + p + 0) as u16, spec_to_atari_char('H')),
        ((screen_base() + p + 1) as u16, spec_to_atari_char('e')),
        ((screen_base() + p + 2) as u16, spec_to_atari_char('l')),
        ((screen_base() + p + 3) as u16, spec_to_atari_char('l')),
        ((screen_base() + p + 4) as u16, spec_to_atari_char('o')),
        ((screen_base() + p + 5) as u16, spec_to_atari_char(' ')),
        ((screen_base() + p + 6) as u16, spec_to_atari_char('R')),
        ((screen_base() + p + 7) as u16, spec_to_atari_char('u')),
        ((screen_base() + p + 8) as u16, spec_to_atari_char('s')),
        ((screen_base() + p + 9) as u16, spec_to_atari_char('t')),
    ]
}

/// The screen writes of the first smoke test: the greeting at the top
/// left corner.
pub fn asm6502() -> (w: Vec<(u16, u8)>)
    ensures
        w@ == spec_greeting_writes(0),
{
    asm6502_1(0)
}

/// The screen writes of one pass of the scrolling smoke test: the
/// greeting starting at column `pos` of the top row.
pub fn asm6502_1(pos: u8) -> (w: Vec<(u16, u8)>)
    requires
        pos <= 246,
    ensures
        w@ == spec_greeting_writes(pos as int),
{
    let base: u16 = 48192;
    let p: u16 = pos as u16;
    let mut w: Vec<(u16, u8)> = Vec::new();
    w.push((base + p, to_atari_char('H')));
    w.push((base + p + 1, to_atari_char('e')));
    w.push((base + p + 2, to_atari_char('l')));
    w.push((base + p + 3, to_atari_char('l')));
    w.push((base + p + 4, to_atari_char('o')));
    w.push((base + p + 5, to_atari_char(' ')));
    w.push((base + p + 6, to_atari_char('R')));
    w.push((base + p + 7, to_atari_char('u')));
    w.push((base + p + 8, to_atari_char('s')));
    w.push((base + p + 9, to_atari_char('t')));
    proof {
        assert(w@ =~= spec_greeting_writes(pos as int));
    }
    w
}

/// The screen writes of the standalone smoke-test source: the same
/// greeting, through the later character table.
pub fn asm6502_source() -> (w: Vec<(u16, u8)>)
    ensures
        w@ == spec_greeting_writes(0),
{
    let base: u16 = 48192;
    let mut w: Vec<(u16, u8)> = Vec::new();
    w.push((base, char_to_atari_code('H')));
    w.push((base + 1, char_to_atari_code('e')));
    w.push((base + 2, char_to_atari_code('l')));
    w.push((base + 3, char_to_atari_code('l')));
    w.push((base + 4, char_to_atari_code('o')));
    w.push((base + 5, char_to_atari_code(' ')));
    w.push((base + 6, char_to_atari_code('R')));
    w.push((base + 7, char_to_atari_code('u')));
    w.push((base + 8, char_to_atari_code('s')));
    w.push((base + 9, char_to_atari_code('t')));
    proof {
        assert(w@ =~= spec_greeting_writes(0));
    }
    w
}

/// One step of the colour-cycling loop all three smoke tests end in:
/// the two hardware writes to perform, and the next colour value, which
/// advances by the trigger register's byte.
pub fn asm6502_step(x: u8, strig: u8) -> (r: ((u16, u8), (u16, u8), u8))
    requires
        x + strig <= 255,
    ensures
        r.0 == ((wsync_addr() as u16, 0u8)),
        r.1 == ((colbk_addr() as u16, x)),
        r.2 == x + strig,
{
    ((54282u16, 0u8), (53274u16, x), x + strig)
}

} // verus!
