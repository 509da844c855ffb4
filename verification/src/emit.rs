//! Layout and runtime emission: zero-page addresses for the fixed scratch
//! cells and the allocated registers, the symbol-equate declarations, the
//! fixed support routines, and the whole-run translation driver.

use vstd::prelude::*;

use crate::arg::{is_reg_id, spec_parse_arg, SpecArg};
use crate::asm_line::{spec_parse_line, spec_split_ws, views_of, AsmLineError, SpecError, SpecLine};
use crate::codegen::{generate_lines, spec_gen_lines};
use crate::text::{dec_nat, push_chars, push_dec_u64, push_str};
use crate::transpiler::{distinct, spec_add, spec_observe_arg, spec_observe_line, Transpiler};

verus! {

/// Base of the zero-page region: the 2-byte scratch cell sits here.
pub open spec fn scratch_addr() -> int {
    128
}

/// Address of the 1-byte comparison-flag cell, just after the scratch cell.
pub open spec fn flag_addr() -> int {
    130
}

/// Address of the `i`-th allocated register's 2-byte cell: the windows
/// start immediately after the fixed cells and advance by 2.
pub open spec fn vreg_addr(i: int) -> int {
    131 + 2 * i
}

/// Register windows are laid out gapless after the fixed cells, and any
/// two distinct windows are disjoint.
pub proof fn lemma_vreg_windows(i: int, j: int)
    requires
        0 <= i < j,
    ensures
        vreg_addr(0) == flag_addr() + 1,
        flag_addr() == scratch_addr() + 2,
        vreg_addr(i + 1) == vreg_addr(i) + 2,
        vreg_addr(i) + 2 <= vreg_addr(j),
{
}

/// Whether every element is a canonical register identity.
pub open spec fn all_reg_ids(s: Seq<char>) -> bool {
    forall|i: int| 0 <= i < s.len() ==> is_reg_id(#[trigger] s[i])
}

/// Insertion of a register identity keeps the set identity-only.
proof fn lemma_add_reg_ids(s: Seq<char>, r: char)
    requires
        all_reg_ids(s),
        is_reg_id(r),
    ensures
        all_reg_ids(spec_add(s, r)),
{
}

/// A parsed operand's virtual register is always a canonical identity.
proof fn lemma_parse_arg_reg(t: Seq<char>)
    ensures
        spec_parse_arg(t) matches Ok(SpecArg::VirtualRegister(r)) ==> is_reg_id(r),
{
}

/// Observing a parsed operand keeps the set identity-only.
proof fn lemma_observe_parsed_arg(s: Seq<char>, t: Seq<char>)
    requires
        all_reg_ids(s),
    ensures
        spec_parse_arg(t) matches Ok(a) ==> all_reg_ids(spec_observe_arg(s, a)),
{
    lemma_parse_arg_reg(t);
    match spec_parse_arg(t) {
        Ok(SpecArg::VirtualRegister(r)) => lemma_add_reg_ids(s, r),
        _ => {},
    }
}

/// Observing a parsed instruction keeps the set identity-only.
pub proof fn lemma_observe_parsed_line(s: Seq<char>, t: Seq<char>, l: SpecLine)
    requires
        all_reg_ids(s),
        spec_parse_line(t) == Ok::<SpecLine, SpecError>(l),
    ensures
        all_reg_ids(spec_observe_line(s, l)),
{
    let toks = spec_split_ws(t);
    if t.len() > 0 && t[0] == '.' {
    } else {
        let rest = toks.skip(1);
        match crate::asm_line::spec_args2_parsed(rest) {
            Ok((a, b)) => {
                let v = match crate::asm_line::spec_args(rest, 2) {
                    Ok(v) => v,
                    Err(_) => rest,
                };
                lemma_observe_parsed_arg(s, v[0]);
                match spec_parse_arg(v[0]) {
                    Ok(a0) => {
                        lemma_observe_parsed_arg(spec_observe_arg(s, a0), v[1]);
                    },
                    Err(_) => {},
                }
            },
            Err(_) => {},
        }
        match crate::asm_line::spec_arg1_parsed(rest) {
            Ok(a) => {
                let v = match crate::asm_line::spec_args(rest, 1) {
                    Ok(v) => v,
                    Err(_) => rest,
                };
                lemma_observe_parsed_arg(s, v[0]);
            },
            Err(_) => {},
        }
    }
}

/// A duplicate-free set of register identities has at most five members.
pub proof fn lemma_reg_set_small(s: Seq<char>)
    requires
        distinct(s),
        all_reg_ids(s),
    ensures
        s.len() <= 5,
{
    if s.len() > 5 {
        assert(is_reg_id(s[0]));
        assert(is_reg_id(s[1]));
        assert(is_reg_id(s[2]));
        assert(is_reg_id(s[3]));
        assert(is_reg_id(s[4]));
        assert(is_reg_id(s[5]));
        assert(false);
    }
}

/// The equate line declaring the `i`-th register's cell address.
pub open spec fn spec_equate_line(r: char, i: int) -> Seq<char> {
    "VREG_"@.push(r) + " equ "@ + dec_nat(vreg_addr(i))
}

/// The symbol-equate declarations: the scratch cell, the flag cell, and
/// one line per allocated register, in allocation order.
pub open spec fn spec_equates(vregs: Seq<char>) -> Seq<Seq<char>> {
    seq!["TMPW equ 128"@, "LAST_CMP equ 130"@] + Seq::new(
        vregs.len(),
        |i: int| spec_equate_line(vregs[i], i),
    )
}

/// Emits the symbol-equate declarations for a frozen allocator.
pub fn emit_equates(t: &Transpiler) -> (r: Vec<Vec<char>>)
    requires
        distinct(t.vregs@),
        all_reg_ids(t.vregs@),
    ensures
        views_of(r@) == spec_equates(t.vregs@),
{
    proof {
        lemma_reg_set_small(t.vregs@);
    }
    let mut r: Vec<Vec<char>> = Vec::new();
    let mut line: Vec<char> = Vec::new();
    push_str(&mut line, "TMPW equ 128");
    r.push(line);
    let mut line: Vec<char> = Vec::new();
    push_str(&mut line, "LAST_CMP equ 130");
    r.push(line);
    let mut i: usize = 0;
    proof {
        assert(views_of(r@) =~= spec_equates(t.vregs@).take(2));
    }
    while i < t.vregs.len()
        invariant
            i <= t.vregs@.len(),
            t.vregs@.len() <= 5,
            views_of(r@) == spec_equates(t.vregs@).take(2 + i),
        decreases t.vregs@.len() - i,
    {
        let mut line: Vec<char> = Vec::new();
        push_str(&mut line, "VREG_");
        line.push(t.vregs[i]);
        push_str(&mut line, " equ ");
        let addr: u64 = 131 + 2 * (i as u64);
        push_dec_u64(&mut line, addr);
        proof {
            assert(line@ =~= spec_equate_line(t.vregs@[i as int], i as int));
            assert(spec_equates(t.vregs@)[2 + i] == spec_equate_line(
                t.vregs@[i as int],
                i as int,
            ));
            assert(views_of(r@.push(line)) =~= views_of(r@).push(line@));
            assert(views_of(r@).push(line@) =~= spec_equates(t.vregs@).take(2 + i + 1));
        }
        r.push(line);
        i += 1;
    }
    proof {
        assert(spec_equates(t.vregs@).take(2 + i) =~= spec_equates(t.vregs@));
    }
    r
}

/// The two fixed support routines, emitted verbatim after the
/// declarations: the video-timing synchronization wait and the
/// comparison-latch routine used by `Cmp` and `CMov`.
pub open spec fn spec_runtime_lines() -> Seq<Seq<char>> {
    seq![
        ""@,
        "PAL     = $D014"@,
        "VCOUNT  = $D40B"@,
        "SYNCHRO"@,
        "            lda PAL"@,
        "            beq SYN_0"@,
        "            lda #120\t; NTSC"@,
        "            jmp SYN_1"@,
        "SYN_0       lda #145\t; PAL"@,
        "SYN_1       cmp VCOUNT"@,
        "            bne SYN_1"@,
        "            rts        "@,
        ""@,
        "LAST_CMP_EQUAL"@,
        "        BEQ @+"@,
        "        LDA #1"@,
        "        STA LAST_CMP"@,
        "        RTS"@,
        "@       LDA #0"@,
        "        STA LAST_CMP"@,
        "        RTS"@,
        "    "@,
    ]
}

/// Emits the fixed support routines.
pub fn runtime_lines() -> (r: Vec<Vec<char>>)
    ensures
        views_of(r@) == spec_runtime_lines(),
{
    let mut r: Vec<Vec<char>> = Vec::new();
    let texts: [&str; 22] = [
        "",
        "PAL     = $D014",
        "VCOUNT  = $D40B",
        "SYNCHRO",
        "            lda PAL",
        "            beq SYN_0",
        "            lda #120\t; NTSC",
        "            jmp SYN_1",
        "SYN_0       lda #145\t; PAL",
        "SYN_1       cmp VCOUNT",
        "            bne SYN_1",
        "            rts        ",
        "",
        "LAST_CMP_EQUAL",
        "        BEQ @+",
        "        LDA #1",
        "        STA LAST_CMP",
        "        RTS",
        "@       LDA #0",
        "        STA LAST_CMP",
        "        RTS",
        "    ",
    ];
    let mut i: usize = 0;
    while i < 22
        invariant
            i <= 22,
            texts@.len() == 22,
            forall|j: int| 0 <= j < 22 ==> texts@[j]@ == spec_runtime_lines()[j],
            views_of(r@) == spec_runtime_lines().take(i as int),
        decreases 22 - i,
    {
        let mut line: Vec<char> = Vec::new();
        push_str(&mut line, texts[i]);
        proof {
            assert(views_of(r@.push(line)) =~= views_of(r@).push(line@));
            assert(views_of(r@).push(line@) =~= spec_runtime_lines().take(i + 1));
        }
        r.push(line);
        i += 1;
    }
    proof {
        assert(spec_runtime_lines().take(22) =~= spec_runtime_lines());
    }
    r
}

/// The views of a sequence of text lines.
pub open spec fn strs_views(ls: Seq<String>) -> Seq<Seq<char>> {
    ls.map(|i: int, s: String| s@)
}

/// The spaces that right-align a number of `l` digits in a 4-wide field.
pub open spec fn space_pad(l: int) -> Seq<char> {
    Seq::new(
        if l >= 4 {
            0
        } else {
            (4 - l) as nat
        },
        |i: int| ' ',
    )
}

/// The echo comment placed above each translated instruction, carrying
/// the line's position and its source text.
pub open spec fn spec_echo(n: int, text: Seq<char>) -> Seq<char> {
    "; Line "@ + space_pad(dec_nat(n).len() as int) + dec_nat(n) + ":\t"@ + text
}

/// Builds the echo comment for one source line.
fn echo_line(n: usize, text: &Vec<char>) -> (v: Vec<char>)
    ensures
        v@ == spec_echo(n as int, text@),
{
    let mut v: Vec<char> = Vec::new();
    push_str(&mut v, "; Line ");
    let mut digits: Vec<char> = Vec::new();
    push_dec_u64(&mut digits, n as u64);
    let mut k: usize = digits.len();
    proof {
        assert(v@ =~= "; Line "@ + Seq::new(0, |i: int| ' '));
    }
    while k < 4
        invariant
            digits@ == dec_nat(n as int),
            digits@.len() <= k,
            k == digits@.len() || k <= 4,
            v@ == "; Line "@ + Seq::new((k - digits@.len()) as nat, |i: int| ' '),
        decreases 4 - k,
    {
        v.push(' ');
        proof {
            assert(v@ =~= "; Line "@ + Seq::new((k + 1 - digits@.len()) as nat, |i: int| ' '));
        }
        k += 1;
    }
    proof {
        assert(Seq::new((k - digits@.len()) as nat, |i: int| ' ') =~= space_pad(
            digits@.len() as int,
        ));
    }
    push_chars(&mut v, &digits);
    push_str(&mut v, ":\t");
    push_chars(&mut v, text);
    proof {
        assert(v@ =~= spec_echo(n as int, text@));
    }
    v
}

/// Whether every line after the header parses; on the first failure, the
/// failing line's position (counted from the first line after the header)
/// and its error.
pub open spec fn spec_parse_from(lines: Seq<Seq<char>>, i: int) -> Result<(), (int, SpecError)>
    decreases lines.len() - i,
{
    if i < 1 || i >= lines.len() {
        Ok(())
    } else {
        match spec_parse_line(lines[i]) {
            Err(e) => Err((i - 1, e)),
            Ok(_) => spec_parse_from(lines, i + 1),
        }
    }
}

/// The register set accumulated by observing the lines before index `i`.
pub open spec fn spec_vregs_upto(lines: Seq<Seq<char>>, i: int) -> Seq<char>
    decreases i,
{
    if i <= 1 {
        Seq::empty()
    } else {
        spec_observe_line(spec_vregs_upto(lines, i - 1), spec_parse_line(lines[i - 1])->Ok_0)
    }
}

/// The translated instruction body from line `i` on: one echo comment and
/// the generated lines for each instruction, in input order.
pub open spec fn spec_body_from(lines: Seq<Seq<char>>, i: int) -> Seq<Seq<char>>
    decreases lines.len() - i,
{
    if i < 1 || i >= lines.len() {
        seq![]
    } else {
        seq![spec_echo(i - 1, lines[i])] + spec_gen_lines(spec_parse_line(lines[i])->Ok_0)
            + spec_body_from(lines, i + 1)
    }
}

/// The whole run: the first line is the header and is skipped; parsing is
/// all-or-nothing, and on success the output is the translated body, then
/// the symbol-equate declarations, then the fixed support routines.
pub open spec fn spec_translate(lines: Seq<Seq<char>>) -> Result<
    Seq<Seq<char>>,
    (int, SpecError),
> {
    match spec_parse_from(lines, 1) {
        Err(e) => Err(e),
        Ok(_) => Ok(
            seq!["\tORG $2000"@] + spec_body_from(lines, 1) + spec_equates(
                spec_vregs_upto(lines, lines.len() as int),
            ) + spec_runtime_lines(),
        ),
    }
}

/// A failure at line `i` surfaces as the whole run's failure.
proof fn lemma_parse_from_err(lines: Seq<Seq<char>>, s: int, i: int)
    requires
        1 <= s <= i < lines.len(),
        forall|j: int| s <= j < i ==> spec_parse_line(#[trigger] lines[j]) is Ok,
        spec_parse_line(lines[i]) is Err,
    ensures
        spec_parse_from(lines, s) == Err::<(), (int, SpecError)>(
            (i - 1, spec_parse_line(lines[i])->Err_0),
        ),
    decreases i - s,
{
    if s < i {
        lemma_parse_from_err(lines, s + 1, i);
    }
}

/// When every line parses, the whole run parses.
proof fn lemma_parse_from_ok(lines: Seq<Seq<char>>, s: int)
    requires
        forall|j: int| 1 <= j < lines.len() ==> spec_parse_line(#[trigger] lines[j]) is Ok,
    ensures
        spec_parse_from(lines, s) is Ok,
    decreases lines.len() - s,
{
    if 1 <= s && s < lines.len() {
        lemma_parse_from_ok(lines, s + 1);
    }
}

/// What failing a whole-run parse means, from line `s` on: it fails
/// exactly when some line fails, and the failure it reports is the
/// first one.
proof fn lemma_parse_from_first_failure(lines: Seq<Seq<char>>, s: int)
    requires
        1 <= s,
    ensures
        (spec_parse_from(lines, s) is Err) <==> (exists|i: int|
            s <= i < lines.len() && (#[trigger] spec_parse_line(lines[i])) is Err),
        spec_parse_from(lines, s) matches Err((p, e)) ==> {
            &&& s <= p + 1 < lines.len()
            &&& spec_parse_line(lines[p + 1]) is Err
            &&& e == spec_parse_line(lines[p + 1])->Err_0
            &&& forall|j: int| s <= j < p + 1 ==> (#[trigger] spec_parse_line(lines[j])) is Ok
        },
    decreases lines.len() - s,
{
    if s < lines.len() {
        match spec_parse_line(lines[s]) {
            Err(_) => {
                assert(spec_parse_line(lines[s]) is Err);
            },
            Ok(_) => {
                lemma_parse_from_first_failure(lines, s + 1);
            },
        }
    }
}

/// Parsing is all-or-nothing for the run: the whole translation fails
/// exactly when some line after the header fails to parse — no output is
/// produced then — and the failure it reports carries the position of
/// the first failing line (counted from the first line after the
/// header) and that line's own error.
pub proof fn lemma_translate_all_or_nothing(lines: Seq<Seq<char>>)
    ensures
        (spec_translate(lines) is Err) <==> (exists|i: int|
            1 <= i < lines.len() && (#[trigger] spec_parse_line(lines[i])) is Err),
        spec_translate(lines) matches Err((p, e)) ==> {
            &&& 1 <= p + 1 < lines.len()
            &&& spec_parse_line(lines[p + 1]) is Err
            &&& e == spec_parse_line(lines[p + 1])->Err_0
            &&& forall|j: int| 1 <= j < p + 1 ==> (#[trigger] spec_parse_line(lines[j])) is Ok
        },
{
    lemma_parse_from_first_failure(lines, 1);
}

/// Translates a whole input: the first line is a header and is skipped;
/// any parse failure aborts the run before any output is produced, with
/// the failing line's position.
pub fn translate(lines: &Vec<String>) -> (r: Result<Vec<Vec<char>>, (usize, AsmLineError)>)
    ensures
        match r {
            Ok(out) => spec_translate(strs_views(lines@)) == Ok::<Seq<Seq<char>>, (int, SpecError)>(
                views_of(out@),
            ),
            Err((i, e)) => spec_translate(strs_views(lines@)) == Err::<
                Seq<Seq<char>>,
                (int, SpecError),
            >((i as int, e@)),
        },
{
    let ghost gl = strs_views(lines@);
    let mut parsed: Vec<crate::asm_line::AsmLine> = Vec::new();
    let mut raws: Vec<Vec<char>> = Vec::new();
    let mut t = Transpiler::new();
    let mut i: usize = 1;
    while i < lines.len()
        invariant
            1 <= i,
            i <= lines@.len() || i == 1,
            gl == strs_views(lines@),
            gl.len() == lines@.len(),
            parsed@.len() == i - 1,
            raws@.len() == i - 1,
            forall|j: int|
                1 <= j < i ==> spec_parse_line(#[trigger] gl[j]) == Ok::<SpecLine, SpecError>(
                    parsed@[j - 1]@,
                ),
            forall|j: int| 1 <= j < i ==> #[trigger] raws@[j - 1]@ == gl[j],
            t.vregs@ == spec_vregs_upto(gl, i as int),
            distinct(t.vregs@),
            all_reg_ids(t.vregs@),
        decreases lines@.len() - i,
    {
        proof {
            assert(gl[i as int] == lines@[i as int]@);
        }
        let raw = crate::text::chars_vec(lines[i].as_str());
        match crate::asm_line::AsmLine::parse_chars(&raw) {
            Err(e) => {
                proof {
                    lemma_parse_from_err(gl, 1, i as int);
                }
                return Err((i - 1, e));
            },
            Ok(l) => {
                proof {
                    lemma_observe_parsed_line(t.vregs@, gl[i as int], l@);
                    crate::transpiler::lemma_observe_line_distinct(t.vregs@, l@);
                }
                t.check_for_virtual_registers(&l);
                parsed.push(l);
                raws.push(raw);
            },
        }
        i += 1;
    }
    proof {
        lemma_parse_from_ok(gl, 1);
    }
    let mut out: Vec<Vec<char>> = Vec::new();
    let mut org: Vec<char> = Vec::new();
    push_str(&mut org, "\tORG $2000");
    proof {
        assert(views_of(out@.push(org)) =~= seq![org@]);
        assert(seq![org@] + spec_body_from(gl, 1) =~= seq!["\tORG $2000"@] + spec_body_from(
            gl,
            1,
        ));
    }
    out.push(org);
    let mut j: usize = 0;
    while j < parsed.len()
        invariant
            j <= parsed@.len(),
            parsed@.len() == raws@.len(),
            gl.len() == 0 ==> parsed@.len() == 0,
            gl.len() >= 1 ==> parsed@.len() == gl.len() - 1,
            forall|k: int|
                0 <= k < parsed@.len() ==> spec_parse_line(#[trigger] gl[k + 1]) == Ok::<
                    SpecLine,
                    SpecError,
                >(parsed@[k]@),
            forall|k: int| 0 <= k < raws@.len() ==> #[trigger] raws@[k]@ == gl[k + 1],
            views_of(out@) + spec_body_from(gl, j + 1) =~= seq!["\tORG $2000"@]
                + spec_body_from(gl, 1),
        decreases parsed@.len() - j,
    {
        let echo = echo_line(j, &raws[j]);
        proof {
            assert(views_of(out@.push(echo)) =~= views_of(out@).push(echo@));
        }
        out.push(echo);
        let mut gen = generate_lines(&parsed[j]);
        proof {
            assert(views_of(out@ + gen@) =~= views_of(out@) + views_of(gen@));
            assert(spec_body_from(gl, j + 1) == seq![spec_echo(j as int, gl[j + 1])]
                + spec_gen_lines(spec_parse_line(gl[j + 1])->Ok_0) + spec_body_from(
                gl,
                j + 2,
            ));
            assert(echo@ == spec_echo(j as int, gl[j + 1]));
            assert(views_of(gen@) == spec_gen_lines(spec_parse_line(gl[j + 1])->Ok_0));
        }
        out.append(&mut gen);
        j += 1;
    }
    proof {
        assert(spec_body_from(gl, j + 1) =~= Seq::<Seq<char>>::empty());
        assert(views_of(out@) =~= seq!["\tORG $2000"@] + spec_body_from(gl, 1));
        if gl.len() == 0 {
            assert(spec_vregs_upto(gl, gl.len() as int) == spec_vregs_upto(gl, 1));
        }
        assert(t.vregs@ == spec_vregs_upto(gl, gl.len() as int));
    }
    let mut eq = emit_equates(&t);
    proof {
        assert(views_of(out@ + eq@) =~= views_of(out@) + views_of(eq@));
    }
    out.append(&mut eq);
    let mut rt = runtime_lines();
    proof {
        assert(views_of(out@ + rt@) =~= views_of(out@) + views_of(rt@));
    }
    out.append(&mut rt);
    proof {
        assert(views_of(out@) =~= seq!["\tORG $2000"@] + spec_body_from(gl, 1) + spec_equates(
            spec_vregs_upto(gl, gl.len() as int),
        ) + spec_runtime_lines());
    }
    Ok(out)
}

} // verus!
