//! Source lines: the instruction type, the line parser and its errors.

use vstd::prelude::*;

use crate::arg::{Arg, SpecArg};

verus! {

/// A fatal parse-stage failure. Any of these aborts the whole run:
/// parsing is all-or-nothing, no output is produced after one.
#[derive(Debug, PartialEq)]
pub enum AsmLineError {
    /// A line with no tokens at all.
    UnknownError,
    /// The mnemonic at the start of the line is not in the opcode table.
    UnknownOpcode(Vec<char>),
    /// The operand count does not equal the opcode's declared arity.
    IncorrectNumberOfArguments,
    /// An empty operand token.
    EmptyArgument,
    /// An operand token with an unclassifiable first character, or an
    /// unparsable numeric body.
    MalformedArgumentName(Vec<char>),
    /// A `%`-token whose name is not in the register name table.
    MalformedRegisterName(Vec<char>),
}

/// The mathematical value of an `AsmLineError`.
pub enum SpecError {
    UnknownError,
    UnknownOpcode(Seq<char>),
    IncorrectNumberOfArguments,
    EmptyArgument,
    MalformedArgumentName(Seq<char>),
    MalformedRegisterName(Seq<char>),
}

impl View for AsmLineError {
    type V = SpecError;

    open spec fn view(&self) -> SpecError {
        match self {
            AsmLineError::UnknownError => SpecError::UnknownError,
            AsmLineError::UnknownOpcode(s) => SpecError::UnknownOpcode(s@),
            AsmLineError::IncorrectNumberOfArguments => SpecError::IncorrectNumberOfArguments,
            AsmLineError::EmptyArgument => SpecError::EmptyArgument,
            AsmLineError::MalformedArgumentName(s) => SpecError::MalformedArgumentName(s@),
            AsmLineError::MalformedRegisterName(s) => SpecError::MalformedRegisterName(s@),
        }
    }
}

/// One parsed instruction. Each variant carries exactly its declared
/// number of operands; the arity is enforced at parse time and never
/// relaxed afterwards.
#[derive(Debug, PartialEq)]
pub enum AsmLine {
    Label(Vec<char>),
    Xor(Arg, Arg),
    Adc(Arg, Arg),
    Mov(Arg, Arg),
    MovZ(Arg, Arg),
    Cmp(Arg, Arg),
    CMov(Arg, Arg),
    Inc(Arg),
    Dec(Arg),
    Jmp(Arg),
    Push(Arg),
}

/// The mathematical value of an `AsmLine`.
pub enum SpecLine {
    Label(Seq<char>),
    Xor(SpecArg, SpecArg),
    Adc(SpecArg, SpecArg),
    Mov(SpecArg, SpecArg),
    MovZ(SpecArg, SpecArg),
    Cmp(SpecArg, SpecArg),
    CMov(SpecArg, SpecArg),
    Inc(SpecArg),
    Dec(SpecArg),
    Jmp(SpecArg),
    Push(SpecArg),
}

impl View for AsmLine {
    type V = SpecLine;

    open spec fn view(&self) -> SpecLine {
        match self {
            AsmLine::Label(s) => SpecLine::Label(s@),
            AsmLine::Xor(a, b) => SpecLine::Xor(a@, b@),
            AsmLine::Adc(a, b) => SpecLine::Adc(a@, b@),
            AsmLine::Mov(a, b) => SpecLine::Mov(a@, b@),
            AsmLine::MovZ(a, b) => SpecLine::MovZ(a@, b@),
            AsmLine::Cmp(a, b) => SpecLine::Cmp(a@, b@),
            AsmLine::CMov(a, b) => SpecLine::CMov(a@, b@),
            AsmLine::Inc(a) => SpecLine::Inc(a@),
            AsmLine::Dec(a) => SpecLine::Dec(a@),
            AsmLine::Jmp(a) => SpecLine::Jmp(a@),
            AsmLine::Push(a) => SpecLine::Push(a@),
        }
    }
}

/// A token separator.
pub open spec fn is_ws(c: char) -> bool {
    c == ' ' || c == '\t' || c == '\r'
}

/// Length of the maximal separator-free prefix of `s`.
pub open spec fn token_end(s: Seq<char>) -> int
    decreases s.len(),
{
    if s.len() == 0 || is_ws(s[0]) {
        0
    } else {
        1 + token_end(s.skip(1))
    }
}

/// The separator-delimited tokens of `s`.
pub open spec fn spec_split_ws(s: Seq<char>) -> Seq<Seq<char>>
    decreases s.len(),
{
    if s.len() == 0 {
        seq![]
    } else if is_ws(s[0]) {
        spec_split_ws(s.skip(1))
    } else {
        let k = token_end(s);
        if 1 <= k <= s.len() {
            seq![s.take(k)] + spec_split_ws(s.skip(k))
        } else {
            seq![]
        }
    }
}

/// The views of a sequence of character vectors.
pub open spec fn views_of(ts: Seq<Vec<char>>) -> Seq<Seq<char>> {
    ts.map(|i: int, t: Vec<char>| t@)
}

/// A scan that stops at the first separator computes `token_end`.
proof fn lemma_token_end_scan(s: Seq<char>, i: int, j: int)
    requires
        0 <= i <= j <= s.len(),
        forall|k: int| i <= k < j ==> !is_ws(#[trigger] s[k]),
        j == s.len() || is_ws(s[j]),
    ensures
        token_end(s.skip(i)) == j - i,
    decreases j - i,
{
    if i == j {
        if i < s.len() {
            assert(s.skip(i)[0] == s[i]);
        }
    } else {
        assert(!is_ws(s.skip(i)[0]));
        lemma_token_end_scan(s, i + 1, j);
        assert(s.skip(i).skip(1) =~= s.skip(i + 1));
    }
}

/// Splits `s` into separator-delimited tokens.
pub fn split_ws(s: &Vec<char>) -> (toks: Vec<Vec<char>>)
    ensures
        views_of(toks@) == spec_split_ws(s@),
{
    let mut toks: Vec<Vec<char>> = Vec::new();
    let mut i: usize = 0;
    proof {
        assert(s@.skip(0) =~= s@);
        assert(views_of(toks@) + spec_split_ws(s@.skip(0)) =~= spec_split_ws(s@));
    }
    while i < s.len()
        invariant
            i <= s@.len(),
            views_of(toks@) + spec_split_ws(s@.skip(i as int)) =~= spec_split_ws(s@),
        decreases s@.len() - i,
    {
        let c = s[i];
        if c == ' ' || c == '\t' || c == '\r' {
            proof {
                assert(s@.skip(i as int)[0] == s@[i as int]);
                assert(s@.skip(i as int).skip(1) =~= s@.skip(i + 1));
            }
            i += 1;
        } else {
            let mut j: usize = i + 1;
            while j < s.len() && !(s[j] == ' ' || s[j] == '\t' || s[j] == '\r')
                invariant
                    i < j <= s@.len(),
                    forall|k: int| i <= k < j ==> !is_ws(#[trigger] s@[k]),
                decreases s@.len() - j,
            {
                j += 1;
            }
            let tok = crate::text::copy_range(s, i, j);
            proof {
                lemma_token_end_scan(s@, i as int, j as int);
                let rem = s@.skip(i as int);
                assert(rem.take(j - i) =~= s@.subrange(i as int, j as int));
                assert(rem.skip(j - i) =~= s@.skip(j as int));
                assert(spec_split_ws(rem) == seq![tok@] + spec_split_ws(s@.skip(j as int)));
                assert(views_of(toks@.push(tok)) =~= views_of(toks@).push(tok@));
                assert(views_of(toks@.push(tok)) + spec_split_ws(s@.skip(j as int))
                    =~= spec_split_ws(s@));
            }
            toks.push(tok);
            i = j;
        }
    }
    proof {
        assert(spec_split_ws(s@.skip(i as int)) =~= Seq::<Seq<char>>::empty());
        assert(views_of(toks@) =~= spec_split_ws(s@));
    }
    toks
}

/// Recombination of a split addressing form, then the arity check: a raw
/// token beginning with `(` is merged with its successor, and the
/// resulting operand count must equal the opcode's declared arity exactly.
pub open spec fn spec_args(parts: Seq<Seq<char>>, expected: int) -> Result<
    Seq<Seq<char>>,
    SpecError,
> {
    let merged = if parts.len() == 3 && parts[1].len() > 0 && parts[1][0] == '(' {
        seq![parts[0], parts[1] + parts[2]]
    } else {
        parts
    };
    if merged.len() == expected {
        Ok(merged)
    } else {
        Err(SpecError::IncorrectNumberOfArguments)
    }
}

/// Both operand tokens of a binary opcode, parsed; the first failure wins.
pub open spec fn spec_args2_parsed(parts: Seq<Seq<char>>) -> Result<
    (crate::arg::SpecArg, crate::arg::SpecArg),
    SpecError,
> {
    match spec_args(parts, 2) {
        Err(e) => Err(e),
        Ok(v) => match crate::arg::spec_parse_arg(v[0]) {
            Err(e) => Err(e),
            Ok(a) => match crate::arg::spec_parse_arg(v[1]) {
                Err(e) => Err(e),
                Ok(b) => Ok((a, b)),
            },
        },
    }
}

/// The operand token of a unary opcode, parsed.
pub open spec fn spec_arg1_parsed(parts: Seq<Seq<char>>) -> Result<
    crate::arg::SpecArg,
    SpecError,
> {
    match spec_args(parts, 1) {
        Err(e) => Err(e),
        Ok(v) => match crate::arg::spec_parse_arg(v[0]) {
            Err(e) => Err(e),
            Ok(a) => Ok(a),
        },
    }
}

/// The line parser: a label line is taken verbatim; otherwise the first
/// token is matched exactly against the fixed opcode table and the rest
/// are assembled into operands.
pub open spec fn spec_parse_line(s: Seq<char>) -> Result<SpecLine, SpecError> {
    if s.len() > 0 && s[0] == '.' {
        Ok(SpecLine::Label(s.skip(1)))
    } else {
        let toks = spec_split_ws(s);
        if toks.len() == 0 {
            Err(SpecError::UnknownError)
        } else {
            let opcode = toks[0];
            let rest = toks.skip(1);
            if opcode == "movb"@ || opcode == "movl"@ {
                match spec_args2_parsed(rest) {
                    Ok((a, b)) => Ok(SpecLine::Mov(a, b)),
                    Err(e) => Err(e),
                }
            } else if opcode == "movzbl"@ {
                match spec_args2_parsed(rest) {
                    Ok((a, b)) => Ok(SpecLine::MovZ(a, b)),
                    Err(e) => Err(e),
                }
            } else if opcode == "xorl"@ {
                match spec_args2_parsed(rest) {
                    Ok((a, b)) => Ok(SpecLine::Xor(a, b)),
                    Err(e) => Err(e),
                }
            } else if opcode == "addb"@ || opcode == "adcb"@ {
                match spec_args2_parsed(rest) {
                    Ok((a, b)) => Ok(SpecLine::Adc(a, b)),
                    Err(e) => Err(e),
                }
            } else if opcode == "cmpb"@ {
                match spec_args2_parsed(rest) {
                    Ok((a, b)) => Ok(SpecLine::Cmp(a, b)),
                    Err(e) => Err(e),
                }
            } else if opcode == "cmovel"@ {
                match spec_args2_parsed(rest) {
                    Ok((a, b)) => Ok(SpecLine::CMov(a, b)),
                    Err(e) => Err(e),
                }
            } else if opcode == "incb"@ {
                match spec_arg1_parsed(rest) {
                    Ok(a) => Ok(SpecLine::Inc(a)),
                    Err(e) => Err(e),
                }
            } else if opcode == "decb"@ {
                match spec_arg1_parsed(rest) {
                    Ok(a) => Ok(SpecLine::Dec(a)),
                    Err(e) => Err(e),
                }
            } else if opcode == "pushl"@ {
                match spec_arg1_parsed(rest) {
                    Ok(a) => Ok(SpecLine::Push(a)),
                    Err(e) => Err(e),
                }
            } else if opcode == "jmp"@ {
                match spec_arg1_parsed(rest) {
                    Ok(a) => Ok(SpecLine::Jmp(a)),
                    Err(e) => Err(e),
                }
            } else {
                Err(SpecError::UnknownOpcode(opcode))
            }
        }
    }
}

/// The view of a line parse result.
pub open spec fn line_res_view(r: Result<AsmLine, AsmLineError>) -> Result<
    SpecLine,
    SpecError,
> {
    match r {
        Ok(l) => Ok(l@),
        Err(e) => Err(e@),
    }
}

/// Parsing is a pure function of the line text alone: any two parses of
/// the same text — in particular two calls of `AsmLine::from_str`, whose
/// contract ties each result to `spec_parse_line` — yield structurally
/// identical instruction values, independent of any allocator state.
pub proof fn lemma_parse_line_deterministic(
    s: Seq<char>,
    r1: Result<AsmLine, AsmLineError>,
    r2: Result<AsmLine, AsmLineError>,
)
    requires
        line_res_view(r1) == spec_parse_line(s),
        line_res_view(r2) == spec_parse_line(s),
    ensures
        line_res_view(r1) == line_res_view(r2),
{
}

/// The same, for one operand token and `Arg::from_str`.
pub proof fn lemma_parse_arg_deterministic(
    s: Seq<char>,
    r1: Result<crate::arg::Arg, AsmLineError>,
    r2: Result<crate::arg::Arg, AsmLineError>,
)
    requires
        crate::arg::arg_res_view(r1) == crate::arg::spec_parse_arg(s),
        crate::arg::arg_res_view(r2) == crate::arg::spec_parse_arg(s),
    ensures
        crate::arg::arg_res_view(r1) == crate::arg::arg_res_view(r2),
{
}

/// Concatenation of two character vectors.
fn concat_chars(a: &Vec<char>, b: &Vec<char>) -> (r: Vec<char>)
    ensures
        r@ == a@ + b@,
{
    let mut r = crate::text::copy_chars(a);
    let mut i: usize = 0;
    while i < b.len()
        invariant
            i <= b@.len(),
            r@ == a@ + b@.subrange(0, i as int),
        decreases b@.len() - i,
    {
        r.push(b[i]);
        proof {
            assert(r@ =~= a@ + b@.subrange(0, i + 1));
        }
        i += 1;
    }
    proof {
        assert(r@ =~= a@ + b@);
    }
    r
}

impl AsmLine {
    /// Recombines a split addressing form and checks the operand count.
    pub fn args(parts: Vec<Vec<char>>, expected_count: usize) -> (r: Result<
        Vec<Vec<char>>,
        AsmLineError,
    >)
        ensures
            match r {
                Ok(v) => spec_args(views_of(parts@), expected_count as int) == Ok::<
                    Seq<Seq<char>>,
                    SpecError,
                >(views_of(v@)),
                Err(e) => spec_args(views_of(parts@), expected_count as int) == Err::<
                    Seq<Seq<char>>,
                    SpecError,
                >(e@),
            },
    {
        let merge = parts.len() == 3 && parts[1].len() > 0 && parts[1][0] == '(';
        if merge {
            let p0 = crate::text::copy_chars(&parts[0]);
            let tail = concat_chars(&parts[1], &parts[2]);
            let mut m: Vec<Vec<char>> = Vec::new();
            m.push(p0);
            m.push(tail);
            proof {
                assert(views_of(m@) =~= seq![
                    views_of(parts@)[0],
                    views_of(parts@)[1] + views_of(parts@)[2],
                ]);
            }
            if expected_count == 2 {
                Ok(m)
            } else {
                Err(AsmLineError::IncorrectNumberOfArguments)
            }
        } else {
            if parts.len() == expected_count {
                Ok(parts)
            } else {
                Err(AsmLineError::IncorrectNumberOfArguments)
            }
        }
    }

    /// Parses one source line, given as characters.
    pub fn parse_chars(s: &Vec<char>) -> (r: Result<AsmLine, AsmLineError>)
        ensures
            line_res_view(r) == spec_parse_line(s@),
    {
        if s.len() > 0 && s[0] == '.' {
            let rest = crate::text::copy_range(s, 1, s.len());
            proof {
                assert(rest@ =~= s@.skip(1));
            }
            return Ok(AsmLine::Label(rest));
        }
        let mut toks = split_ws(s);
        if toks.len() == 0 {
            return Err(AsmLineError::UnknownError);
        }
        let rest = toks.split_off(1);
        proof {
            assert(views_of(rest@) =~= spec_split_ws(s@).skip(1));
            assert(views_of(toks@)[0] == spec_split_ws(s@)[0]);
        }
        let opcode = &toks[0];
        if crate::text::chars_eq_str(opcode, "movb") || crate::text::chars_eq_str(
            opcode,
            "movl",
        ) {
            match Self::args2_parsed(rest) {
                Ok((a, b)) => Ok(AsmLine::Mov(a, b)),
                Err(e) => Err(e),
            }
        } else if crate::text::chars_eq_str(opcode, "movzbl") {
            match Self::args2_parsed(rest) {
                Ok((a, b)) => Ok(AsmLine::MovZ(a, b)),
                Err(e) => Err(e),
            }
        } else if crate::text::chars_eq_str(opcode, "xorl") {
            match Self::args2_parsed(rest) {
                Ok((a, b)) => Ok(AsmLine::Xor(a, b)),
                Err(e) => Err(e),
            }
        } else if crate::text::chars_eq_str(opcode, "addb") || crate::text::chars_eq_str(
            opcode,
            "adcb",
        ) {
            match Self::args2_parsed(rest) {
                Ok((a, b)) => Ok(AsmLine::Adc(a, b)),
                Err(e) => Err(e),
            }
        } else if crate::text::chars_eq_str(opcode, "cmpb") {
            match Self::args2_parsed(rest) {
                Ok((a, b)) => Ok(AsmLine::Cmp(a, b)),
                Err(e) => Err(e),
            }
        } else if crate::text::chars_eq_str(opcode, "cmovel") {
            match Self::args2_parsed(rest) {
                Ok((a, b)) => Ok(AsmLine::CMov(a, b)),
                Err(e) => Err(e),
            }
        } else if crate::text::chars_eq_str(opcode, "incb") {
            match Self::arg1_parsed(rest) {
                Ok(a) => Ok(AsmLine::Inc(a)),
                Err(e) => Err(e),
            }
        } else if crate::text::chars_eq_str(opcode, "decb") {
            match Self::arg1_parsed(rest) {
                Ok(a) => Ok(AsmLine::Dec(a)),
                Err(e) => Err(e),
            }
        } else if crate::text::chars_eq_str(opcode, "pushl") {
            match Self::arg1_parsed(rest) {
                Ok(a) => Ok(AsmLine::Push(a)),
                Err(e) => Err(e),
            }
        } else if crate::text::chars_eq_str(opcode, "jmp") {
            match Self::arg1_parsed(rest) {
                Ok(a) => Ok(AsmLine::Jmp(a)),
                Err(e) => Err(e),
            }
        } else {
            Err(AsmLineError::UnknownOpcode(crate::text::copy_chars(opcode)))
        }
    }

    /// Parses one source line, given as text.
    pub fn from_str(s: &str) -> (r: Result<AsmLine, AsmLineError>)
        ensures
            line_res_view(r) == spec_parse_line(s@),
    {
        let v = crate::text::chars_vec(s);
        Self::parse_chars(&v)
    }

    /// Assembles and parses the operands of a binary opcode.
    fn args2_parsed(parts: Vec<Vec<char>>) -> (r: Result<(crate::arg::Arg, crate::arg::Arg), AsmLineError>)
        ensures
            match r {
                Ok((a, b)) => spec_args2_parsed(views_of(parts@)) == Ok::<
                    (crate::arg::SpecArg, crate::arg::SpecArg),
                    SpecError,
                >((a@, b@)),
                Err(e) => spec_args2_parsed(views_of(parts@)) == Err::<
                    (crate::arg::SpecArg, crate::arg::SpecArg),
                    SpecError,
                >(e@),
            },
    {
        match Self::args(parts, 2) {
            Err(e) => Err(e),
            Ok(v) => {
                match crate::arg::Arg::parse_chars(&v[0]) {
                    Err(e) => Err(e),
                    Ok(a) => match crate::arg::Arg::parse_chars(&v[1]) {
                        Err(e) => Err(e),
                        Ok(b) => Ok((a, b)),
                    },
                }
            },
        }
    }

    /// Assembles and parses the operand of a unary opcode.
    fn arg1_parsed(parts: Vec<Vec<char>>) -> (r: Result<crate::arg::Arg, AsmLineError>)
        ensures
            match r {
                Ok(a) => spec_arg1_parsed(views_of(parts@)) == Ok::<
                    crate::arg::SpecArg,
                    SpecError,
                >(a@),
                Err(e) => spec_arg1_parsed(views_of(parts@)) == Err::<
                    crate::arg::SpecArg,
                    SpecError,
                >(e@),
            },
    {
        match Self::args(parts, 1) {
            Err(e) => Err(e),
            Ok(v) => {
                match crate::arg::Arg::parse_chars(&v[0]) {
                    Err(e) => Err(e),
                    Ok(a) => Ok(a),
                }
            },
        }
    }
}

} // verus!
