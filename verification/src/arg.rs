//! Operands: classification of one whitespace-delimited token into a typed
//! operand value, together with the specification-level parser it is proved
//! against.

use vstd::prelude::*;

use crate::asm_line::{AsmLineError, SpecError};

verus! {

/// One typed operand.
///
/// A `VirtualRegister` is a wide (16-bit) source register, named by its
/// canonical single-letter identity; it stays opaque until the allocator
/// assigns it a 2-byte zero-page cell. A `SumAddress` is the `(reg,reg)`
/// base+index addressing form, carrying the two register identities.
#[derive(Debug, PartialEq)]
pub enum Arg {
    Literal(i32),
    VirtualRegister(char),
    AbsoluteAddress(i32),
    SumAddress(char, char),
    Label(Vec<char>),
}

/// The mathematical value of an `Arg`.
pub enum SpecArg {
    Literal(int),
    VirtualRegister(char),
    AbsoluteAddress(int),
    SumAddress(char, char),
    Label(Seq<char>),
}

impl View for Arg {
    type V = SpecArg;

    open spec fn view(&self) -> SpecArg {
        match self {
            Arg::Literal(n) => SpecArg::Literal(*n as int),
            Arg::VirtualRegister(r) => SpecArg::VirtualRegister(*r),
            Arg::AbsoluteAddress(a) => SpecArg::AbsoluteAddress(*a as int),
            Arg::SumAddress(b, i) => SpecArg::SumAddress(*b, *i),
            Arg::Label(s) => SpecArg::Label(s@),
        }
    }
}

/// The view of a parse result.
pub open spec fn arg_res_view(r: Result<Arg, AsmLineError>) -> Result<SpecArg, SpecError> {
    match r {
        Ok(a) => Ok(a@),
        Err(e) => Err(e@),
    }
}

/// The view of a register lookup result.
pub open spec fn reg_res_view(r: Result<char, AsmLineError>) -> Result<char, SpecError> {
    match r {
        Ok(c) => Ok(c),
        Err(e) => Err(e@),
    }
}

/// The identities a register name can map to.
pub open spec fn is_reg_id(c: char) -> bool {
    c == 'A' || c == 'B' || c == 'C' || c == 'D' || c == 'S'
}

/// The fixed register name table: canonical identity of a source register
/// name, or an error naming the unknown register.
pub open spec fn spec_register_from_name(name: Seq<char>) -> Result<char, SpecError> {
    if name == "eax"@ || name == "al"@ {
        Ok('A')
    } else if name == "ecx"@ || name == "cl"@ {
        Ok('C')
    } else if name == "ebx"@ || name == "bl"@ {
        Ok('B')
    } else if name == "edx"@ || name == "dl"@ {
        Ok('D')
    } else if name == "esi"@ {
        Ok('S')
    } else {
        Err(SpecError::MalformedRegisterName(name))
    }
}

/// Characters kept when a register name is taken from a `%`-token.
pub open spec fn keep_reg_name_chars() -> spec_fn(char) -> bool {
    |c: char| c != ',' && c != '%'
}

/// Characters kept when a numeric or label body is taken from a token.
pub open spec fn keep_not_comma() -> spec_fn(char) -> bool {
    |c: char| c != ','
}

/// A decimal digit.
pub open spec fn is_digit(c: char) -> bool {
    48 <= c as u32 && c as u32 <= 57
}

/// The value of a decimal digit.
pub open spec fn digit_val(c: char) -> int {
    c as u32 - 48
}

/// Whether every character of `s` is a decimal digit.
pub open spec fn all_digits(s: Seq<char>) -> bool {
    forall|i: int| 0 <= i < s.len() ==> is_digit(#[trigger] s[i])
}

/// The value of a digit string, most significant digit first.
pub open spec fn digits_val(s: Seq<char>) -> int
    decreases s.len(),
{
    if s.len() == 0 {
        0
    } else {
        10 * digits_val(s.drop_last()) + digit_val(s.last())
    }
}

/// An unsigned decimal body: at least one character, all digits.
pub open spec fn spec_parse_mag(s: Seq<char>) -> Option<int> {
    if s.len() > 0 && all_digits(s) {
        Some(digits_val(s))
    } else {
        None
    }
}

/// A signed decimal body: an optional single leading sign, then digits,
/// in the two's-complement 32-bit range.
pub open spec fn spec_parse_int(s: Seq<char>) -> Option<int> {
    if s.len() > 0 && (s[0] == '-' || s[0] == '+') {
        match spec_parse_mag(s.skip(1)) {
            Some(v) => {
                if s[0] == '-' {
                    if v <= 2147483648 {
                        Some(-v)
                    } else {
                        None
                    }
                } else {
                    if v <= 2147483647 {
                        Some(v)
                    } else {
                        None
                    }
                }
            },
            None => None,
        }
    } else {
        match spec_parse_mag(s) {
            Some(v) => if v <= 2147483647 {
                Some(v)
            } else {
                None
            },
            None => None,
        }
    }
}

/// Leading `(` characters removed.
pub open spec fn trim_open(s: Seq<char>) -> Seq<char>
    decreases s.len(),
{
    if s.len() > 0 && s[0] == '(' {
        trim_open(s.skip(1))
    } else {
        s
    }
}

/// Trailing `)` characters removed.
pub open spec fn trim_close(s: Seq<char>) -> Seq<char>
    decreases s.len(),
{
    if s.len() > 0 && s.last() == ')' {
        trim_close(s.drop_last())
    } else {
        s
    }
}

/// Index of the first comma, or the length when there is none.
pub open spec fn first_comma(s: Seq<char>) -> int
    decreases s.len(),
{
    if s.len() == 0 {
        0
    } else if s[0] == ',' {
        0
    } else {
        1 + first_comma(s.skip(1))
    }
}

/// The comma-separated pieces of `s`, empty pieces kept.
pub open spec fn split_commas(s: Seq<char>) -> Seq<Seq<char>>
    decreases s.len(),
{
    let k = first_comma(s);
    if k < 0 || k >= s.len() {
        seq![s]
    } else {
        seq![s.take(k)] + split_commas(s.skip(k + 1))
    }
}

/// The register identity named by one piece of a `(reg,reg)` form:
/// a `%`, then a name from the fixed table.
pub open spec fn spec_reg_of_part(p: Seq<char>) -> Result<char, SpecError> {
    if p.len() > 0 && p[0] == '%' {
        spec_register_from_name(p.skip(1).filter(keep_reg_name_chars()))
    } else {
        Err(SpecError::MalformedArgumentName(p))
    }
}

/// A base+index addressing token: `(`-prefixed, two `%`-register pieces
/// separated by one comma.
pub open spec fn spec_parse_sum(s: Seq<char>) -> Result<SpecArg, SpecError> {
    let parts = split_commas(trim_close(trim_open(s)));
    if parts.len() != 2 {
        Err(SpecError::MalformedArgumentName(s))
    } else {
        match spec_reg_of_part(parts[0]) {
            Err(SpecError::MalformedArgumentName(_)) => Err(
                SpecError::MalformedArgumentName(s),
            ),
            Err(e) => Err(e),
            Ok(b) => match spec_reg_of_part(parts[1]) {
                Err(SpecError::MalformedArgumentName(_)) => Err(
                    SpecError::MalformedArgumentName(s),
                ),
                Err(e) => Err(e),
                Ok(i) => Ok(SpecArg::SumAddress(b, i)),
            },
        }
    }
}

/// The operand parser: classification of one non-empty token by its first
/// character, as a pure function from text to a typed value or an error.
pub open spec fn spec_parse_arg(s: Seq<char>) -> Result<SpecArg, SpecError> {
    if s.len() == 0 {
        Err(SpecError::EmptyArgument)
    } else if s[0] == '%' {
        match spec_register_from_name(s.skip(1).filter(keep_reg_name_chars())) {
            Ok(r) => Ok(SpecArg::VirtualRegister(r)),
            Err(e) => Err(e),
        }
    } else if s[0] == '.' {
        Ok(SpecArg::Label(s.skip(1).filter(keep_not_comma())))
    } else if s[0] == '(' {
        spec_parse_sum(s)
    } else if is_digit(s[0]) {
        match spec_parse_mag(s.filter(keep_not_comma())) {
            Some(v) => if v <= 2147483647 {
                Ok(SpecArg::AbsoluteAddress(v))
            } else {
                Err(SpecError::MalformedArgumentName(s))
            },
            None => Err(SpecError::MalformedArgumentName(s)),
        }
    } else if s[0] == '$' {
        match spec_parse_int(s.skip(1).filter(keep_not_comma())) {
            Some(v) => Ok(SpecArg::Literal(v)),
            None => Err(SpecError::MalformedArgumentName(s)),
        }
    } else {
        Err(SpecError::MalformedArgumentName(s))
    }
}

/// Filtering past a pushed element keeps or drops exactly that element.
pub proof fn lemma_filter_push(s: Seq<char>, c: char, pred: spec_fn(char) -> bool)
    ensures
        s.push(c).filter(pred) == (if pred(c) {
            s.filter(pred).push(c)
        } else {
            s.filter(pred)
        }),
{
    reveal(Seq::filter);
    assert(s.push(c).drop_last() =~= s);
}

/// The characters of `s` from `from` on, commas and `%` removed.
pub fn filter_reg_name(s: &Vec<char>, from: usize) -> (r: Vec<char>)
    requires
        from <= s@.len(),
    ensures
        r@ == s@.skip(from as int).filter(keep_reg_name_chars()),
{
    let mut r: Vec<char> = Vec::new();
    proof {
        reveal(Seq::filter);
        assert(s@.subrange(from as int, from as int) =~= Seq::<char>::empty());
        assert(r@ =~= s@.subrange(from as int, from as int).filter(keep_reg_name_chars()));
    }
    let mut i: usize = from;
    while i < s.len()
        invariant
            from <= i <= s@.len(),
            r@ == s@.subrange(from as int, i as int).filter(keep_reg_name_chars()),
        decreases s@.len() - i,
    {
        let c = s[i];
        if c != ',' && c != '%' {
            r.push(c);
        }
        proof {
            let pre = s@.subrange(from as int, i as int);
            assert(s@.subrange(from as int, i + 1) =~= pre.push(s@[i as int]));
            lemma_filter_push(pre, s@[i as int], keep_reg_name_chars());
        }
        i += 1;
    }
    proof {
        assert(s@.subrange(from as int, s@.len() as int) =~= s@.skip(from as int));
    }
    r
}

/// The characters of `s` from `from` on, commas removed.
pub fn filter_commas(s: &Vec<char>, from: usize) -> (r: Vec<char>)
    requires
        from <= s@.len(),
    ensures
        r@ == s@.skip(from as int).filter(keep_not_comma()),
{
    let mut r: Vec<char> = Vec::new();
    proof {
        reveal(Seq::filter);
        assert(s@.subrange(from as int, from as int) =~= Seq::<char>::empty());
        assert(r@ =~= s@.subrange(from as int, from as int).filter(keep_not_comma()));
    }
    let mut i: usize = from;
    while i < s.len()
        invariant
            from <= i <= s@.len(),
            r@ == s@.subrange(from as int, i as int).filter(keep_not_comma()),
        decreases s@.len() - i,
    {
        let c = s[i];
        if c != ',' {
            r.push(c);
        }
        proof {
            let pre = s@.subrange(from as int, i as int);
            assert(s@.subrange(from as int, i + 1) =~= pre.push(s@[i as int]));
            lemma_filter_push(pre, s@[i as int], keep_not_comma());
        }
        i += 1;
    }
    proof {
        assert(s@.subrange(from as int, s@.len() as int) =~= s@.skip(from as int));
    }
    r
}

/// The value of an all-digit string is non-negative.
pub proof fn lemma_digits_val_nonneg(s: Seq<char>)
    requires
        all_digits(s),
    ensures
        digits_val(s) >= 0,
    decreases s.len(),
{
    if s.len() > 0 {
        assert(all_digits(s.drop_last())) by {
            assert(forall|i: int|
                0 <= i < s.len() - 1 ==> #[trigger] s.drop_last()[i] == s[i]);
        }
        lemma_digits_val_nonneg(s.drop_last());
    }
}

/// Reads the decimal value of `s[from ..]`, exactly when it is a non-empty
/// all-digit string; values above `0x1_0000_0000` are reported only as
/// being above that cap.
fn parse_mag_capped(s: &Vec<char>, from: usize) -> (r: Option<u64>)
    requires
        from <= s@.len(),
    ensures
        match spec_parse_mag(s@.skip(from as int)) {
            None => r is None,
            Some(v) => {
                &&& r matches Some(u)
                &&& (v <= 0x1_0000_0000 ==> u == v)
                &&& (v > 0x1_0000_0000 ==> u > 0x1_0000_0000)
            },
        },
{
    let ghost body = s@.skip(from as int);
    if from == s.len() {
        return None;
    }
    let mut v: u64 = 0;
    let mut i: usize = from;
    proof {
        assert(s@.subrange(from as int, from as int) =~= Seq::<char>::empty());
    }
    while i < s.len()
        invariant
            from <= i <= s@.len(),
            body == s@.skip(from as int),
            all_digits(s@.subrange(from as int, i as int)),
            digits_val(s@.subrange(from as int, i as int)) <= 0x1_0000_0000 ==> v == digits_val(
                s@.subrange(from as int, i as int),
            ),
            digits_val(s@.subrange(from as int, i as int)) > 0x1_0000_0000 ==> v
                > 0x1_0000_0000,
            v <= 0xA_0000_0009,
        decreases s@.len() - i,
    {
        let c = s[i];
        let u = c as u32;
        if !(48 <= u && u <= 57) {
            proof {
                assert(!is_digit(body[i - from]));
                assert(spec_parse_mag(body) is None);
            }
            return None;
        }
        let d: u64 = (u - 48) as u64;
        proof {
            let pre = s@.subrange(from as int, i as int);
            let now = s@.subrange(from as int, i + 1);
            assert(now.drop_last() =~= pre);
            assert(now.last() == s@[i as int]);
            assert(digits_val(now) == 10 * digits_val(pre) + digit_val(s@[i as int]));
            lemma_digits_val_nonneg(pre);
            assert(all_digits(now)) by {
                assert(forall|j: int| 0 <= j < now.len() ==> #[trigger] now[j] == s@[from + j]);
            }
        }
        if v <= 0x1_0000_0000 {
            v = v * 10 + d;
        }
        i += 1;
    }
    proof {
        assert(s@.subrange(from as int, s@.len() as int) =~= body);
        lemma_digits_val_nonneg(body);
    }
    Some(v)
}

/// Reads an unsigned decimal body as a 32-bit address value.
fn parse_abs_value(digits: &Vec<char>) -> (r: Option<i32>)
    ensures
        match spec_parse_mag(digits@) {
            None => r is None,
            Some(v) => if v <= 2147483647 {
                r matches Some(x) && x as int == v
            } else {
                r is None
            },
        },
{
    match parse_mag_capped(digits, 0) {
        None => {
            proof {
                assert(digits@.skip(0) =~= digits@);
            }
            None
        },
        Some(u) => {
            proof {
                assert(digits@.skip(0) =~= digits@);
            }
            if u <= 2147483647 {
                Some(u as i32)
            } else {
                None
            }
        },
    }
}

/// Reads a signed decimal body as a 32-bit literal value.
fn parse_int_value(body: &Vec<char>) -> (r: Option<i32>)
    ensures
        match spec_parse_int(body@) {
            None => r is None,
            Some(v) => r matches Some(x) && x as int == v,
        },
{
    proof {
        assert(body@.skip(0) =~= body@);
    }
    if body.len() > 0 && (body[0] == '-' || body[0] == '+') {
        let neg = body[0] == '-';
        match parse_mag_capped(body, 1) {
            None => None,
            Some(u) => {
                if neg {
                    if u <= 2147483647 {
                        Some(-(u as i32))
                    } else if u == 2147483648 {
                        Some(i32::MIN)
                    } else {
                        None
                    }
                } else {
                    if u <= 2147483647 {
                        Some(u as i32)
                    } else {
                        None
                    }
                }
            },
        }
    } else {
        match parse_mag_capped(body, 0) {
            None => None,
            Some(u) => {
                if u <= 2147483647 {
                    Some(u as i32)
                } else {
                    None
                }
            },
        }
    }
}

/// A scan that stops at the first non-`(` character computes `trim_open`.
proof fn lemma_trim_open_scan(s: Seq<char>, a: int)
    requires
        0 <= a <= s.len(),
        forall|k: int| 0 <= k < a ==> s[k] == '(',
        a == s.len() || s[a] != '(',
    ensures
        trim_open(s) == s.skip(a),
    decreases a,
{
    if a == 0 {
        assert(s.skip(0) =~= s);
    } else {
        assert(s[0] == '(');
        lemma_trim_open_scan(s.skip(1), a - 1);
        assert(s.skip(1).skip(a - 1) =~= s.skip(a));
    }
}

/// A scan that stops at the last non-`)` character computes `trim_close`.
proof fn lemma_trim_close_scan(t: Seq<char>, b: int)
    requires
        0 <= b <= t.len(),
        forall|k: int| b <= k < t.len() ==> t[k] == ')',
        b == 0 || t[b - 1] != ')',
    ensures
        trim_close(t) == t.take(b),
    decreases t.len() - b,
{
    if b == t.len() {
        if t.len() > 0 {
            assert(t.last() != ')');
        }
        assert(t.take(b) =~= t);
    } else {
        assert(t.last() == ')');
        lemma_trim_close_scan(t.drop_last(), b);
        assert(t.drop_last().take(b) =~= t.take(b));
    }
}

/// A comma-free string has its first comma at the end.
proof fn lemma_first_comma_none(s: Seq<char>)
    requires
        forall|k: int| 0 <= k < s.len() ==> s[k] != ',',
    ensures
        first_comma(s) == s.len(),
    decreases s.len(),
{
    if s.len() > 0 {
        lemma_first_comma_none(s.skip(1));
    }
}

/// A scan that finds the first comma at `k` computes `first_comma`.
proof fn lemma_first_comma_at(s: Seq<char>, k: int)
    requires
        0 <= k < s.len(),
        forall|j: int| 0 <= j < k ==> s[j] != ',',
        s[k] == ',',
    ensures
        first_comma(s) == k,
    decreases k,
{
    if k > 0 {
        lemma_first_comma_at(s.skip(1), k - 1);
    }
}

/// A string with exactly one comma, at `k`, splits into the two pieces
/// around it.
proof fn lemma_split_commas_one(s: Seq<char>, k: int)
    requires
        0 <= k < s.len(),
        forall|j: int| 0 <= j < s.len() && j != k ==> s[j] != ',',
        s[k] == ',',
    ensures
        split_commas(s) == seq![s.take(k), s.skip(k + 1)],
{
    lemma_first_comma_at(s, k);
    let rest = s.skip(k + 1);
    assert(forall|j: int| 0 <= j < rest.len() ==> #[trigger] rest[j] != ',') by {
        assert(forall|j: int|
            0 <= j < rest.len() ==> #[trigger] rest[j] == s[k + 1 + j]);
    }
    lemma_first_comma_none(rest);
    assert(split_commas(rest) == seq![rest]);
    assert(split_commas(s) =~= seq![s.take(k), rest]);
}

/// A comma-free string does not split.
proof fn lemma_split_commas_zero(s: Seq<char>)
    requires
        forall|k: int| 0 <= k < s.len() ==> s[k] != ',',
    ensures
        split_commas(s) == seq![s],
{
    lemma_first_comma_none(s);
}

/// Parses one piece of a `(reg,reg)` form.
fn reg_of_part(p: &Vec<char>) -> (r: Result<char, AsmLineError>)
    ensures
        reg_res_view(r) == spec_reg_of_part(p@),
{
    if p.len() > 0 && p[0] == '%' {
        let name = filter_reg_name(p, 1);
        Arg::register_from_name(&name)
    } else {
        Err(AsmLineError::MalformedArgumentName(crate::text::copy_chars(p)))
    }
}

/// Parses a `(`-prefixed base+index addressing token.
fn parse_sum(s: &Vec<char>) -> (r: Result<Arg, AsmLineError>)
    ensures
        arg_res_view(r) == spec_parse_sum(s@),
{
    // Leading `(` run.
    let mut a: usize = 0;
    while a < s.len() && s[a] == '('
        invariant
            a <= s@.len(),
            forall|k: int| 0 <= k < a ==> s@[k] == '(',
        decreases s@.len() - a,
    {
        a += 1;
    }
    // Trailing `)` run, stopping at `a`.
    let mut b: usize = s.len();
    while b > a && s[b - 1] == ')'
        invariant
            a <= b <= s@.len(),
            forall|k: int| b <= k < s@.len() ==> s@[k] == ')',
        decreases b,
    {
        b -= 1;
    }
    let ghost opened = s@.skip(a as int);
    let ghost inner = s@.subrange(a as int, b as int);
    proof {
        lemma_trim_open_scan(s@, a as int);
        if b == a {
            lemma_trim_close_scan(opened, 0);
        } else {
            lemma_trim_close_scan(opened, b - a);
        }
        assert(opened.take(b - a) =~= inner);
        assert(trim_close(trim_open(s@)) == inner);
    }
    // Count the commas of the inner region and note the first one.
    let mut count: usize = 0;
    let mut p1: usize = 0;
    let mut i: usize = a;
    while i < b
        invariant
            a <= i <= b <= s@.len(),
            count <= i,
            count == 0 ==> forall|k: int| a <= k < i ==> s@[k] != ',',
            count >= 1 ==> {
                &&& a <= p1 < i
                &&& s@[p1 as int] == ','
                &&& forall|k: int| a <= k < p1 ==> s@[k] != ','
            },
            count == 1 ==> forall|k: int| p1 < k < i ==> s@[k] != ',',
            count >= 2 ==> exists|k: int| p1 < k < i && #[trigger] s@[k] == ',',
        decreases b - i,
    {
        if s[i] == ',' {
            if count == 0 {
                p1 = i;
            }
            count += 1;
        }
        i += 1;
    }
    if count != 1 {
        proof {
            if count == 0 {
                assert(forall|k: int|
                    0 <= k < inner.len() ==> #[trigger] inner[k] != ',') by {
                    assert(forall|k: int|
                        0 <= k < inner.len() ==> #[trigger] inner[k] == s@[a + k]);
                }
                lemma_split_commas_zero(inner);
            } else {
                // At least two commas: the split has at least three pieces.
                let k1 = p1 - a;
                lemma_first_comma_at(inner, k1);
                let rest = inner.skip(k1 + 1);
                assert(split_commas(inner) == seq![inner.take(k1)] + split_commas(rest));
                assert(split_commas(rest).len() >= 2) by {
                    let k2 = choose|k: int| p1 < k < b && #[trigger] s@[k] == ',';
                    assert(rest[k2 - p1 - 1] == ',');
                    lemma_split_commas_ge_two(rest, k2 - p1 - 1);
                }
            }
        }
        return Err(AsmLineError::MalformedArgumentName(crate::text::copy_chars(s)));
    }
    proof {
        assert(forall|k: int|
            0 <= k < inner.len() && k != p1 - a ==> #[trigger] inner[k] != ',') by {
            assert(forall|k: int|
                0 <= k < inner.len() ==> #[trigger] inner[k] == s@[a + k]);
        }
        assert(inner[p1 - a] == ',');
        lemma_split_commas_one(inner, p1 - a);
        assert(inner.take(p1 - a) =~= s@.subrange(a as int, p1 as int));
        assert(inner.skip(p1 - a + 1) =~= s@.subrange(p1 + 1, b as int));
    }
    let part0 = crate::text::copy_range(s, a, p1);
    let part1 = crate::text::copy_range(s, p1 + 1, b);
    let r0 = reg_of_part(&part0);
    match r0 {
        Err(AsmLineError::MalformedArgumentName(_)) => Err(
            AsmLineError::MalformedArgumentName(crate::text::copy_chars(s)),
        ),
        Err(e) => Err(e),
        Ok(rb) => {
            let r1 = reg_of_part(&part1);
            match r1 {
                Err(AsmLineError::MalformedArgumentName(_)) => Err(
                    AsmLineError::MalformedArgumentName(crate::text::copy_chars(s)),
                ),
                Err(e) => Err(e),
                Ok(ri) => Ok(Arg::SumAddress(rb, ri)),
            }
        },
    }
}

/// A string whose character at `k` is a comma splits into at least two
/// pieces.
proof fn lemma_split_commas_ge_two(s: Seq<char>, k: int)
    requires
        0 <= k < s.len(),
        s[k] == ',',
    ensures
        split_commas(s).len() >= 2,
    decreases s.len(),
{
    let f = first_comma(s);
    lemma_first_comma_le(s, k);
    assert(0 <= f <= k);
    assert(split_commas(s) == seq![s.take(f)] + split_commas(s.skip(f + 1)));
    assert(split_commas(s.skip(f + 1)).len() >= 1) by {
        lemma_split_commas_nonempty(s.skip(f + 1));
    }
}

/// The first comma comes no later than any comma.
proof fn lemma_first_comma_le(s: Seq<char>, k: int)
    requires
        0 <= k < s.len(),
        s[k] == ',',
    ensures
        0 <= first_comma(s) <= k,
    decreases s.len(),
{
    if s[0] != ',' {
        lemma_first_comma_le(s.skip(1), k - 1);
    }
}

/// A split always has at least one piece.
proof fn lemma_split_commas_nonempty(s: Seq<char>)
    ensures
        split_commas(s).len() >= 1,
{
}

impl Arg {
    /// Looks `name` up in the fixed register name table.
    pub fn register_from_name(name: &Vec<char>) -> (r: Result<char, AsmLineError>)
        ensures
            reg_res_view(r) == spec_register_from_name(name@),
    {
        if crate::text::chars_eq_str(name, "eax") || crate::text::chars_eq_str(name, "al") {
            Ok('A')
        } else if crate::text::chars_eq_str(name, "ecx") || crate::text::chars_eq_str(name, "cl") {
            Ok('C')
        } else if crate::text::chars_eq_str(name, "ebx") || crate::text::chars_eq_str(name, "bl") {
            Ok('B')
        } else if crate::text::chars_eq_str(name, "edx") || crate::text::chars_eq_str(name, "dl") {
            Ok('D')
        } else if crate::text::chars_eq_str(name, "esi") {
            Ok('S')
        } else {
            Err(AsmLineError::MalformedRegisterName(crate::text::copy_chars(name)))
        }
    }

    /// Classifies one token, given as characters.
    pub fn parse_chars(s: &Vec<char>) -> (r: Result<Arg, AsmLineError>)
        ensures
            arg_res_view(r) == spec_parse_arg(s@),
    {
        if s.len() == 0 {
            return Err(AsmLineError::EmptyArgument);
        }
        let c0 = s[0];
        if c0 == '%' {
            let name = filter_reg_name(s, 1);
            match Arg::register_from_name(&name) {
                Ok(r) => Ok(Arg::VirtualRegister(r)),
                Err(e) => Err(e),
            }
        } else if c0 == '.' {
            Ok(Arg::Label(filter_commas(s, 1)))
        } else if c0 == '(' {
            parse_sum(s)
        } else {
            let u = c0 as u32;
            if 48 <= u && u <= 57 {
                let digits = filter_commas(s, 0);
                proof {
                    assert(s@.skip(0) =~= s@);
                }
                match parse_abs_value(&digits) {
                    Some(v) => Ok(Arg::AbsoluteAddress(v)),
                    None => Err(AsmLineError::MalformedArgumentName(crate::text::copy_chars(s))),
                }
            } else if c0 == '$' {
                let body = filter_commas(s, 1);
                match parse_int_value(&body) {
                    Some(v) => Ok(Arg::Literal(v)),
                    None => Err(AsmLineError::MalformedArgumentName(crate::text::copy_chars(s))),
                }
            } else {
                Err(AsmLineError::MalformedArgumentName(crate::text::copy_chars(s)))
            }
        }
    }

    /// Classifies one token, given as text.
    pub fn from_str(s: &str) -> (r: Result<Arg, AsmLineError>)
        ensures
            arg_res_view(r) == spec_parse_arg(s@),
    {
        let v = crate::text::chars_vec(s);
        Arg::parse_chars(&v)
    }
}

} // verus!
