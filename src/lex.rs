use vstd::prelude::*;

verus! {

/// A token of the query language. Names and string literals are given by
/// the span of characters they cover.
#[derive(PartialEq, Eq, Structural, Clone, Copy, Debug)]
pub enum Tok {
    LParen,
    RParen,
    Bang,
    AndAnd,
    OrOr,
    EqEq,
    /// `.name`: the span of `name`.
    Path(usize, usize),
    /// A quoted string: the span between the quotes.
    Str(usize, usize),
    Int(i64),
    Word(usize, usize),
    End,
}

/// A token with the position where it starts and the one after it.
#[derive(PartialEq, Eq, Structural, Clone, Copy, Debug)]
pub struct Lexed {
    pub tok: Tok,
    pub start: usize,
    pub end: usize,
}

/// Why a query could not be parsed.
#[derive(PartialEq, Eq, Structural, Clone, Copy, Debug)]
pub enum ParseErrorKind {
    /// A character that starts no token.
    UnexpectedChar,
    /// A token that the grammar does not allow here.
    UnexpectedToken,
    /// The query ended where more was needed.
    UnexpectedEnd,
    /// A `.` not followed by a field name.
    MissingField,
    /// A path of more than one field, such as `.a.b`.
    MultiSegmentPath,
    /// A string literal without its closing quote.
    UnterminatedString,
    /// An integer literal without digits or outside the 64-bit range.
    MalformedNumber,
    /// A call of a function that the language does not have.
    UnknownFunction,
    /// A word that is no keyword.
    UnknownWord,
    /// A `(` without its `)`.
    MissingParen,
}

/// A parse failure and the character position where it was found.
#[derive(PartialEq, Eq, Structural, Clone, Copy, Debug)]
pub struct ParseError {
    pub pos: usize,
    pub kind: ParseErrorKind,
}

/// The magnitude of the smallest 64-bit integer.
pub const NEG_I64_MIN: u64 = 9223372036854775808;

pub open spec fn is_ws(c: char) -> bool {
    c == ' ' || c == '\t' || c == '\n' || c == '\r'
}

pub open spec fn is_digit(c: char) -> bool {
    '0' <= c && c <= '9'
}

pub open spec fn is_ident_start(c: char) -> bool {
    ('a' <= c && c <= 'z') || ('A' <= c && c <= 'Z') || c == '_'
}

pub open spec fn is_ident_char(c: char) -> bool {
    is_ident_start(c) || is_digit(c)
}

/// The first position at or after `i` that holds no whitespace.
pub open spec fn skip_ws(s: Seq<char>, i: int) -> int
    decreases s.len() - i,
{
    if 0 <= i < s.len() && is_ws(s[i]) {
        skip_ws(s, i + 1)
    } else {
        i
    }
}

/// The end of the run of identifier characters that starts at `i`.
pub open spec fn ident_end(s: Seq<char>, i: int) -> int
    decreases s.len() - i,
{
    if 0 <= i < s.len() && is_ident_char(s[i]) {
        ident_end(s, i + 1)
    } else {
        i
    }
}

/// The end of the run of digits that starts at `i`.
pub open spec fn digits_end(s: Seq<char>, i: int) -> int
    decreases s.len() - i,
{
    if 0 <= i < s.len() && is_digit(s[i]) {
        digits_end(s, i + 1)
    } else {
        i
    }
}

/// The position of the first `"` at or after `i`, or the length of `s`.
pub open spec fn quote_end(s: Seq<char>, i: int) -> int
    decreases s.len() - i,
{
    if 0 <= i < s.len() && s[i] != '"' {
        quote_end(s, i + 1)
    } else {
        i
    }
}

/// The base-10 value of the digits in `s[a..b]`.
pub open spec fn digits_value(s: Seq<char>, a: int, b: int) -> int
    decreases b - a,
{
    if a < b {
        digits_value(s, a, b - 1) * 10 + (s[b - 1] as int - '0' as int)
    } else {
        0
    }
}

pub open spec fn token(tok: Tok, start: int, end: int) -> Result<Lexed, ParseError> {
    Ok(Lexed { tok, start: start as usize, end: end as usize })
}

pub open spec fn lex_error(pos: int, kind: ParseErrorKind) -> ParseError {
    ParseError { pos: pos as usize, kind }
}

/// The integer literal at `k`: an optional `-` and base-10 digits.
pub open spec fn number_token(s: Seq<char>, k: int) -> Result<Lexed, ParseError> {
    let neg = s[k] == '-';
    let a = if neg { k + 1 } else { k };
    let e = digits_end(s, a);
    let v = digits_value(s, a, e);
    let n = if neg { -v } else { v };
    if e == a || n < i64::MIN || n > i64::MAX {
        Err(lex_error(k, ParseErrorKind::MalformedNumber))
    } else {
        token(Tok::Int(n as i64), k, e)
    }
}

/// The token that starts at the first non-blank position at or after `i`.
pub open spec fn next_token(s: Seq<char>, i: int) -> Result<Lexed, ParseError> {
    let k = skip_ws(s, i);
    if k >= s.len() {
        token(Tok::End, k, k)
    } else {
        let c = s[k];
        let two = k + 1 < s.len() && s[k + 1] == c;
        if c == '(' {
            token(Tok::LParen, k, k + 1)
        } else if c == ')' {
            token(Tok::RParen, k, k + 1)
        } else if c == '!' {
            token(Tok::Bang, k, k + 1)
        } else if c == '&' || c == '|' || c == '=' {
            if !two {
                Err(lex_error(k, ParseErrorKind::UnexpectedChar))
            } else if c == '&' {
                token(Tok::AndAnd, k, k + 2)
            } else if c == '|' {
                token(Tok::OrOr, k, k + 2)
            } else {
                token(Tok::EqEq, k, k + 2)
            }
        } else if c == '.' {
            let e = ident_end(s, k + 1);
            if e == k + 1 {
                Err(lex_error(k + 1, ParseErrorKind::MissingField))
            } else if e < s.len() && s[e] == '.' {
                Err(lex_error(e, ParseErrorKind::MultiSegmentPath))
            } else {
                token(Tok::Path((k + 1) as usize, e as usize), k, e)
            }
        } else if c == '"' {
            let q = quote_end(s, k + 1);
            if q >= s.len() {
                Err(lex_error(k, ParseErrorKind::UnterminatedString))
            } else {
                token(Tok::Str((k + 1) as usize, q as usize), k, q + 1)
            }
        } else if c == '-' || is_digit(c) {
            number_token(s, k)
        } else if is_ident_start(c) {
            let e = ident_end(s, k);
            token(Tok::Word(k as usize, e as usize), k, e)
        } else {
            Err(lex_error(k, ParseErrorKind::UnexpectedChar))
        }
    }
}

/// The spans of a token lie within a text of `n` characters.
pub open spec fn spans_within(t: Tok, n: nat) -> bool {
    match t {
        Tok::Path(a, b) => a <= b <= n,
        Tok::Str(a, b) => a <= b <= n,
        Tok::Word(a, b) => a <= b <= n,
        _ => true,
    }
}

proof fn lemma_digits_value_nonneg(s: Seq<char>, a: int, b: int)
    requires
        0 <= a,
        b <= s.len(),
        forall|t: int| a <= t < b ==> is_digit(#[trigger] s[t]),
    ensures
        0 <= digits_value(s, a, b),
    decreases b - a,
{
    if a < b {
        lemma_digits_value_nonneg(s, a, b - 1);
    }
}

proof fn lemma_digits_value_grows(s: Seq<char>, a: int, j: int, e: int)
    requires
        a <= j <= e <= s.len(),
        0 <= a,
        forall|t: int| a <= t < e ==> is_digit(#[trigger] s[t]),
    ensures
        0 <= digits_value(s, a, j) <= digits_value(s, a, e),
    decreases e - j,
{
    lemma_digits_value_nonneg(s, a, j);
    if j < e {
        lemma_digits_value_grows(s, a, j, e - 1);
    }
}

proof fn lemma_ident_end(s: Seq<char>, i: int)
    requires
        0 <= i <= s.len(),
    ensures
        i <= ident_end(s, i) <= s.len(),
    decreases s.len() - i,
{
    if i < s.len() && is_ident_char(s[i]) {
        lemma_ident_end(s, i + 1);
    }
}

proof fn lemma_digits_end(s: Seq<char>, i: int)
    requires
        0 <= i <= s.len(),
    ensures
        i <= digits_end(s, i) <= s.len(),
        forall|t: int| i <= t < digits_end(s, i) ==> is_digit(#[trigger] s[t]),
    decreases s.len() - i,
{
    if i < s.len() && is_digit(s[i]) {
        lemma_digits_end(s, i + 1);
    }
}

fn is_ws_char(c: char) -> (r: bool)
    ensures
        r == is_ws(c),
{
    c == ' ' || c == '\t' || c == '\n' || c == '\r'
}

fn is_digit_char(c: char) -> (r: bool)
    ensures
        r == is_digit(c),
{
    '0' <= c && c <= '9'
}

fn is_ident_start_char(c: char) -> (r: bool)
    ensures
        r == is_ident_start(c),
{
    ('a' <= c && c <= 'z') || ('A' <= c && c <= 'Z') || c == '_'
}

fn is_ident_char_exec(c: char) -> (r: bool)
    ensures
        r == is_ident_char(c),
{
    is_ident_start_char(c) || is_digit_char(c)
}

fn scan_ident(s: &Vec<char>, i: usize) -> (r: usize)
    requires
        i <= s.len(),
    ensures
        r == ident_end(s@, i as int),
        i <= r <= s.len(),
{
    let mut j = i;
    while j < s.len() && is_ident_char_exec(s[j])
        invariant
            i <= j <= s.len(),
            ident_end(s@, i as int) == ident_end(s@, j as int),
        decreases s.len() - j,
    {
        j = j + 1;
    }
    j
}

fn scan_number(s: &Vec<char>, k: usize) -> (r: Result<Lexed, ParseError>)
    requires
        k < s.len(),
    ensures
        r == number_token(s@, k as int),
{
    let neg = s[k] == '-';
    let a = if neg { k + 1 } else { k };
    proof {
        lemma_digits_end(s@, a as int);
    }
    let ghost e = digits_end(s@, a as int);
    let mut acc: u64 = 0;
    let mut j = a;
    while j < s.len() && is_digit_char(s[j])
        invariant
            a <= j <= e,
            k < s.len(),
            neg == (s@[k as int] == '-'),
            a as int == (if neg { k + 1 } else { k as int }),
            e == digits_end(s@, a as int),
            digits_end(s@, a as int) == digits_end(s@, j as int),
            acc == digits_value(s@, a as int, j as int),
            acc <= NEG_I64_MIN,
            forall|t: int| a <= t < e ==> is_digit(#[trigger] s@[t]),
            e <= s.len(),
        decreases s.len() - j,
    {
        proof {
            lemma_digits_end(s@, j + 1);
        }
        let d = (s[j] as u32 - '0' as u32) as u64;
        assert(d <= 9);
        if acc > (NEG_I64_MIN - d) / 10 {
            proof {
                assert(acc * 10 + d > NEG_I64_MIN) by (nonlinear_arith)
                    requires
                        acc > (NEG_I64_MIN - d) / 10,
                        d <= 9,
                ;
                assert(digits_value(s@, a as int, j + 1) > NEG_I64_MIN);
                lemma_digits_value_grows(s@, a as int, j + 1, e);
            }
            return Err(ParseError { pos: k, kind: ParseErrorKind::MalformedNumber });
        }
        acc = acc * 10 + d;
        j = j + 1;
    }
    if j == a {
        return Err(ParseError { pos: k, kind: ParseErrorKind::MalformedNumber });
    }
    if neg {
        if acc == NEG_I64_MIN {
            Ok(Lexed { tok: Tok::Int(-9223372036854775807i64 - 1), start: k, end: j })
        } else {
            Ok(Lexed { tok: Tok::Int(-(acc as i64)), start: k, end: j })
        }
    } else {
        if acc == NEG_I64_MIN {
            Err(ParseError { pos: k, kind: ParseErrorKind::MalformedNumber })
        } else {
            Ok(Lexed { tok: Tok::Int(acc as i64), start: k, end: j })
        }
    }
}

/// Reads the token that starts at the first non-blank position at or
/// after `i`.
pub fn lex_token(s: &Vec<char>, i: usize) -> (r: Result<Lexed, ParseError>)
    requires
        i <= s.len(),
    ensures
        r == next_token(s@, i as int),
        r matches Ok(l) ==> i <= l.start <= l.end <= s.len() && (l.tok != Tok::End ==> i < l.end),
        r matches Ok(l) ==> spans_within(l.tok, s@.len()),
{
    let mut k = i;
    while k < s.len() && is_ws_char(s[k])
        invariant
            i <= k <= s.len(),
            skip_ws(s@, i as int) == skip_ws(s@, k as int),
        decreases s.len() - k,
    {
        k = k + 1;
    }
    if k >= s.len() {
        return Ok(Lexed { tok: Tok::End, start: k, end: k });
    }
    let c = s[k];
    let two = k + 1 < s.len() && s[k + 1] == c;
    if c == '(' {
        Ok(Lexed { tok: Tok::LParen, start: k, end: k + 1 })
    } else if c == ')' {
        Ok(Lexed { tok: Tok::RParen, start: k, end: k + 1 })
    } else if c == '!' {
        Ok(Lexed { tok: Tok::Bang, start: k, end: k + 1 })
    } else if c == '&' || c == '|' || c == '=' {
        if !two {
            Err(ParseError { pos: k, kind: ParseErrorKind::UnexpectedChar })
        } else if c == '&' {
            Ok(Lexed { tok: Tok::AndAnd, start: k, end: k + 2 })
        } else if c == '|' {
            Ok(Lexed { tok: Tok::OrOr, start: k, end: k + 2 })
        } else {
            Ok(Lexed { tok: Tok::EqEq, start: k, end: k + 2 })
        }
    } else if c == '.' {
        let e = scan_ident(s, k + 1);
        if e == k + 1 {
            Err(ParseError { pos: k + 1, kind: ParseErrorKind::MissingField })
        } else if e < s.len() && s[e] == '.' {
            Err(ParseError { pos: e, kind: ParseErrorKind::MultiSegmentPath })
        } else {
            Ok(Lexed { tok: Tok::Path(k + 1, e), start: k, end: e })
        }
    } else if c == '"' {
        let mut q = k + 1;
        while q < s.len() && s[q] != '"'
            invariant
                k + 1 <= q <= s.len(),
                quote_end(s@, k + 1) == quote_end(s@, q as int),
            decreases s.len() - q,
        {
            q = q + 1;
        }
        if q >= s.len() {
            Err(ParseError { pos: k, kind: ParseErrorKind::UnterminatedString })
        } else {
            Ok(Lexed { tok: Tok::Str(k + 1, q), start: k, end: q + 1 })
        }
    } else if c == '-' || is_digit_char(c) {
        let r = scan_number(s, k);
        proof {
            lemma_digits_end(s@, k as int);
            lemma_digits_end(s@, k + 1);
        }
        r
    } else if is_ident_start_char(c) {
        let e = scan_ident(s, k);
        proof {
            lemma_ident_end(s@, k + 1);
        }
        Ok(Lexed { tok: Tok::Word(k, e), start: k, end: e })
    } else {
        Err(ParseError { pos: k, kind: ParseErrorKind::UnexpectedChar })
    }
}

} // verus!
