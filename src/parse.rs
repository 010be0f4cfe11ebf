use vstd::prelude::*;
use vstd::string::{StrSliceExecFns, StringExecFns};

use crate::expr::{Expr, Func, Type};
use crate::field::Field;
use crate::lex::{lex_token, next_token, Lexed, ParseError, ParseErrorKind, Tok};
use crate::value::{Number, Value};

verus! {

/// The shape of a query expression: what the parser's contract states.
/// Literals other than strings and integers, which the grammar cannot
/// write, all read as `OtherValue`.
pub enum Ast {
    Empty(Box<Ast>),
    Not(Box<Ast>),
    Path(Seq<char>),
    Type(Type),
    And(Box<Ast>, Box<Ast>),
    Or(Box<Ast>, Box<Ast>),
    Eq(Box<Ast>, Box<Ast>),
    Host,
    Version,
    Str(Seq<char>),
    Int(int),
    OtherValue,
}

pub open spec fn ast_of(e: Expr) -> Ast
    decreases e,
{
    match e {
        Expr::Func(Func::Empty, a) => Ast::Empty(Box::new(ast_of(*a))),
        Expr::Not(a) => Ast::Not(Box::new(ast_of(*a))),
        Expr::Path(f) => Ast::Path(f.0@),
        Expr::Type(t) => Ast::Type(t),
        Expr::And(l, r) => Ast::And(Box::new(ast_of(*l)), Box::new(ast_of(*r))),
        Expr::Or(l, r) => Ast::Or(Box::new(ast_of(*l)), Box::new(ast_of(*r))),
        Expr::Eq(l, r) => Ast::Eq(Box::new(ast_of(*l)), Box::new(ast_of(*r))),
        Expr::Host => Ast::Host,
        Expr::Version => Ast::Version,
        Expr::Value(Value::String(s)) => Ast::Str(s@),
        Expr::Value(Value::Number(Number::Int(n))) => Ast::Int(n as int),
        Expr::Value(_) => Ast::OtherValue,
    }
}

/// What a parse step yields: the tree and the position after it.
pub type Parsed = Result<(Ast, int), ParseError>;

pub open spec fn fail(pos: int, kind: ParseErrorKind) -> Parsed {
    Err(ParseError { pos: pos as usize, kind })
}

/// A step that made no progress; the grammar never leads to one.
pub open spec fn stalled(pos: int) -> Parsed {
    fail(pos, ParseErrorKind::UnexpectedToken)
}

pub open spec fn advances(s: Seq<char>, i: int, j: int) -> bool {
    i < j <= s.len()
}

/// The keywords that stand as values.
pub open spec fn keyword(w: Seq<char>) -> Option<Ast> {
    if w == seq!['l', 'o', 'g'] {
        Some(Ast::Type(Type::Log))
    } else if w == seq!['s', 'e', 'n', 'd'] {
        Some(Ast::Type(Type::Send))
    } else if w == seq!['r', 'e', 'c', 'e', 'i', 'v', 'e'] {
        Some(Ast::Type(Type::Receive))
    } else if w == seq!['h', 'o', 's', 't'] {
        Some(Ast::Host)
    } else if w == seq!['v', 'e', 'r', 's', 'i', 'o', 'n'] {
        Some(Ast::Version)
    } else {
        None
    }
}

pub open spec fn empty_name() -> Seq<char> {
    seq!['e', 'm', 'p', 't', 'y']
}

/// A keyword used as a value, at the word `l`.
pub open spec fn keyword_at(s: Seq<char>, l: Lexed, w: Seq<char>) -> Parsed {
    match keyword(w) {
        Some(k) => Ok((k, l.end as int)),
        None => fail(l.start as int, ParseErrorKind::UnknownWord),
    }
}

/// The `)` that closes a group or a call whose inside is `e`.
pub open spec fn close_at(s: Seq<char>, e: Ast, j: int) -> Parsed {
    match next_token(s, j) {
        Ok(l) => if l.tok == Tok::RParen {
            Ok((e, l.end as int))
        } else {
            fail(l.start as int, ParseErrorKind::MissingParen)
        },
        Err(x) => Err(x),
    }
}

/// `expr := unary (("&&" | "||") unary)*`, folded to the left.
pub open spec fn expr_at(s: Seq<char>, i: int) -> Parsed
    decreases s.len() - i, 3int,
{
    match unary_at(s, i) {
        Ok((e, j)) => if advances(s, i, j) {
            expr_tail(s, e, j)
        } else {
            stalled(i)
        },
        Err(x) => Err(x),
    }
}

pub open spec fn expr_tail(s: Seq<char>, acc: Ast, j: int) -> Parsed
    decreases s.len() - j, 0int,
{
    match next_token(s, j) {
        Ok(l) => if l.tok == Tok::AndAnd || l.tok == Tok::OrOr {
            if advances(s, j, l.end as int) {
                match unary_at(s, l.end as int) {
                    Ok((r, m)) => if advances(s, j, m) {
                        let joined = if l.tok == Tok::AndAnd {
                            Ast::And(Box::new(acc), Box::new(r))
                        } else {
                            Ast::Or(Box::new(acc), Box::new(r))
                        };
                        expr_tail(s, joined, m)
                    } else {
                        stalled(j)
                    },
                    Err(x) => Err(x),
                }
            } else {
                stalled(j)
            }
        } else {
            Ok((acc, j))
        },
        Err(_) => Ok((acc, j)),
    }
}

/// `unary := "!" expr | "(" expr ")" | value ("==" value)*`.
/// A negation takes the whole expression that follows it.
pub open spec fn unary_at(s: Seq<char>, i: int) -> Parsed
    decreases s.len() - i, 2int,
{
    match next_token(s, i) {
        Ok(l) => if l.tok == Tok::End {
            fail(l.start as int, ParseErrorKind::UnexpectedEnd)
        } else if !advances(s, i, l.end as int) {
            stalled(i)
        } else if l.tok == Tok::Bang {
            match expr_at(s, l.end as int) {
                Ok((e, j)) => Ok((Ast::Not(Box::new(e)), j)),
                Err(x) => Err(x),
            }
        } else if l.tok == Tok::LParen {
            match expr_at(s, l.end as int) {
                Ok((e, j)) => close_at(s, e, j),
                Err(x) => Err(x),
            }
        } else {
            match value_at(s, i) {
                Ok((v, j)) => if advances(s, i, j) {
                    comp_tail(s, v, j)
                } else {
                    stalled(i)
                },
                Err(x) => Err(x),
            }
        },
        Err(x) => Err(x),
    }
}

pub open spec fn comp_tail(s: Seq<char>, acc: Ast, j: int) -> Parsed
    decreases s.len() - j, 0int,
{
    match next_token(s, j) {
        Ok(l) => if l.tok == Tok::EqEq {
            if advances(s, j, l.end as int) {
                match value_at(s, l.end as int) {
                    Ok((r, m)) => if advances(s, j, m) {
                        comp_tail(s, Ast::Eq(Box::new(acc), Box::new(r)), m)
                    } else {
                        stalled(j)
                    },
                    Err(x) => Err(x),
                }
            } else {
                stalled(j)
            }
        } else {
            Ok((acc, j))
        },
        Err(_) => Ok((acc, j)),
    }
}

/// `value := name "(" expr ")" | "." name | keyword | string | integer`.
pub open spec fn value_at(s: Seq<char>, i: int) -> Parsed
    decreases s.len() - i, 1int,
{
    match next_token(s, i) {
        Ok(l) => match l.tok {
            Tok::Path(a, b) => Ok((Ast::Path(s.subrange(a as int, b as int)), l.end as int)),
            Tok::Str(a, b) => Ok((Ast::Str(s.subrange(a as int, b as int)), l.end as int)),
            Tok::Int(n) => Ok((Ast::Int(n as int), l.end as int)),
            Tok::Word(a, b) => {
                let w = s.subrange(a as int, b as int);
                match next_token(s, l.end as int) {
                    Ok(p) => if p.tok == Tok::LParen {
                        if w != empty_name() {
                            fail(l.start as int, ParseErrorKind::UnknownFunction)
                        } else if !advances(s, i, p.end as int) {
                            stalled(i)
                        } else {
                            match expr_at(s, p.end as int) {
                                Ok((e, j)) => close_at(s, Ast::Empty(Box::new(e)), j),
                                Err(x) => Err(x),
                            }
                        }
                    } else {
                        keyword_at(s, l, w)
                    },
                    Err(_) => keyword_at(s, l, w),
                }
            },
            Tok::End => fail(l.start as int, ParseErrorKind::UnexpectedEnd),
            _ => fail(l.start as int, ParseErrorKind::UnexpectedToken),
        },
        Err(x) => Err(x),
    }
}

/// The expression that the whole text `s` spells.
pub open spec fn query_of(s: Seq<char>) -> Result<Ast, ParseError> {
    match expr_at(s, 0) {
        Ok((e, j)) => match next_token(s, j) {
            Ok(l) => if l.tok == Tok::End {
                Ok(e)
            } else {
                Err(ParseError { pos: l.start, kind: ParseErrorKind::UnexpectedToken })
            },
            Err(x) => Err(x),
        },
        Err(x) => Err(x),
    }
}

} // verus!

verus! {

/// The parse step `r` is what the spec step `p` describes.
pub open spec fn agrees(r: Result<(Expr, usize), ParseError>, p: Parsed) -> bool {
    match r {
        Ok((e, j)) => p == Ok::<(Ast, int), ParseError>((ast_of(e), j as int)),
        Err(x) => p == Err::<(Ast, int), ParseError>(x),
    }
}

/// A recursive-descent parser over the characters of one query.
struct QueryParser<'a> {
    input: &'a str,
    chars: Vec<char>,
}

impl<'a> QueryParser<'a> {
    spec fn wf(&self) -> bool {
        self.chars@ == self.input@
    }

    spec fn text_len(&self) -> int {
        self.chars@.len() as int
    }

    fn new(input: &'a str) -> (r: Self)
        ensures
            r.wf(),
            r.input == input,
    {
        let n = input.unicode_len();
        let mut chars: Vec<char> = Vec::new();
        let mut i: usize = 0;
        while i < n
            invariant
                n == input@.len(),
                i <= n,
                chars@ == input@.subrange(0, i as int),
            decreases n - i,
        {
            chars.push(input.get_char(i));
            i = i + 1;
        }
        assert(chars@ =~= input@);
        QueryParser { input, chars }
    }

    /// The characters of `[a, b)` as a string.
    fn text(&self, a: usize, b: usize) -> (r: String)
        requires
            self.wf(),
            a <= b <= self.chars.len(),
        ensures
            r@ == self.chars@.subrange(a as int, b as int),
    {
        String::from_str(self.input.substring_char(a, b))
    }

    /// Whether the characters of `[a, b)` are those of `w`.
    fn span_is(&self, a: usize, b: usize, w: &Vec<char>) -> (r: bool)
        requires
            a <= b <= self.chars.len(),
        ensures
            r == (self.chars@.subrange(a as int, b as int) == w@),
    {
        if b - a != w.len() {
            return false;
        }
        let mut k: usize = 0;
        while k < w.len()
            invariant
                a <= b <= self.chars.len(),
                b - a == w.len(),
                k <= w.len(),
                forall|t: int| 0 <= t < k ==> self.chars@[a + t] == w@[t],
            decreases w.len() - k,
        {
            if self.chars[a + k] != w[k] {
                assert(self.chars@.subrange(a as int, b as int)[k as int] != w@[k as int]);
                return false;
            }
            k = k + 1;
        }
        assert(self.chars@.subrange(a as int, b as int) =~= w@);
        true
    }

    fn keyword(&self, l: Lexed, a: usize, b: usize) -> (r: Result<(Expr, usize), ParseError>)
        requires
            a <= b <= self.chars.len(),
        ensures
            agrees(r, keyword_at(self.chars@, l, self.chars@.subrange(a as int, b as int))),
    {
        let e = if self.span_is(a, b, &vec!['l', 'o', 'g']) {
            Expr::Type(Type::Log)
        } else if self.span_is(a, b, &vec!['s', 'e', 'n', 'd']) {
            Expr::Type(Type::Send)
        } else if self.span_is(a, b, &vec!['r', 'e', 'c', 'e', 'i', 'v', 'e']) {
            Expr::Type(Type::Receive)
        } else if self.span_is(a, b, &vec!['h', 'o', 's', 't']) {
            Expr::Host
        } else if self.span_is(a, b, &vec!['v', 'e', 'r', 's', 'i', 'o', 'n']) {
            Expr::Version
        } else {
            return Err(ParseError { pos: l.start, kind: ParseErrorKind::UnknownWord });
        };
        Ok((e, l.end))
    }

    fn close(&self, e: Expr, j: usize) -> (r: Result<(Expr, usize), ParseError>)
        requires
            j <= self.chars.len(),
        ensures
            agrees(r, close_at(self.chars@, ast_of(e), j as int)),
            r matches Ok((_, m)) ==> j < m <= self.chars.len(),
    {
        match lex_token(&self.chars, j) {
            Ok(l) => if l.tok == Tok::RParen {
                Ok((e, l.end))
            } else {
                Err(ParseError { pos: l.start, kind: ParseErrorKind::MissingParen })
            },
            Err(x) => Err(x),
        }
    }

    fn parse_expr(&self, i: usize) -> (r: Result<(Expr, usize), ParseError>)
        requires
            self.wf(),
            i <= self.chars.len(),
        ensures
            agrees(r, expr_at(self.chars@, i as int)),
            r matches Ok((_, j)) ==> i < j <= self.chars.len(),
        decreases self.text_len() - i, 3int,
    {
        match self.parse_unary(i) {
            Ok((e, j)) => self.expr_tail(e, j),
            Err(x) => Err(x),
        }
    }

    fn expr_tail(&self, acc: Expr, j: usize) -> (r: Result<(Expr, usize), ParseError>)
        requires
            self.wf(),
            j <= self.chars.len(),
        ensures
            agrees(r, expr_tail(self.chars@, ast_of(acc), j as int)),
            r matches Ok((_, m)) ==> j <= m <= self.chars.len(),
        decreases self.text_len() - j, 0int,
    {
        match lex_token(&self.chars, j) {
            Ok(l) => if l.tok == Tok::AndAnd || l.tok == Tok::OrOr {
                match self.parse_unary(l.end) {
                    Ok((r, m)) => {
                        let joined = if l.tok == Tok::AndAnd {
                            Expr::And(Box::new(acc), Box::new(r))
                        } else {
                            Expr::Or(Box::new(acc), Box::new(r))
                        };
                        self.expr_tail(joined, m)
                    },
                    Err(x) => Err(x),
                }
            } else {
                Ok((acc, j))
            },
            Err(_) => Ok((acc, j)),
        }
    }

    fn parse_unary(&self, i: usize) -> (r: Result<(Expr, usize), ParseError>)
        requires
            self.wf(),
            i <= self.chars.len(),
        ensures
            agrees(r, unary_at(self.chars@, i as int)),
            r matches Ok((_, j)) ==> i < j <= self.chars.len(),
        decreases self.text_len() - i, 2int,
    {
        match lex_token(&self.chars, i) {
            Ok(l) => if l.tok == Tok::End {
                Err(ParseError { pos: l.start, kind: ParseErrorKind::UnexpectedEnd })
            } else if l.tok == Tok::Bang {
                match self.parse_expr(l.end) {
                    Ok((e, j)) => Ok((Expr::Not(Box::new(e)), j)),
                    Err(x) => Err(x),
                }
            } else if l.tok == Tok::LParen {
                match self.parse_expr(l.end) {
                    Ok((e, j)) => self.close(e, j),
                    Err(x) => Err(x),
                }
            } else {
                match self.parse_value(i) {
                    Ok((v, j)) => self.comp_tail(v, j),
                    Err(x) => Err(x),
                }
            },
            Err(x) => Err(x),
        }
    }

    fn comp_tail(&self, acc: Expr, j: usize) -> (r: Result<(Expr, usize), ParseError>)
        requires
            self.wf(),
            j <= self.chars.len(),
        ensures
            agrees(r, comp_tail(self.chars@, ast_of(acc), j as int)),
            r matches Ok((_, m)) ==> j <= m <= self.chars.len(),
        decreases self.text_len() - j, 0int,
    {
        match lex_token(&self.chars, j) {
            Ok(l) => if l.tok == Tok::EqEq {
                match self.parse_value(l.end) {
                    Ok((r, m)) => self.comp_tail(Expr::Eq(Box::new(acc), Box::new(r)), m),
                    Err(x) => Err(x),
                }
            } else {
                Ok((acc, j))
            },
            Err(_) => Ok((acc, j)),
        }
    }

    fn parse_value(&self, i: usize) -> (r: Result<(Expr, usize), ParseError>)
        requires
            self.wf(),
            i <= self.chars.len(),
        ensures
            agrees(r, value_at(self.chars@, i as int)),
            r matches Ok((_, j)) ==> i < j <= self.chars.len(),
        decreases self.text_len() - i, 1int,
    {
        match lex_token(&self.chars, i) {
            Ok(l) => match l.tok {
                Tok::Path(a, b) => Ok((Expr::Path(Field(self.text(a, b))), l.end)),
                Tok::Str(a, b) => Ok((Expr::Value(Value::String(self.text(a, b))), l.end)),
                Tok::Int(n) => Ok((Expr::Value(Value::Number(Number::Int(n as i128))), l.end)),
                Tok::Word(a, b) => {
                    let call = match lex_token(&self.chars, l.end) {
                        Ok(p) => if p.tok == Tok::LParen {
                            Some(p)
                        } else {
                            None
                        },
                        Err(_) => None,
                    };
                    match call {
                        Some(p) => {
                            if !self.span_is(a, b, &vec!['e', 'm', 'p', 't', 'y']) {
                                Err(ParseError { pos: l.start, kind: ParseErrorKind::UnknownFunction })
                            } else {
                                match self.parse_expr(p.end) {
                                    Ok((e, j)) => self.close(
                                        Expr::Func(Func::Empty, Box::new(e)),
                                        j,
                                    ),
                                    Err(x) => Err(x),
                                }
                            }
                        },
                        None => self.keyword(l, a, b),
                    }
                },
                Tok::End => Err(ParseError { pos: l.start, kind: ParseErrorKind::UnexpectedEnd }),
                _ => Err(ParseError { pos: l.start, kind: ParseErrorKind::UnexpectedToken }),
            },
            Err(x) => Err(x),
        }
    }
}

/// Parses a query. It succeeds exactly when the whole text spells an
/// expression, and yields that expression.
pub fn parse_str(input: &str) -> (r: Result<Expr, ParseError>)
    ensures
        match r {
            Ok(e) => query_of(input@) == Ok::<Ast, ParseError>(ast_of(e)),
            Err(x) => query_of(input@) == Err::<Ast, ParseError>(x),
        },
{
    let parser = QueryParser::new(input);
    match parser.parse_expr(0) {
        Ok((e, j)) => match lex_token(&parser.chars, j) {
            Ok(l) => if l.tok == Tok::End {
                Ok(e)
            } else {
                Err(ParseError { pos: l.start, kind: ParseErrorKind::UnexpectedToken })
            },
            Err(x) => Err(x),
        },
        Err(x) => Err(x),
    }
}

} // verus!
