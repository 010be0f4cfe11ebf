use vstd::prelude::*;

use crate::expr::{eval_spec, EvalError, matches_spec, path_scan, Event, Expr, Func, Type};
use crate::field::{Field, Test};
use crate::lex::ParseError;
use crate::parse::{ast_of, query_of, Ast};

verus! {

/// Parsing is deterministic: two successful parses of the same text yield
/// the same tree.
pub proof fn parse_is_deterministic(s: Seq<char>, t: Seq<char>, e1: Expr, e2: Expr)
    requires
        s == t,
        query_of(s) == Ok::<Ast, ParseError>(ast_of(e1)),
        query_of(t) == Ok::<Ast, ParseError>(ast_of(e2)),
    ensures
        ast_of(e1) == ast_of(e2),
{
}

/// Equality with a field is symmetric: `.f == x` and `x == .f` give the
/// same verdict on every event, for every `x` that is not itself a field.
pub proof fn equality_is_symmetric(f: Field, x: Expr, ev: Event)
    requires
        !(x is Path),
    ensures
        matches_spec(Expr::Eq(Box::new(Expr::Path(f)), Box::new(x)), ev) == matches_spec(
            Expr::Eq(Box::new(x), Box::new(Expr::Path(f))),
            ev,
        ),
{
}

/// `empty(.f)` holds exactly when some occurrence of `f` holds an array
/// with no elements; a missing field, null or any other value does not count.
pub proof fn empty_of_field(f: Field, ev: Event)
    ensures
        matches_spec(Expr::Func(Func::Empty, Box::new(Expr::Path(f))), ev) == Ok::<
            bool,
            EvalError,
        >(path_scan(f, ev, Test::EmptyArray)),
{
}

/// `empty` of a negation never holds.
pub proof fn empty_of_negation(inner: Expr, ev: Event)
    ensures
        matches_spec(Expr::Func(Func::Empty, Box::new(Expr::Not(Box::new(inner)))), ev) == Ok::<
            bool,
            EvalError,
        >(false),
{
}

/// A log line satisfies no `send`, no `receive`, no field test, and no
/// equality with a field.
pub proof fn log_matches_no_message_test(ev: Event, f: Field, x: Expr)
    requires
        ev is Log,
    ensures
        matches_spec(Expr::Type(Type::Send), ev) == Ok::<bool, EvalError>(false),
        matches_spec(Expr::Type(Type::Receive), ev) == Ok::<bool, EvalError>(false),
        matches_spec(Expr::Path(f), ev) == Ok::<bool, EvalError>(false),
        matches_spec(Expr::Func(Func::Empty, Box::new(Expr::Path(f))), ev) == Ok::<
            bool,
            EvalError,
        >(false),
        matches_spec(Expr::Eq(Box::new(Expr::Path(f)), Box::new(x)), ev) != Ok::<
            bool,
            EvalError,
        >(true),
{
}

/// `&&` and `||` short-circuit: once the left side decides, the verdict
/// is that of the left side, even where the right side cannot be evaluated.
pub proof fn short_circuit(l: Expr, r: Expr, ev: Event)
    ensures
        matches_spec(l, ev) == Ok::<bool, EvalError>(false) ==> matches_spec(
            Expr::And(Box::new(l), Box::new(r)),
            ev,
        ) == Ok::<bool, EvalError>(false),
        matches_spec(l, ev) == Ok::<bool, EvalError>(true) ==> matches_spec(
            Expr::Or(Box::new(l), Box::new(r)),
            ev,
        ) == Ok::<bool, EvalError>(true),
{
}

/// Evaluation keeps no state: the verdict and the value of an expression
/// depend on the expression and the event alone.
pub proof fn evaluation_depends_on_event_alone(e: Expr, ev1: Event, ev2: Event)
    requires
        ev1 == ev2,
    ensures
        matches_spec(e, ev1) == matches_spec(e, ev2),
        eval_spec(e, ev1) == eval_spec(e, ev2),
{
}

} // verus!
