use vstd::prelude::*;

use crate::field::{first, found, or_null, scan, Field, Probe, Test};
use crate::value::{value_eq, values_equal, Value};

verus! {

/// A process of the traced system at a point in logical time.
#[derive(Debug, PartialEq)]
pub struct Dot {
    pub host: Value,
    pub version: Value,
}

/// One record of a trace. Times are in nanoseconds.
#[derive(Debug, PartialEq)]
pub enum Event {
    Recv { host: Dot, src: Dot, elapsed: u128, message: Value },
    Send {
        host: Dot,
        dst: String,
        elapsed: u128,
        delay: Option<u128>,
        dropped: bool,
        message: Value,
    },
    Log { host: Dot, elapsed: u128, line: String },
}

/// The kinds of event that a type test names.
#[derive(PartialEq, Eq, Structural, Clone, Copy, Debug)]
pub enum Type {
    Log,
    Send,
    Receive,
}

/// The functions of the query language.
#[derive(PartialEq, Eq, Structural, Clone, Copy, Debug)]
pub enum Func {
    /// Whether a field holds an empty array.
    Empty,
}

/// A query expression.
#[derive(Debug, PartialEq)]
pub enum Expr {
    Func(Func, Box<Expr>),
    Not(Box<Expr>),
    Path(Field),
    Type(Type),
    And(Box<Expr>, Box<Expr>),
    Or(Box<Expr>, Box<Expr>),
    Eq(Box<Expr>, Box<Expr>),
    Host,
    Version,
    Value(Value),
}

/// Why an expression could not be evaluated against an event.
#[derive(PartialEq, Eq, Structural, Clone, Copy, Debug)]
pub enum EvalError {
    /// A predicate was asked for a value.
    NotAValue,
    /// A value was asked for a verdict.
    NotAPredicate,
    /// `empty` was applied to something other than a path or a negation.
    UnsupportedEmptyArgument,
}

/// The message that an event carries; a log line carries none.
pub open spec fn message_of(ev: Event) -> Option<Value> {
    match ev {
        Event::Recv { message, .. } => Some(message),
        Event::Send { message, .. } => Some(message),
        Event::Log { .. } => None,
    }
}

pub open spec fn dot_of(ev: Event) -> Dot {
    match ev {
        Event::Recv { host, .. } => host,
        Event::Send { host, .. } => host,
        Event::Log { host, .. } => host,
    }
}

pub open spec fn type_of(ev: Event) -> Type {
    match ev {
        Event::Recv { .. } => Type::Receive,
        Event::Send { .. } => Type::Send,
        Event::Log { .. } => Type::Log,
    }
}

/// An existence scan of the event's message; false for a log line.
pub open spec fn path_scan(f: Field, ev: Event, t: Test) -> bool {
    match message_of(ev) {
        Some(m) => scan(m, f.0@, t),
        None => false,
    }
}

/// The value of a field: the first match in the message, else null.
pub open spec fn path_value(f: Field, ev: Event) -> Value {
    match message_of(ev) {
        Some(m) => match first(m, f.0@) {
            Some(v) => v,
            None => Value::Null,
        },
        None => Value::Null,
    }
}

/// The value that an expression yields for an event.
pub open spec fn eval_spec(e: Expr, ev: Event) -> Result<Value, EvalError> {
    match e {
        Expr::Host => Ok(dot_of(ev).host),
        Expr::Version => Ok(dot_of(ev).version),
        Expr::Value(v) => Ok(v),
        Expr::Path(f) => Ok(path_value(f, ev)),
        _ => Err(EvalError::NotAValue),
    }
}

/// An existence scan of `f` for occurrences equal to the value of `other`.
pub open spec fn path_equals(f: Field, other: Expr, ev: Event) -> Result<bool, EvalError> {
    match eval_spec(other, ev) {
        Ok(v) => Ok(path_scan(f, ev, Test::Equals(v))),
        Err(x) => Err(x),
    }
}

/// The verdict of an expression on an event.
pub open spec fn matches_spec(e: Expr, ev: Event) -> Result<bool, EvalError>
    decreases e,
{
    match e {
        Expr::Func(Func::Empty, inner) => match *inner {
            Expr::Not(_) => Ok(false),
            Expr::Path(f) => Ok(path_scan(f, ev, Test::EmptyArray)),
            _ => Err(EvalError::UnsupportedEmptyArgument),
        },
        Expr::Not(inner) => match matches_spec(*inner, ev) {
            Ok(b) => Ok(!b),
            Err(x) => Err(x),
        },
        Expr::Path(f) => Ok(path_scan(f, ev, Test::Present)),
        Expr::Type(t) => Ok(type_of(ev) == t),
        Expr::And(l, r) => match matches_spec(*l, ev) {
            Ok(true) => matches_spec(*r, ev),
            other => other,
        },
        Expr::Or(l, r) => match matches_spec(*l, ev) {
            Ok(false) => matches_spec(*r, ev),
            other => other,
        },
        Expr::Eq(l, r) => match *l {
            Expr::Path(f) => path_equals(f, *r, ev),
            _ => match *r {
                Expr::Path(f) => path_equals(f, *l, ev),
                _ => match eval_spec(*l, ev) {
                    Ok(a) => match eval_spec(*r, ev) {
                        Ok(b) => Ok(value_eq(a, b)),
                        Err(x) => Err(x),
                    },
                    Err(x) => Err(x),
                },
            },
        },
        Expr::Host | Expr::Version | Expr::Value(_) => Err(EvalError::NotAPredicate),
    }
}

impl Event {
    /// The message of a send or a receive.
    pub fn message(&self) -> (r: Option<&Value>)
        ensures
            found(r) == message_of(*self),
    {
        match self {
            Event::Recv { message, .. } => Some(message),
            Event::Send { message, .. } => Some(message),
            Event::Log { .. } => None,
        }
    }

    /// The process and version at which the event happened.
    pub fn dot(&self) -> (r: &Dot)
        ensures
            *r == dot_of(*self),
    {
        match self {
            Event::Recv { host, .. } => host,
            Event::Send { host, .. } => host,
            Event::Log { host, .. } => host,
        }
    }
}

impl Type {
    /// Whether the event is of this kind.
    pub fn matches(&self, event: &Event) -> (r: bool)
        ensures
            r == (type_of(*event) == *self),
    {
        match (self, event) {
            (Type::Send, Event::Send { .. }) => true,
            (Type::Receive, Event::Recv { .. }) => true,
            (Type::Log, Event::Log { .. }) => true,
            _ => false,
        }
    }
}

/// Runs an existence scan of `f` over the event's message.
pub fn path_any(f: &Field, event: &Event, p: &Probe) -> (r: bool)
    ensures
        r == path_scan(*f, *event, p.test()),
{
    match event.message() {
        Some(m) => f.any(m, p),
        None => false,
    }
}

/// The value of `f` in the event's message; `None` stands for null.
pub fn path_eval<'a>(f: &Field, event: &'a Event) -> (r: Option<&'a Value>)
    ensures
        or_null(r) == path_value(*f, *event),
{
    match event.message() {
        Some(m) => f.eval(m),
        None => None,
    }
}

impl Expr {
    /// Decides whether the event satisfies the expression. `&&` and `||`
    /// evaluate their right side only when the left does not decide.
    pub fn matches(&self, event: &Event) -> (r: Result<bool, EvalError>)
        ensures
            r == matches_spec(*self, *event),
        decreases self,
    {
        match self {
            Expr::Func(Func::Empty, inner) => match &**inner {
                Expr::Not(_) => Ok(false),
                Expr::Path(f) => Ok(path_any(f, event, &Probe::EmptyArray)),
                _ => Err(EvalError::UnsupportedEmptyArgument),
            },
            Expr::Not(inner) => match inner.matches(event) {
                Ok(b) => Ok(!b),
                Err(x) => Err(x),
            },
            Expr::Path(f) => Ok(path_any(f, event, &Probe::Present)),
            Expr::Type(t) => Ok(t.matches(event)),
            Expr::And(l, r) => {
                let left = l.matches(event);
                match left {
                    Ok(true) => r.matches(event),
                    _ => left,
                }
            },
            Expr::Or(l, r) => {
                let left = l.matches(event);
                match left {
                    Ok(false) => r.matches(event),
                    _ => left,
                }
            },
            Expr::Eq(l, r) => {
                if let Expr::Path(f) = &**l {
                    Self::equals_field(f, r, event)
                } else if let Expr::Path(f) = &**r {
                    Self::equals_field(f, l, event)
                } else {
                    let a = l.eval(event);
                    match a {
                        Ok(a) => match r.eval(event) {
                            Ok(b) => Ok(Self::opt_equal(a, b)),
                            Err(x) => Err(x),
                        },
                        Err(x) => Err(x),
                    }
                }
            },
            Expr::Host | Expr::Version | Expr::Value(_) => Err(EvalError::NotAPredicate),
        }
    }

    fn equals_field(f: &Field, other: &Expr, event: &Event) -> (r: Result<bool, EvalError>)
        ensures
            r == path_equals(*f, *other, *event),
    {
        match other.eval(event) {
            Ok(v) => Ok(path_any(f, event, &Probe::EqualTo(v))),
            Err(x) => Err(x),
        }
    }

    fn opt_equal(a: Option<&Value>, b: Option<&Value>) -> (r: bool)
        ensures
            r == value_eq(or_null(a), or_null(b)),
    {
        match (a, b) {
            (Some(a), Some(b)) => values_equal(a, b),
            (Some(a), None) => matches!(a, Value::Null),
            (None, Some(b)) => matches!(b, Value::Null),
            (None, None) => true,
        }
    }

    /// The value of the expression for the event; `Ok(None)` stands for null.
    pub fn eval<'a>(&'a self, event: &'a Event) -> (r: Result<Option<&'a Value>, EvalError>)
        ensures
            match r {
                Ok(v) => eval_spec(*self, *event) == Ok::<Value, EvalError>(or_null(v)),
                Err(x) => eval_spec(*self, *event) == Err::<Value, EvalError>(x),
            },
    {
        match self {
            Expr::Host => Ok(Some(&event.dot().host)),
            Expr::Version => Ok(Some(&event.dot().version)),
            Expr::Value(v) => Ok(Some(v)),
            Expr::Path(f) => Ok(path_eval(f, event)),
            _ => Err(EvalError::NotAValue),
        }
    }
}

} // verus!
