use trace_query::expr::{Dot, EvalError, Event, Expr, Func, Type};
use trace_query::field::Field;
use trace_query::lex::{ParseError, ParseErrorKind};
use trace_query::parse::parse_str;
use trace_query::value::{values_equal, Number, Value};

fn s(text: &str) -> Value {
    Value::String(text.to_string())
}

fn num(n: i128) -> Value {
    Value::Number(Number::Int(n))
}

fn obj(entries: Vec<(&str, Value)>) -> Value {
    Value::Object(entries.into_iter().map(|(k, v)| (k.to_string(), v)).collect())
}

fn dot(host: &str, version: i128) -> Dot {
    Dot { host: s(host), version: num(version) }
}

fn send(message: Value) -> Event {
    Event::Send {
        host: dot("n1", 3),
        dst: "n2".to_string(),
        elapsed: 1_000,
        delay: None,
        dropped: false,
        message,
    }
}

fn recv(message: Value) -> Event {
    Event::Recv { host: dot("n2", 4), src: dot("n1", 3), elapsed: 2_000, message }
}

fn log() -> Event {
    Event::Log { host: dot("n1", 5), elapsed: 3_000, line: "hello".to_string() }
}

fn path(name: &str) -> Expr {
    Expr::Path(Field(name.to_string()))
}

fn bx(e: Expr) -> Box<Expr> {
    Box::new(e)
}

fn check(query: &str, event: &Event) -> Result<bool, EvalError> {
    parse_str(query).unwrap().matches(event)
}

fn parse_error(query: &str) -> ParseError {
    match parse_str(query) {
        Ok(e) => panic!("parsed {:?}", e),
        Err(x) => x,
    }
}

#[test]
fn parse_same_text_twice() {
    let q = "send && (.a == \"x\" || !empty(.b))";
    assert_eq!(parse_str(q).unwrap(), parse_str(q).unwrap());
}

#[test]
fn and_or_fold_left() {
    let e = parse_str(".a && .b || .c").unwrap();
    let want = Expr::Or(bx(Expr::And(bx(path("a")), bx(path("b")))), bx(path("c")));
    assert_eq!(e, want);
}

#[test]
fn or_and_fold_left() {
    let e = parse_str(".a || .b && .c").unwrap();
    let want = Expr::And(bx(Expr::Or(bx(path("a")), bx(path("b")))), bx(path("c")));
    assert_eq!(e, want);
}

#[test]
fn comparison_binds_before_and() {
    let e = parse_str(".a == \"x\" && .b").unwrap();
    let want = Expr::And(bx(Expr::Eq(bx(path("a")), bx(Expr::Value(s("x"))))), bx(path("b")));
    assert_eq!(e, want);
}

#[test]
fn equalities_fold_left() {
    let e = parse_str("1 == 2 == 3").unwrap();
    let want = Expr::Eq(
        bx(Expr::Eq(bx(Expr::Value(num(1))), bx(Expr::Value(num(2))))),
        bx(Expr::Value(num(3))),
    );
    assert_eq!(e, want);
}

#[test]
fn negation_takes_the_rest() {
    let e = parse_str("!.a && .b").unwrap();
    let want = Expr::Not(bx(Expr::And(bx(path("a")), bx(path("b")))));
    assert_eq!(e, want);
}

#[test]
fn keywords_and_literals() {
    assert_eq!(parse_str("log").unwrap(), Expr::Type(Type::Log));
    assert_eq!(parse_str(" send ").unwrap(), Expr::Type(Type::Send));
    assert_eq!(parse_str("receive").unwrap(), Expr::Type(Type::Receive));
    assert_eq!(parse_str("host").unwrap(), Expr::Host);
    assert_eq!(parse_str("version").unwrap(), Expr::Version);
    assert_eq!(parse_str("-42").unwrap(), Expr::Value(num(-42)));
    assert_eq!(parse_str("\"a b\"").unwrap(), Expr::Value(s("a b")));
    assert_eq!(
        parse_str("empty(.xs)").unwrap(),
        Expr::Func(Func::Empty, bx(path("xs")))
    );
}

#[test]
fn integer_limits() {
    assert_eq!(
        parse_str("-9223372036854775808").unwrap(),
        Expr::Value(num(-9223372036854775808))
    );
    assert_eq!(
        parse_str("9223372036854775807").unwrap(),
        Expr::Value(num(9223372036854775807))
    );
    assert_eq!(
        parse_error("9223372036854775808"),
        ParseError { pos: 0, kind: ParseErrorKind::MalformedNumber }
    );
    assert_eq!(
        parse_error(".a == 123456789012345678901234567890"),
        ParseError { pos: 6, kind: ParseErrorKind::MalformedNumber }
    );
    assert_eq!(parse_error("-"), ParseError { pos: 0, kind: ParseErrorKind::MalformedNumber });
}

#[test]
fn parse_errors() {
    assert_eq!(parse_error("foo(.a)"), ParseError { pos: 0, kind: ParseErrorKind::UnknownFunction });
    assert_eq!(parse_error(".a.b"), ParseError { pos: 2, kind: ParseErrorKind::MultiSegmentPath });
    assert_eq!(parse_error(". a"), ParseError { pos: 1, kind: ParseErrorKind::MissingField });
    assert_eq!(parse_error("\"abc"), ParseError { pos: 0, kind: ParseErrorKind::UnterminatedString });
    assert_eq!(parse_error(".a &&"), ParseError { pos: 5, kind: ParseErrorKind::UnexpectedEnd });
    assert_eq!(parse_error(""), ParseError { pos: 0, kind: ParseErrorKind::UnexpectedEnd });
    assert_eq!(parse_error("(.a"), ParseError { pos: 3, kind: ParseErrorKind::MissingParen });
    assert_eq!(parse_error(".a .b"), ParseError { pos: 3, kind: ParseErrorKind::UnexpectedToken });
    assert_eq!(parse_error("bogus"), ParseError { pos: 0, kind: ParseErrorKind::UnknownWord });
    assert_eq!(parse_error(".a & .b"), ParseError { pos: 3, kind: ParseErrorKind::UnexpectedChar });
    assert_eq!(parse_error(".a == )"), ParseError { pos: 6, kind: ParseErrorKind::UnexpectedToken });
}

#[test]
fn equality_symmetric() {
    let ev = send(obj(vec![("g", obj(vec![("f", s("x"))]))]));
    assert_eq!(check(".f == \"x\"", &ev), Ok(true));
    assert_eq!(check("\"x\" == .f", &ev), Ok(true));
    assert_eq!(check(".f == \"y\"", &ev), Ok(false));
    assert_eq!(check("\"y\" == .f", &ev), Ok(false));
}

#[test]
fn existence_scan_any_depth() {
    let ev = recv(obj(vec![("a", obj(vec![("b", obj(vec![("f", s("x"))]))]))]));
    assert_eq!(check(".f", &ev), Ok(true));
    assert_eq!(check(".f == \"x\"", &ev), Ok(true));
    assert_eq!(check(".g", &ev), Ok(false));
}

#[test]
fn existence_scan_searches_inside_failing_entry() {
    let ev = send(obj(vec![("f", obj(vec![("f", s("x"))]))]));
    assert_eq!(check(".f == \"x\"", &ev), Ok(true));
    let ev = send(obj(vec![("f", Value::Null), ("h", Value::Array(vec![obj(vec![("f", num(0))])]))]));
    assert_eq!(check(".f", &ev), Ok(true));
}

#[test]
fn null_field_is_absent() {
    let ev = send(obj(vec![("f", Value::Null)]));
    assert_eq!(check(".f", &ev), Ok(false));
    assert_eq!(check(".f == \"x\"", &ev), Ok(false));
}

#[test]
fn first_match_wins() {
    let ev = send(obj(vec![("f", num(1)), ("nested", obj(vec![("f", num(2))]))]));
    let e = parse_str(".f").unwrap();
    let v = e.eval(&ev).unwrap().unwrap();
    assert!(values_equal(v, &num(1)));
    assert!(!values_equal(v, &num(2)));
    assert_eq!(check(".f == 2", &ev), Ok(true));
}

#[test]
fn first_match_does_not_enter_matched_entry() {
    let ev = send(obj(vec![("a", obj(vec![("f", obj(vec![("f", num(7))]))]))]));
    let e = parse_str(".f").unwrap();
    let v = e.eval(&ev).unwrap().unwrap();
    assert!(values_equal(v, &obj(vec![("f", num(7))])));
}

#[test]
fn missing_field_evaluates_to_null() {
    let ev = send(obj(vec![("a", num(1))]));
    let e = parse_str(".zz").unwrap();
    assert_eq!(e.eval(&ev), Ok(None));
    assert_eq!(parse_str(".zz").unwrap().eval(&log()), Ok(None));
    assert_eq!(check("host == .zz", &ev), Ok(false));
}

#[test]
fn empty_function() {
    let empty = send(obj(vec![("f", Value::Array(vec![]))]));
    let full = send(obj(vec![("f", Value::Array(vec![num(1)]))]));
    let null = send(obj(vec![("f", Value::Null)]));
    let number = send(obj(vec![("f", num(3))]));
    let missing = send(obj(vec![("g", Value::Array(vec![]))]));
    assert_eq!(check("empty(.f)", &empty), Ok(true));
    assert_eq!(check("empty(.f)", &full), Ok(false));
    assert_eq!(check("empty(.f)", &null), Ok(false));
    assert_eq!(check("empty(.f)", &number), Ok(false));
    assert_eq!(check("empty(.f)", &missing), Ok(false));
    assert_eq!(check("empty(!.f)", &empty), Ok(false));
    assert_eq!(check("empty(!.f)", &missing), Ok(false));
    assert_eq!(check("empty(send)", &empty), Err(EvalError::UnsupportedEmptyArgument));
}

#[test]
fn log_events_match_no_message_test() {
    let ev = log();
    assert_eq!(check("send", &ev), Ok(false));
    assert_eq!(check("receive", &ev), Ok(false));
    assert_eq!(check("log", &ev), Ok(true));
    assert_eq!(check(".line", &ev), Ok(false));
    assert_eq!(check(".f == \"x\"", &ev), Ok(false));
    assert_eq!(check("empty(.f)", &ev), Ok(false));
}

#[test]
fn type_tests() {
    let m = obj(vec![]);
    assert_eq!(check("send", &send(obj(vec![]))), Ok(true));
    assert_eq!(check("receive", &send(obj(vec![]))), Ok(false));
    assert_eq!(check("receive", &recv(m)), Ok(true));
}

#[test]
fn short_circuit() {
    let ev = send(obj(vec![]));
    assert_eq!(check("empty(host)", &ev), Err(EvalError::UnsupportedEmptyArgument));
    assert_eq!(check("log && empty(host)", &ev), Ok(false));
    assert_eq!(check("send || empty(host)", &ev), Ok(true));
    assert_eq!(check("send && empty(host)", &ev), Err(EvalError::UnsupportedEmptyArgument));
    assert_eq!(check("log || empty(host)", &ev), Err(EvalError::UnsupportedEmptyArgument));
}

#[test]
fn evaluation_keeps_no_state() {
    let e = parse_str(".f == 1 || host == \"n2\"").unwrap();
    let a = send(obj(vec![("f", num(1))]));
    let b = send(obj(vec![("f", num(2))]));
    let c = recv(obj(vec![]));
    assert_eq!(e.matches(&a), Ok(true));
    assert_eq!(e.matches(&b), Ok(false));
    assert_eq!(e.matches(&c), Ok(true));
    assert_eq!(e.matches(&a), Ok(true));
    assert_eq!(e.matches(&b), Ok(false));
}

#[test]
fn host_and_version() {
    let ev = send(obj(vec![]));
    assert_eq!(check("host == \"n1\"", &ev), Ok(true));
    assert_eq!(check("version == 3", &ev), Ok(true));
    assert_eq!(check("version == 4", &ev), Ok(false));
    assert_eq!(check("host == \"n1\"", &log()), Ok(true));
    assert_eq!(check("version == 5", &log()), Ok(true));
}

#[test]
fn value_errors() {
    let ev = send(obj(vec![("a", num(1))]));
    assert_eq!(check("host", &ev), Err(EvalError::NotAPredicate));
    assert_eq!(check("\"x\"", &ev), Err(EvalError::NotAPredicate));
    assert_eq!(check("empty(.a) == 1", &ev), Err(EvalError::NotAValue));
    assert_eq!(check(".a == log", &ev), Err(EvalError::NotAValue));
    assert_eq!(check("!host", &ev), Err(EvalError::NotAPredicate));
}

#[test]
fn literal_equality() {
    let ev = send(obj(vec![]));
    assert_eq!(check("1 == 1", &ev), Ok(true));
    assert_eq!(check("\"a\" == \"b\"", &ev), Ok(false));
    assert_eq!(check(".n == -5", &send(obj(vec![("n", num(-5))]))), Ok(true));
}

#[test]
fn deep_value_equality() {
    let a = obj(vec![("k", Value::Array(vec![num(1), s("x"), Value::Bool(true)]))]);
    let b = obj(vec![("k", Value::Array(vec![num(1), s("x"), Value::Bool(true)]))]);
    let c = obj(vec![("k", Value::Array(vec![num(1), s("x"), Value::Bool(false)]))]);
    let d = obj(vec![("j", Value::Array(vec![num(1), s("x"), Value::Bool(true)]))]);
    assert!(values_equal(&a, &b));
    assert!(!values_equal(&a, &c));
    assert!(!values_equal(&a, &d));
    assert!(!values_equal(&num(1), &Value::Number(Number::Float(1))));
    assert!(values_equal(&Value::Null, &Value::Null));
    assert!(!values_equal(&Value::Null, &Value::Bool(false)));
}

#[test]
fn array_messages_are_scanned() {
    let ev = send(Value::Array(vec![obj(vec![("a", num(1))]), obj(vec![("f", s("z"))])]));
    assert_eq!(check(".f == \"z\"", &ev), Ok(true));
    let v = parse_str(".f").unwrap();
    let got = v.eval(&ev).unwrap().unwrap();
    assert!(values_equal(got, &s("z")));
}

#[test]
fn whitespace_is_ignored() {
    let e = parse_str("  ( .a==\"x\" )\t&&\n!.b ").unwrap();
    let want = Expr::And(
        bx(Expr::Eq(bx(path("a")), bx(Expr::Value(s("x"))))),
        bx(Expr::Not(bx(path("b")))),
    );
    assert_eq!(e, want);
}
