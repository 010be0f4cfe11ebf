use vstd::prelude::*;

verus! {

broadcast use vstd::std_specs::vec::axiom_vec_index_decreases;

/// A JSON number: an integer, or a finite float held by its bit pattern.
#[derive(PartialEq, Eq, Structural, Clone, Copy, Debug)]
pub enum Number {
    Int(i128),
    Float(u64),
}

/// A JSON-compatible value. Objects keep their entries in order.
#[derive(Debug, PartialEq)]
pub enum Value {
    Null,
    Bool(bool),
    Number(Number),
    String(String),
    Array(Vec<Value>),
    Object(Vec<(String, Value)>),
}

/// Deep structural equality of two values. Arrays compare element by
/// element, objects entry by entry in their order.
pub open spec fn value_eq(a: Value, b: Value) -> bool
    decreases a, 0int,
{
    match a {
        Value::Null => b is Null,
        Value::Bool(x) => match b {
            Value::Bool(y) => x == y,
            _ => false,
        },
        Value::Number(x) => match b {
            Value::Number(y) => x == y,
            _ => false,
        },
        Value::String(x) => match b {
            Value::String(y) => x@ == y@,
            _ => false,
        },
        Value::Array(x) => match b {
            Value::Array(y) => x.len() == y.len() && arrays_eq_from(x, y, 0),
            _ => false,
        },
        Value::Object(x) => match b {
            Value::Object(y) => x.len() == y.len() && objects_eq_from(x, y, 0),
            _ => false,
        },
    }
}

/// The elements of `x` and `y` from index `i` on are pairwise equal.
pub open spec fn arrays_eq_from(x: Vec<Value>, y: Vec<Value>, i: int) -> bool
    decreases x, x.len() - i,
{
    if 0 <= i < x.len() && i < y.len() {
        value_eq(x[i], y[i]) && arrays_eq_from(x, y, i + 1)
    } else {
        true
    }
}

/// The entries of `x` and `y` from index `i` on have equal keys and values.
pub open spec fn objects_eq_from(x: Vec<(String, Value)>, y: Vec<(String, Value)>, i: int) -> bool
    decreases x, x.len() - i,
{
    if 0 <= i < x.len() && i < y.len() {
        x[i].0@ == y[i].0@ && value_eq(x[i].1, y[i].1) && objects_eq_from(x, y, i + 1)
    } else {
        true
    }
}

/// Decides deep structural equality of two values.
pub fn values_equal(a: &Value, b: &Value) -> (r: bool)
    ensures
        r == value_eq(*a, *b),
    decreases a,
{
    match a {
        Value::Null => matches!(b, Value::Null),
        Value::Bool(x) => match b {
            Value::Bool(y) => *x == *y,
            _ => false,
        },
        Value::Number(x) => match b {
            Value::Number(y) => *x == *y,
            _ => false,
        },
        Value::String(x) => match b {
            Value::String(y) => *x == *y,
            _ => false,
        },
        Value::Array(x) => match b {
            Value::Array(y) => {
                if x.len() != y.len() {
                    return false;
                }
                let mut i: usize = 0;
                while i < x.len()
                    invariant
                        x.len() == y.len(),
                        i <= x.len(),
                        arrays_eq_from(*x, *y, 0) == arrays_eq_from(*x, *y, i as int),
                        *a == Value::Array(*x),
                        *b == Value::Array(*y),
                    decreases x.len() - i,
                {
                    proof {
                        vstd::std_specs::vec::axiom_vec_index_decreases(*x, i as int);
                        assert(decreases_to!(*a => a->Array_0));
                        assert(decreases_to!(*a => x[i as int]));
                    }
                    if !values_equal(&x[i], &y[i]) {
                        return false;
                    }
                    i = i + 1;
                }
                true
            },
            _ => false,
        },
        Value::Object(x) => match b {
            Value::Object(y) => {
                if x.len() != y.len() {
                    return false;
                }
                let mut i: usize = 0;
                while i < x.len()
                    invariant
                        x.len() == y.len(),
                        i <= x.len(),
                        objects_eq_from(*x, *y, 0) == objects_eq_from(*x, *y, i as int),
                        *a == Value::Object(*x),
                        *b == Value::Object(*y),
                    decreases x.len() - i,
                {
                    if x[i].0 != y[i].0 {
                        return false;
                    }
                    proof {
                        vstd::std_specs::vec::axiom_vec_index_decreases(*x, i as int);
                        assert(decreases_to!(*a => a->Object_0));
                        assert(decreases_to!(*a => x[i as int]));
                        assert(decreases_to!(*a => x[i as int].1));
                    }
                    if !values_equal(&x[i].1, &y[i].1) {
                        return false;
                    }
                    i = i + 1;
                }
                true
            },
            _ => false,
        },
    }
}

} // verus!
