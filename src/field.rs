use vstd::prelude::*;

use crate::value::{value_eq, values_equal, Value};

verus! {

broadcast use vstd::std_specs::vec::axiom_vec_index_decreases;

/// References a field of a message by its name, at any depth.
#[derive(Debug, PartialEq)]
pub struct Field(pub String);

/// The test that an occurrence of a field must pass in an existence scan.
pub enum Probe<'a> {
    /// The value is not null.
    Present,
    /// The value is an array with no elements.
    EmptyArray,
    /// The value equals the given one; `None` stands for null.
    EqualTo(Option<&'a Value>),
}

/// The value that an optional reference stands for: null when absent.
pub open spec fn or_null(o: Option<&Value>) -> Value {
    match o {
        Some(v) => *v,
        None => Value::Null,
    }
}

/// An optional reference, read as an optional value.
pub open spec fn found(o: Option<&Value>) -> Option<Value> {
    match o {
        Some(v) => Some(*v),
        None => None,
    }
}

/// The test of an existence scan, as the contracts state it.
pub enum Test {
    Present,
    EmptyArray,
    Equals(Value),
}

impl<'a> Probe<'a> {
    pub open spec fn test(self) -> Test {
        match self {
            Probe::Present => Test::Present,
            Probe::EmptyArray => Test::EmptyArray,
            Probe::EqualTo(t) => Test::Equals(or_null(t)),
        }
    }
}

pub open spec fn test_holds(t: Test, v: Value) -> bool {
    match t {
        Test::Present => !(v is Null),
        Test::EmptyArray => match v {
            Value::Array(a) => a.len() == 0,
            _ => false,
        },
        Test::Equals(w) => value_eq(v, w),
    }
}

/// Existence scan: some entry keyed `name`, anywhere in `v`, holds a value
/// that passes `t`. An entry that fails the test is still searched inside.
pub open spec fn scan(v: Value, name: Seq<char>, t: Test) -> bool
    decreases v, 0int,
{
    match v {
        Value::Array(a) => scan_array_from(a, name, t, 0),
        Value::Object(o) => scan_object_from(o, name, t, 0),
        _ => false,
    }
}

pub open spec fn scan_array_from(a: Vec<Value>, name: Seq<char>, t: Test, i: int) -> bool
    decreases a, a.len() - i,
{
    if 0 <= i < a.len() {
        scan(a[i], name, t) || scan_array_from(a, name, t, i + 1)
    } else {
        false
    }
}

pub open spec fn scan_object_from(
    o: Vec<(String, Value)>,
    name: Seq<char>,
    t: Test,
    i: int,
) -> bool
    decreases o, o.len() - i,
{
    if 0 <= i < o.len() {
        (o[i].0@ == name && test_holds(t, o[i].1)) || scan(o[i].1, name, t) || scan_object_from(
            o,
            name,
            t,
            i + 1,
        )
    } else {
        false
    }
}

/// First-match lookup: the value of the first entry keyed `name` in a
/// depth-first, pre-order walk of `v`; the walk does not enter that entry.
pub open spec fn first(v: Value, name: Seq<char>) -> Option<Value>
    decreases v, 0int,
{
    match v {
        Value::Array(a) => first_array_from(a, name, 0),
        Value::Object(o) => first_object_from(o, name, 0),
        _ => None,
    }
}

pub open spec fn first_array_from(a: Vec<Value>, name: Seq<char>, i: int) -> Option<Value>
    decreases a, a.len() - i,
{
    if 0 <= i < a.len() {
        if first(a[i], name) is Some {
            first(a[i], name)
        } else {
            first_array_from(a, name, i + 1)
        }
    } else {
        None
    }
}

pub open spec fn first_object_from(o: Vec<(String, Value)>, name: Seq<char>, i: int) -> Option<
    Value,
>
    decreases o, o.len() - i,
{
    if 0 <= i < o.len() {
        if o[i].0@ == name {
            Some(o[i].1)
        } else if first(o[i].1, name) is Some {
            first(o[i].1, name)
        } else {
            first_object_from(o, name, i + 1)
        }
    } else {
        None
    }
}

impl<'a> Probe<'a> {
    /// Applies the test to one value.
    pub fn holds(&self, v: &Value) -> (r: bool)
        ensures
            r == test_holds(self.test(), *v),
    {
        match self {
            Probe::Present => !matches!(v, Value::Null),
            Probe::EmptyArray => match v {
                Value::Array(a) => a.len() == 0,
                _ => false,
            },
            Probe::EqualTo(t) => match t {
                Some(t) => values_equal(v, t),
                None => matches!(v, Value::Null),
            },
        }
    }
}

impl Field {
    /// Runs an existence scan for this field over `value`.
    pub fn any(&self, value: &Value, p: &Probe) -> (r: bool)
        ensures
            r == scan(*value, self.0@, p.test()),
        decreases value,
    {
        match value {
            Value::Array(a) => {
                let mut i: usize = 0;
                while i < a.len()
                    invariant
                        i <= a.len(),
                        *value == Value::Array(*a),
                        scan_array_from(*a, self.0@, p.test(), 0) == scan_array_from(
                            *a,
                            self.0@,
                            p.test(),
                            i as int,
                        ),
                    decreases a.len() - i,
                {
                    proof {
                        assert(decreases_to!(*value => value->Array_0));
                        assert(decreases_to!(*value => a[i as int]));
                    }
                    if self.any(&a[i], p) {
                        return true;
                    }
                    i = i + 1;
                }
                false
            },
            Value::Object(o) => {
                let mut i: usize = 0;
                while i < o.len()
                    invariant
                        i <= o.len(),
                        *value == Value::Object(*o),
                        scan_object_from(*o, self.0@, p.test(), 0) == scan_object_from(
                            *o,
                            self.0@,
                            p.test(),
                            i as int,
                        ),
                    decreases o.len() - i,
                {
                    if o[i].0 == self.0 && p.holds(&o[i].1) {
                        return true;
                    }
                    proof {
                        assert(decreases_to!(*value => value->Object_0));
                        assert(decreases_to!(*value => o[i as int]));
                        assert(decreases_to!(*value => o[i as int].1));
                    }
                    if self.any(&o[i].1, p) {
                        return true;
                    }
                    i = i + 1;
                }
                false
            },
            _ => false,
        }
    }

    /// Runs a first-match lookup for this field over `value`.
    pub fn eval<'v>(&self, value: &'v Value) -> (r: Option<&'v Value>)
        ensures
            found(r) == first(*value, self.0@),
        decreases value,
    {
        match value {
            Value::Array(a) => {
                let mut i: usize = 0;
                while i < a.len()
                    invariant
                        i <= a.len(),
                        *value == Value::Array(*a),
                        first_array_from(*a, self.0@, 0) == first_array_from(*a, self.0@, i as int),
                    decreases a.len() - i,
                {
                    proof {
                        assert(decreases_to!(*value => value->Array_0));
                        assert(decreases_to!(*value => a[i as int]));
                    }
                    let r = self.eval(&a[i]);
                    if r.is_some() {
                        return r;
                    }
                    i = i + 1;
                }
                None
            },
            Value::Object(o) => {
                let mut i: usize = 0;
                while i < o.len()
                    invariant
                        i <= o.len(),
                        *value == Value::Object(*o),
                        first_object_from(*o, self.0@, 0) == first_object_from(
                            *o,
                            self.0@,
                            i as int,
                        ),
                    decreases o.len() - i,
                {
                    if o[i].0 == self.0 {
                        return Some(&o[i].1);
                    }
                    proof {
                        assert(decreases_to!(*value => value->Object_0));
                        assert(decreases_to!(*value => o[i as int]));
                        assert(decreases_to!(*value => o[i as int].1));
                    }
                    let r = self.eval(&o[i].1);
                    if r.is_some() {
                        return r;
                    }
                    i = i + 1;
                }
                None
            },
            _ => None,
        }
    }
}

} // verus!
