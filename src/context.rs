//! The values a message is formatted with.
use vstd::prelude::*;

use crate::text::decimal;
use crate::text::push_decimal;
use vstd::string::*;

verus! {

/// A value that a placeholder can stand for.
#[derive(Debug, Clone)]
pub enum Value {
    String(String),
    Integer(i64),
    /// A floating-point number, held as the text that `Display` writes for it.
    Double(String),
}

impl Value {
    /// The display form of the value.
    pub open spec fn text(&self) -> Seq<char> {
        match self {
            Value::String(s) => s@,
            Value::Integer(i) => decimal(*i as int),
            Value::Double(s) => s@,
        }
    }

    /// The display form of the value.
    pub fn to_string(&self) -> (r: String)
        ensures
            r@ == self.text(),
    {
        let mut r = String::new();
        match self {
            Value::String(s) => r.append(s.as_str()),
            Value::Integer(i) => push_decimal(&mut r, *i as i128),
            Value::Double(s) => r.append(s.as_str()),
        }
        r
    }
}

/// Named values, in order, and an optional count that selects a plural form.
#[derive(Debug, Clone)]
pub struct Context {
    pub values: Vec<(String, Value)>,
    pub count: Option<i64>,
}

impl Context {
    /// A context of the given values and count.
    pub fn new(values: Vec<(String, Value)>, count: Option<i64>) -> (r: Context)
        ensures
            r.values@ == values@,
            r.count == count,
    {
        Context { values, count }
    }

    /// The names of the values, in order.
    pub open spec fn names(&self) -> Seq<Seq<char>> {
        self.values@.map_values(|p: (String, Value)| p.0@)
    }

    /// The display forms of the values, in order.
    pub open spec fn texts(&self) -> Seq<Seq<char>> {
        self.values@.map_values(|p: (String, Value)| p.1.text())
    }
}

} // verus!
