//! The tagged scalar values the machine computes with.
use vstd::prelude::*;
use core::cmp::Ordering;
use crate::numeric;
use crate::numeric::add_bits;
use crate::numeric::sub_bits;
use crate::numeric::mul_bits;
use crate::numeric::div_bits;
use crate::numeric::neg_bits;
use crate::numeric::eq_bits;
use crate::numeric::cmp_bits;
use crate::text::dec_i64;
use crate::text::dec_signed;
use crate::text::hex_digits16;
use crate::text::hex_u64;
use vstd::string::StringExecFns;

verus! {

/// A closed, fixed-size tagged union of the immediate scalars.
///
/// `Real` carries the 64 bits of an IEEE-754 binary64 number; its arithmetic
/// and ordering are those of [`crate::numeric`]. `_Natural` is a legacy exact
/// integer variant kept structurally; it behaves as a number of its own
/// variant and coerces to nothing. Every operator is defined only for
/// exactly matching numeric variant pairs: any mismatch yields "operation
/// undefined" (`None`) rather than an implicit coercion.
#[derive(Debug, Clone, Copy)]
pub enum Value {
    Nil,
    Real(u64),
    _Natural(i64),
    Boolean(bool),
}

/// Division as the machine performs it on exact integers: truncation
/// toward zero.
pub open spec fn trunc_div(x: int, y: int) -> int {
    if x >= 0 {
        x / y
    } else {
        -((-x) / y)
    }
}

/// Structural equality across all variants: never an error, and `false`
/// between distinct variants. `Real` equality is IEEE equality.
pub open spec fn val_eq(a: Value, b: Value) -> bool {
    match (a, b) {
        (Value::Nil, Value::Nil) => true,
        (Value::Real(x), Value::Real(y)) => eq_bits(x, y),
        (Value::_Natural(x), Value::_Natural(y)) => x == y,
        (Value::Boolean(x), Value::Boolean(y)) => x == y,
        _ => false,
    }
}

/// The partial order: defined only between identical variants (`Nil` orders
/// equal to `Nil`, booleans with `false < true`), and undefined across
/// variants or against a NaN.
pub open spec fn val_cmp(a: Value, b: Value) -> Option<Ordering> {
    match (a, b) {
        (Value::Nil, Value::Nil) => Some(Ordering::Equal),
        (Value::Real(x), Value::Real(y)) => cmp_bits(x, y),
        (Value::_Natural(x), Value::_Natural(y)) => Some(
            if x < y {
                Ordering::Less
            } else if x == y {
                Ordering::Equal
            } else {
                Ordering::Greater
            },
        ),
        (Value::Boolean(x), Value::Boolean(y)) => Some(
            if x == y {
                Ordering::Equal
            } else if y {
                Ordering::Less
            } else {
                Ordering::Greater
            },
        ),
        _ => None,
    }
}

impl Value {
    /// Arithmetic negation: defined for the numeric variants only.
    pub open spec fn neg_spec(self) -> Option<Value> {
        match self {
            Value::Real(x) => Some(Value::Real(neg_bits(x))),
            Value::_Natural(x) => Some(Value::_Natural((-x) as i64)),
            _ => None,
        }
    }

    pub open spec fn add_spec(self, rhs: Value) -> Option<Value> {
        match (self, rhs) {
            (Value::Real(x), Value::Real(y)) => Some(Value::Real(add_bits(x, y))),
            (Value::_Natural(x), Value::_Natural(y)) => Some(Value::_Natural((x + y) as i64)),
            _ => None,
        }
    }

    pub open spec fn sub_spec(self, rhs: Value) -> Option<Value> {
        match (self, rhs) {
            (Value::Real(x), Value::Real(y)) => Some(Value::Real(sub_bits(x, y))),
            (Value::_Natural(x), Value::_Natural(y)) => Some(Value::_Natural((x - y) as i64)),
            _ => None,
        }
    }

    pub open spec fn mul_spec(self, rhs: Value) -> Option<Value> {
        match (self, rhs) {
            (Value::Real(x), Value::Real(y)) => Some(Value::Real(mul_bits(x, y))),
            (Value::_Natural(x), Value::_Natural(y)) => Some(Value::_Natural((x * y) as i64)),
            _ => None,
        }
    }

    pub open spec fn div_spec(self, rhs: Value) -> Option<Value> {
        match (self, rhs) {
            (Value::Real(x), Value::Real(y)) => Some(Value::Real(div_bits(x, y))),
            (Value::_Natural(x), Value::_Natural(y)) => Some(
                Value::_Natural(trunc_div(x as int, y as int) as i64),
            ),
            _ => None,
        }
    }

    /// Logical negation: defined for booleans only.
    pub open spec fn not_spec(self) -> Option<Value> {
        match self {
            Value::Boolean(x) => Some(Value::Boolean(!x)),
            _ => None,
        }
    }

    pub fn neg(self) -> (r: Option<Value>)
        requires
            self matches Value::_Natural(x) ==> x != i64::MIN,
        ensures
            r == self.neg_spec(),
    {
        match self {
            Value::Real(x) => Some(Value::Real(numeric::neg_f(x))),
            Value::_Natural(x) => Some(Value::_Natural(-x)),
            _ => None,
        }
    }

    pub fn add(self, rhs: Value) -> (r: Option<Value>)
        requires
            self matches Value::_Natural(x) ==> (rhs matches Value::_Natural(y) ==> i64::MIN
                <= x + y <= i64::MAX),
        ensures
            r == self.add_spec(rhs),
    {
        match (self, rhs) {
            (Value::Real(x), Value::Real(y)) => Some(Value::Real(numeric::add_f(x, y))),
            (Value::_Natural(x), Value::_Natural(y)) => Some(Value::_Natural(x + y)),
            _ => None,
        }
    }

    pub fn sub(self, rhs: Value) -> (r: Option<Value>)
        requires
            self matches Value::_Natural(x) ==> (rhs matches Value::_Natural(y) ==> i64::MIN
                <= x - y <= i64::MAX),
        ensures
            r == self.sub_spec(rhs),
    {
        match (self, rhs) {
            (Value::Real(x), Value::Real(y)) => Some(Value::Real(numeric::sub_f(x, y))),
            (Value::_Natural(x), Value::_Natural(y)) => Some(Value::_Natural(x - y)),
            _ => None,
        }
    }

    pub fn mul(self, rhs: Value) -> (r: Option<Value>)
        requires
            self matches Value::_Natural(x) ==> (rhs matches Value::_Natural(y) ==> i64::MIN
                <= x * y <= i64::MAX),
        ensures
            r == self.mul_spec(rhs),
    {
        match (self, rhs) {
            (Value::Real(x), Value::Real(y)) => Some(Value::Real(numeric::mul_f(x, y))),
            (Value::_Natural(x), Value::_Natural(y)) => Some(Value::_Natural(x * y)),
            _ => None,
        }
    }

    pub fn div(self, rhs: Value) -> (r: Option<Value>)
        requires
            self matches Value::_Natural(x) ==> (rhs matches Value::_Natural(y) ==> y != 0 && !(
            x == i64::MIN && y == -1)),
        ensures
            r == self.div_spec(rhs),
    {
        match (self, rhs) {
            (Value::Real(x), Value::Real(y)) => Some(Value::Real(numeric::div_f(x, y))),
            (Value::_Natural(x), Value::_Natural(y)) => Some(Value::_Natural(x / y)),
            _ => None,
        }
    }

    pub fn not(self) -> (r: Option<Value>)
        ensures
            r == self.not_spec(),
    {
        match self {
            Value::Boolean(x) => Some(Value::Boolean(!x)),
            _ => None,
        }
    }

    /// The textual form of a value. Numbers are shown as the sixteen
    /// hexadecimal digits of their bit pattern; the interactive front end
    /// renders them decimally.
    pub open spec fn render_spec(self) -> Seq<char> {
        match self {
            Value::Nil => "Nil"@,
            Value::Real(x) => "0x"@ + hex_digits16(x),
            Value::_Natural(x) => dec_signed(x as int),
            Value::Boolean(x) => if x {
                "true"@
            } else {
                "false"@
            },
        }
    }

    pub fn render(&self) -> (s: String)
        ensures
            s@ == self.render_spec(),
    {
        match self {
            Value::Nil => String::from_str("Nil"),
            Value::Real(x) => {
                let mut s = String::from_str("0x");
                let h = hex_u64(*x);
                s.append(h.as_str());
                s
            },
            Value::_Natural(x) => dec_i64(*x),
            Value::Boolean(x) => {
                if *x {
                    String::from_str("true")
                } else {
                    String::from_str("false")
                }
            },
        }
    }
}

impl PartialEq for Value {
    fn eq(&self, other: &Value) -> (r: bool) {
        match (self, other) {
            (Value::Nil, Value::Nil) => true,
            (Value::Real(x), Value::Real(y)) => numeric::eq_f(*x, *y),
            (Value::_Natural(x), Value::_Natural(y)) => x == y,
            (Value::Boolean(x), Value::Boolean(y)) => x == y,
            _ => false,
        }
    }
}

impl vstd::std_specs::cmp::PartialEqSpecImpl for Value {
    open spec fn obeys_eq_spec() -> bool {
        true
    }

    open spec fn eq_spec(&self, other: &Value) -> bool {
        val_eq(*self, *other)
    }
}

impl PartialOrd for Value {
    fn partial_cmp(&self, other: &Value) -> (r: Option<Ordering>) {
        match (self, other) {
            (Value::Nil, Value::Nil) => Some(Ordering::Equal),
            (Value::Real(x), Value::Real(y)) => numeric::cmp_f(*x, *y),
            (Value::_Natural(x), Value::_Natural(y)) => Some(
                if x < y {
                    Ordering::Less
                } else if x == y {
                    Ordering::Equal
                } else {
                    Ordering::Greater
                },
            ),
            (Value::Boolean(x), Value::Boolean(y)) => Some(
                if x == y {
                    Ordering::Equal
                } else if *y {
                    Ordering::Less
                } else {
                    Ordering::Greater
                },
            ),
            _ => None,
        }
    }
}

impl vstd::std_specs::cmp::PartialOrdSpecImpl for Value {
    open spec fn obeys_partial_cmp_spec() -> bool {
        true
    }

    open spec fn partial_cmp_spec(&self, other: &Value) -> Option<Ordering> {
        val_cmp(*self, *other)
    }
}

/// Mismatched variants are never equal and never ordered: equality returns
/// `false` (not an error) and the partial order is undefined.
pub proof fn mismatched_variants_law(a: Value, b: Value)
    requires
        !(a is Nil && b is Nil),
        !(a is Real && b is Real),
        !(a is _Natural && b is _Natural),
        !(a is Boolean && b is Boolean),
    ensures
        !val_eq(a, b),
        val_cmp(a, b) is None,
{
}

} // verus!
