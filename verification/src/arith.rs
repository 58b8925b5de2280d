//! Arithmetic and comparison on typed values.
//!
//! Every operation is defined for every integer type and for booleans; the
//! sums, differences and products of float words need rounding and are
//! asked of a floating-point unit by the engine, not computed here.

use vstd::prelude::*;
use crate::float::{is_nan, nan, rank, ranked};
use crate::structures::Type;
use crate::value::{in_range, order_code, span, wrap, wrapped, Value, UNORDERED};

verus! {

/// The sum of two values of one type and whether it overflowed: the sum
/// wrapped to the type, and whether the exact sum lies outside it. Booleans
/// add as single bits do: exclusive-or for the sum, and for the carry.
pub open spec fn sum(a: Value, b: Value) -> (Value, bool) {
    match (a, b) {
        (Value::Bool(x), Value::Bool(y)) => (Value::Bool(x ^ y), (x & y) != 0),
        _ => (
            wrapped(a.kind(), a.number() + b.number()),
            !in_range(a.kind(), a.number() + b.number()),
        ),
    }
}

/// The difference of two values of one type and whether it overflowed.
/// For booleans the difference is `!a & b` and the borrow is `!b & a != 0`.
pub open spec fn difference(a: Value, b: Value) -> (Value, bool) {
    match (a, b) {
        (Value::Bool(x), Value::Bool(y)) => (Value::Bool(!x & y), (!y & x) != 0),
        _ => (
            wrapped(a.kind(), a.number() - b.number()),
            !in_range(a.kind(), a.number() - b.number()),
        ),
    }
}

/// The product of two values of one type, in two halves: the exact
/// product's low bits, as wide as the type, and the bits above them.
/// Booleans multiply by and, with nothing above.
pub open spec fn product(a: Value, b: Value) -> (Value, Value) {
    match (a, b) {
        (Value::Bool(x), Value::Bool(y)) => (Value::Bool(x & y), Value::Bool(0)),
        _ => (
            wrapped(a.kind(), a.number() * b.number()),
            wrapped(a.kind(), (a.number() * b.number()) / span(a.kind())),
        ),
    }
}

/// The quotient of `a` by `b`, rounded towards zero, for `b` other than 0.
pub open spec fn truncated_quotient(a: int, b: int) -> int {
    if a >= 0 && b > 0 {
        a / b
    } else if a >= 0 {
        -(a / (-b))
    } else if b > 0 {
        -((-a) / b)
    } else {
        (-a) / (-b)
    }
}

/// What is left of `a` after the truncated quotient by `b`: it has the sign of `a`.
pub open spec fn truncated_remainder(a: int, b: int) -> int {
    if a >= 0 && b > 0 {
        a % b
    } else if a >= 0 {
        a % (-b)
    } else if b > 0 {
        -((-a) % b)
    } else {
        -((-a) % (-b))
    }
}

/// Quotient and remainder of two values of one type, or nothing where the
/// divisor is zero. Integers divide towards zero, and the one quotient that
/// does not fit (the least number by -1) wraps. A boolean divided by a
/// true boolean is itself, with remainder false.
pub open spec fn division(a: Value, b: Value) -> Option<(Value, Value)> {
    match (a, b) {
        (Value::Bool(x), Value::Bool(y)) => if y == 0 {
            None
        } else {
            Some((Value::Bool(x), Value::Bool(0)))
        },
        _ => if b.number() == 0 {
            None
        } else {
            Some(
                (
                    wrapped(a.kind(), truncated_quotient(a.number(), b.number())),
                    wrapped(a.kind(), truncated_remainder(a.number(), b.number())),
                ),
            )
        },
    }
}

/// The byte that comparing `a` with `b` leaves: `0xFF`, `0x00` or `0x01`
/// as `a` is less than, equal to or greater than `b`; `0x7F` where a float
/// operand is not a number. Booleans compare by their raw bytes.
pub open spec fn comparison(a: Value, b: Value) -> u8 {
    match (a, b) {
        (Value::Float(x), Value::Float(y)) => if is_nan(x) || is_nan(y) {
            UNORDERED
        } else {
            order_code(rank(x), rank(y))
        },
        _ => order_code(a.number(), b.number()),
    }
}

/// A multiple of every type's span, large enough to lift any intermediate
/// result above zero.
const LIFT: i128 = 0x1_0000_0000_0000_0000_0000_0000;

/// The value of integer type `t` that `x` wraps to.
pub fn make(t: Type, x: i128) -> (v: Value)
    requires
        t.is_integer(),
        -0x1_0000_0000_0000_0000_0000 <= x <= 0x1_0000_0000_0000_0000_0000,
    ensures
        v == wrapped(t, x as int),
        v.kind() == t,
{
    let lo: i128 = match t {
        Type::I8 => -0x80,
        Type::I16 => -0x8000,
        Type::I32 => -0x8000_0000,
        _ => 0,
    };
    let m: u128 = match t {
        Type::U8 | Type::I8 => 0x100,
        Type::U16 | Type::I16 => 0x1_0000,
        _ => 0x1_0000_0000,
    };
    let lifted: u128 = (x - lo + LIFT) as u128;
    let r: u128 = lifted % m;
    let y: i128 = lo + r as i128;
    assert(y == wrap(t, x as int));
    match t {
        Type::U8 => Value::U8(y as u8),
        Type::I8 => Value::I8(y as i8),
        Type::U16 => Value::U16(y as u16),
        Type::I16 => Value::I16(y as i16),
        Type::U32 => Value::U32(y as u32),
        _ => Value::I32(y as i32),
    }
}

impl Value {
    /// Adds `rhs`, with the overflow flag.
    pub fn plus(self, rhs: Value) -> (r: (Value, bool))
        requires
            self.kind() == rhs.kind(),
            self.kind() != Type::Float,
        ensures
            r == sum(self, rhs),
            r.0.kind() == self.kind(),
    {
        match (self, rhs) {
            (Value::Bool(x), Value::Bool(y)) => (Value::Bool(x ^ y), (x & y) != 0),
            _ => {
                let t = self.ty();
                let n: i64 = self.to_number() + rhs.to_number();
                let out = beyond(t, n);
                (make(t, n as i128), out)
            },
        }
    }

    /// Subtracts `rhs`, with the overflow flag.
    pub fn minus(self, rhs: Value) -> (r: (Value, bool))
        requires
            self.kind() == rhs.kind(),
            self.kind() != Type::Float,
        ensures
            r == difference(self, rhs),
            r.0.kind() == self.kind(),
    {
        match (self, rhs) {
            (Value::Bool(x), Value::Bool(y)) => (Value::Bool(!x & y), (!y & x) != 0),
            _ => {
                let t = self.ty();
                let n: i64 = self.to_number() - rhs.to_number();
                let out = beyond(t, n);
                (make(t, n as i128), out)
            },
        }
    }

    /// Multiplies by `rhs`: the low half of the product and the high half.
    pub fn times(self, rhs: Value) -> (r: (Value, Value))
        requires
            self.kind() == rhs.kind(),
            self.kind() != Type::Float,
        ensures
            r == product(self, rhs),
            r.0.kind() == self.kind(),
            r.1.kind() == self.kind(),
    {
        match (self, rhs) {
            (Value::Bool(x), Value::Bool(y)) => (Value::Bool(x & y), Value::Bool(0)),
            _ => {
                let t = self.ty();
                let a: i128 = self.to_number() as i128;
                let b: i128 = rhs.to_number() as i128;
                assert(-0x1_0000_0000_0000_0000 <= a * b <= 0x1_0000_0000_0000_0000)
                    by (nonlinear_arith)
                    requires
                        -0x1_0000_0000 <= a <= 0x1_0000_0000,
                        -0x1_0000_0000 <= b <= 0x1_0000_0000,
                ;
                let p: i128 = a * b;
                let m: u128 = match t {
                    Type::U8 | Type::I8 => 0x100,
                    Type::U16 | Type::I16 => 0x1_0000,
                    _ => 0x1_0000_0000,
                };
                let lifted: u128 = (p + LIFT) as u128;
                let high: i128 = (lifted / m) as i128 - (LIFT as u128 / m) as i128;
                assert(high == (a * b) / span(t));
                (make(t, p), make(t, high))
            },
        }
    }

    /// Divides by `rhs`: quotient and remainder, or nothing where `rhs` is zero.
    pub fn divided_by(self, rhs: Value) -> (r: Option<(Value, Value)>)
        requires
            self.kind() == rhs.kind(),
            self.kind() != Type::Float,
        ensures
            r == division(self, rhs),
            r matches Some(pair) ==> pair.0.kind() == self.kind() && pair.1.kind() == self.kind(),
    {
        match (self, rhs) {
            (Value::Bool(x), Value::Bool(y)) => {
                if y == 0 {
                    None
                } else {
                    Some((Value::Bool(x), Value::Bool(0)))
                }
            },
            _ => {
                let t = self.ty();
                let a: i64 = self.to_number();
                let b: i64 = rhs.to_number();
                if b == 0 {
                    return None;
                }
                let ua: u64 = if a >= 0 { a as u64 } else { (-a) as u64 };
                let ub: u64 = if b >= 0 { b as u64 } else { (-b) as u64 };
                let q: i64 = (ua / ub) as i64;
                let rest: i64 = (ua % ub) as i64;
                let quotient: i64 = if (a < 0) != (b < 0) { -q } else { q };
                let remainder: i64 = if a < 0 { -rest } else { rest };
                assert(quotient == truncated_quotient(a as int, b as int));
                assert(remainder == truncated_remainder(a as int, b as int));
                Some((make(t, quotient as i128), make(t, remainder as i128)))
            },
        }
    }

    /// Compares with `rhs`, giving the byte that the comparison leaves.
    pub fn compared_to(self, rhs: Value) -> (code: u8)
        requires
            self.kind() == rhs.kind(),
        ensures
            code == comparison(self, rhs),
    {
        match (self, rhs) {
            (Value::Float(x), Value::Float(y)) => {
                if nan(x) || nan(y) {
                    UNORDERED
                } else {
                    order(ranked(x), ranked(y))
                }
            },
            _ => order(self.to_number(), rhs.to_number()),
        }
    }
}

/// Whether `n` lies outside the range of type `t`.
fn beyond(t: Type, n: i64) -> (out: bool)
    ensures
        out == !in_range(t, n as int),
{
    match t {
        Type::U8 | Type::Boolean => n < 0 || n > 0xFF,
        Type::I8 => n < -0x80 || n > 0x7F,
        Type::U16 => n < 0 || n > 0xFFFF,
        Type::I16 => n < -0x8000 || n > 0x7FFF,
        Type::U32 | Type::Float => n < 0 || n > 0xFFFF_FFFF,
        Type::I32 => n < -0x8000_0000 || n > 0x7FFF_FFFF,
    }
}

/// The byte for the order of two numbers.
fn order(a: i64, b: i64) -> (code: u8)
    ensures
        code == order_code(a as int, b as int),
{
    if a < b {
        0xFF
    } else if a == b {
        0x00
    } else {
        0x01
    }
}

} // verus!
