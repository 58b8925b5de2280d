//! Typed values: register bytes read as one of the eight operand types.
//!
//! Integers and booleans are stored big-endian, float words little-endian.
//! A value lives only between decoding register bytes and encoding the
//! result back.

use vstd::prelude::*;
use crate::bytes::{be16, be16_bytes, be32, be32_bytes, le32, le32_bytes};
use crate::bytes::{u16_from_be, u16_to_be, u32_from_be, u32_from_le, u32_to_be, u32_to_le};
use crate::structures::Type;

verus! {

/// Register bytes read as a value of one operand type. `Float` carries the
/// IEEE-754 word, `Bool` the raw byte (any nonzero byte is true).
#[derive(Clone, Copy, Debug, PartialEq, Eq, Structural)]
pub enum Value {
    U8(u8),
    I8(i8),
    U16(u16),
    I16(i16),
    U32(u32),
    I32(i32),
    Float(u32),
    Bool(u8),
}

/// The least number of an integer type; 0 for the others.
pub open spec fn low(t: Type) -> int {
    match t {
        Type::I8 => -0x80,
        Type::I16 => -0x8000,
        Type::I32 => -0x8000_0000,
        _ => 0,
    }
}

/// How many numbers a type of this width has: 2 to the number of its bits.
pub open spec fn span(t: Type) -> int {
    match t {
        Type::U8 | Type::I8 | Type::Boolean => 0x100,
        Type::U16 | Type::I16 => 0x1_0000,
        Type::U32 | Type::I32 | Type::Float => 0x1_0000_0000,
    }
}

/// Whether `x` is a number of type `t`.
pub open spec fn in_range(t: Type, x: int) -> bool {
    low(t) <= x < low(t) + span(t)
}

/// The number of type `t` that differs from `x` by a multiple of the type's
/// span: what is left of `x` when the bits above the type's width are dropped.
pub open spec fn wrap(t: Type, x: int) -> int {
    low(t) + (x - low(t)) % span(t)
}

/// The value of type `t` that carries the number `x`, for `x` in the type's range.
pub open spec fn carrying(t: Type, x: int) -> Value {
    match t {
        Type::U8 => Value::U8(x as u8),
        Type::I8 => Value::I8(x as i8),
        Type::U16 => Value::U16(x as u16),
        Type::I16 => Value::I16(x as i16),
        Type::U32 => Value::U32(x as u32),
        Type::I32 => Value::I32(x as i32),
        Type::Float => Value::Float(x as u32),
        Type::Boolean => Value::Bool(x as u8),
    }
}

/// The value of type `t` that `x` wraps to.
pub open spec fn wrapped(t: Type, x: int) -> Value {
    carrying(t, wrap(t, x))
}

/// A byte read as a signed number.
pub open spec fn signed8(b: u8) -> i8 {
    if b < 0x80 {
        b as i8
    } else {
        (b - 0x100) as i8
    }
}

/// Sixteen bits read as a signed number.
pub open spec fn signed16(x: u16) -> i16 {
    if x < 0x8000 {
        x as i16
    } else {
        (x - 0x1_0000) as i16
    }
}

/// Thirty-two bits read as a signed number.
pub open spec fn signed32(x: u32) -> i32 {
    if x < 0x8000_0000 {
        x as i32
    } else {
        (x - 0x1_0000_0000) as i32
    }
}

/// The byte that holds a signed number in two's complement.
pub open spec fn unsigned8(x: i8) -> u8 {
    if x >= 0 {
        x as u8
    } else {
        (x + 0x100) as u8
    }
}

/// The sixteen bits that hold a signed number in two's complement.
pub open spec fn unsigned16(x: i16) -> u16 {
    if x >= 0 {
        x as u16
    } else {
        (x + 0x1_0000) as u16
    }
}

/// The thirty-two bits that hold a signed number in two's complement.
pub open spec fn unsigned32(x: i32) -> u32 {
    if x >= 0 {
        x as u32
    } else {
        (x + 0x1_0000_0000) as u32
    }
}

/// How the numbers `a` and `b` are ordered, as the byte that a comparison
/// leaves: `0xFF` for less, `0x00` for equal, `0x01` for greater.
pub open spec fn order_code(a: int, b: int) -> u8 {
    if a < b {
        0xFF
    } else if a == b {
        0x00
    } else {
        0x01
    }
}

/// The byte that a comparison leaves when its operands have no order.
pub const UNORDERED: u8 = 0x7F;

impl Value {
    /// The operand type of this value.
    pub open spec fn kind(self) -> Type {
        match self {
            Value::U8(_) => Type::U8,
            Value::I8(_) => Type::I8,
            Value::U16(_) => Type::U16,
            Value::I16(_) => Type::I16,
            Value::U32(_) => Type::U32,
            Value::I32(_) => Type::I32,
            Value::Float(_) => Type::Float,
            Value::Bool(_) => Type::Boolean,
        }
    }

    /// The number that this value carries: the integer itself, the float
    /// word, or the raw boolean byte.
    pub open spec fn number(self) -> int {
        match self {
            Value::U8(n) => n as int,
            Value::I8(n) => n as int,
            Value::U16(n) => n as int,
            Value::I16(n) => n as int,
            Value::U32(n) => n as int,
            Value::I32(n) => n as int,
            Value::Float(n) => n as int,
            Value::Bool(n) => n as int,
        }
    }

    /// The value of type `t` that the leading bytes of `bytes` hold.
    pub open spec fn decode(bytes: Seq<u8>, t: Type) -> Value
        recommends
            bytes.len() >= t.width(),
    {
        match t {
            Type::U8 => Value::U8(bytes[0]),
            Type::I8 => Value::I8(signed8(bytes[0])),
            Type::U16 => Value::U16(be16(bytes[0], bytes[1])),
            Type::I16 => Value::I16(signed16(be16(bytes[0], bytes[1]))),
            Type::U32 => Value::U32(be32(bytes)),
            Type::I32 => Value::I32(signed32(be32(bytes))),
            Type::Float => Value::Float(le32(bytes)),
            Type::Boolean => Value::Bool(bytes[0]),
        }
    }

    /// The bytes that hold this value: as many as its type is wide.
    pub open spec fn encode(self) -> Seq<u8> {
        match self {
            Value::U8(n) => seq![n],
            Value::I8(n) => seq![unsigned8(n)],
            Value::U16(n) => be16_bytes(n),
            Value::I16(n) => be16_bytes(unsigned16(n)),
            Value::U32(n) => be32_bytes(n),
            Value::I32(n) => be32_bytes(unsigned32(n)),
            Value::Float(n) => le32_bytes(n),
            Value::Bool(n) => seq![n],
        }
    }

    /// Reads the leading bytes of `value` as the type that the low three bits
    /// of `ty` select.
    pub fn from_bytes(value: &[u8], ty: u8) -> (v: Value)
        requires
            value@.len() >= Type::of_tag(ty).width(),
        ensures
            v == Value::decode(value@, Type::of_tag(ty)),
            v.kind() == Type::of_tag(ty),
    {
        match Type::from_tag(ty) {
            Type::U8 => Value::U8(value[0]),
            Type::I8 => Value::I8(to_signed8(value[0])),
            Type::U16 => Value::U16(u16_from_be(value[0], value[1])),
            Type::I16 => Value::I16(to_signed16(u16_from_be(value[0], value[1]))),
            Type::U32 => {
                let word: [u8; 4] = [value[0], value[1], value[2], value[3]];
                Value::U32(u32_from_be(&word))
            },
            Type::I32 => {
                let word: [u8; 4] = [value[0], value[1], value[2], value[3]];
                Value::I32(to_signed32(u32_from_be(&word)))
            },
            Type::Float => {
                let word: [u8; 4] = [value[0], value[1], value[2], value[3]];
                Value::Float(u32_from_le(&word))
            },
            Type::Boolean => Value::Bool(value[0]),
        }
    }

    /// Writes this value as bytes: four bytes of which the first `width` hold
    /// the value and the rest are zero, and the width of its type.
    pub fn into_bytes(self) -> (r: ([u8; 4], usize))
        ensures
            r.1 == self.kind().width(),
            r.0@.subrange(0, r.1 as int) == self.encode(),
            forall|i: int| r.1 <= i < 4 ==> r.0@[i] == 0,
    {
        let r: ([u8; 4], usize) = match self {
            Value::U8(v) => ([v, 0, 0, 0], 1),
            Value::I8(v) => ([to_unsigned8(v), 0, 0, 0], 1),
            Value::U16(v) => {
                let slice = u16_to_be(v);
                ([slice[0], slice[1], 0, 0], 2)
            },
            Value::I16(v) => {
                let slice = u16_to_be(to_unsigned16(v));
                ([slice[0], slice[1], 0, 0], 2)
            },
            Value::U32(v) => (u32_to_be(v), 4),
            Value::I32(v) => (u32_to_be(to_unsigned32(v)), 4),
            Value::Float(v) => (u32_to_le(v), 4),
            Value::Bool(v) => ([v, 0, 0, 0], 1),
        };
        assert(r.0@.subrange(0, r.1 as int) =~= self.encode());
        r
    }

    /// The operand type of this value.
    pub fn ty(self) -> (t: Type)
        ensures
            t == self.kind(),
    {
        match self {
            Value::U8(_) => Type::U8,
            Value::I8(_) => Type::I8,
            Value::U16(_) => Type::U16,
            Value::I16(_) => Type::I16,
            Value::U32(_) => Type::U32,
            Value::I32(_) => Type::I32,
            Value::Float(_) => Type::Float,
            Value::Bool(_) => Type::Boolean,
        }
    }

    /// The number that this value carries.
    pub fn to_number(self) -> (n: i64)
        ensures
            n == self.number(),
            in_range(self.kind(), n as int),
    {
        match self {
            Value::U8(n) => n as i64,
            Value::I8(n) => n as i64,
            Value::U16(n) => n as i64,
            Value::I16(n) => n as i64,
            Value::U32(n) => n as i64,
            Value::I32(n) => n as i64,
            Value::Float(n) => n as i64,
            Value::Bool(n) => n as i64,
        }
    }
}

/// Reads a byte as a signed number.
pub fn to_signed8(b: u8) -> (x: i8)
    ensures
        x == signed8(b),
{
    if b < 0x80 {
        b as i8
    } else {
        (b as i16 - 0x100) as i8
    }
}

/// Reads sixteen bits as a signed number.
pub fn to_signed16(u: u16) -> (x: i16)
    ensures
        x == signed16(u),
{
    if u < 0x8000 {
        u as i16
    } else {
        (u as i32 - 0x1_0000) as i16
    }
}

/// Reads thirty-two bits as a signed number.
pub fn to_signed32(u: u32) -> (x: i32)
    ensures
        x == signed32(u),
{
    if u < 0x8000_0000 {
        u as i32
    } else {
        (u as i64 - 0x1_0000_0000) as i32
    }
}

/// Writes a signed number as a byte in two's complement.
pub fn to_unsigned8(x: i8) -> (b: u8)
    ensures
        b == unsigned8(x),
{
    if x >= 0 {
        x as u8
    } else {
        (x as i16 + 0x100) as u8
    }
}

/// Writes a signed number as sixteen bits in two's complement.
pub fn to_unsigned16(x: i16) -> (u: u16)
    ensures
        u == unsigned16(x),
{
    if x >= 0 {
        x as u16
    } else {
        (x as i32 + 0x1_0000) as u16
    }
}

/// Writes a signed number as thirty-two bits in two's complement.
pub fn to_unsigned32(x: i32) -> (u: u32)
    ensures
        u == unsigned32(x),
{
    if x >= 0 {
        x as u32
    } else {
        (x as i64 + 0x1_0000_0000) as u32
    }
}

/// Wrapping leaves a number of the type as it is.
pub proof fn wrap_keeps_what_fits(t: Type, x: int)
    requires
        in_range(t, x),
    ensures
        wrap(t, x) == x,
{
    vstd::arithmetic::div_mod::lemma_small_mod((x - low(t)) as nat, span(t) as nat);
}

/// Encoding is the exact inverse of decoding: the bytes of a value, read
/// as its type, give the value back.
pub proof fn decode_inverts_encode(v: Value)
    ensures
        v.encode().len() == v.kind().width(),
        Value::decode(v.encode(), v.kind()) == v,
{
    match v {
        Value::U16(n) => {
            crate::bytes::written_then_read(0, n);
        },
        Value::I16(n) => {
            crate::bytes::written_then_read(0, unsigned16(n));
        },
        Value::U32(n) => {
            crate::bytes::written_then_read(n, 0);
        },
        Value::I32(n) => {
            crate::bytes::written_then_read(unsigned32(n), 0);
        },
        Value::Float(n) => {
            crate::bytes::written_then_read(n, 0);
        },
        _ => {},
    }
}

/// Decoding is the exact inverse of encoding: a value read from bytes
/// encodes to the bytes it was read from.
pub proof fn encode_inverts_decode(bytes: Seq<u8>, t: Type)
    requires
        bytes.len() >= t.width(),
    ensures
        Value::decode(bytes, t).kind() == t,
        Value::decode(bytes, t).encode() == bytes.subrange(0, t.width() as int),
{
    let v = Value::decode(bytes, t);
    let head = bytes.subrange(0, t.width() as int);
    if t.width() == 4 {
        crate::bytes::read_then_written(head);
        assert(be32(head) == be32(bytes));
        assert(le32(head) == le32(bytes));
    }
    assert(v.encode() =~= head);
}

} // verus!
