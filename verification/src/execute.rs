//! The instructions one by one, each proved to have the effect that
//! [`crate::machine`] gives it.

use vstd::prelude::*;
use crate::arith::make;
use crate::bytes::{be32, be32_bytes, u32_from_be, u32_from_le, u32_to_be, u32_to_le};
use crate::emulator::{call_debugger, call_write_hook, Emulator};
use crate::float::{positive, zero, FloatOp, ONE};
use crate::machine::{
    add_effect, advance_effect, all_zero, anded, asks_for, asks_next_for, branch_effect,
    compare_effect, conversion_asks, converted, copied, copy_effect, copy_fits, copy_length,
    debug_effect, divide_effect, flag, hands_out_for, held, jump_effect, same_outside,
    write_effect,
    jump_past_pointer_effect, jump_target, multiply_effect, negated, ored, overwrite,
    read_effect, readable, retreat_effect, rotated_left, rotated_right, stored,
    subtract_effect, xored, Effect, Operation, State,
};
use crate::structures::{tag_selects_type, Type};
use crate::value::{to_signed32, to_unsigned32, wrap_keeps_what_fits, Value};

verus! {

/// Replaces the leading `size` bytes of a register by those of `bytes`.
pub(crate) fn put(register: &mut [u8; 4], bytes: &[u8; 4], size: usize)
    requires
        size <= 4,
    ensures
        final(register)@ == overwrite(old(register)@, bytes@.subrange(0, size as int)),
{
    let mut i: usize = 0;
    while i < size
        invariant
            i <= size <= 4,
            register@ == overwrite(old(register)@, bytes@.subrange(0, i as int)),
        decreases size - i,
    {
        register[i] = bytes[i];
        i += 1;
        assert(register@ =~= overwrite(old(register)@, bytes@.subrange(0, i as int)));
    }
    assert(register@ =~= overwrite(old(register)@, bytes@.subrange(0, size as int)));
}

/// Rotates a word left; the amount counts modulo 32.
pub(crate) fn rotate_left(x: u32, n: u8) -> (r: u32)
    ensures
        r == rotated_left(x, n),
{
    let k: u8 = n % 32;
    if k == 0 {
        x
    } else {
        (x << k) | (x >> (32 - k))
    }
}

/// Rotates a word right; the amount counts modulo 32.
pub(crate) fn rotate_right(x: u32, n: u8) -> (r: u32)
    ensures
        r == rotated_right(x, n),
{
    let k: u8 = n % 32;
    if k == 0 {
        x
    } else {
        (x >> k) | (x << (32 - k))
    }
}

impl<const SIZE: usize> Emulator<SIZE> {
    /// Whether the `n` bytes at the pointer lie inside the memory.
    pub(crate) fn pointer_reaches(&self, n: usize) -> (ok: bool)
        requires
            1 <= n <= 4,
        ensures
            ok == readable(self@, self.ptr as int, n as int),
    {
        !self.check_size(n - 1)
    }

    /// The four bytes at the pointer as a big-endian address.
    pub(crate) fn target(&self) -> (address: u32)
        requires
            Self::valid_size(),
            readable(self@, self.ptr as int, 4),
        ensures
            address == jump_target(self@),
    {
        let at = self.ptr as usize;
        let word: [u8; 4] = [
            self.memory[at],
            self.memory[at + 1],
            self.memory[at + 2],
            self.memory[at + 3],
        ];
        assert(word@ =~= self.memory@.subrange(self.ptr as int, self.ptr + 4));
        u32_from_be(&word)
    }

    /// Reads a value of type `t` at the pointer into the first register.
    pub(crate) fn run_read(&mut self, t: Type) -> (stop: Option<u32>)
        requires
            Self::valid_size(),
        ensures
            read_effect(old(self)@, t) == (Effect {
                state: final(self)@,
                stop,
                redirected: false,
            }),
            final(self).same_hooks(old(self)),
    {
        let size = t.size();
        if !self.pointer_reaches(size) {
            return Some(1);
        }
        let at = self.ptr as usize;
        let mut i: usize = 0;
        while i < size
            invariant
                i <= size <= 4,
                at + size <= SIZE,
                at == self.ptr,
                self.memory == old(self).memory,
                self@ == (State { val1: self.val1@, ..old(self)@ }),
                self.same_hooks(old(self)),
                self.val1@ == overwrite(
                    old(self).val1@,
                    self.memory@.subrange(at as int, at + i),
                ),
            decreases size - i,
        {
            self.val1[i] = self.memory[at + i];
            i += 1;
            assert(self.val1@ =~= overwrite(
                old(self).val1@,
                self.memory@.subrange(at as int, at + i),
            ));
        }
        None
    }

    /// Writes the leading bytes of the first register at the pointer,
    /// with no hook in between.
    pub(crate) fn store(&mut self, size: usize)
        requires
            Self::valid_size(),
            size <= 4,
            readable(old(self)@, old(self).ptr as int, size as int),
        ensures
            final(self)@ == (State {
                memory: stored(
                    old(self).memory@,
                    old(self).ptr as int,
                    old(self).val1@.subrange(0, size as int),
                ),
                ..old(self)@
            }),
            final(self).same_hooks(old(self)),
    {
        let at = self.ptr as usize;
        let mut i: usize = 0;
        while i < size
            invariant
                i <= size <= 4,
                at + size <= SIZE,
                at == self.ptr,
                self@ == (State { memory: self.memory@, ..old(self)@ }),
                self.same_hooks(old(self)),
                self.memory@ == stored(
                    old(self).memory@,
                    at as int,
                    old(self).val1@.subrange(0, i as int),
                ),
            decreases size - i,
        {
            self.memory[at + i] = self.val1[i];
            i += 1;
            assert(self.memory@ =~= stored(
                old(self).memory@,
                at as int,
                old(self).val1@.subrange(0, i as int),
            ));
        }
    }

    /// Jumps to the address stored at the pointer.
    pub(crate) fn run_jump(&mut self) -> (r: (Option<u32>, bool))
        requires
            Self::valid_size(),
        ensures
            jump_effect(old(self)@) == (Effect {
                state: final(self)@,
                stop: r.0,
                redirected: r.1,
            }),
            final(self).same_hooks(old(self)),
    {
        if !self.pointer_reaches(4) {
            return (Some(1), false);
        }
        self.cur = self.target();
        (None, true)
    }

    /// Branches on the operand after the opcode.
    pub(crate) fn run_branch(&mut self, t: Type, on_zero: bool) -> (r: (Option<u32>, bool))
        requires
            Self::valid_size(),
        ensures
            branch_effect(old(self)@, t, on_zero) == (Effect {
                state: final(self)@,
                stop: r.0,
                redirected: r.1,
            }),
            final(self).same_hooks(old(self)),
    {
        if !self.pointer_reaches(4) {
            return (Some(1), false);
        }
        let operand = match self.get_value(t.to_tag()) {
            Some(bytes) => bytes,
            None => {
                return (Some(1), false);
            },
        };
        let mut zero = true;
        let mut i: usize = 0;
        while i < operand.len()
            invariant
                i <= operand.len(),
                zero == all_zero(operand@.subrange(0, i as int)),
            decreases operand.len() - i,
        {
            if operand[i] != 0 {
                zero = false;
            }
            assert(operand@.subrange(0, i + 1).drop_last() =~= operand@.subrange(0, i as int));
            assert(operand@.subrange(0, i + 1).last() == operand@[i as int]);
            i += 1;
        }
        assert(operand@.subrange(0, operand.len() as int) =~= operand@);
        if zero == on_zero {
            self.cur = self.target();
            (None, true)
        } else {
            (None, false)
        }
    }

    /// Sets the cursor to the address after the pointer.
    pub(crate) fn run_jump_past_pointer(&mut self) -> (r: (Option<u32>, bool))
        ensures
            jump_past_pointer_effect(old(self)@) == (Effect {
                state: final(self)@,
                stop: r.0,
                redirected: r.1,
            }),
            final(self).same_hooks(old(self)),
    {
        match self.ptr.checked_add(1) {
            Some(v) => {
                self.cur = v;
                (None, true)
            },
            None => (Some(1), false),
        }
    }

    /// Moves the pointer up by the width of type `t`.
    pub(crate) fn run_advance(&mut self, t: Type) -> (stop: Option<u32>)
        ensures
            advance_effect(old(self)@, t) == (Effect {
                state: final(self)@,
                stop,
                redirected: false,
            }),
            final(self).same_hooks(old(self)),
    {
        let size = t.size();
        match self.ptr.checked_add(size as u32) {
            Some(v) => {
                self.ptr = v;
                None
            },
            None => Some(1),
        }
    }

    /// Moves the pointer down by the width of type `t`.
    pub(crate) fn run_retreat(&mut self, t: Type) -> (stop: Option<u32>)
        ensures
            retreat_effect(old(self)@, t) == (Effect {
                state: final(self)@,
                stop,
                redirected: false,
            }),
            final(self).same_hooks(old(self)),
    {
        let size = t.size();
        match self.ptr.checked_sub(size as u32) {
            Some(v) => {
                self.ptr = v;
                None
            },
            None => Some(1),
        }
    }

    /// Shifts the first register, read as a big-endian word, by the first
    /// byte of the second register modulo 32.
    pub(crate) fn run_shift(&mut self, left: bool)
        ensures
            final(self)@ == (State {
                val1: be32_bytes(
                    if left {
                        be32(old(self).val1@) << (old(self).val2@[0] % 32)
                    } else {
                        be32(old(self).val1@) >> (old(self).val2@[0] % 32)
                    },
                ),
                ..old(self)@
            }),
            final(self).same_hooks(old(self)),
    {
        let amount: u8 = self.val2[0] % 32;
        let word = u32_from_be(&self.val1);
        if left {
            self.val1 = u32_to_be(word << amount);
        } else {
            self.val1 = u32_to_be(word >> amount);
        }
    }

    /// Rotates the first register, read as a big-endian word, by the first
    /// byte of the second register.
    pub(crate) fn run_rotate(&mut self, left: bool)
        ensures
            final(self)@ == (State {
                val1: be32_bytes(
                    if left {
                        rotated_left(be32(old(self).val1@), old(self).val2@[0])
                    } else {
                        rotated_right(be32(old(self).val1@), old(self).val2@[0])
                    },
                ),
                ..old(self)@
            }),
            final(self).same_hooks(old(self)),
    {
        let word = u32_from_be(&self.val1);
        if left {
            self.val1 = u32_to_be(rotate_left(word, self.val2[0]));
        } else {
            self.val1 = u32_to_be(rotate_right(word, self.val2[0]));
        }
    }

    /// Combines the leading `size` bytes of the first register with those
    /// of the second by and.
    pub(crate) fn run_and(&mut self, size: usize)
        requires
            size <= 4,
        ensures
            final(self)@ == (State {
                val1: anded(old(self).val1@, old(self).val2@, size as int),
                ..old(self)@
            }),
            final(self).same_hooks(old(self)),
    {
        let mut i: usize = 0;
        while i < size
            invariant
                i <= size <= 4,
                self@ == (State { val1: self.val1@, ..old(self)@ }),
                self.same_hooks(old(self)),
                self.val1@ == anded(old(self).val1@, old(self).val2@, i as int),
            decreases size - i,
        {
            self.val1[i] = self.val1[i] & self.val2[i];
            i += 1;
            assert(self.val1@ =~= anded(old(self).val1@, old(self).val2@, i as int));
        }
        assert(self.val1@ =~= anded(old(self).val1@, old(self).val2@, size as int));
    }

    /// Combines the leading `size` bytes of the first register with those
    /// of the second by or.
    pub(crate) fn run_or(&mut self, size: usize)
        requires
            size <= 4,
        ensures
            final(self)@ == (State {
                val1: ored(old(self).val1@, old(self).val2@, size as int),
                ..old(self)@
            }),
            final(self).same_hooks(old(self)),
    {
        let mut i: usize = 0;
        while i < size
            invariant
                i <= size <= 4,
                self@ == (State { val1: self.val1@, ..old(self)@ }),
                self.same_hooks(old(self)),
                self.val1@ == ored(old(self).val1@, old(self).val2@, i as int),
            decreases size - i,
        {
            self.val1[i] = self.val1[i] | self.val2[i];
            i += 1;
            assert(self.val1@ =~= ored(old(self).val1@, old(self).val2@, i as int));
        }
        assert(self.val1@ =~= ored(old(self).val1@, old(self).val2@, size as int));
    }

    /// Combines the leading `size` bytes of the first register with those
    /// of the second by exclusive-or.
    pub(crate) fn run_xor(&mut self, size: usize)
        requires
            size <= 4,
        ensures
            final(self)@ == (State {
                val1: xored(old(self).val1@, old(self).val2@, size as int),
                ..old(self)@
            }),
            final(self).same_hooks(old(self)),
    {
        let mut i: usize = 0;
        while i < size
            invariant
                i <= size <= 4,
                self@ == (State { val1: self.val1@, ..old(self)@ }),
                self.same_hooks(old(self)),
                self.val1@ == xored(old(self).val1@, old(self).val2@, i as int),
            decreases size - i,
        {
            self.val1[i] = self.val1[i] ^ self.val2[i];
            i += 1;
            assert(self.val1@ =~= xored(old(self).val1@, old(self).val2@, i as int));
        }
        assert(self.val1@ =~= xored(old(self).val1@, old(self).val2@, size as int));
    }

    /// Flips every bit of the leading `size` bytes of the first register.
    pub(crate) fn run_not(&mut self, size: usize)
        requires
            size <= 4,
        ensures
            final(self)@ == (State {
                val1: negated(old(self).val1@, size as int),
                ..old(self)@
            }),
            final(self).same_hooks(old(self)),
    {
        let mut i: usize = 0;
        while i < size
            invariant
                i <= size <= 4,
                self@ == (State { val1: self.val1@, ..old(self)@ }),
                self.same_hooks(old(self)),
                self.val1@ == negated(old(self).val1@, i as int),
            decreases size - i,
        {
            self.val1[i] = !self.val1[i];
            i += 1;
            assert(self.val1@ =~= negated(old(self).val1@, i as int));
        }
        assert(self.val1@ =~= negated(old(self).val1@, size as int));
    }
}

/// A truth value as a byte.
pub(crate) fn bit(b: bool) -> (byte: u8)
    ensures
        byte == flag(b),
{
    if b {
        1
    } else {
        0
    }
}

/// Whether the type is an integer type with a sign.
pub(crate) fn signed(t: Type) -> (b: bool)
    ensures
        b == t.is_signed(),
{
    match t {
        Type::I8 | Type::I16 | Type::I32 => true,
        _ => false,
    }
}

/// Whether the type is an integer type.
pub(crate) fn integer(t: Type) -> (b: bool)
    ensures
        b == t.is_integer(),
{
    match t {
        Type::Float | Type::Boolean => false,
        _ => true,
    }
}

/// What converting the register bytes `val1` from `from` to `to` asks of
/// the floating-point unit.
pub(crate) fn conversion_request(val1: &[u8; 4], from: Type, to: Type) -> (ask: Option<
    (FloatOp, u32, u32),
>)
    ensures
        ask == conversion_asks(val1@, from, to),
{
    proof {
        tag_selects_type(from);
    }
    if matches!(to, Type::Float) && integer(from) {
        let n = Value::from_bytes(val1.as_slice(), from.to_tag()).to_number();
        if signed(from) {
            Some((FloatOp::FromSigned, to_unsigned32(n as i32), 0))
        } else {
            Some((FloatOp::FromUnsigned, n as u32, 0))
        }
    } else if matches!(from, Type::Float) && integer(to) {
        if signed(to) {
            Some((FloatOp::ToSigned, u32_from_le(val1), 0))
        } else {
            Some((FloatOp::ToUnsigned, u32_from_le(val1), 0))
        }
    } else {
        None
    }
}

impl<const SIZE: usize> Emulator<SIZE> {
    /// The two registers read as values of type `t`.
    pub(crate) fn operands(&self, t: Type) -> (pair: (Value, Value))
        ensures
            pair.0 == Value::decode(self.val1@, t),
            pair.1 == Value::decode(self.val2@, t),
            pair.0.kind() == t,
            pair.1.kind() == t,
    {
        proof {
            tag_selects_type(t);
        }
        (
            Value::from_bytes(self.val1.as_slice(), t.to_tag()),
            Value::from_bytes(self.val2.as_slice(), t.to_tag()),
        )
    }

    /// What the instruction `op` asks of the floating-point unit first, if
    /// anything: the operation and its two operand words.
    pub fn request(&self, op: Operation) -> (ask: Option<(FloatOp, u32, u32)>)
        ensures
            ask == asks_for(self@, op),
    {
        match op {
            Operation::Add(Type::Float) => Some(
                (FloatOp::Add, u32_from_le(&self.val1), u32_from_le(&self.val2)),
            ),
            Operation::Subtract(Type::Float) => Some(
                (FloatOp::Subtract, u32_from_le(&self.val1), u32_from_le(&self.val2)),
            ),
            Operation::Multiply(Type::Float) => Some(
                (FloatOp::Multiply, u32_from_le(&self.val1), u32_from_le(&self.val2)),
            ),
            Operation::Divide(Type::Float) => {
                let b = u32_from_le(&self.val2);
                if zero(b) {
                    None
                } else {
                    Some((FloatOp::Quotient, u32_from_le(&self.val1), b))
                }
            },
            Operation::Cast(from, to) => conversion_request(&self.val1, from, to),
            _ => None,
        }
    }

    /// What the instruction `op` asks of the floating-point unit second: a
    /// float division asks for the remainder after the quotient.
    pub fn request_next(&self, op: Operation) -> (ask: Option<(FloatOp, u32, u32)>)
        ensures
            ask == asks_next_for(self@, op),
    {
        match self.request(op) {
            Some((FloatOp::Quotient, a, b)) => Some((FloatOp::Remainder, a, b)),
            _ => None,
        }
    }

    /// Adds the second register to the first.
    pub(crate) fn run_add(&mut self, t: Type, word: u32)
        ensures
            add_effect(old(self)@, t, word) == (Effect {
                state: final(self)@,
                stop: None,
                redirected: false,
            }),
            final(self).same_hooks(old(self)),
    {
        if matches!(t, Type::Float) {
            self.val1 = u32_to_le(word);
            self.val2[0] = 0;
        } else {
            let (lhs, rhs) = self.operands(t);
            let (value, over) = lhs.plus(rhs);
            self.val2[0] = bit(over);
            let (bytes, size) = value.into_bytes();
            put(&mut self.val1, &bytes, size);
        }
    }

    /// Subtracts the second register from the first.
    pub(crate) fn run_subtract(&mut self, t: Type, word: u32)
        ensures
            subtract_effect(old(self)@, t, word) == (Effect {
                state: final(self)@,
                stop: None,
                redirected: false,
            }),
            final(self).same_hooks(old(self)),
    {
        if matches!(t, Type::Float) {
            self.val1 = u32_to_le(word);
            self.val2[0] = 0;
        } else {
            let (lhs, rhs) = self.operands(t);
            let (value, over) = lhs.minus(rhs);
            self.val2[0] = bit(over);
            let (bytes, size) = value.into_bytes();
            put(&mut self.val1, &bytes, size);
        }
    }

    /// Multiplies the registers.
    pub(crate) fn run_multiply(&mut self, t: Type, word: u32)
        ensures
            multiply_effect(old(self)@, t, word) == (Effect {
                state: final(self)@,
                stop: None,
                redirected: false,
            }),
            final(self).same_hooks(old(self)),
    {
        if matches!(t, Type::Float) {
            self.val1 = u32_to_le(word);
            self.val2 = u32_to_le(0);
        } else {
            let (lhs, rhs) = self.operands(t);
            let (low_half, high_half) = lhs.times(rhs);
            let (bytes, size) = low_half.into_bytes();
            put(&mut self.val1, &bytes, size);
            let (bytes, size) = high_half.into_bytes();
            put(&mut self.val2, &bytes, size);
        }
    }

    /// Divides the first register by the second.
    pub(crate) fn run_divide(&mut self, t: Type, words: (u32, u32)) -> (stop: Option<u32>)
        ensures
            divide_effect(old(self)@, t, words) == (Effect {
                state: final(self)@,
                stop,
                redirected: false,
            }),
            final(self).same_hooks(old(self)),
    {
        if matches!(t, Type::Float) {
            if zero(u32_from_le(&self.val2)) {
                return Some(4);
            }
            self.val1 = u32_to_le(words.0);
            self.val2 = u32_to_le(words.1);
            None
        } else {
            let (lhs, rhs) = self.operands(t);
            match lhs.divided_by(rhs) {
                None => Some(4),
                Some((quotient, remainder)) => {
                    let (bytes, size) = quotient.into_bytes();
                    put(&mut self.val1, &bytes, size);
                    let (bytes, size) = remainder.into_bytes();
                    put(&mut self.val2, &bytes, size);
                    None
                },
            }
        }
    }

    /// Compares the registers.
    pub(crate) fn run_compare(&mut self, t: Type)
        ensures
            compare_effect(old(self)@, t) == (Effect {
                state: final(self)@,
                stop: None,
                redirected: false,
            }),
            final(self).same_hooks(old(self)),
    {
        let (lhs, rhs) = self.operands(t);
        self.val1[0] = lhs.compared_to(rhs);
    }

    /// Converts the first register to a boolean.
    fn cast_to_boolean(&mut self, from: Type)
        requires
            from != Type::Boolean,
        ensures
            final(self)@ == (State {
                val1: converted(old(self).val1@, from, Type::Boolean, 0),
                ..old(self)@
            }),
            final(self).same_hooks(old(self)),
    {
        proof {
            tag_selects_type(from);
        }
        let truth = if matches!(from, Type::Float) {
            positive(u32_from_le(&self.val1))
        } else {
            let n = Value::from_bytes(self.val1.as_slice(), from.to_tag()).to_number();
            if signed(from) {
                n < 0
            } else {
                n > 0
            }
        };
        self.val1[0] = bit(truth);
    }

    /// Converts the first register to a float word, given the unit's answer.
    fn cast_to_float(&mut self, from: Type, word: u32)
        requires
            from != Type::Float,
        ensures
            final(self)@ == (State {
                val1: converted(old(self).val1@, from, Type::Float, word),
                ..old(self)@
            }),
            final(self).same_hooks(old(self)),
    {
        if matches!(from, Type::Boolean) {
            if self.val1[0] == 0 {
                self.val1 = u32_to_le(0);
            } else {
                self.val1 = u32_to_le(ONE);
            }
        } else {
            self.val1 = u32_to_le(word);
        }
    }

    /// Converts the first register from a float word to an integer, given
    /// the unit's answer.
    fn cast_from_float(&mut self, to: Type, word: u32)
        requires
            to.is_integer(),
        ensures
            final(self)@ == (State {
                val1: converted(old(self).val1@, Type::Float, to, word),
                ..old(self)@
            }),
            final(self).same_hooks(old(self)),
    {
        let n: i64 = if signed(to) {
            to_signed32(word) as i64
        } else {
            word as i64
        };
        let (least, most): (i64, i64) = match to {
            Type::U8 => (0, 0xFF),
            Type::I8 => (-0x80, 0x7F),
            Type::U16 => (0, 0xFFFF),
            Type::I16 => (-0x8000, 0x7FFF),
            Type::U32 => (0, 0xFFFF_FFFF),
            _ => (-0x8000_0000, 0x7FFF_FFFF),
        };
        let kept: i64 = if n < least {
            least
        } else if n > most {
            most
        } else {
            n
        };
        assert(kept == held(to, word));
        proof {
            wrap_keeps_what_fits(to, kept as int);
        }
        let (bytes, size) = make(to, kept as i128).into_bytes();
        put(&mut self.val1, &bytes, size);
    }

    /// Converts the first register from an integer or a boolean to an integer.
    fn cast_between_integers(&mut self, from: Type, to: Type)
        requires
            from != Type::Float,
            from != to,
            to.is_integer(),
        ensures
            final(self)@ == (State {
                val1: converted(old(self).val1@, from, to, 0),
                ..old(self)@
            }),
            final(self).same_hooks(old(self)),
    {
        proof {
            tag_selects_type(from);
        }
        let n = Value::from_bytes(self.val1.as_slice(), from.to_tag()).to_number();
        let (bytes, size) = make(to, n as i128).into_bytes();
        put(&mut self.val1, &bytes, size);
    }

    /// Converts the first register from type `from` to type `to`.
    pub(crate) fn run_cast(&mut self, from: Type, to: Type, word: u32)
        ensures
            final(self)@ == (State {
                val1: converted(old(self).val1@, from, to, word),
                ..old(self)@
            }),
            final(self).same_hooks(old(self)),
    {
        if from == to {
        } else if matches!(to, Type::Boolean) {
            self.cast_to_boolean(from);
        } else if matches!(to, Type::Float) {
            self.cast_to_float(from, word);
        } else if matches!(from, Type::Float) {
            self.cast_from_float(to, word);
        } else {
            self.cast_between_integers(from, to);
        }
    }
}

impl<const SIZE: usize> Emulator<SIZE> {
    /// What the instruction `op` hands to the write hook, if it calls the
    /// hook at all: where the bytes to write to start, how many they are,
    /// the word, and the bytes to write.
    pub fn handing(&self, op: Operation) -> (r: Option<(usize, usize, u32, Vec<u8>)>)
        requires
            Self::valid_size(),
        ensures
            match hands_out_for(self@, op) {
                Some(handed) => r matches Some(call) && call.0 == handed.at && call.1
                    == handed.length && call.2 == handed.word && call.3@ == handed.value,
                None => r is None,
            },
            r matches Some(call) ==> call.0 + call.1 <= SIZE,
    {
        if self.callback.is_none() {
            return None;
        }
        match op {
            Operation::Write(t) => {
                let size = t.size();
                if !self.pointer_reaches(size) {
                    return None;
                }
                let mut value: Vec<u8> = Vec::new();
                value.push(self.val1[0]);
                value.push(self.val1[1]);
                value.push(self.val1[2]);
                value.push(self.val1[3]);
                assert(value@ =~= self.val1@);
                Some((self.ptr as usize, size, self.ptr, value))
            },
            Operation::Copy => {
                match self.copy_bounds() {
                    Some((from, length)) => {
                        let n = length as usize;
                        let value = self.snapshot(from, n);
                        Some((self.ptr as usize, n, length, value))
                    },
                    None => None,
                }
            },
            _ => None,
        }
    }

    /// Where the bytes of the copy at the cursor start and how many they
    /// are, where the copy fits.
    pub(crate) fn copy_bounds(&self) -> (r: Option<(usize, u32)>)
        requires
            Self::valid_size(),
        ensures
            r is Some == copy_fits(self@),
            r matches Some(bounds) ==> bounds.0 == self.cur + 5 && bounds.1 == copy_length(self@),
    {
        let cur = self.cur as usize;
        if cur >= SIZE || SIZE - cur < 5 {
            return None;
        }
        let field: [u8; 4] = [
            self.memory[cur + 1],
            self.memory[cur + 2],
            self.memory[cur + 3],
            self.memory[cur + 4],
        ];
        assert(field@ =~= self.memory@.subrange(self.cur + 1, self.cur + 5));
        let length: u32 = u32_from_be(&field);
        let n = length as usize;
        let from = cur + 5;
        let to = self.ptr as usize;
        if n > SIZE - from || to > SIZE || n > SIZE - to || from + n >= 0xFFFF_FFFF {
            return None;
        }
        Some((from, length))
    }

    /// Writes the leading bytes of the first register at the pointer, or
    /// has the write hook do it.
    pub(crate) fn run_write(&mut self, t: Type) -> (stop: Option<u32>)
        requires
            Self::valid_size(),
        ensures
            write_effect(old(self)@, t, final(self).memory@, stop) == (Effect {
                state: final(self)@,
                stop,
                redirected: false,
            }),
            hands_out_for(old(self)@, Operation::Write(t)) matches Some(handed) ==> same_outside(
                old(self).memory@,
                final(self).memory@,
                handed.at,
                handed.length,
            ),
            final(self).same_hooks(old(self)),
    {
        let size = t.size();
        if !self.pointer_reaches(size) {
            return Some(1);
        }
        match self.callback {
            Some(hook) => match self.handing(Operation::Write(t)) {
                Some((at, length, word, value)) => call_write_hook(
                    &hook,
                    &mut self.memory,
                    at,
                    length,
                    word,
                    value.as_slice(),
                ),
                None => None,
            },
            None => {
                self.store(size);
                None
            },
        }
    }

    /// The bytes of memory from `from` on, `n` of them.
    pub(crate) fn snapshot(&self, from: usize, n: usize) -> (bytes: Vec<u8>)
        requires
            from + n <= SIZE,
        ensures
            bytes@ == self.memory@.subrange(from as int, from + n),
    {
        let mut bytes: Vec<u8> = Vec::new();
        let mut i: usize = 0;
        while i < n
            invariant
                i <= n,
                from + n <= SIZE,
                bytes@ == self.memory@.subrange(from as int, from + i),
            decreases n - i,
        {
            bytes.push(self.memory[from + i]);
            i += 1;
            assert(bytes@ =~= self.memory@.subrange(from as int, from + i));
        }
        bytes
    }

    /// Copies `n` bytes of memory one by one, lowest address first.
    pub(crate) fn copy_bytes(&mut self, to: usize, from: usize, n: usize)
        requires
            to + n <= SIZE,
            from + n <= SIZE,
        ensures
            final(self).memory@ == copied(old(self).memory@, to as int, from as int, n as nat),
            final(self)@ == (State { memory: final(self).memory@, ..old(self)@ }),
            final(self).same_hooks(old(self)),
    {
        let mut i: usize = 0;
        while i < n
            invariant
                i <= n,
                to + n <= SIZE,
                from + n <= SIZE,
                self.memory@ == copied(old(self).memory@, to as int, from as int, i as nat),
                self@ == (State { memory: self.memory@, ..old(self)@ }),
                self.same_hooks(old(self)),
            decreases n - i,
        {
            self.memory[to + i] = self.memory[from + i];
            i += 1;
        }
    }

    /// Copies the bytes after the opcode's length field to the pointer, or
    /// has the write hook do it.
    pub(crate) fn run_copy(&mut self) -> (stop: Option<u32>)
        requires
            Self::valid_size(),
        ensures
            copy_effect(old(self)@, final(self).memory@, stop) == (Effect {
                state: final(self)@,
                stop,
                redirected: false,
            }),
            hands_out_for(old(self)@, Operation::Copy) matches Some(handed) ==> same_outside(
                old(self).memory@,
                final(self).memory@,
                handed.at,
                handed.length,
            ),
            final(self).same_hooks(old(self)),
    {
        let (from, length) = match self.copy_bounds() {
            Some(bounds) => bounds,
            None => {
                return Some(1);
            },
        };
        let n = length as usize;
        match self.callback {
            Some(hook) => match self.handing(Operation::Copy) {
                Some((at, count, word, value)) => {
                    let code = call_write_hook(
                        &hook,
                        &mut self.memory,
                        at,
                        count,
                        word,
                        value.as_slice(),
                    );
                    if code.is_some() {
                        self.cur = from as u32;
                        return code;
                    }
                },
                None => {},
            },
            None => {
                self.copy_bytes(self.ptr as usize, from, n);
            },
        }
        self.cur = (from + n) as u32;
        None
    }

    /// Calls the debugger, if one is attached, on the engine as it stands,
    /// and gives the interrupt that the debugger asks for. Without a
    /// debugger nothing changes and nothing is raised. What a debugger
    /// leaves and asks for is its own affair: [`Emulator::finish`] says what
    /// the step makes of either answer.
    pub(crate) fn run_debug(&mut self) -> (stop: Option<u32>)
        ensures
            debug_effect(old(self)@, final(self)@, stop) == (Effect {
                state: final(self)@,
                stop,
                redirected: false,
            }),
            old(self).debugger is None ==> final(self).same_hooks(old(self)),
    {
        match self.debugger {
            Some(hook) => call_debugger(&hook, self),
            None => None,
        }
    }
}

} // verus!
