//! The machine as mathematics: its state, its instruction set, and what one
//! step does to the state.
//!
//! But for the opcode decoder everything here is ghost code. The engine in
//! [`crate::emulator`] is proved to follow it.

use vstd::prelude::*;
use crate::arith::{comparison, difference, division, product, sum};
use crate::bytes::{be16, be16_bytes, be32, be32_bytes, le32, le32_bytes};
use crate::constants::{fields, group_of, index_of, type_of};
use crate::float::{is_positive, is_zero, FloatOp, ONE};
use crate::structures::Type;
use crate::value::{carrying, low, signed32, span, unsigned32, wrapped, Value};

verus! {

/// Where the stack's big-endian 16-bit depth counter lies, two bytes into
/// the stack region.
pub const STACK_COUNTER: usize = 0x10002;

/// Where the first four-byte stack slot lies.
pub const STACK_SLOTS: usize = 0x10004;

/// The first address after the stack region.
pub const STACK_END: usize = 0x20000;

/// The registers and the memory of a machine, and which hooks it holds.
pub struct State {
    /// The first value register: four raw bytes.
    pub val1: Seq<u8>,
    /// The second value register: four raw bytes.
    pub val2: Seq<u8>,
    /// The pointer register.
    pub ptr: u32,
    /// The cursor: the address of the next opcode.
    pub cur: u32,
    /// The status register, which the machine never changes.
    pub stat: u32,
    /// The memory, one byte per address.
    pub memory: Seq<u8>,
    /// Whether a debugger hook is attached.
    pub debugger: bool,
    /// Whether a memory-write hook is attached.
    pub callback: bool,
}

/// What the host's functions handed back in the course of one step. The
/// machine reads only the parts that the instruction asked for.
pub struct Outside {
    /// The floating-point unit's answers, in the order asked.
    pub words: (u32, u32),
    /// The interrupt that a hook asked for, if any.
    pub code: Option<u32>,
    /// The memory as the write hook left it.
    pub memory: Seq<u8>,
    /// The machine as the debugger left it.
    pub state: State,
}

/// What an instruction did: the state it left, the interrupt it raised, and
/// whether it set the cursor itself.
pub struct Effect {
    pub state: State,
    pub stop: Option<u32>,
    pub redirected: bool,
}

/// One instruction, as the opcode's group and index select it; the type
/// field chooses the operand type where there is one.
#[derive(Clone, Copy, Debug, PartialEq, Eq, Structural)]
pub enum Operation {
    Noop,
    Push,
    Pop,
    Halt,
    Copy,
    Move,
    Swap,
    Read(Type),
    Write(Type),
    Jump,
    BranchIfZero(Type),
    BranchIfNonzero(Type),
    JumpPastPointer,
    Advance(Type),
    Retreat(Type),
    SetPointer,
    GetPointer,
    Add(Type),
    Subtract(Type),
    Multiply(Type),
    Divide(Type),
    Compare(Type),
    And(Type),
    Or(Type),
    Not(Type),
    ShiftLeft,
    ShiftRight,
    RotateLeft,
    RotateRight,
    /// Exclusive-or over the first 1, 2 or 4 bytes.
    Xor(u8),
    Debug,
    /// Conversion of the first register from one type to another.
    Cast(Type, Type),
}

impl Operation {
    /// The instruction that an opcode names. Group and index are looked at
    /// first; the type field is a second selector only for the copy/move
    /// pair and for the last group, whose diagonal (index equal to type)
    /// holds the shifts, rotations, exclusive-ors and the debugger trap,
    /// and whose other entries are conversions from the type that the index
    /// names to the type that the type field names.
    pub open spec fn of(instr: u8) -> Operation {
        let index = index_of(instr);
        let tag = type_of(instr);
        let t = Type::of_tag(tag);
        match group_of(instr) {
            0 => match index {
                0 => Operation::Noop,
                1 => Operation::Push,
                2 => Operation::Pop,
                3 => Operation::Halt,
                4 => if tag == 0 {
                    Operation::Copy
                } else {
                    Operation::Move
                },
                5 => Operation::Swap,
                6 => Operation::Read(t),
                _ => Operation::Write(t),
            },
            1 => match index {
                0 => Operation::Jump,
                1 => Operation::BranchIfZero(t),
                2 => Operation::BranchIfNonzero(t),
                3 => Operation::JumpPastPointer,
                4 => Operation::Advance(t),
                5 => Operation::Retreat(t),
                6 => Operation::SetPointer,
                _ => Operation::GetPointer,
            },
            2 => match index {
                0 => Operation::Add(t),
                1 => Operation::Subtract(t),
                2 => Operation::Multiply(t),
                3 => Operation::Divide(t),
                4 => Operation::Compare(t),
                5 => Operation::And(t),
                6 => Operation::Or(t),
                _ => Operation::Not(t),
            },
            _ => if index == tag {
                match index {
                    0 => Operation::ShiftLeft,
                    1 => Operation::ShiftRight,
                    2 => Operation::RotateLeft,
                    3 => Operation::RotateRight,
                    4 => Operation::Xor(1),
                    5 => Operation::Xor(2),
                    6 => Operation::Xor(4),
                    _ => Operation::Debug,
                }
            } else {
                Operation::Cast(Type::of_tag(index), t)
            },
        }
    }
}

impl Operation {
    /// The group of the instruction set that this instruction belongs to:
    /// 0 for stack and memory traffic, 1 for control flow and the pointer,
    /// 2 for arithmetic by type, 3 for the rest.
    pub open spec fn family(self) -> u8 {
        match self {
            Operation::Noop
            | Operation::Push
            | Operation::Pop
            | Operation::Halt
            | Operation::Copy
            | Operation::Move
            | Operation::Swap
            | Operation::Read(_)
            | Operation::Write(_) => 0,
            Operation::Jump
            | Operation::BranchIfZero(_)
            | Operation::BranchIfNonzero(_)
            | Operation::JumpPastPointer
            | Operation::Advance(_)
            | Operation::Retreat(_)
            | Operation::SetPointer
            | Operation::GetPointer => 1,
            Operation::Add(_)
            | Operation::Subtract(_)
            | Operation::Multiply(_)
            | Operation::Divide(_)
            | Operation::Compare(_)
            | Operation::And(_)
            | Operation::Or(_)
            | Operation::Not(_) => 2,
            _ => 3,
        }
    }

    /// The group of the instruction set that this instruction belongs to.
    pub fn group(self) -> (g: u8)
        ensures
            g == self.family(),
    {
        match self {
            Operation::Noop
            | Operation::Push
            | Operation::Pop
            | Operation::Halt
            | Operation::Copy
            | Operation::Move
            | Operation::Swap
            | Operation::Read(_)
            | Operation::Write(_) => 0,
            Operation::Jump
            | Operation::BranchIfZero(_)
            | Operation::BranchIfNonzero(_)
            | Operation::JumpPastPointer
            | Operation::Advance(_)
            | Operation::Retreat(_)
            | Operation::SetPointer
            | Operation::GetPointer => 1,
            Operation::Add(_)
            | Operation::Subtract(_)
            | Operation::Multiply(_)
            | Operation::Divide(_)
            | Operation::Compare(_)
            | Operation::And(_)
            | Operation::Or(_)
            | Operation::Not(_) => 2,
            _ => 3,
        }
    }

    /// Decodes an opcode: group and index first, the type field after.
    pub fn decode(instr: u8) -> (op: Operation)
        ensures
            op == Operation::of(instr),
    {
        let (group, index, tag) = fields(instr);
        let t = Type::from_tag(tag);
        match group {
            0 => match index {
                0 => Operation::Noop,
                1 => Operation::Push,
                2 => Operation::Pop,
                3 => Operation::Halt,
                4 => if tag == 0 {
                    Operation::Copy
                } else {
                    Operation::Move
                },
                5 => Operation::Swap,
                6 => Operation::Read(t),
                _ => Operation::Write(t),
            },
            1 => match index {
                0 => Operation::Jump,
                1 => Operation::BranchIfZero(t),
                2 => Operation::BranchIfNonzero(t),
                3 => Operation::JumpPastPointer,
                4 => Operation::Advance(t),
                5 => Operation::Retreat(t),
                6 => Operation::SetPointer,
                _ => Operation::GetPointer,
            },
            2 => match index {
                0 => Operation::Add(t),
                1 => Operation::Subtract(t),
                2 => Operation::Multiply(t),
                3 => Operation::Divide(t),
                4 => Operation::Compare(t),
                5 => Operation::And(t),
                6 => Operation::Or(t),
                _ => Operation::Not(t),
            },
            _ => if index == tag {
                match index {
                    0 => Operation::ShiftLeft,
                    1 => Operation::ShiftRight,
                    2 => Operation::RotateLeft,
                    3 => Operation::RotateRight,
                    4 => Operation::Xor(1),
                    5 => Operation::Xor(2),
                    6 => Operation::Xor(4),
                    _ => Operation::Debug,
                }
            } else {
                Operation::Cast(Type::from_tag(index), t)
            },
        }
    }
}

// ---------------------------------------------------------------------
// Bytes in registers and memory
// ---------------------------------------------------------------------

/// `target` with its leading bytes replaced by `bytes`.
pub open spec fn overwrite(target: Seq<u8>, bytes: Seq<u8>) -> Seq<u8> {
    Seq::new(
        target.len(),
        |i: int|
            if i < bytes.len() {
                bytes[i]
            } else {
                target[i]
            },
    )
}

/// `memory` with `bytes` stored from address `at` on.
pub open spec fn stored(memory: Seq<u8>, at: int, bytes: Seq<u8>) -> Seq<u8> {
    Seq::new(
        memory.len(),
        |i: int|
            if at <= i < at + bytes.len() {
                bytes[i - at]
            } else {
                memory[i]
            },
    )
}

/// `memory` after `n` bytes were copied one by one, lowest address first,
/// from `from` on to `to` on. Where the two ranges overlap, a byte written
/// earlier may be read again later.
pub open spec fn copied(memory: Seq<u8>, to: int, from: int, n: nat) -> Seq<u8>
    decreases n,
{
    if n == 0 {
        memory
    } else {
        let before = copied(memory, to, from, (n - 1) as nat);
        before.update(to + n - 1, before[from + n - 1])
    }
}

/// Whether two memories of one size hold the same bytes everywhere but in
/// the `n` addresses from `at` on.
pub open spec fn same_outside(a: Seq<u8>, b: Seq<u8>, at: int, n: int) -> bool {
    &&& a.len() == b.len()
    &&& forall|i: int| 0 <= i < a.len() && !(at <= i < at + n) ==> a[i] == b[i]
}

/// Whether every byte is zero.
pub open spec fn all_zero(bytes: Seq<u8>) -> bool {
    forall|i: int| 0 <= i < bytes.len() ==> bytes[i] == 0
}

// ---------------------------------------------------------------------
// The stack
// ---------------------------------------------------------------------

/// The stack's depth counter: how many slots are populated.
pub open spec fn depth(memory: Seq<u8>) -> int {
    be16(memory[STACK_COUNTER as int], memory[STACK_COUNTER + 1]) as int
}

/// The address of slot number `d`.
pub open spec fn slot(d: int) -> int {
    STACK_SLOTS + 4 * d
}

/// Whether the stack takes no further value: the next slot would run past
/// the end of the stack region.
pub open spec fn is_full(memory: Seq<u8>) -> bool {
    slot(depth(memory)) + 4 > STACK_END
}

/// Whether the stack has a value to give: the counter is not zero and the
/// slot it names lies inside the stack region.
pub open spec fn can_pop(memory: Seq<u8>) -> bool {
    1 <= depth(memory) && slot(depth(memory) - 1) + 4 <= STACK_END
}

/// The memory after `value` was pushed: the value in the next free slot
/// and the counter one higher.
pub open spec fn pushed(memory: Seq<u8>, value: Seq<u8>) -> Seq<u8> {
    stored(
        stored(memory, STACK_COUNTER as int, be16_bytes((depth(memory) + 1) as u16)),
        slot(depth(memory)),
        value,
    )
}

/// The four bytes on top of the stack.
pub open spec fn top(memory: Seq<u8>) -> Seq<u8> {
    memory.subrange(slot(depth(memory) - 1), slot(depth(memory) - 1) + 4)
}

/// The memory after the top was popped: the counter one lower, the slot's
/// bytes left as they are.
pub open spec fn popped(memory: Seq<u8>) -> Seq<u8> {
    stored(memory, STACK_COUNTER as int, be16_bytes((depth(memory) - 1) as u16))
}

// ---------------------------------------------------------------------
// Words
// ---------------------------------------------------------------------

/// `x` rotated left by `n` bits; the amount counts modulo 32.
pub open spec fn rotated_left(x: u32, n: u8) -> u32 {
    let k = n % 32;
    if k == 0 {
        x
    } else {
        (x << k) | (x >> ((32 - k) as u8))
    }
}

/// `x` rotated right by `n` bits; the amount counts modulo 32.
pub open spec fn rotated_right(x: u32, n: u8) -> u32 {
    let k = n % 32;
    if k == 0 {
        x
    } else {
        (x >> k) | (x << ((32 - k) as u8))
    }
}

/// The first `n` bytes of `a` combined with those of `b` by and; the rest of `a`.
pub open spec fn anded(a: Seq<u8>, b: Seq<u8>, n: int) -> Seq<u8> {
    Seq::new(a.len(), |i: int| if i < n { a[i] & b[i] } else { a[i] })
}

/// The first `n` bytes of `a` combined with those of `b` by or; the rest of `a`.
pub open spec fn ored(a: Seq<u8>, b: Seq<u8>, n: int) -> Seq<u8> {
    Seq::new(a.len(), |i: int| if i < n { a[i] | b[i] } else { a[i] })
}

/// The first `n` bytes of `a` combined with those of `b` by exclusive-or; the rest of `a`.
pub open spec fn xored(a: Seq<u8>, b: Seq<u8>, n: int) -> Seq<u8> {
    Seq::new(a.len(), |i: int| if i < n { a[i] ^ b[i] } else { a[i] })
}

/// The first `n` bytes of `a` with every bit flipped; the rest of `a`.
pub open spec fn negated(a: Seq<u8>, n: int) -> Seq<u8> {
    Seq::new(a.len(), |i: int| if i < n { !a[i] } else { a[i] })
}

/// A truth value as a byte: 1 or 0.
pub open spec fn flag(b: bool) -> u8 {
    if b {
        1
    } else {
        0
    }
}

// ---------------------------------------------------------------------
// Conversions
// ---------------------------------------------------------------------

/// The whole number that a floating-point unit gave for a float word, held
/// to the range of the integer type `to`: `word` is the unit's answer to
/// `ToSigned` where `to` is signed, to `ToUnsigned` where it is not.
pub open spec fn held(to: Type, word: u32) -> int {
    let n: int = if to.is_signed() {
        signed32(word) as int
    } else {
        word as int
    };
    if n < low(to) {
        low(to)
    } else if n >= low(to) + span(to) {
        low(to) + span(to) - 1
    } else {
        n
    }
}

/// The first register after its value of type `from` was converted to type
/// `to`. `word` is the floating-point unit's answer where one was asked.
///
/// * A conversion from a type to itself changes nothing.
/// * Between integer types (and from a boolean's byte to an integer), the
///   number is wrapped to the new type and written in its width.
/// * To a boolean, an unsigned integer is true where it is above zero, a
///   signed integer where it is below zero, a float where it is a number
///   above zero; the byte written is 1 or 0.
/// * From a boolean to a float, a zero byte gives the word of zero and any
///   other byte the word of one.
/// * From an integer to a float the unit's answer is written; from a float
///   to an integer the unit's answer, held to the integer type's range.
pub open spec fn converted(val1: Seq<u8>, from: Type, to: Type, word: u32) -> Seq<u8> {
    let v = Value::decode(val1, from);
    if from == to {
        val1
    } else if to == Type::Boolean {
        if from == Type::Float {
            val1.update(0, flag(is_positive(le32(val1))))
        } else if from.is_signed() {
            val1.update(0, flag(v.number() < 0))
        } else {
            val1.update(0, flag(v.number() > 0))
        }
    } else if to == Type::Float {
        if from == Type::Boolean {
            if val1[0] == 0 {
                le32_bytes(0)
            } else {
                le32_bytes(ONE)
            }
        } else {
            le32_bytes(word)
        }
    } else if from == Type::Float {
        overwrite(val1, carrying(to, held(to, word)).encode())
    } else {
        overwrite(val1, wrapped(to, v.number()).encode())
    }
}

/// What a conversion asks of the floating-point unit, if anything.
pub open spec fn conversion_asks(val1: Seq<u8>, from: Type, to: Type) -> Option<
    (FloatOp, u32, u32),
> {
    let v = Value::decode(val1, from);
    if to == Type::Float && from.is_integer() {
        if from.is_signed() {
            Some((FloatOp::FromSigned, unsigned32(v.number() as i32), 0u32))
        } else {
            Some((FloatOp::FromUnsigned, v.number() as u32, 0u32))
        }
    } else if from == Type::Float && to.is_integer() {
        if to.is_signed() {
            Some((FloatOp::ToSigned, le32(val1), 0u32))
        } else {
            Some((FloatOp::ToUnsigned, le32(val1), 0u32))
        }
    } else {
        None
    }
}

// ---------------------------------------------------------------------
// Instructions
// ---------------------------------------------------------------------

/// The instruction went through and left `state`; the cursor moves on.
pub open spec fn done(state: State) -> Effect {
    Effect { state, stop: None, redirected: false }
}

/// The instruction raised the interrupt `code` and left `state`.
pub open spec fn interrupted(state: State, code: u32) -> Effect {
    Effect { state, stop: Some(code), redirected: false }
}

/// The instruction set the cursor to `target` itself.
pub open spec fn jumped(s: State, target: u32) -> Effect {
    Effect { state: State { cur: target, ..s }, stop: None, redirected: true }
}

/// Whether the `n` bytes from address `at` on lie inside the memory.
pub open spec fn readable(s: State, at: int, n: int) -> bool {
    at + n <= s.memory.len()
}

/// Pushing the first register: interrupt 2 where the stack is full.
pub open spec fn push_effect(s: State) -> Effect {
    if is_full(s.memory) {
        interrupted(s, 2)
    } else {
        done(State { memory: pushed(s.memory, s.val1), ..s })
    }
}

/// Popping into the first register: interrupt 3 where the stack has
/// nothing to give.
pub open spec fn pop_effect(s: State) -> Effect {
    if !can_pop(s.memory) {
        interrupted(s, 3)
    } else {
        done(State { val1: top(s.memory), memory: popped(s.memory), ..s })
    }
}

/// The length that follows a copy opcode, big-endian.
pub open spec fn copy_length(s: State) -> int {
    be32(s.memory.subrange(s.cur + 1, s.cur + 5)) as int
}

/// Whether a copy can go ahead: the length field, the bytes to copy and the
/// place they go to all lie inside the memory, and the cursor can move
/// past them.
pub open spec fn copy_fits(s: State) -> bool {
    &&& readable(s, s.cur + 1, 4)
    &&& readable(s, s.cur + 5, copy_length(s))
    &&& readable(s, s.ptr as int, copy_length(s))
    &&& s.cur + 6 + copy_length(s) <= u32::MAX
}

/// Copying the bytes that follow the length field to the pointer. With a
/// write hook the hook does the writing: `left` is the memory as it left
/// it and `code` the interrupt it asked for, and where it asked for one the
/// cursor stays right after the length field. A copy that does not fit
/// raises interrupt 1 and changes nothing.
pub open spec fn copy_effect(s: State, left: Seq<u8>, code: Option<u32>) -> Effect {
    let n = copy_length(s);
    if !copy_fits(s) {
        interrupted(s, 1)
    } else if !s.callback {
        done(
            State {
                memory: copied(s.memory, s.ptr as int, s.cur + 5, n as nat),
                cur: (s.cur + 5 + n) as u32,
                ..s
            },
        )
    } else if code is Some {
        Effect {
            state: State { memory: left, cur: (s.cur + 5) as u32, ..s },
            stop: code,
            redirected: false,
        }
    } else {
        done(State { memory: left, cur: (s.cur + 5 + n) as u32, ..s })
    }
}

/// Reading a value of type `t` at the pointer into the leading bytes of the
/// first register.
pub open spec fn read_effect(s: State, t: Type) -> Effect {
    if !readable(s, s.ptr as int, t.width() as int) {
        interrupted(s, 1)
    } else {
        done(
            State {
                val1: overwrite(
                    s.val1,
                    s.memory.subrange(s.ptr as int, s.ptr + t.width()),
                ),
                ..s
            },
        )
    }
}

/// Writing the leading bytes of the first register, as many as type `t` is
/// wide, at the pointer. With a write hook the hook does the writing:
/// `left` is the memory as it left it and `code` the interrupt it asked for.
pub open spec fn write_effect(s: State, t: Type, left: Seq<u8>, code: Option<u32>) -> Effect {
    if !readable(s, s.ptr as int, t.width() as int) {
        interrupted(s, 1)
    } else if !s.callback {
        done(
            State {
                memory: stored(s.memory, s.ptr as int, s.val1.subrange(0, t.width() as int)),
                ..s
            },
        )
    } else {
        Effect { state: State { memory: left, ..s }, stop: code, redirected: false }
    }
}

/// The address that a jump reads at the pointer, big-endian.
pub open spec fn jump_target(s: State) -> u32 {
    be32(s.memory.subrange(s.ptr as int, s.ptr + 4))
}

/// Jumping to the address stored at the pointer.
pub open spec fn jump_effect(s: State) -> Effect {
    if !readable(s, s.ptr as int, 4) {
        interrupted(s, 1)
    } else {
        jumped(s, jump_target(s))
    }
}

/// The operand of a branch: the bytes right after the opcode, as many as
/// type `t` is wide.
pub open spec fn branch_operand(s: State, t: Type) -> Seq<u8> {
    s.memory.subrange(s.cur + 1, s.cur + 1 + t.width())
}

/// Branching on the operand after the opcode: where `on_zero` is set the
/// jump is taken if all the operand's bytes are zero, else if any is not.
/// Both the jump's address and the operand must lie inside the memory,
/// whether or not the jump is taken.
pub open spec fn branch_effect(s: State, t: Type, on_zero: bool) -> Effect {
    if !readable(s, s.ptr as int, 4) || !readable(s, s.cur + 1, t.width() as int) {
        interrupted(s, 1)
    } else if all_zero(branch_operand(s, t)) == on_zero {
        jumped(s, jump_target(s))
    } else {
        done(s)
    }
}

/// Setting the cursor to the address after the pointer.
pub open spec fn jump_past_pointer_effect(s: State) -> Effect {
    if s.ptr == u32::MAX {
        interrupted(s, 1)
    } else {
        jumped(s, (s.ptr + 1) as u32)
    }
}

/// Moving the pointer up by the width of type `t`.
pub open spec fn advance_effect(s: State, t: Type) -> Effect {
    if s.ptr + t.width() > u32::MAX {
        interrupted(s, 1)
    } else {
        done(State { ptr: (s.ptr + t.width()) as u32, ..s })
    }
}

/// Moving the pointer down by the width of type `t`.
pub open spec fn retreat_effect(s: State, t: Type) -> Effect {
    if s.ptr < t.width() {
        interrupted(s, 1)
    } else {
        done(State { ptr: (s.ptr - t.width()) as u32, ..s })
    }
}

/// Adding the second register to the first, as values of type `t`: the sum
/// in the leading bytes of the first register, the overflow flag in the
/// first byte of the second. A float sum is the unit's answer `word`, with
/// no flag.
pub open spec fn add_effect(s: State, t: Type, word: u32) -> Effect {
    if t == Type::Float {
        done(State { val1: le32_bytes(word), val2: s.val2.update(0, 0), ..s })
    } else {
        let r = sum(Value::decode(s.val1, t), Value::decode(s.val2, t));
        done(
            State {
                val1: overwrite(s.val1, r.0.encode()),
                val2: s.val2.update(0, flag(r.1)),
                ..s
            },
        )
    }
}

/// Subtracting the second register from the first, as values of type `t`.
pub open spec fn subtract_effect(s: State, t: Type, word: u32) -> Effect {
    if t == Type::Float {
        done(State { val1: le32_bytes(word), val2: s.val2.update(0, 0), ..s })
    } else {
        let r = difference(Value::decode(s.val1, t), Value::decode(s.val2, t));
        done(
            State {
                val1: overwrite(s.val1, r.0.encode()),
                val2: s.val2.update(0, flag(r.1)),
                ..s
            },
        )
    }
}

/// Multiplying the registers as values of type `t`: the product's low half
/// in the first register, its high half in the second. A float product is
/// the unit's answer `word`, and the second register becomes the word of
/// zero.
pub open spec fn multiply_effect(s: State, t: Type, word: u32) -> Effect {
    if t == Type::Float {
        done(State { val1: le32_bytes(word), val2: le32_bytes(0), ..s })
    } else {
        let r = product(Value::decode(s.val1, t), Value::decode(s.val2, t));
        done(
            State {
                val1: overwrite(s.val1, r.0.encode()),
                val2: overwrite(s.val2, r.1.encode()),
                ..s
            },
        )
    }
}

/// Dividing the first register by the second as values of type `t`: the
/// quotient in the first register, the remainder in the second. A zero
/// divisor, a float zero of either sign included, raises interrupt 4 and
/// changes nothing. For floats the unit's two answers are written.
pub open spec fn divide_effect(s: State, t: Type, words: (u32, u32)) -> Effect {
    if t == Type::Float {
        if is_zero(le32(s.val2)) {
            interrupted(s, 4)
        } else {
            done(State { val1: le32_bytes(words.0), val2: le32_bytes(words.1), ..s })
        }
    } else {
        match division(Value::decode(s.val1, t), Value::decode(s.val2, t)) {
            None => interrupted(s, 4),
            Some(r) => done(
                State {
                    val1: overwrite(s.val1, r.0.encode()),
                    val2: overwrite(s.val2, r.1.encode()),
                    ..s
                },
            ),
        }
    }
}

/// Comparing the registers as values of type `t`: the order's byte in the
/// first byte of the first register.
pub open spec fn compare_effect(s: State, t: Type) -> Effect {
    done(
        State {
            val1: s.val1.update(
                0,
                comparison(Value::decode(s.val1, t), Value::decode(s.val2, t)),
            ),
            ..s
        },
    )
}

/// Calling the debugger, if one is attached: the machine is then as the
/// debugger left it, which is `left`, and stops where the debugger asked
/// for an interrupt, which is `code`.
pub open spec fn debug_effect(s: State, left: State, code: Option<u32>) -> Effect {
    if !s.debugger {
        done(s)
    } else {
        Effect { state: left, stop: code, redirected: false }
    }
}

/// What the instruction `op` does to the state `s`.
pub open spec fn effect(s: State, op: Operation, o: Outside) -> Effect {
    match op {
        Operation::Noop => done(s),
        Operation::Push => push_effect(s),
        Operation::Pop => pop_effect(s),
        Operation::Halt => interrupted(s, be32(s.val1)),
        Operation::Copy => copy_effect(s, o.memory, o.code),
        Operation::Move => done(State { val2: s.val1, ..s }),
        Operation::Swap => done(State { val1: s.val2, val2: s.val1, ..s }),
        Operation::Read(t) => read_effect(s, t),
        Operation::Write(t) => write_effect(s, t, o.memory, o.code),
        Operation::Jump => jump_effect(s),
        Operation::BranchIfZero(t) => branch_effect(s, t, true),
        Operation::BranchIfNonzero(t) => branch_effect(s, t, false),
        Operation::JumpPastPointer => jump_past_pointer_effect(s),
        Operation::Advance(t) => advance_effect(s, t),
        Operation::Retreat(t) => retreat_effect(s, t),
        Operation::SetPointer => done(State { ptr: be32(s.val1), ..s }),
        Operation::GetPointer => done(State { val1: be32_bytes(s.ptr), ..s }),
        Operation::Add(t) => add_effect(s, t, o.words.0),
        Operation::Subtract(t) => subtract_effect(s, t, o.words.0),
        Operation::Multiply(t) => multiply_effect(s, t, o.words.0),
        Operation::Divide(t) => divide_effect(s, t, o.words),
        Operation::Compare(t) => compare_effect(s, t),
        Operation::And(t) => done(State { val1: anded(s.val1, s.val2, t.width() as int), ..s }),
        Operation::Or(t) => done(State { val1: ored(s.val1, s.val2, t.width() as int), ..s }),
        Operation::Not(t) => done(State { val1: negated(s.val1, t.width() as int), ..s }),
        Operation::ShiftLeft => done(
            State { val1: be32_bytes(be32(s.val1) << (s.val2[0] % 32)), ..s },
        ),
        Operation::ShiftRight => done(
            State { val1: be32_bytes(be32(s.val1) >> (s.val2[0] % 32)), ..s },
        ),
        Operation::RotateLeft => done(
            State { val1: be32_bytes(rotated_left(be32(s.val1), s.val2[0])), ..s },
        ),
        Operation::RotateRight => done(
            State { val1: be32_bytes(rotated_right(be32(s.val1), s.val2[0])), ..s },
        ),
        Operation::Xor(n) => done(State { val1: xored(s.val1, s.val2, n as int), ..s }),
        Operation::Debug => debug_effect(s, o.state, o.code),
        Operation::Cast(from, to) => done(
            State { val1: converted(s.val1, from, to, o.words.0), ..s },
        ),
    }
}

/// How a step ends once the instruction fetched at `fetched` has had the
/// effect `e` on a memory of `size` bytes. An interrupt that the instruction
/// raised stands. Else, an instruction fetched at the last address ends the
/// program with interrupt 0. Else the cursor moves on by one, unless the
/// instruction set it itself; a cursor that cannot move on raises
/// interrupt 1.
pub open spec fn concluded(fetched: u32, size: int, e: Effect) -> (State, Option<u32>) {
    if e.stop is Some {
        (e.state, e.stop)
    } else if fetched == size - 1 {
        (e.state, Some(0u32))
    } else if e.redirected {
        (e.state, None)
    } else if e.state.cur == u32::MAX {
        (e.state, Some(1u32))
    } else {
        (State { cur: (e.state.cur + 1) as u32, ..e.state }, None)
    }
}

/// One step of the machine: the state it leaves and the interrupt it
/// raises, if any. A cursor outside the memory raises interrupt 1.
pub open spec fn step(s: State, o: Outside) -> (State, Option<u32>) {
    if s.cur >= s.memory.len() {
        (s, Some(1u32))
    } else {
        concluded(s.cur, s.memory.len() as int, effect(s, Operation::of(s.memory[s.cur as int]), o))
    }
}

// ---------------------------------------------------------------------
// What a step asks of the host
// ---------------------------------------------------------------------

/// What the instruction `op` asks of the floating-point unit first, if
/// anything: the operation and its two operand words.
pub open spec fn asks_for(s: State, op: Operation) -> Option<(FloatOp, u32, u32)> {
    let a = le32(s.val1);
    let b = le32(s.val2);
    match op {
        Operation::Add(Type::Float) => Some((FloatOp::Add, a, b)),
        Operation::Subtract(Type::Float) => Some((FloatOp::Subtract, a, b)),
        Operation::Multiply(Type::Float) => Some((FloatOp::Multiply, a, b)),
        Operation::Divide(Type::Float) => if is_zero(b) {
            None
        } else {
            Some((FloatOp::Quotient, a, b))
        },
        Operation::Cast(from, to) => conversion_asks(s.val1, from, to),
        _ => None,
    }
}

/// What the instruction `op` asks of the floating-point unit second: a
/// float division asks for the remainder too.
pub open spec fn asks_next_for(s: State, op: Operation) -> Option<(FloatOp, u32, u32)> {
    match asks_for(s, op) {
        Some((FloatOp::Quotient, a, b)) => Some((FloatOp::Remainder, a, b)),
        _ => None,
    }
}

/// What the instruction at the cursor asks of the floating-point unit first.
pub open spec fn asks(s: State) -> Option<(FloatOp, u32, u32)> {
    if s.cur >= s.memory.len() {
        None
    } else {
        asks_for(s, Operation::of(s.memory[s.cur as int]))
    }
}

/// What the write hook is handed: the bytes of memory from `at` on,
/// `length` of them, to write to; a word; and the bytes to write.
pub struct Handed {
    pub at: int,
    pub length: int,
    pub word: u32,
    pub value: Seq<u8>,
}

/// What the instruction `op` hands to the write hook, if it calls the
/// hook at all. A write hands out the bytes at the pointer, as many as
/// its type is wide, with the pointer as the word and the whole first
/// register as the value. A copy hands out as many bytes at the pointer
/// as it copies, with that length as the word and the bytes to copy as
/// the value. Neither calls the hook where it raises interrupt 1.
pub open spec fn hands_out_for(s: State, op: Operation) -> Option<Handed> {
    if !s.callback {
        None
    } else {
        match op {
            Operation::Write(t) => if readable(s, s.ptr as int, t.width() as int) {
                Some(
                    Handed {
                        at: s.ptr as int,
                        length: t.width() as int,
                        word: s.ptr,
                        value: s.val1,
                    },
                )
            } else {
                None
            },
            Operation::Copy => if copy_fits(s) {
                Some(
                    Handed {
                        at: s.ptr as int,
                        length: copy_length(s),
                        word: copy_length(s) as u32,
                        value: s.memory.subrange(s.cur + 5, s.cur + 5 + copy_length(s)),
                    },
                )
            } else {
                None
            },
            _ => None,
        }
    }
}

/// What the instruction at the cursor hands to the write hook.
pub open spec fn hands_out(s: State) -> Option<Handed> {
    if s.cur >= s.memory.len() {
        None
    } else {
        hands_out_for(s, Operation::of(s.memory[s.cur as int]))
    }
}

/// Whether the instruction at the cursor calls the debugger.
pub open spec fn traps(s: State) -> bool {
    s.cur < s.memory.len() && s.debugger && Operation::of(s.memory[s.cur as int])
        == Operation::Debug
}

/// Whether the hooks may have handed back `o` when the instruction `op`
/// ran in state `s`: a write hook changes only the bytes it was handed, and
/// a debugger leaves a machine of the same size.
pub open spec fn hooks_allow(s: State, op: Operation, o: Outside) -> bool {
    &&& hands_out_for(s, op) matches Some(handed) ==> same_outside(
        s.memory,
        o.memory,
        handed.at,
        handed.length,
    )
    &&& op == Operation::Debug && s.debugger ==> {
        &&& o.state.val1.len() == 4
        &&& o.state.val2.len() == 4
        &&& o.state.memory.len() == s.memory.len()
    }
}

/// Whether the floating-point unit `unit` may have given the answers
/// `words` to what the instruction `op` asks of it in state `s`.
pub open spec fn unit_allows<F: Fn(FloatOp, u32, u32) -> u32>(
    s: State,
    op: Operation,
    unit: F,
    words: (u32, u32),
) -> bool {
    &&& asks_for(s, op) matches Some(q) ==> call_ensures(unit, q, words.0)
    &&& asks_next_for(s, op) matches Some(q) ==> call_ensures(unit, q, words.1)
}

/// Whether the host's functions may have handed back `o` in the step that
/// starts in state `s`, with `unit` as the floating-point unit.
pub open spec fn possible<F: Fn(FloatOp, u32, u32) -> u32>(s: State, unit: F, o: Outside) -> bool {
    s.cur < s.memory.len() ==> {
        &&& unit_allows(s, Operation::of(s.memory[s.cur as int]), unit, o.words)
        &&& hooks_allow(s, Operation::of(s.memory[s.cur as int]), o)
    }
}

/// Whether a state is one that a machine can be in: registers of four
/// bytes, and a memory that holds the stack region and whose addresses fit
/// in 32 bits.
pub open spec fn well_formed(s: State) -> bool {
    &&& s.val1.len() == 4
    &&& s.val2.len() == 4
    &&& STACK_END < s.memory.len() <= u32::MAX
}

} // verus!
