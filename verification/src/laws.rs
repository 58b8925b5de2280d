//! What holds of the machine whatever the program: laws over the
//! mathematics in [`crate::machine`], each proved.

use vstd::prelude::*;
use crate::arith::comparison;
use crate::bytes::{be16_bytes, le32, written_then_read};
use crate::float::{is_nan, is_zero, ONE};
use crate::machine::{
    asks, asks_for, can_pop, conversion_asks, converted, copy_effect, copy_fits, depth,
    divide_effect, effect, hands_out, hands_out_for, interrupted, is_full, popped, pushed, slot,
    step, top, traps, well_formed, write_effect, Operation, Outside, State,
};
use crate::parser::{all_digits, spelled};
use crate::structures::{decimal, digit_char, Type};
use crate::value::{Value, UNORDERED};

verus! {

/// What was pushed is what the next pop gives, and the pop leaves the
/// stack as deep as it was before the push.
pub proof fn pop_gives_what_was_pushed(memory: Seq<u8>, value: Seq<u8>)
    requires
        memory.len() > 0x20000,
        value.len() == 4,
        !is_full(memory),
    ensures
        depth(pushed(memory, value)) == depth(memory) + 1,
        can_pop(pushed(memory, value)),
        top(pushed(memory, value)) == value,
        depth(popped(pushed(memory, value))) == depth(memory),
{
    let d = depth(memory);
    let after = pushed(memory, value);
    written_then_read(0, (d + 1) as u16);
    written_then_read(0, d as u16);
    assert(after[0x10002] == be16_bytes((d + 1) as u16)[0]);
    assert(after[0x10003] == be16_bytes((d + 1) as u16)[1]);
    assert(depth(after) == d + 1);
    assert(top(after) =~= value);
    let back = popped(after);
    assert(back[0x10002] == be16_bytes(d as u16)[0]);
    assert(back[0x10003] == be16_bytes(d as u16)[1]);
}

/// A push leaves every slot below the new one as it was, so the values
/// pushed before come out after it, last in first out.
pub proof fn push_keeps_what_lies_below(memory: Seq<u8>, value: Seq<u8>, below: int)
    requires
        memory.len() > 0x20000,
        value.len() == 4,
        !is_full(memory),
        0 <= below < depth(memory),
    ensures
        pushed(memory, value).subrange(slot(below), slot(below) + 4) == memory.subrange(
            slot(below),
            slot(below) + 4,
        ),
        popped(pushed(memory, value)).subrange(slot(below), slot(below) + 4) == memory.subrange(
            slot(below),
            slot(below) + 4,
        ),
{
    assert(pushed(memory, value).subrange(slot(below), slot(below) + 4) =~= memory.subrange(
        slot(below),
        slot(below) + 4,
    ));
    assert(popped(pushed(memory, value)).subrange(slot(below), slot(below) + 4)
        =~= memory.subrange(slot(below), slot(below) + 4));
}

/// The stack is full from 16383 values on: every slot that fits in the
/// stack region can be filled, and the push that would run past the end of
/// the region is the one refused.
pub proof fn stack_is_full_at_capacity(memory: Seq<u8>)
    ensures
        is_full(memory) <==> depth(memory) >= 0x3FFF,
{
}

/// A pop instruction on an empty stack raises interrupt 3 and changes nothing.
pub proof fn pop_from_empty_stack_interrupts(s: State, o: Outside)
    requires
        well_formed(s),
        s.cur < s.memory.len(),
        Operation::of(s.memory[s.cur as int]) == Operation::Pop,
        depth(s.memory) == 0,
    ensures
        step(s, o) == (s, Some(3u32)),
{
}

/// A push instruction on a full stack raises interrupt 2 and changes nothing.
pub proof fn push_on_full_stack_interrupts(s: State, o: Outside)
    requires
        well_formed(s),
        s.cur < s.memory.len(),
        Operation::of(s.memory[s.cur as int]) == Operation::Push,
        depth(s.memory) >= 0x3FFF,
    ensures
        step(s, o) == (s, Some(2u32)),
{
}

/// Converting an unsigned byte to a signed 32-bit integer and back gives
/// the byte again.
pub proof fn byte_survives_widening(val1: Seq<u8>, first: u32, second: u32)
    requires
        val1.len() == 4,
    ensures
        converted(converted(val1, Type::U8, Type::I32, first), Type::I32, Type::U8, second)[0]
            == val1[0],
{
    let wide = converted(val1, Type::U8, Type::I32, first);
    let v = val1[0];
    assert(Value::decode(val1, Type::U8).number() == v);
    assert(wide[0] == 0 && wide[1] == 0 && wide[2] == 0 && wide[3] == v);
    assert(Value::decode(wide, Type::I32).number() == v);
}

/// Converting a boolean to a float gives the word of zero for a zero byte
/// and the word of one for any other byte.
pub proof fn boolean_becomes_zero_or_one(val1: Seq<u8>, word: u32)
    requires
        val1.len() == 4,
    ensures
        converted(val1, Type::Boolean, Type::Float, word).len() == 4,
        le32(converted(val1, Type::Boolean, Type::Float, word)) == if val1[0] == 0 {
            0u32
        } else {
            ONE
        },
{
    written_then_read(0, 0);
    written_then_read(ONE, 0);
}

/// Dividing by zero raises interrupt 4 and changes nothing, for every
/// type: integers and booleans by a zero number, floats by a zero word of
/// either sign.
pub proof fn division_by_zero_interrupts(s: State, t: Type, words: (u32, u32))
    requires
        well_formed(s),
        if t == Type::Float {
            is_zero(le32(s.val2))
        } else {
            Value::decode(s.val2, t).number() == 0
        },
    ensures
        divide_effect(s, t, words) == interrupted(s, 4),
{
}

/// Comparing with a float that is not a number leaves `0x7F`.
pub proof fn comparing_with_not_a_number(a: u32, b: u32)
    requires
        is_nan(a) || is_nan(b),
    ensures
        comparison(Value::Float(a), Value::Float(b)) == UNORDERED,
        UNORDERED == 0x7F,
{
}

/// Comparing an integer or a boolean with an equal one leaves `0x00`.
pub proof fn comparing_equals(a: Value)
    requires
        a.kind() != Type::Float,
    ensures
        comparison(a, a) == 0x00,
{
}

/// A copy that does not fit in the memory raises interrupt 1 and changes
/// nothing: no byte is copied, and no hook is handed anything.
pub proof fn copy_that_does_not_fit_changes_nothing(s: State, o: Outside)
    requires
        well_formed(s),
        s.cur < s.memory.len(),
        Operation::of(s.memory[s.cur as int]) == Operation::Copy,
        !copy_fits(s),
    ensures
        step(s, o) == (s, Some(1u32)),
        hands_out(s) is None,
{
}

/// A cursor outside the memory raises interrupt 1 and changes nothing.
pub proof fn fetch_outside_memory_interrupts(s: State, o: Outside)
    requires
        s.cur >= s.memory.len(),
    ensures
        step(s, o) == (s, Some(1u32)),
{
}

/// Where an instruction asks nothing of the floating-point unit and calls
/// no hook, its effect is the same whatever the host might have handed
/// back.
pub proof fn effect_needs_only_what_it_asks(s: State, op: Operation, o1: Outside, o2: Outside)
    requires
        asks_for(s, op) is None,
        hands_out_for(s, op) is None,
        !(op == Operation::Debug && s.debugger),
    ensures
        effect(s, op, o1) == effect(s, op, o2),
{
    match op {
        Operation::Copy => {
            assert(copy_effect(s, o1.memory, o1.code) == copy_effect(s, o2.memory, o2.code));
        },
        Operation::Write(t) => {
            assert(write_effect(s, t, o1.memory, o1.code) == write_effect(
                s,
                t,
                o2.memory,
                o2.code,
            ));
        },
        Operation::Add(t) => {
            assert(t != Type::Float);
        },
        Operation::Subtract(t) => {
            assert(t != Type::Float);
        },
        Operation::Multiply(t) => {
            assert(t != Type::Float);
        },
        Operation::Divide(t) => {
            assert(t == Type::Float ==> is_zero(le32(s.val2)));
        },
        Operation::Cast(from, to) => {
            assert(conversion_asks(s.val1, from, to) is None);
            assert(converted(s.val1, from, to, o1.words.0) == converted(
                s.val1,
                from,
                to,
                o2.words.0,
            ));
        },
        _ => {},
    }
}

/// Where the instruction at the cursor asks nothing of the floating-point
/// unit and calls no hook, the step is the same whatever the host might
/// have handed back.
pub proof fn step_needs_only_what_it_asks(s: State, o1: Outside, o2: Outside)
    requires
        asks(s) is None,
        hands_out(s) is None,
        !traps(s),
    ensures
        step(s, o1) == step(s, o2),
{
    if s.cur < s.memory.len() {
        effect_needs_only_what_it_asks(s, Operation::of(s.memory[s.cur as int]), o1, o2);
    }
}

/// No instruction but the debugger trap changes the status register.
pub proof fn effect_leaves_status_alone(s: State, op: Operation, o: Outside)
    requires
        !(op == Operation::Debug && s.debugger),
    ensures
        effect(s, op, o).state.stat == s.stat,
{
    match op {
        Operation::Push => {},
        Operation::Pop => {},
        Operation::Copy => {},
        Operation::Read(t) => {},
        Operation::Write(t) => {},
        Operation::Jump => {},
        Operation::BranchIfZero(t) => {},
        Operation::BranchIfNonzero(t) => {},
        Operation::JumpPastPointer => {},
        Operation::Advance(t) => {},
        Operation::Retreat(t) => {},
        Operation::Add(t) => {},
        Operation::Subtract(t) => {},
        Operation::Multiply(t) => {},
        Operation::Divide(t) => {},
        Operation::Compare(t) => {},
        _ => {},
    }
}

/// The engine itself never changes the status register.
pub proof fn status_is_left_alone(s: State, o: Outside)
    requires
        !traps(s),
    ensures
        step(s, o).0.stat == s.stat,
{
    if s.cur < s.memory.len() {
        effect_leaves_status_alone(s, Operation::of(s.memory[s.cur as int]), o);
    }
}

/// Where no hook is called, an instruction that raises an interrupt
/// leaves the machine as it was, and one that does not leaves the cursor
/// where it can move on.
pub proof fn interrupting_effect_changes_nothing(s: State, op: Operation, o: Outside)
    requires
        well_formed(s),
        s.cur < s.memory.len(),
        hands_out_for(s, op) is None,
        !(op == Operation::Debug && s.debugger),
    ensures
        effect(s, op, o).stop is Some ==> effect(s, op, o).state == s,
        effect(s, op, o).stop is None && !effect(s, op, o).redirected ==> effect(
            s,
            op,
            o,
        ).state.cur < u32::MAX,
{
    match op {
        Operation::Push => {},
        Operation::Pop => {},
        Operation::Copy => {},
        Operation::Read(t) => {},
        Operation::Write(t) => {},
        Operation::Jump => {},
        Operation::BranchIfZero(t) => {},
        Operation::BranchIfNonzero(t) => {},
        Operation::JumpPastPointer => {},
        Operation::Advance(t) => {},
        Operation::Retreat(t) => {},
        Operation::Add(t) => {},
        Operation::Subtract(t) => {},
        Operation::Multiply(t) => {},
        Operation::Divide(t) => {},
        Operation::Compare(t) => {},
        _ => {},
    }
}

/// Where no hook is called, a step that raises any interrupt but 0
/// leaves the machine as it was.
pub proof fn failed_step_changes_nothing(s: State, o: Outside)
    requires
        well_formed(s),
        hands_out(s) is None,
        !traps(s),
        step(s, o).1 is Some,
        step(s, o).1 != Some(0u32),
    ensures
        step(s, o).0 == s,
{
    if s.cur < s.memory.len() {
        interrupting_effect_changes_nothing(s, Operation::of(s.memory[s.cur as int]), o);
    }
}

/// A number written in decimal is a run of digits that spells the number:
/// what the listing writes, the literal reader reads back.
pub proof fn decimal_spells_its_number(n: nat)
    ensures
        decimal(n).len() > 0,
        all_digits(decimal(n)),
        spelled(decimal(n)) == n,
    decreases n,
{
    if n < 10 {
        assert(decimal(n).drop_last() =~= Seq::<char>::empty());
        assert(spelled(decimal(n).drop_last()) == 0);
    } else {
        decimal_spells_its_number(n / 10);
        assert(decimal(n).drop_last() =~= decimal(n / 10));
        assert(decimal(n).last() == digit_char(n % 10));
    }
}

} // verus!
