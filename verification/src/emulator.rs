//! The decode/execute engine: registers, a flat memory with a stack region
//! inside it, and the step that runs one instruction.

use vstd::prelude::*;
use crate::bytes::{u16_from_be, u16_to_be, u32_from_be, u32_to_be};
use crate::float::FloatOp;
use crate::laws::step_needs_only_what_it_asks;
use crate::machine::{
    asks, can_pop, concluded, effect, hands_out, hooks_allow, is_full, popped, possible, pushed,
    readable,
    same_outside, top, unit_allows, xored, Effect, Operation, Outside, State, STACK_COUNTER,
    STACK_END, STACK_SLOTS,
};
use crate::structures::Type;

verus! {

/// A host function that performs a memory write in the engine's place. It
/// is given the destination bytes, a 32-bit word (the destination address
/// for a write, the length for a copy) and the bytes to write, writes them
/// itself, and may ask for an interrupt.
///
/// The verifier has no function pointer types, so it is told nothing of
/// what is inside.
#[verifier::external_body]
pub struct WriteHook(pub fn(&mut [u8], u32, &[u8]) -> Option<u32>);

/// A host function that the debugger trap calls with the whole engine. It
/// may change anything and may ask for an interrupt.
///
/// The verifier has no function pointer types, so it is told nothing of
/// what is inside.
#[verifier::external_body]
pub struct DebugHook<const SIZE: usize>(pub fn(&mut Emulator<SIZE>) -> Option<u32>);

impl Clone for WriteHook {
    /// Copies the function pointer: the copy is the same hook.
    #[verifier::external_body]
    fn clone(&self) -> (hook: Self)
        ensures
            hook == *self,
    {
        WriteHook(self.0)
    }
}

impl Copy for WriteHook {

}

impl<const SIZE: usize> Clone for DebugHook<SIZE> {
    /// Copies the function pointer: the copy is the same hook.
    #[verifier::external_body]
    fn clone(&self) -> (hook: Self)
        ensures
            hook == *self,
    {
        DebugHook(self.0)
    }
}

impl<const SIZE: usize> Copy for DebugHook<SIZE> {

}

/// Calls the write hook on the `length` bytes of memory from `start` on,
/// with `word` and `value` as its other arguments, and gives what it
/// returns. The hook is handed those bytes alone, so whatever it does, the
/// rest of the memory is as before: that is all that is claimed.
#[verifier::external_body]
pub(crate) fn call_write_hook<const SIZE: usize>(
    hook: &WriteHook,
    memory: &mut [u8; SIZE],
    start: usize,
    length: usize,
    word: u32,
    value: &[u8],
) -> (code: Option<u32>)
    requires
        start + length <= SIZE,
    ensures
        same_outside(old(memory)@, final(memory)@, start as int, length as int),
{
    (hook.0)(&mut memory[start..start + length], word, value)
}

/// Calls the debugger on the whole engine and gives what it returns.
/// Nothing is claimed of the state it leaves.
#[verifier::external_body]
pub(crate) fn call_debugger<const SIZE: usize>(
    hook: &DebugHook<SIZE>,
    emulator: &mut Emulator<SIZE>,
) -> (code: Option<u32>)
{
    (hook.0)(emulator)
}

/// An instance of the machine. It holds its whole memory inline, so it is
/// best kept on the heap.
#[derive(Clone)]
pub struct Emulator<const SIZE: usize> {
    pub val1: [u8; 4],
    pub val2: [u8; 4],
    pub ptr: u32,
    pub cur: u32,
    pub stat: u32,
    pub memory: [u8; SIZE],
    pub debugger: Option<DebugHook<SIZE>>,
    pub callback: Option<WriteHook>,
}

/// What a step gives back: nothing to go on, or the code of an interrupt.
pub type StepResult = Option<u32>;

impl<const SIZE: usize> View for Emulator<SIZE> {
    type V = State;

    open spec fn view(&self) -> State {
        State {
            val1: self.val1@,
            val2: self.val2@,
            ptr: self.ptr,
            cur: self.cur,
            stat: self.stat,
            memory: self.memory@,
            debugger: self.debugger is Some,
            callback: self.callback is Some,
        }
    }
}

impl<const SIZE: usize> Emulator<SIZE> {
    /// Whether the memory size is one that a machine can have: large
    /// enough for the stack region, and no larger than 32-bit addresses
    /// reach.
    pub open spec fn valid_size() -> bool {
        STACK_END < SIZE <= u32::MAX
    }

    /// Whether both machines hold the same hooks.
    pub open spec fn same_hooks(&self, other: &Self) -> bool {
        self.debugger == other.debugger && self.callback == other.callback
    }

    /// Whether this machine is what `before` became by running the
    /// instruction `op`, with `words` as the floating-point unit's answers
    /// and `r` as the interrupt raised and whether the cursor was placed.
    ///
    /// The state is the instruction's effect on the old state, for the
    /// given words and for what the hooks did: the interrupt that a hook
    /// asked for is the one in `r`, the memory that the write hook left is
    /// this machine's memory, and the machine that the debugger left is
    /// this machine. The write hook changed no byte but those it was
    /// handed, and the hooks are the same unless the debugger ran.
    pub open spec fn ran(
        &self,
        before: &Self,
        op: Operation,
        words: (u32, u32),
        r: (Option<u32>, bool),
    ) -> bool {
        let o = Outside { words, code: r.0, memory: self.memory@, state: self@ };
        &&& effect(before@, op, o) == (Effect { state: self@, stop: r.0, redirected: r.1 })
        &&& hooks_allow(before@, op, o)
        &&& !(op == Operation::Debug && before.debugger is Some) ==> self.same_hooks(before)
    }

    /// Creates a machine with the given registers, all memory zero and no
    /// hook attached.
    pub fn new(val1: [u8; 4], val2: [u8; 4], ptr: u32, cur: u32, stat: u32) -> (emulator: Self)
        requires
            Self::valid_size(),
        ensures
            emulator.val1 == val1,
            emulator.val2 == val2,
            emulator.ptr == ptr,
            emulator.cur == cur,
            emulator.stat == stat,
            emulator.debugger is None,
            emulator.callback is None,
            forall|i: int| 0 <= i < SIZE ==> emulator.memory@[i] == 0,
    {
        Emulator {
            val1,
            val2,
            ptr,
            cur,
            stat,
            memory: [0; SIZE],
            debugger: None,
            callback: None,
        }
    }

    /// Creates a machine as [`Self::new`] does where the memory size is
    /// one that a machine can have, and none where it is not: a memory of
    /// `0x20000` bytes or fewer cannot hold the stack region, and one of
    /// more than `u32::MAX` bytes has addresses that 32 bits do not reach.
    pub fn try_new(val1: [u8; 4], val2: [u8; 4], ptr: u32, cur: u32, stat: u32) -> (r: Option<
        Self,
    >)
        ensures
            r is Some == Self::valid_size(),
            r matches Some(emulator) ==> {
                &&& emulator.val1 == val1
                &&& emulator.val2 == val2
                &&& emulator.ptr == ptr
                &&& emulator.cur == cur
                &&& emulator.stat == stat
                &&& emulator.debugger is None
                &&& emulator.callback is None
                &&& forall|i: int| 0 <= i < SIZE ==> emulator.memory@[i] == 0
            },
    {
        if SIZE > STACK_END && SIZE <= 0xFFFF_FFFF {
            Some(Self::new(val1, val2, ptr, cur, stat))
        } else {
            None
        }
    }

    /// Attaches a debugger, which the debugger trap will call.
    pub fn with_debugger(self, function: DebugHook<SIZE>) -> (emulator: Self)
        ensures
            emulator.debugger == Some(function),
            emulator.callback == self.callback,
            emulator@ == (State { debugger: true, ..self@ }),
    {
        let mut emulator = self;
        emulator.debugger = Some(function);
        emulator
    }

    /// Attaches a memory-write hook. With a hook attached the engine no
    /// longer writes memory for write and copy instructions: the hook does.
    pub fn with_callback(self, function: WriteHook) -> (emulator: Self)
        ensures
            emulator.callback == Some(function),
            emulator.debugger == self.debugger,
            emulator@ == (State { callback: true, ..self@ }),
    {
        let mut emulator = self;
        emulator.callback = Some(function);
        emulator
    }

    /// The width in bytes of the operand type that the low three bits of
    /// an opcode select.
    pub fn get_size(instr: u8) -> (size: usize)
        ensures
            size == Type::of_tag(instr).width(),
    {
        Type::from_tag(instr).size()
    }

    /// Whether an access that reaches `size` bytes past the pointer leaves
    /// the memory.
    pub fn check_size(&self, size: usize) -> (outside: bool)
        ensures
            outside == (self.ptr + size >= SIZE),
    {
        size >= SIZE || self.ptr as usize >= SIZE - size
    }

    /// The operand that follows the opcode at the cursor, as wide as the
    /// type that `instr` selects, or nothing where it does not lie inside
    /// the memory.
    pub fn get_value(&self, instr: u8) -> (operand: Option<Vec<u8>>)
        ensures
            operand is Some == readable(self@, self.cur + 1, Type::of_tag(instr).width() as int),
            operand matches Some(bytes) ==> bytes@ == self.memory@.subrange(
                self.cur + 1,
                self.cur + 1 + Type::of_tag(instr).width(),
            ),
    {
        let type_size = Self::get_size(instr);
        let cur = self.cur as usize;
        if type_size > SIZE || cur >= SIZE - type_size {
            return None;
        }
        let mut bytes: Vec<u8> = Vec::new();
        let mut i: usize = 0;
        while i < type_size
            invariant
                i <= type_size,
                cur + type_size < SIZE,
                bytes@ == self.memory@.subrange(cur + 1, cur + 1 + i),
            decreases type_size - i,
        {
            bytes.push(self.memory[cur + 1 + i]);
            i += 1;
            assert(bytes@ =~= self.memory@.subrange(cur + 1, cur + 1 + i));
        }
        Some(bytes)
    }

    /// Pushes a four-byte value on the stack. Where the stack is full it
    /// gives `false` and changes nothing.
    pub fn push(&mut self, value: [u8; 4]) -> (ok: bool)
        requires
            Self::valid_size(),
        ensures
            ok == !is_full(old(self).memory@),
            ok ==> final(self).memory@ == pushed(old(self).memory@, value@),
            !ok ==> final(self).memory@ == old(self).memory@,
            final(self)@ == (State { memory: final(self).memory@, ..old(self)@ }),
            final(self).same_hooks(old(self)),
    {
        let stack_length: u16 = u16_from_be(
            self.memory[STACK_COUNTER],
            self.memory[STACK_COUNTER + 1],
        );
        let start: usize = STACK_SLOTS + (stack_length as usize) * 4;
        let end: usize = start + 4;
        if end > STACK_END {
            return false;
        }
        let counter = u16_to_be(stack_length + 1);
        self.memory[STACK_COUNTER] = counter[0];
        self.memory[STACK_COUNTER + 1] = counter[1];
        self.memory[start] = value[0];
        self.memory[start + 1] = value[1];
        self.memory[start + 2] = value[2];
        self.memory[start + 3] = value[3];
        assert(self.memory@ =~= pushed(old(self).memory@, value@));
        true
    }

    /// Pops a four-byte value from the stack, or gives nothing where the
    /// stack has none. The value's bytes stay in memory; only the counter
    /// goes down.
    pub fn pop(&mut self) -> (value: Option<[u8; 4]>)
        requires
            Self::valid_size(),
        ensures
            value is Some == can_pop(old(self).memory@),
            value matches Some(bytes) ==> bytes@ == top(old(self).memory@)
                && final(self).memory@ == popped(old(self).memory@),
            value is None ==> final(self).memory@ == old(self).memory@,
            final(self)@ == (State { memory: final(self).memory@, ..old(self)@ }),
            final(self).same_hooks(old(self)),
    {
        let stack_length: u16 = u16_from_be(
            self.memory[STACK_COUNTER],
            self.memory[STACK_COUNTER + 1],
        );
        if stack_length == 0 {
            return None;
        }
        let below: u16 = stack_length - 1;
        let start: usize = STACK_SLOTS + (below as usize) * 4;
        if start + 4 > STACK_END {
            return None;
        }
        let counter = u16_to_be(below);
        self.memory[STACK_COUNTER] = counter[0];
        self.memory[STACK_COUNTER + 1] = counter[1];
        let bytes: [u8; 4] = [
            self.memory[start],
            self.memory[start + 1],
            self.memory[start + 2],
            self.memory[start + 3],
        ];
        assert(self.memory@ =~= popped(old(self).memory@));
        assert(bytes@ =~= top(old(self).memory@));
        Some(bytes)
    }

    /// Runs an instruction of the first group: stack, copy, move, swap,
    /// read and write.
    fn execute_data(&mut self, op: Operation, words: (u32, u32)) -> (r: (Option<u32>, bool))
        requires
            Self::valid_size(),
            op.family() == 0,
        ensures
            final(self).ran(old(self), op, words, r),
    {
        match op {
            Operation::Push => {
                let value = self.val1;
                if self.push(value) {
                    (None, false)
                } else {
                    (Some(2), false)
                }
            },
            Operation::Pop => match self.pop() {
                Some(v) => {
                    self.val1 = v;
                    (None, false)
                },
                None => (Some(3), false),
            },
            Operation::Halt => (Some(u32_from_be(&self.val1)), false),
            Operation::Copy => (self.run_copy(), false),
            Operation::Move => {
                self.val2 = self.val1;
                (None, false)
            },
            Operation::Swap => {
                let first = self.val1;
                self.val1 = self.val2;
                self.val2 = first;
                (None, false)
            },
            Operation::Read(t) => (self.run_read(t), false),
            Operation::Write(t) => (self.run_write(t), false),
            _ => (None, false),
        }
    }

    /// Runs an instruction of the second group: jumps, branches and the
    /// pointer.
    fn execute_control(&mut self, op: Operation, words: (u32, u32)) -> (r: (Option<u32>, bool))
        requires
            Self::valid_size(),
            op.family() == 1,
        ensures
            final(self).ran(old(self), op, words, r),
    {
        match op {
            Operation::Jump => self.run_jump(),
            Operation::BranchIfZero(t) => self.run_branch(t, true),
            Operation::BranchIfNonzero(t) => self.run_branch(t, false),
            Operation::JumpPastPointer => self.run_jump_past_pointer(),
            Operation::Advance(t) => (self.run_advance(t), false),
            Operation::Retreat(t) => (self.run_retreat(t), false),
            Operation::SetPointer => {
                self.ptr = u32_from_be(&self.val1);
                (None, false)
            },
            _ => {
                self.val1 = u32_to_be(self.ptr);
                (None, false)
            },
        }
    }

    /// Runs an instruction of the third group: arithmetic, comparison and
    /// the bitwise operations by type.
    fn execute_arithmetic(&mut self, op: Operation, words: (u32, u32)) -> (r: (
        Option<u32>,
        bool,
    ))
        requires
            Self::valid_size(),
            op.family() == 2,
        ensures
            final(self).ran(old(self), op, words, r),
    {
        match op {
            Operation::Add(t) => {
                self.run_add(t, words.0);
                (None, false)
            },
            Operation::Subtract(t) => {
                self.run_subtract(t, words.0);
                (None, false)
            },
            Operation::Multiply(t) => {
                self.run_multiply(t, words.0);
                (None, false)
            },
            Operation::Divide(t) => (self.run_divide(t, words), false),
            Operation::Compare(t) => {
                self.run_compare(t);
                (None, false)
            },
            Operation::And(t) => {
                self.run_and(t.size());
                (None, false)
            },
            Operation::Or(t) => {
                self.run_or(t.size());
                (None, false)
            },
            Operation::Not(t) => {
                self.run_not(t.size());
                (None, false)
            },
            _ => (None, false),
        }
    }

    /// Runs an instruction of the last group: shifts, rotations,
    /// exclusive-or, the debugger trap and the conversions.
    fn execute_special(&mut self, op: Operation, words: (u32, u32)) -> (r: (Option<u32>, bool))
        requires
            Self::valid_size(),
            op.family() == 3,
        ensures
            final(self).ran(old(self), op, words, r),
    {
        match op {
            Operation::ShiftLeft => {
                self.run_shift(true);
                (None, false)
            },
            Operation::ShiftRight => {
                self.run_shift(false);
                (None, false)
            },
            Operation::RotateLeft => {
                self.run_rotate(true);
                (None, false)
            },
            Operation::RotateRight => {
                self.run_rotate(false);
                (None, false)
            },
            Operation::Xor(n) => {
                let size: usize = if n <= 4 {
                    n as usize
                } else {
                    4
                };
                self.run_xor(size);
                assert(xored(old(self).val1@, old(self).val2@, size as int) =~= xored(
                    old(self).val1@,
                    old(self).val2@,
                    n as int,
                ));
                (None, false)
            },
            Operation::Debug => (self.run_debug(), false),
            Operation::Cast(from, to) => {
                self.run_cast(from, to, words.0);
                (None, false)
            },
            _ => (None, false),
        }
    }

    /// Runs the instruction `op`, with `words` as the answers of the
    /// floating-point unit to what the instruction asks of it (see
    /// [`Self::request`]). Gives the interrupt that the instruction raised,
    /// if any, and whether it set the cursor itself. The cursor is not
    /// moved on: [`Self::finish`] does that.
    pub fn execute(&mut self, op: Operation, words: (u32, u32)) -> (r: (Option<u32>, bool))
        requires
            Self::valid_size(),
        ensures
            final(self).ran(old(self), op, words, r),
    {
        match op.group() {
            0 => self.execute_data(op, words),
            1 => self.execute_control(op, words),
            2 => self.execute_arithmetic(op, words),
            _ => self.execute_special(op, words),
        }
    }

    /// Ends a step whose instruction was fetched at `fetched`, raised
    /// `stop` and, where `redirected` is set, placed the cursor itself. An
    /// interrupt raised stands; an instruction fetched at the last address
    /// ends the program with interrupt 0; else the cursor moves on by one
    /// unless the instruction placed it, and a cursor that cannot move on
    /// raises interrupt 1.
    pub fn finish(&mut self, fetched: u32, stop: Option<u32>, redirected: bool) -> (r: StepResult)
        ensures
            (final(self)@, r) == concluded(
                fetched,
                SIZE as int,
                Effect { state: old(self)@, stop, redirected },
            ),
            final(self).same_hooks(old(self)),
    {
        if stop.is_some() {
            stop
        } else if SIZE > 0 && fetched as usize == SIZE - 1 {
            Some(0)
        } else if redirected {
            None
        } else {
            match self.cur.checked_add(1) {
                Some(next) => {
                    self.cur = next;
                    None
                },
                None => Some(1),
            }
        }
    }

    /// Steps the machine by one instruction and gives the interrupt it
    /// raised, if any. `unit` is the floating-point unit: it is called for
    /// what the instruction asks of it, once for each answer needed.
    ///
    /// Interrupts that the engine itself raises:
    /// * 0: the instruction was the one at the last address of memory;
    /// * 1: an access outside the memory, or an address that overflowed;
    /// * 2: a push on a full stack;
    /// * 3: a pop from an empty stack;
    /// * 4: a division by zero.
    ///
    /// The step is [`crate::machine::step`] of the old state, for something
    /// that the unit and the hooks may have handed back; and where the
    /// instruction asks nothing of them, for anything at all.
    pub fn step<F: Fn(FloatOp, u32, u32) -> u32>(&mut self, unit: F) -> (r: StepResult)
        requires
            Self::valid_size(),
            forall|op: FloatOp, a: u32, b: u32| call_requires(unit, (op, a, b)),
        ensures
            exists|o: Outside|
                possible(old(self)@, unit, o) && #[trigger] crate::machine::step(old(self)@, o)
                    == (final(self)@, r),
            asks(old(self)@) is None && hands_out(old(self)@) is None && !crate::machine::traps(
                old(self)@,
            ) ==> forall|o: Outside| #[trigger]
                crate::machine::step(old(self)@, o) == (final(self)@, r),
            !crate::machine::traps(old(self)@) ==> final(self).same_hooks(old(self)),
    {
        let fetched = self.cur;
        if fetched as usize >= SIZE {
            proof {
                let o = Outside { words: (0, 0), code: None, memory: self.memory@, state: self@ };
                assert(crate::machine::step(old(self)@, o) == (self@, Some(1u32)));
            }
            return Some(1);
        }
        let op = Operation::decode(self.memory[fetched as usize]);
        let first: u32 = match self.request(op) {
            Some((f, a, b)) => unit(f, a, b),
            None => 0,
        };
        let second: u32 = match self.request_next(op) {
            Some((f, a, b)) => unit(f, a, b),
            None => 0,
        };
        let (stop, redirected) = self.execute(op, (first, second));
        let ghost o = Outside {
            words: (first, second),
            code: stop,
            memory: self.memory@,
            state: self@,
        };
        let r = self.finish(fetched, stop, redirected);
        proof {
            assert(unit_allows(old(self)@, op, unit, o.words));
            assert(crate::machine::step(old(self)@, o) == (self@, r));
            if asks(old(self)@) is None && hands_out(old(self)@) is None && !crate::machine::traps(
                old(self)@,
            ) {
                assert forall|other: Outside| #[trigger]
                    crate::machine::step(old(self)@, other) == (self@, r) by {
                    step_needs_only_what_it_asks(old(self)@, o, other);
                }
            }
        }
        r
    }
}

} // verus!
