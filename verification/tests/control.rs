use lasagna::emulator::{Emulator, WriteHook};
use lasagna::float::FloatOp;
use lasagna::machine::Operation;
use lasagna::structures::Type;

const SIZE: usize = 0x20001;

fn unit(_op: FloatOp, _a: u32, _b: u32) -> u32 {
    0
}

fn machine(program: &[u8]) -> Box<Emulator<SIZE>> {
    let mut emulator = Box::new(Emulator::<SIZE>::new([0; 4], [0; 4], 0, 0, 0));
    emulator.memory[..program.len()].copy_from_slice(program);
    emulator
}

#[test]
fn noop_moves_the_cursor_on() {
    let mut emulator = machine(&[0b00_000_011]);
    assert_eq!(emulator.step(unit), None);
    assert_eq!(emulator.cur, 1);
}

#[test]
fn cursor_outside_memory_raises_1() {
    let mut emulator = machine(&[]);
    emulator.cur = SIZE as u32;
    assert_eq!(emulator.step(unit), Some(1));
    assert_eq!(emulator.cur, SIZE as u32);
    emulator.cur = u32::MAX;
    assert_eq!(emulator.step(unit), Some(1));
}

#[test]
fn instruction_at_the_last_address_raises_0() {
    let mut emulator = machine(&[]);
    emulator.cur = (SIZE - 1) as u32;
    emulator.val1 = [1, 2, 3, 4];
    emulator.memory[SIZE - 1] = 0b00_100_001;
    assert_eq!(emulator.step(unit), Some(0));
    assert_eq!(emulator.val2, [1, 2, 3, 4]);
    assert_eq!(emulator.cur, (SIZE - 1) as u32);
}

#[test]
fn halt_at_the_last_address_gives_its_own_code() {
    let mut emulator = machine(&[]);
    emulator.cur = (SIZE - 1) as u32;
    emulator.val1 = [0, 0, 0, 9];
    emulator.memory[SIZE - 1] = 0b00_011_000;
    assert_eq!(emulator.step(unit), Some(9));
}

#[test]
fn halt_gives_the_first_register_as_code() {
    let mut emulator = machine(&[0b00_011_000]);
    emulator.val1 = [0x01, 0x02, 0x03, 0x04];
    assert_eq!(emulator.step(unit), Some(0x0102_0304));
    assert_eq!(emulator.cur, 0);
}

#[test]
fn move_and_swap() {
    let mut emulator = machine(&[0b00_100_001, 0b00_101_000]);
    emulator.val1 = [1, 2, 3, 4];
    emulator.val2 = [5, 6, 7, 8];
    assert_eq!(emulator.step(unit), None);
    assert_eq!(emulator.val2, [1, 2, 3, 4]);
    emulator.val2 = [5, 6, 7, 8];
    assert_eq!(emulator.step(unit), None);
    assert_eq!(emulator.val1, [5, 6, 7, 8]);
    assert_eq!(emulator.val2, [1, 2, 3, 4]);
}

#[test]
fn read_takes_the_width_of_the_type() {
    for (tag, width) in [(0u8, 1usize), (1, 1), (2, 2), (3, 2), (4, 4), (5, 4), (6, 4), (7, 1)] {
        let mut emulator = machine(&[0b00_110_000 | tag]);
        emulator.ptr = 0x300;
        emulator.memory[0x300..0x304].copy_from_slice(&[0xA1, 0xA2, 0xA3, 0xA4]);
        emulator.val1 = [1, 2, 3, 4];
        assert_eq!(emulator.step(unit), None);
        let mut expected = [1, 2, 3, 4];
        expected[..width].copy_from_slice(&[0xA1, 0xA2, 0xA3, 0xA4][..width]);
        assert_eq!(emulator.val1, expected);
    }
}

#[test]
fn read_and_write_reach_the_last_byte_and_no_further() {
    let mut emulator = machine(&[0b00_110_010, 0b00_110_010]);
    emulator.ptr = (SIZE - 2) as u32;
    emulator.memory[SIZE - 2] = 0x11;
    emulator.memory[SIZE - 1] = 0x22;
    assert_eq!(emulator.step(unit), None);
    assert_eq!(emulator.val1, [0x11, 0x22, 0, 0]);
    emulator.ptr = (SIZE - 1) as u32;
    emulator.val1 = [0; 4];
    assert_eq!(emulator.step(unit), Some(1));
    assert_eq!(emulator.val1, [0; 4]);

    let mut emulator = machine(&[0b00_111_100, 0b00_111_100]);
    emulator.val1 = [1, 2, 3, 4];
    emulator.ptr = (SIZE - 4) as u32;
    assert_eq!(emulator.step(unit), None);
    assert_eq!(&emulator.memory[SIZE - 4..], &[1, 2, 3, 4]);
    emulator.ptr = (SIZE - 3) as u32;
    emulator.val1 = [9, 9, 9, 9];
    assert_eq!(emulator.step(unit), Some(1));
    assert_eq!(&emulator.memory[SIZE - 4..], &[1, 2, 3, 4]);
    emulator.ptr = u32::MAX;
    assert_eq!(emulator.step(unit), Some(1));
}

#[test]
fn write_stores_the_leading_bytes() {
    let mut emulator = machine(&[0b00_111_011]);
    emulator.val1 = [0xB1, 0xB2, 0xB3, 0xB4];
    emulator.ptr = 0x400;
    assert_eq!(emulator.step(unit), None);
    assert_eq!(&emulator.memory[0x400..0x404], &[0xB1, 0xB2, 0, 0]);
}

#[test]
fn jump_sets_the_cursor_to_the_stored_address() {
    let mut emulator = machine(&[0b01_000_000]);
    emulator.ptr = 0x500;
    emulator.memory[0x500..0x504].copy_from_slice(&[0x00, 0x01, 0x23, 0x45]);
    assert_eq!(emulator.step(unit), None);
    assert_eq!(emulator.cur, 0x0001_2345);
}

#[test]
fn jump_may_target_any_address_and_the_next_fetch_decides() {
    let mut emulator = machine(&[0b01_000_000]);
    emulator.ptr = 0x500;
    emulator.memory[0x500..0x504].copy_from_slice(&[0xFF, 0xFF, 0xFF, 0xFF]);
    assert_eq!(emulator.step(unit), None);
    assert_eq!(emulator.cur, u32::MAX);
    assert_eq!(emulator.step(unit), Some(1));
}

#[test]
fn jump_with_unreadable_address_raises_1() {
    let mut emulator = machine(&[0b01_000_000]);
    emulator.ptr = (SIZE - 3) as u32;
    assert_eq!(emulator.step(unit), Some(1));
    assert_eq!(emulator.cur, 0);
}

#[test]
fn branch_if_zero_looks_at_the_operand_after_the_opcode() {
    let mut emulator = machine(&[0b01_001_010, 0, 0, 7]);
    emulator.ptr = 0x500;
    emulator.memory[0x500..0x504].copy_from_slice(&[0, 0, 0x10, 0]);
    assert_eq!(emulator.step(unit), None);
    assert_eq!(emulator.cur, 0x1000);

    let mut emulator = machine(&[0b01_001_010, 0, 1, 7]);
    emulator.ptr = 0x500;
    emulator.memory[0x500..0x504].copy_from_slice(&[0, 0, 0x10, 0]);
    assert_eq!(emulator.step(unit), None);
    assert_eq!(emulator.cur, 1);
}

#[test]
fn branch_if_nonzero_jumps_on_any_set_byte() {
    let mut emulator = machine(&[0b01_010_100, 0, 0, 0, 1]);
    emulator.ptr = 0x500;
    emulator.memory[0x500..0x504].copy_from_slice(&[0, 0, 0x10, 0]);
    assert_eq!(emulator.step(unit), None);
    assert_eq!(emulator.cur, 0x1000);

    let mut emulator = machine(&[0b01_010_100, 0, 0, 0, 0, 1]);
    emulator.ptr = 0x500;
    emulator.memory[0x500..0x504].copy_from_slice(&[0, 0, 0x10, 0]);
    assert_eq!(emulator.step(unit), None);
    assert_eq!(emulator.cur, 1);
}

#[test]
fn branch_checks_both_reads_before_deciding() {
    let mut emulator = machine(&[0b01_010_000, 0]);
    emulator.ptr = (SIZE - 3) as u32;
    assert_eq!(emulator.step(unit), Some(1));

    let mut emulator = machine(&[]);
    emulator.cur = (SIZE - 2) as u32;
    emulator.memory[SIZE - 2] = 0b01_001_010;
    emulator.ptr = 0x500;
    assert_eq!(emulator.step(unit), Some(1));
    assert_eq!(emulator.cur, (SIZE - 2) as u32);

    let mut emulator = machine(&[]);
    emulator.cur = (SIZE - 2) as u32;
    emulator.memory[SIZE - 2] = 0b01_001_000;
    emulator.ptr = 0x500;
    emulator.memory[0x500..0x504].copy_from_slice(&[0, 0, 0, 9]);
    assert_eq!(emulator.step(unit), None);
    assert_eq!(emulator.cur, 9);
}

#[test]
fn jump_past_pointer() {
    let mut emulator = machine(&[0b01_011_000]);
    emulator.ptr = 0x77;
    assert_eq!(emulator.step(unit), None);
    assert_eq!(emulator.cur, 0x78);

    let mut emulator = machine(&[0b01_011_000]);
    emulator.ptr = u32::MAX;
    assert_eq!(emulator.step(unit), Some(1));
    assert_eq!(emulator.cur, 0);
}

#[test]
fn pointer_moves_by_the_width_of_the_type() {
    let mut emulator = machine(&[0b01_100_100, 0b01_101_010, 0b01_101_000]);
    emulator.ptr = 10;
    assert_eq!(emulator.step(unit), None);
    assert_eq!(emulator.ptr, 14);
    assert_eq!(emulator.step(unit), None);
    assert_eq!(emulator.ptr, 12);
    assert_eq!(emulator.step(unit), None);
    assert_eq!(emulator.ptr, 11);
}

#[test]
fn pointer_overflow_and_underflow_raise_1() {
    let mut emulator = machine(&[0b01_100_100]);
    emulator.ptr = u32::MAX - 3;
    assert_eq!(emulator.step(unit), Some(1));
    assert_eq!(emulator.ptr, u32::MAX - 3);
    emulator.ptr = u32::MAX - 4;
    assert_eq!(emulator.step(unit), None);
    assert_eq!(emulator.ptr, u32::MAX);

    let mut emulator = machine(&[0b01_101_011]);
    emulator.ptr = 1;
    assert_eq!(emulator.step(unit), Some(1));
    assert_eq!(emulator.ptr, 1);
    emulator.ptr = 2;
    assert_eq!(emulator.step(unit), None);
    assert_eq!(emulator.ptr, 0);
}

#[test]
fn pointer_to_and_from_the_first_register() {
    let mut emulator = machine(&[0b01_110_000, 0b01_111_000]);
    emulator.val1 = [0x0A, 0x0B, 0x0C, 0x0D];
    assert_eq!(emulator.step(unit), None);
    assert_eq!(emulator.ptr, 0x0A0B_0C0D);
    emulator.ptr = 0x0102_0304;
    assert_eq!(emulator.step(unit), None);
    assert_eq!(emulator.val1, [1, 2, 3, 4]);
}

#[test]
fn copy_moves_the_bytes_after_the_length() {
    let mut emulator = machine(&[0b00_100_000, 0, 0, 0, 3, 0xC1, 0xC2, 0xC3, 0x55]);
    emulator.ptr = 0x600;
    assert_eq!(emulator.step(unit), None);
    assert_eq!(&emulator.memory[0x600..0x604], &[0xC1, 0xC2, 0xC3, 0]);
    assert_eq!(emulator.cur, 9);
}

#[test]
fn copy_of_nothing_only_moves_the_cursor() {
    let mut emulator = machine(&[0b00_100_000, 0, 0, 0, 0, 0x55]);
    emulator.ptr = u32::MAX;
    assert_eq!(emulator.step(unit), Some(1));
    emulator.ptr = SIZE as u32;
    assert_eq!(emulator.step(unit), None);
    assert_eq!(emulator.cur, 6);
}

#[test]
fn overlapping_copy_goes_lowest_address_first() {
    let mut emulator = machine(&[0b00_100_000, 0, 0, 0, 4, 1, 2, 3, 4]);
    emulator.ptr = 7;
    assert_eq!(emulator.step(unit), None);
    assert_eq!(&emulator.memory[5..11], &[1, 2, 1, 2, 1, 2]);
}

#[test]
fn copy_that_reads_past_the_end_changes_nothing() {
    let mut emulator = machine(&[]);
    let at = SIZE - 8;
    emulator.cur = at as u32;
    emulator.memory[at..at + 8].copy_from_slice(&[0b00_100_000, 0, 0, 0, 4, 1, 2, 3]);
    emulator.ptr = 0x600;
    let before = emulator.memory;
    assert_eq!(emulator.step(unit), Some(1));
    assert!(emulator.memory == before);
    assert_eq!(emulator.cur, at as u32);
    assert_eq!(emulator.ptr, 0x600);
}

#[test]
fn copy_that_writes_past_the_end_changes_nothing() {
    let mut emulator = machine(&[0b00_100_000, 0, 0, 0, 4, 1, 2, 3, 4]);
    emulator.ptr = (SIZE - 3) as u32;
    let before = emulator.memory;
    assert_eq!(emulator.step(unit), Some(1));
    assert!(emulator.memory == before);
    assert_eq!(emulator.cur, 0);
}

#[test]
fn copy_with_unreadable_length_raises_1() {
    let mut emulator = machine(&[]);
    emulator.cur = (SIZE - 4) as u32;
    emulator.memory[SIZE - 4] = 0b00_100_000;
    assert_eq!(emulator.step(unit), Some(1));
    assert_eq!(emulator.cur, (SIZE - 4) as u32);
}

#[test]
fn copy_with_huge_length_raises_1() {
    let mut emulator = machine(&[0b00_100_000, 0xFF, 0xFF, 0xFF, 0xFF]);
    let before = emulator.memory;
    assert_eq!(emulator.step(unit), Some(1));
    assert!(emulator.memory == before);
    assert_eq!(emulator.cur, 0);
}

fn refusing_hook(_destination: &mut [u8], _word: u32, _value: &[u8]) -> Option<u32> {
    panic!("the hook must not be called");
}

#[test]
fn copy_that_does_not_fit_never_reaches_the_hook() {
    let mut emulator = Box::new(
        Emulator::<SIZE>::new([0; 4], [0; 4], (SIZE - 3) as u32, 0, 0)
            .with_callback(WriteHook(refusing_hook)),
    );
    emulator.memory[..9].copy_from_slice(&[0b00_100_000, 0, 0, 0, 4, 1, 2, 3, 4]);
    let before = emulator.memory;
    assert_eq!(emulator.step(unit), Some(1));
    assert!(emulator.memory == before);
}

fn copying_hook(destination: &mut [u8], word: u32, value: &[u8]) -> Option<u32> {
    assert_eq!(destination.len(), word as usize);
    assert_eq!(value.len(), word as usize);
    destination.copy_from_slice(value);
    if word == 2 {
        Some(50)
    } else {
        None
    }
}

#[test]
fn copy_hands_destination_length_and_source_to_the_hook() {
    let mut emulator = Box::new(
        Emulator::<SIZE>::new([0; 4], [0; 4], 0x600, 0, 0).with_callback(WriteHook(copying_hook)),
    );
    emulator.memory[..9].copy_from_slice(&[0b00_100_000, 0, 0, 0, 3, 0xC1, 0xC2, 0xC3, 0x55]);
    assert_eq!(emulator.step(unit), None);
    assert_eq!(&emulator.memory[0x600..0x604], &[0xC1, 0xC2, 0xC3, 0]);
    assert_eq!(emulator.cur, 9);
}

#[test]
fn hook_interrupt_in_a_copy_leaves_the_cursor_after_the_length() {
    let mut emulator = Box::new(
        Emulator::<SIZE>::new([0; 4], [0; 4], 0x600, 0, 0).with_callback(WriteHook(copying_hook)),
    );
    emulator.memory[..8].copy_from_slice(&[0b00_100_000, 0, 0, 0, 2, 0xC1, 0xC2, 0x55]);
    assert_eq!(emulator.step(unit), Some(50));
    assert_eq!(&emulator.memory[0x600..0x603], &[0xC1, 0xC2, 0]);
    assert_eq!(emulator.cur, 5);
}

#[test]
fn debugger_trap_without_a_debugger_is_a_noop() {
    let mut emulator = machine(&[0xFF]);
    emulator.val1 = [1, 2, 3, 4];
    assert_eq!(emulator.step(unit), None);
    assert_eq!(emulator.val1, [1, 2, 3, 4]);
    assert_eq!(emulator.cur, 1);
}

#[test]
fn status_register_is_left_alone() {
    let mut emulator = Box::new(Emulator::<SIZE>::new([3; 4], [2; 4], 0x100, 0, 0xABCD));
    for (i, opcode) in (0..=255u8).enumerate() {
        emulator.memory[i] = opcode;
    }
    for i in 0..=255u32 {
        emulator.cur = i;
        emulator.ptr = 0x100;
        let _ = emulator.step(unit);
        assert_eq!(emulator.stat, 0xABCD);
    }
}

#[test]
fn opcodes_decode_by_group_index_and_type() {
    assert_eq!(Operation::decode(0b00_000_000), Operation::Noop);
    assert_eq!(Operation::decode(0b00_000_111), Operation::Noop);
    assert_eq!(Operation::decode(0b00_001_000), Operation::Push);
    assert_eq!(Operation::decode(0b00_010_000), Operation::Pop);
    assert_eq!(Operation::decode(0b00_011_000), Operation::Halt);
    assert_eq!(Operation::decode(0b00_100_000), Operation::Copy);
    for tag in 1..8u8 {
        assert_eq!(Operation::decode(0b00_100_000 | tag), Operation::Move);
    }
    assert_eq!(Operation::decode(0b00_101_000), Operation::Swap);
    assert_eq!(Operation::decode(0b00_110_010), Operation::Read(Type::U16));
    assert_eq!(Operation::decode(0b00_111_110), Operation::Write(Type::Float));
    assert_eq!(Operation::decode(0b01_000_000), Operation::Jump);
    assert_eq!(Operation::decode(0b01_001_001), Operation::BranchIfZero(Type::I8));
    assert_eq!(Operation::decode(0b01_010_111), Operation::BranchIfNonzero(Type::Boolean));
    assert_eq!(Operation::decode(0b01_011_000), Operation::JumpPastPointer);
    assert_eq!(Operation::decode(0b01_100_100), Operation::Advance(Type::U32));
    assert_eq!(Operation::decode(0b01_101_101), Operation::Retreat(Type::I32));
    assert_eq!(Operation::decode(0b01_110_000), Operation::SetPointer);
    assert_eq!(Operation::decode(0b01_111_000), Operation::GetPointer);
    assert_eq!(Operation::decode(0b10_000_011), Operation::Add(Type::I16));
    assert_eq!(Operation::decode(0b10_001_000), Operation::Subtract(Type::U8));
    assert_eq!(Operation::decode(0b10_010_000), Operation::Multiply(Type::U8));
    assert_eq!(Operation::decode(0b10_011_000), Operation::Divide(Type::U8));
    assert_eq!(Operation::decode(0b10_100_000), Operation::Compare(Type::U8));
    assert_eq!(Operation::decode(0b10_101_000), Operation::And(Type::U8));
    assert_eq!(Operation::decode(0b10_110_000), Operation::Or(Type::U8));
    assert_eq!(Operation::decode(0b10_111_000), Operation::Not(Type::U8));
    assert_eq!(Operation::decode(0b11_000_000), Operation::ShiftLeft);
    assert_eq!(Operation::decode(0b11_001_001), Operation::ShiftRight);
    assert_eq!(Operation::decode(0b11_010_010), Operation::RotateLeft);
    assert_eq!(Operation::decode(0b11_011_011), Operation::RotateRight);
    assert_eq!(Operation::decode(0b11_100_100), Operation::Xor(1));
    assert_eq!(Operation::decode(0b11_101_101), Operation::Xor(2));
    assert_eq!(Operation::decode(0b11_110_110), Operation::Xor(4));
    assert_eq!(Operation::decode(0b11_111_111), Operation::Debug);
    assert_eq!(Operation::decode(0b11_000_101), Operation::Cast(Type::U8, Type::I32));
    assert_eq!(Operation::decode(0b11_111_110), Operation::Cast(Type::Boolean, Type::Float));
}

#[test]
fn execute_and_finish_make_up_a_step() {
    let mut emulator = machine(&[]);
    emulator.val1 = [0x10, 0, 0, 0];
    emulator.val2 = [0x20, 0, 0, 0];
    let (stop, redirected) = emulator.execute(Operation::Add(Type::U8), (0, 0));
    assert_eq!((stop, redirected), (None, false));
    assert_eq!(emulator.val1[0], 0x30);
    assert_eq!(emulator.cur, 0);
    assert_eq!(emulator.finish(0, stop, redirected), None);
    assert_eq!(emulator.cur, 1);
}

#[test]
fn execute_takes_the_float_answers_as_given() {
    let mut emulator = machine(&[]);
    emulator.val2 = 1.0f32.to_le_bytes();
    let (stop, _) = emulator.execute(Operation::Divide(Type::Float), (0x1111_1111, 0x2222_2222));
    assert_eq!(stop, None);
    assert_eq!(emulator.val1, 0x1111_1111u32.to_le_bytes());
    assert_eq!(emulator.val2, 0x2222_2222u32.to_le_bytes());
    let (_, _) = emulator.execute(Operation::Cast(Type::Float, Type::I8), (0xFFFF_FF00, 0));
    assert_eq!(emulator.val1[0], 0x80);
    let (_, _) = emulator.execute(Operation::Cast(Type::Float, Type::U16), (0x0001_0000, 0));
    assert_eq!(&emulator.val1[..2], &[0xFF, 0xFF]);
}

#[test]
fn finish_decides_how_a_step_ends() {
    let mut emulator = machine(&[]);
    emulator.cur = 5;
    assert_eq!(emulator.finish(5, Some(9), false), Some(9));
    assert_eq!(emulator.cur, 5);
    assert_eq!(emulator.finish((SIZE - 1) as u32, None, false), Some(0));
    assert_eq!(emulator.cur, 5);
    assert_eq!(emulator.finish(5, None, true), None);
    assert_eq!(emulator.cur, 5);
    assert_eq!(emulator.finish(5, None, false), None);
    assert_eq!(emulator.cur, 6);
    emulator.cur = u32::MAX;
    assert_eq!(emulator.finish(5, None, false), Some(1));
    assert_eq!(emulator.cur, u32::MAX);
}

#[test]
fn sizes_checks_and_operands() {
    for (tag, width) in [(0u8, 1usize), (1, 1), (2, 2), (3, 2), (4, 4), (5, 4), (6, 4), (7, 1)] {
        assert_eq!(Emulator::<SIZE>::get_size(tag), width);
        assert_eq!(Emulator::<SIZE>::get_size(0b1010_1000 | tag), width);
    }
    let mut emulator = machine(&[0, 0xA1, 0xA2, 0xA3, 0xA4]);
    emulator.ptr = (SIZE - 4) as u32;
    assert!(!emulator.check_size(3));
    assert!(emulator.check_size(4));
    assert!(emulator.check_size(usize::MAX));
    emulator.ptr = u32::MAX;
    assert!(emulator.check_size(0));
    assert_eq!(emulator.get_value(0b010), Some(vec![0xA1, 0xA2]));
    assert_eq!(emulator.get_value(0b100), Some(vec![0xA1, 0xA2, 0xA3, 0xA4]));
    emulator.cur = (SIZE - 2) as u32;
    assert_eq!(emulator.get_value(0b000), Some(vec![0]));
    assert_eq!(emulator.get_value(0b010), None);
    emulator.cur = (SIZE - 1) as u32;
    assert_eq!(emulator.get_value(0b000), None);
}

fn idle_hook(_destination: &mut [u8], _word: u32, _value: &[u8]) -> Option<u32> {
    None
}

#[test]
fn handing_names_what_the_hook_gets() {
    let mut emulator = Box::new(
        Emulator::<SIZE>::new([1, 2, 3, 4], [0; 4], 0x600, 0, 0).with_callback(WriteHook(idle_hook)),
    );
    emulator.memory[..9].copy_from_slice(&[0b00_100_000, 0, 0, 0, 3, 0xC1, 0xC2, 0xC3, 0x55]);
    assert_eq!(
        emulator.handing(Operation::Write(Type::U16)),
        Some((0x600, 2, 0x600, vec![1, 2, 3, 4]))
    );
    assert_eq!(emulator.handing(Operation::Copy), Some((0x600, 3, 3, vec![0xC1, 0xC2, 0xC3])));
    assert_eq!(emulator.handing(Operation::Read(Type::U16)), None);
    assert_eq!(emulator.handing(Operation::Noop), None);
    emulator.ptr = (SIZE - 1) as u32;
    assert_eq!(emulator.handing(Operation::Write(Type::U16)), None);
    assert_eq!(emulator.handing(Operation::Copy), None);
    assert_eq!(
        emulator.handing(Operation::Write(Type::U8)),
        Some((SIZE - 1, 1, (SIZE - 1) as u32, vec![1, 2, 3, 4]))
    );

    let mut bare = machine(&[0b00_100_000, 0, 0, 0, 3, 0xC1, 0xC2, 0xC3, 0x55]);
    bare.ptr = 0x600;
    assert_eq!(bare.handing(Operation::Write(Type::U16)), None);
    assert_eq!(bare.handing(Operation::Copy), None);
}

fn checking_hook(destination: &mut [u8], word: u32, value: &[u8]) -> Option<u32> {
    assert_eq!(destination, &[0xEE, 0xEE]);
    assert_eq!(word, 0x600);
    assert_eq!(value, &[1, 2, 3, 4]);
    destination[0] = value[0];
    None
}

#[test]
fn write_hands_destination_pointer_and_register_to_the_hook() {
    let mut emulator = Box::new(
        Emulator::<SIZE>::new([1, 2, 3, 4], [0; 4], 0x600, 0, 0)
            .with_callback(WriteHook(checking_hook)),
    );
    emulator.memory[0] = 0b00_111_011;
    emulator.memory[0x600] = 0xEE;
    emulator.memory[0x601] = 0xEE;
    assert_eq!(emulator.step(unit), None);
    assert_eq!(&emulator.memory[0x600..0x602], &[1, 0xEE]);
}
