use lasagna::constants;
use lasagna::structures::{get_id, to_decimal, Instruction, Type};

#[test]
fn opcode_fields_split_and_recombine() {
    assert_eq!(constants::GROUP, 0b1100_0000);
    assert_eq!(constants::INDEX, 0b0011_1000);
    assert_eq!(constants::TYPE, 0b0000_0111);
    for instr in 0..=255u8 {
        let (group, index, ty) = constants::fields(instr);
        assert!(group < 4 && index < 8 && ty < 8);
        assert_eq!(group * 64 + index * 8 + ty, instr);
        assert_eq!(group, (instr & constants::GROUP) >> 6);
        assert_eq!(index, (instr & constants::INDEX) >> 3);
        assert_eq!(ty, instr & constants::TYPE);
    }
}

#[test]
fn type_tags_names_and_widths() {
    let all = [
        (Type::U8, 0u8, "u8", 1usize),
        (Type::I8, 1, "i8", 1),
        (Type::U16, 2, "u16", 2),
        (Type::I16, 3, "i16", 2),
        (Type::U32, 4, "u32", 4),
        (Type::I32, 5, "i32", 4),
        (Type::Float, 6, "float", 4),
        (Type::Boolean, 7, "bool", 1),
    ];
    for (t, tag, name, width) in all {
        assert_eq!(Type::from_tag(tag), t);
        assert_eq!(Type::from_tag(tag | 0b1111_1000), t);
        assert_eq!(t.to_tag(), tag);
        assert_eq!(t.name(), name);
        assert_eq!(t.size(), width);
        assert_eq!(Type::try_from(name.to_string()), Ok(t));
    }
}

#[test]
fn unknown_type_names_are_errors() {
    for name in ["", "u", "u64", "U8", "u8 ", " u8", "boolean", "f32", "floa", "floats"] {
        assert_eq!(Type::try_from(name.to_string()), Err(()));
    }
}

#[test]
fn identifier_follows_the_opcode() {
    let program = [0x40, 0x12, 0x34, 0x56, 0x78, 0x99];
    assert_eq!(get_id(0, &program), Some(0x1234_5678));
    assert_eq!(get_id(1, &program), Some(0x3456_7899));
    assert_eq!(get_id(2, &program), None);
    assert_eq!(get_id(5, &program), None);
    assert_eq!(get_id(6, &program), None);
    assert_eq!(get_id(usize::MAX, &program), None);
    assert_eq!(get_id(usize::MAX - 3, &program), None);
    assert_eq!(get_id(0, &program[..4]), None);
    assert_eq!(get_id(0, &[]), None);
}

#[test]
fn listing_names_every_opcode() {
    let t = Type::I16;
    let tag = 3u8;
    let expected = [
        Instruction::Noop,
        Instruction::Load(t),
        Instruction::System(0b00_010_111),
        Instruction::Interrupt,
        Instruction::Copy,
        Instruction::Swap,
        Instruction::Read(t),
        Instruction::Write(t),
        Instruction::Jump(0x0102_0304),
        Instruction::Branch(0x0102_0304),
        Instruction::Call(0x0102_0304),
        Instruction::Return,
        Instruction::Left(t),
        Instruction::Right(t),
        Instruction::Move,
        Instruction::Pointer,
        Instruction::Add(t),
        Instruction::Subtract(t),
        Instruction::Multiply(t),
        Instruction::Divide(t),
        Instruction::Compare(t),
        Instruction::And(t),
        Instruction::Or(t),
        Instruction::Not(t),
        Instruction::Cast(t, Type::U8),
        Instruction::Cast(t, Type::I8),
        Instruction::Cast(t, Type::U16),
        Instruction::Cast(t, Type::I16),
        Instruction::Cast(t, Type::U32),
        Instruction::Cast(t, Type::I32),
        Instruction::Cast(t, Type::Float),
        Instruction::Cast(t, Type::Boolean),
    ];
    for (upper, entry) in expected.iter().enumerate() {
        let program = [0xEE, ((upper as u8) << 3) | tag, 1, 2, 3, 4];
        assert_eq!(Instruction::get(&program, 1), Some(*entry), "opcode {:#010b}", program[1]);
    }
}

#[test]
fn listing_has_no_entry_outside_the_program() {
    let program = [0u8, 0, 0];
    assert_eq!(Instruction::get(&program, 2), Some(Instruction::Noop));
    assert_eq!(Instruction::get(&program, 3), None);
    assert_eq!(Instruction::get(&program, 4), None);
    assert_eq!(Instruction::get(&program, usize::MAX), None);
    assert_eq!(Instruction::get(&[], 0), None);
}

#[test]
fn listing_has_no_entry_for_a_jump_cut_short() {
    for opcode in [0b01_000_000u8, 0b01_001_000, 0b01_010_000] {
        assert_eq!(Instruction::get(&[opcode, 1, 2, 3], 0), None);
        assert!(Instruction::get(&[opcode, 1, 2, 3, 4], 0).is_some());
    }
    assert_eq!(Instruction::get(&[0b01_011_000], 0), Some(Instruction::Return));
}

#[test]
fn mnemonics() {
    assert_eq!(Instruction::Noop.mnemonic(), "noop");
    assert_eq!(Instruction::Load(Type::U8).mnemonic(), "load");
    assert_eq!(Instruction::System(7).mnemonic(), "system");
    assert_eq!(Instruction::Interrupt.mnemonic(), "interrupt");
    assert_eq!(Instruction::Copy.mnemonic(), "copy");
    assert_eq!(Instruction::Swap.mnemonic(), "swap");
    assert_eq!(Instruction::Read(Type::U8).mnemonic(), "read");
    assert_eq!(Instruction::Write(Type::U8).mnemonic(), "write");
    assert_eq!(Instruction::Jump(0).mnemonic(), "jump");
    assert_eq!(Instruction::Branch(0).mnemonic(), "branch");
    assert_eq!(Instruction::Call(0).mnemonic(), "call");
    assert_eq!(Instruction::Return.mnemonic(), "return");
    assert_eq!(Instruction::Left(Type::U8).mnemonic(), "left");
    assert_eq!(Instruction::Right(Type::U8).mnemonic(), "right");
    assert_eq!(Instruction::Move.mnemonic(), "move");
    assert_eq!(Instruction::Pointer.mnemonic(), "pointer");
    assert_eq!(Instruction::Add(Type::U8).mnemonic(), "add");
    assert_eq!(Instruction::Subtract(Type::U8).mnemonic(), "subtract");
    assert_eq!(Instruction::Multiply(Type::U8).mnemonic(), "multiply");
    assert_eq!(Instruction::Divide(Type::U8).mnemonic(), "divide");
    assert_eq!(Instruction::Compare(Type::U8).mnemonic(), "compare");
    assert_eq!(Instruction::And(Type::U8).mnemonic(), "and");
    assert_eq!(Instruction::Or(Type::U8).mnemonic(), "or");
    assert_eq!(Instruction::Not(Type::U8).mnemonic(), "not");
    assert_eq!(Instruction::Cast(Type::U8, Type::I8).mnemonic(), "cast");
}

#[test]
fn numbers_in_decimal() {
    for n in [0u32, 1, 9, 10, 11, 99, 100, 101, 255, 1000, 65535, 1_000_000, 4_294_967_295] {
        assert_eq!(to_decimal(n), n.to_string());
    }
}

#[test]
fn entries_as_program_text() {
    assert_eq!(Instruction::Noop.text(), "noop  ");
    assert_eq!(Instruction::Load(Type::U8).text(), "load u8 ");
    assert_eq!(Instruction::System(23).text(), "system 23 ");
    assert_eq!(Instruction::Interrupt.text(), "interrupt  ");
    assert_eq!(Instruction::Read(Type::Float).text(), "read float ");
    assert_eq!(Instruction::Write(Type::Boolean).text(), "write bool ");
    assert_eq!(Instruction::Jump(0).text(), "jump 0 ");
    assert_eq!(Instruction::Branch(4294967295).text(), "branch 4294967295 ");
    assert_eq!(Instruction::Call(1234567).text(), "call 1234567 ");
    assert_eq!(Instruction::Return.text(), "return  ");
    assert_eq!(Instruction::Left(Type::I16).text(), "left i16 ");
    assert_eq!(Instruction::Compare(Type::I32).text(), "compare i32 ");
    assert_eq!(Instruction::Cast(Type::U16, Type::Float).text(), "cast u16 float");
    assert_eq!(Instruction::Cast(Type::Boolean, Type::Boolean).text(), "cast bool bool");
}

#[test]
fn entry_text_is_the_three_parts_with_spaces() {
    let t = Type::U32;
    for entry in [
        Instruction::Noop,
        Instruction::Load(t),
        Instruction::System(7),
        Instruction::Copy,
        Instruction::Swap,
        Instruction::Move,
        Instruction::Pointer,
        Instruction::Right(t),
        Instruction::Add(t),
        Instruction::Subtract(t),
        Instruction::Multiply(t),
        Instruction::Divide(t),
        Instruction::And(t),
        Instruction::Or(t),
        Instruction::Not(t),
    ] {
        let text = entry.text();
        let parts: Vec<&str> = text.split(' ').collect();
        assert_eq!(parts.len(), 3);
        assert_eq!(parts[0], entry.mnemonic());
        assert_eq!(parts[2], "");
    }
}

#[test]
fn words_end_at_whitespace() {
    let text = "load u8\tread\nwrite\r\u{0C}last";
    assert_eq!(Instruction::get_word(text, 0), Some(("load".to_string(), 5)));
    assert_eq!(Instruction::get_word(text, 5), Some(("u8".to_string(), 8)));
    assert_eq!(Instruction::get_word(text, 8), Some(("read".to_string(), 13)));
    assert_eq!(Instruction::get_word(text, 13), Some(("write".to_string(), 19)));
    assert_eq!(Instruction::get_word(text, 19), Some((String::new(), 20)));
    assert_eq!(Instruction::get_word(text, 20), None);
    assert_eq!(Instruction::get_word(text, 24), None);
    assert_eq!(Instruction::get_word(text, 2), Some(("ad".to_string(), 5)));
    assert_eq!(Instruction::get_word("", 0), None);
    assert_eq!(Instruction::get_word(" ", 0), Some((String::new(), 1)));
}

#[test]
fn words_count_characters_not_bytes() {
    let text = "\u{65b9}\u{6771} x\u{0B}y\u{A0}z ";
    assert_eq!(Instruction::get_word(text, 0), Some(("\u{65b9}\u{6771}".to_string(), 3)));
    assert_eq!(Instruction::get_word(text, 3), Some(("x\u{0B}y\u{A0}z".to_string(), 9)));
    assert_eq!(Instruction::get_word(text, 9), None);
}
