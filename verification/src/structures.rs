//! The operand types and the mnemonic listing of the instruction set.

use vstd::prelude::*;
use vstd::std_specs::convert::TryFromSpecImpl;
use crate::bytes::{be32, u32_from_be};

verus! {

/// The operand type that the low three bits of an opcode select.
#[derive(Clone, Copy, Debug, PartialEq, Eq, Structural)]
pub enum Type {
    U8,
    I8,
    U16,
    I16,
    U32,
    I32,
    Float,
    Boolean,
}

impl Type {
    /// The type that a three-bit tag selects; higher bits of `tag` are ignored.
    pub open spec fn of_tag(tag: u8) -> Type {
        match tag % 8 {
            0 => Type::U8,
            1 => Type::I8,
            2 => Type::U16,
            3 => Type::I16,
            4 => Type::U32,
            5 => Type::I32,
            6 => Type::Float,
            _ => Type::Boolean,
        }
    }

    /// The three-bit tag of this type.
    pub open spec fn tag(self) -> u8 {
        match self {
            Type::U8 => 0,
            Type::I8 => 1,
            Type::U16 => 2,
            Type::I16 => 3,
            Type::U32 => 4,
            Type::I32 => 5,
            Type::Float => 6,
            Type::Boolean => 7,
        }
    }

    /// How many bytes a value of this type takes: 1, 2 or 4.
    pub open spec fn width(self) -> nat {
        match self {
            Type::U8 | Type::I8 | Type::Boolean => 1,
            Type::U16 | Type::I16 => 2,
            Type::U32 | Type::I32 | Type::Float => 4,
        }
    }

    /// Whether values of this type are integers with a sign.
    pub open spec fn is_signed(self) -> bool {
        self == Type::I8 || self == Type::I16 || self == Type::I32
    }

    /// Whether values of this type are integers, signed or not.
    pub open spec fn is_integer(self) -> bool {
        self != Type::Float && self != Type::Boolean
    }

    /// Decodes the type field of an opcode.
    pub fn from_tag(tag: u8) -> (t: Type)
        ensures
            t == Type::of_tag(tag),
    {
        match tag % 8 {
            0 => Type::U8,
            1 => Type::I8,
            2 => Type::U16,
            3 => Type::I16,
            4 => Type::U32,
            5 => Type::I32,
            6 => Type::Float,
            _ => Type::Boolean,
        }
    }

    /// Encodes this type as the type field of an opcode.
    pub fn to_tag(self) -> (tag: u8)
        ensures
            tag == self.tag(),
            tag < 8,
    {
        match self {
            Type::U8 => 0,
            Type::I8 => 1,
            Type::U16 => 2,
            Type::I16 => 3,
            Type::U32 => 4,
            Type::I32 => 5,
            Type::Float => 6,
            Type::Boolean => 7,
        }
    }

    /// The number of bytes that a value of this type takes.
    pub fn size(self) -> (n: usize)
        ensures
            n == self.width(),
            n == 1 || n == 2 || n == 4,
    {
        match self {
            Type::U8 | Type::I8 | Type::Boolean => 1,
            Type::U16 | Type::I16 => 2,
            Type::U32 | Type::I32 | Type::Float => 4,
        }
    }
}

/// A type's tag selects the type again.
pub proof fn tag_selects_type(t: Type)
    ensures
        Type::of_tag(t.tag()) == t,
{
}

impl Type {
    /// The name of this type in program text.
    pub open spec fn label(self) -> Seq<char> {
        match self {
            Type::U8 => "u8"@,
            Type::I8 => "i8"@,
            Type::U16 => "u16"@,
            Type::I16 => "i16"@,
            Type::U32 => "u32"@,
            Type::I32 => "i32"@,
            Type::Float => "float"@,
            Type::Boolean => "bool"@,
        }
    }

    /// The type that a name in program text stands for, if it is one.
    pub open spec fn named(name: Seq<char>) -> Option<Type> {
        if name == "u8"@ {
            Some(Type::U8)
        } else if name == "i8"@ {
            Some(Type::I8)
        } else if name == "u16"@ {
            Some(Type::U16)
        } else if name == "i16"@ {
            Some(Type::I16)
        } else if name == "u32"@ {
            Some(Type::U32)
        } else if name == "i32"@ {
            Some(Type::I32)
        } else if name == "float"@ {
            Some(Type::Float)
        } else if name == "bool"@ {
            Some(Type::Boolean)
        } else {
            None
        }
    }

    /// The name of this type in program text.
    pub fn name(&self) -> (text: &'static str)
        ensures
            text@ == self.label(),
    {
        match self {
            Type::U8 => "u8",
            Type::I8 => "i8",
            Type::U16 => "u16",
            Type::I16 => "i16",
            Type::U32 => "u32",
            Type::I32 => "i32",
            Type::Float => "float",
            Type::Boolean => "bool",
        }
    }
}

/// Whether `value` is the text `name`.
fn text_is(value: &String, name: &str) -> (same: bool)
    ensures
        same == (value@ == name@),
{
    *value == String::from_str(name)
}

impl TryFrom<String> for Type {
    type Error = ();

    /// Reads a type's name; any other text is an error.
    fn try_from(value: String) -> (r: Result<Self, ()>) {
        if text_is(&value, "u8") {
            Ok(Type::U8)
        } else if text_is(&value, "i8") {
            Ok(Type::I8)
        } else if text_is(&value, "u16") {
            Ok(Type::U16)
        } else if text_is(&value, "i16") {
            Ok(Type::I16)
        } else if text_is(&value, "u32") {
            Ok(Type::U32)
        } else if text_is(&value, "i32") {
            Ok(Type::I32)
        } else if text_is(&value, "float") {
            Ok(Type::Float)
        } else if text_is(&value, "bool") {
            Ok(Type::Boolean)
        } else {
            Err(())
        }
    }
}

impl TryFromSpecImpl<String> for Type {
    open spec fn obeys_try_from_spec() -> bool {
        true
    }

    open spec fn try_from_spec(value: String) -> Result<Self, ()> {
        match Type::named(value@) {
            Some(t) => Ok(t),
            None => Err(()),
        }
    }
}

/// A type's name stands for the type, and for no other.
pub proof fn name_stands_for_type(t: Type)
    ensures
        Type::named(t.label()) == Some(t),
{
    reveal_strlit("u8");
    reveal_strlit("i8");
    reveal_strlit("u16");
    reveal_strlit("i16");
    reveal_strlit("u32");
    reveal_strlit("i32");
    reveal_strlit("float");
    reveal_strlit("bool");
    match t {
        Type::U8 => {},
        Type::I8 => {
            assert("i8"@[0] != "u8"@[0]);
        },
        Type::U16 => {
            assert("u16"@.len() != "u8"@.len());
            assert("u16"@[0] != "i8"@[0]);
        },
        Type::I16 => {
            assert("i16"@.len() != "u8"@.len());
            assert("i16"@.len() != "i8"@.len());
            assert("i16"@[0] != "u16"@[0]);
        },
        Type::U32 => {
            assert("u32"@.len() != "u8"@.len());
            assert("u32"@.len() != "i8"@.len());
            assert("u32"@[1] != "u16"@[1]);
            assert("u32"@[0] != "i16"@[0]);
        },
        Type::I32 => {
            assert("i32"@.len() != "u8"@.len());
            assert("i32"@.len() != "i8"@.len());
            assert("i32"@[0] != "u16"@[0]);
            assert("i32"@[1] != "i16"@[1]);
            assert("i32"@[0] != "u32"@[0]);
        },
        Type::Float => {
            assert("float"@.len() == 5);
        },
        Type::Boolean => {
            assert("bool"@.len() == 4);
        },
    }
}

/// One entry of the mnemonic listing: what an opcode is called in program
/// text, with the operands that the text gives it.
#[derive(Clone, Copy, Debug, PartialEq, Eq, Structural)]
pub enum Instruction {
    Noop,
    Load(Type),
    System(u8),
    Interrupt,
    Copy,
    Swap,
    Read(Type),
    Write(Type),
    Jump(u32),
    Branch(u32),
    Call(u32),
    Return,
    Left(Type),
    Right(Type),
    Move,
    Pointer,
    Add(Type),
    Subtract(Type),
    Multiply(Type),
    Divide(Type),
    Compare(Type),
    And(Type),
    Or(Type),
    Not(Type),
    Cast(Type, Type),
}

/// The big-endian identifier in the four bytes after `index`, or nothing
/// where those bytes do not all lie in the program.
pub open spec fn id_after(program: Seq<u8>, index: int) -> Option<u32> {
    if index + 4 < program.len() {
        Some(be32(program.subrange(index + 1, index + 5)))
    } else {
        None
    }
}

/// Reads the big-endian identifier in the four bytes after `index`.
pub fn get_id(index: usize, slice: &[u8]) -> (id: Option<u32>)
    ensures
        id == id_after(slice@, index as int),
{
    let length = slice.len();
    if length < 5 || index >= length - 4 {
        return None;
    }
    let word: [u8; 4] = [slice[index + 1], slice[index + 2], slice[index + 3], slice[index + 4]];
    assert(word@ =~= slice@.subrange(index + 1, index + 5));
    Some(u32_from_be(&word))
}

impl Instruction {
    /// The listing's entry for the opcode at `index` of the program. The
    /// upper five bits of the opcode choose the mnemonic. Jumps, branches
    /// and calls take the identifier that follows the opcode, and have no
    /// entry where the program ends before it. Nor is there an entry where
    /// `index` lies outside the program.
    pub open spec fn listed(program: Seq<u8>, index: int) -> Option<Instruction> {
        if index >= program.len() {
            None
        } else {
            let instr = program[index];
            let t = Type::of_tag(instr);
            match instr / 8 {
                0 => Some(Instruction::Noop),
                1 => Some(Instruction::Load(t)),
                2 => Some(Instruction::System(instr | 7)),
                3 => Some(Instruction::Interrupt),
                4 => Some(Instruction::Copy),
                5 => Some(Instruction::Swap),
                6 => Some(Instruction::Read(t)),
                7 => Some(Instruction::Write(t)),
                8 => match id_after(program, index) {
                    Some(id) => Some(Instruction::Jump(id)),
                    None => None,
                },
                9 => match id_after(program, index) {
                    Some(id) => Some(Instruction::Branch(id)),
                    None => None,
                },
                10 => match id_after(program, index) {
                    Some(id) => Some(Instruction::Call(id)),
                    None => None,
                },
                11 => Some(Instruction::Return),
                12 => Some(Instruction::Left(t)),
                13 => Some(Instruction::Right(t)),
                14 => Some(Instruction::Move),
                15 => Some(Instruction::Pointer),
                16 => Some(Instruction::Add(t)),
                17 => Some(Instruction::Subtract(t)),
                18 => Some(Instruction::Multiply(t)),
                19 => Some(Instruction::Divide(t)),
                20 => Some(Instruction::Compare(t)),
                21 => Some(Instruction::And(t)),
                22 => Some(Instruction::Or(t)),
                23 => Some(Instruction::Not(t)),
                _ => Some(Instruction::Cast(t, Type::of_tag((instr / 8) as u8))),
            }
        }
    }

    /// Looks up the opcode at `index` of a program in the listing.
    pub fn get(slice: &[u8], index: usize) -> (entry: Option<Instruction>)
        ensures
            entry == Instruction::listed(slice@, index as int),
    {
        if slice.len() <= index {
            return None;
        }
        let instr = slice[index];
        let instr_type = Type::from_tag(instr);
        assert((instr & !7u8) >> 3 == instr / 8) by (bit_vector);
        let upper: u8 = (instr & !crate::constants::TYPE) >> 3;
        Some(
            match upper {
                0 => Instruction::Noop,
                1 => Instruction::Load(instr_type),
                2 => Instruction::System(instr | crate::constants::TYPE),
                3 => Instruction::Interrupt,
                4 => Instruction::Copy,
                5 => Instruction::Swap,
                6 => Instruction::Read(instr_type),
                7 => Instruction::Write(instr_type),
                8 => Instruction::Jump(get_id(index, slice)?),
                9 => Instruction::Branch(get_id(index, slice)?),
                10 => Instruction::Call(get_id(index, slice)?),
                11 => Instruction::Return,
                12 => Instruction::Left(instr_type),
                13 => Instruction::Right(instr_type),
                14 => Instruction::Move,
                15 => Instruction::Pointer,
                16 => Instruction::Add(instr_type),
                17 => Instruction::Subtract(instr_type),
                18 => Instruction::Multiply(instr_type),
                19 => Instruction::Divide(instr_type),
                20 => Instruction::Compare(instr_type),
                21 => Instruction::And(instr_type),
                22 => Instruction::Or(instr_type),
                23 => Instruction::Not(instr_type),
                _ => Instruction::Cast(instr_type, Type::from_tag(upper)),
            },
        )
    }

    /// The mnemonic of this entry in program text.
    pub open spec fn word(self) -> Seq<char> {
        match self {
            Instruction::Noop => "noop"@,
            Instruction::Load(_) => "load"@,
            Instruction::System(_) => "system"@,
            Instruction::Interrupt => "interrupt"@,
            Instruction::Copy => "copy"@,
            Instruction::Swap => "swap"@,
            Instruction::Read(_) => "read"@,
            Instruction::Write(_) => "write"@,
            Instruction::Jump(_) => "jump"@,
            Instruction::Branch(_) => "branch"@,
            Instruction::Call(_) => "call"@,
            Instruction::Return => "return"@,
            Instruction::Left(_) => "left"@,
            Instruction::Right(_) => "right"@,
            Instruction::Move => "move"@,
            Instruction::Pointer => "pointer"@,
            Instruction::Add(_) => "add"@,
            Instruction::Subtract(_) => "subtract"@,
            Instruction::Multiply(_) => "multiply"@,
            Instruction::Divide(_) => "divide"@,
            Instruction::Compare(_) => "compare"@,
            Instruction::And(_) => "and"@,
            Instruction::Or(_) => "or"@,
            Instruction::Not(_) => "not"@,
            Instruction::Cast(_, _) => "cast"@,
        }
    }

    /// The mnemonic of this entry in program text.
    pub fn mnemonic(&self) -> (text: &'static str)
        ensures
            text@ == self.word(),
    {
        match self {
            Instruction::Noop => "noop",
            Instruction::Load(_) => "load",
            Instruction::System(_) => "system",
            Instruction::Interrupt => "interrupt",
            Instruction::Copy => "copy",
            Instruction::Swap => "swap",
            Instruction::Read(_) => "read",
            Instruction::Write(_) => "write",
            Instruction::Jump(_) => "jump",
            Instruction::Branch(_) => "branch",
            Instruction::Call(_) => "call",
            Instruction::Return => "return",
            Instruction::Left(_) => "left",
            Instruction::Right(_) => "right",
            Instruction::Move => "move",
            Instruction::Pointer => "pointer",
            Instruction::Add(_) => "add",
            Instruction::Subtract(_) => "subtract",
            Instruction::Multiply(_) => "multiply",
            Instruction::Divide(_) => "divide",
            Instruction::Compare(_) => "compare",
            Instruction::And(_) => "and",
            Instruction::Or(_) => "or",
            Instruction::Not(_) => "not",
            Instruction::Cast(_, _) => "cast",
        }
    }
}

/// The character of a decimal digit.
pub open spec fn digit_char(d: nat) -> char
    recommends
        d < 10,
{
    ('0' as u8 + d) as char
}

/// A number written in decimal, without sign or leading zeros.
pub open spec fn decimal(n: nat) -> Seq<char>
    decreases n,
{
    if n < 10 {
        seq![digit_char(n)]
    } else {
        decimal(n / 10).push(digit_char(n % 10))
    }
}

/// The text of one decimal digit.
fn digit_text(d: u32) -> (text: &'static str)
    requires
        d < 10,
    ensures
        text@ == seq![digit_char(d as nat)],
{
    proof {
        reveal_strlit("0");
        reveal_strlit("1");
        reveal_strlit("2");
        reveal_strlit("3");
        reveal_strlit("4");
        reveal_strlit("5");
        reveal_strlit("6");
        reveal_strlit("7");
        reveal_strlit("8");
        reveal_strlit("9");
    }
    let text = match d {
        0 => "0",
        1 => "1",
        2 => "2",
        3 => "3",
        4 => "4",
        5 => "5",
        6 => "6",
        7 => "7",
        8 => "8",
        _ => "9",
    };
    assert(text@ =~= seq![digit_char(d as nat)]);
    text
}

/// Writes a number in decimal.
pub fn to_decimal(n: u32) -> (text: String)
    ensures
        text@ == decimal(n as nat),
    decreases n,
{
    if n < 10 {
        String::from_str(digit_text(n))
    } else {
        let mut text = to_decimal(n / 10);
        text.append(digit_text(n % 10));
        assert(text@ =~= decimal(n as nat));
        text
    }
}

/// Whether the character is ASCII whitespace: space, tab, line feed, form
/// feed or carriage return.
pub open spec fn is_space(c: char) -> bool {
    c == ' ' || c == '\t' || c == '\n' || c == '\u{0C}' || c == '\r'
}

/// Whether no character of `text` from `from` up to `to` is whitespace.
pub open spec fn no_space(text: Seq<char>, from: int, to: int) -> bool {
    forall|i: int| from <= i < to ==> !is_space(#[trigger] text[i])
}

impl Instruction {
    /// The first operand of this entry as program text; empty where it has none.
    pub open spec fn first_operand(self) -> Seq<char> {
        match self {
            Instruction::Load(t)
            | Instruction::Read(t)
            | Instruction::Write(t)
            | Instruction::Left(t)
            | Instruction::Right(t)
            | Instruction::Add(t)
            | Instruction::Subtract(t)
            | Instruction::Multiply(t)
            | Instruction::Divide(t)
            | Instruction::Compare(t)
            | Instruction::And(t)
            | Instruction::Or(t)
            | Instruction::Not(t)
            | Instruction::Cast(t, _) => t.label(),
            Instruction::System(n) => decimal(n as nat),
            Instruction::Jump(id) | Instruction::Branch(id) | Instruction::Call(id) => decimal(
                id as nat,
            ),
            _ => Seq::empty(),
        }
    }

    /// The second operand of this entry as program text; empty where it has none.
    pub open spec fn second_operand(self) -> Seq<char> {
        match self {
            Instruction::Cast(_, t) => t.label(),
            _ => Seq::empty(),
        }
    }

    /// This entry as program text: the mnemonic, a space, the first
    /// operand, a space, the second operand.
    pub open spec fn rendered(self) -> Seq<char> {
        self.word() + " "@ + self.first_operand() + " "@ + self.second_operand()
    }

    /// Writes this entry as program text.
    pub fn text(&self) -> (text: String)
        ensures
            text@ == self.rendered(),
    {
        let mut text = String::from_str(self.mnemonic());
        text.append(" ");
        match self {
            Instruction::Load(t)
            | Instruction::Read(t)
            | Instruction::Write(t)
            | Instruction::Left(t)
            | Instruction::Right(t)
            | Instruction::Add(t)
            | Instruction::Subtract(t)
            | Instruction::Multiply(t)
            | Instruction::Divide(t)
            | Instruction::Compare(t)
            | Instruction::And(t)
            | Instruction::Or(t)
            | Instruction::Not(t)
            | Instruction::Cast(t, _) => {
                text.append(t.name());
            },
            Instruction::System(n) => {
                let number = to_decimal(*n as u32);
                text.append(number.as_str());
            },
            Instruction::Jump(id) | Instruction::Branch(id) | Instruction::Call(id) => {
                let number = to_decimal(*id);
                text.append(number.as_str());
            },
            _ => {
                assert(text@ + Seq::<char>::empty() =~= text@);
            },
        }
        text.append(" ");
        match self {
            Instruction::Cast(_, t) => {
                text.append(t.name());
            },
            _ => {
                assert(text@ + Seq::<char>::empty() =~= text@);
            },
        }
        text
    }

    /// Reads the word of `text` that starts at `from`: the characters up
    /// to the next whitespace. Gives the word and the position after that
    /// whitespace, or nothing where the text ends before any whitespace.
    pub fn get_word(text: &str, from: usize) -> (r: Option<(String, usize)>)
        requires
            from <= text@.len(),
        ensures
            match r {
                Some((word, next)) => {
                    &&& from < next <= text@.len()
                    &&& is_space(text@[next - 1])
                    &&& no_space(text@, from as int, next - 1)
                    &&& word@ == text@.subrange(from as int, next - 1)
                },
                None => no_space(text@, from as int, text@.len() as int),
            },
    {
        let length = text.unicode_len();
        let mut i: usize = from;
        while i < length
            invariant
                from <= i <= length,
                length == text@.len(),
                no_space(text@, from as int, i as int),
            decreases length - i,
        {
            let c = text.get_char(i);
            if c == ' ' || c == '\t' || c == '\n' || c == '\u{0C}' || c == '\r' {
                let word = String::from_str(text.substring_char(from, i));
                return Some((word, i + 1));
            }
            i += 1;
        }
        None
    }
}

} // verus!
