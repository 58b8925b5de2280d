//! Literals of program text: booleans, integers with a type suffix, and
//! quoted strings.

use vstd::prelude::*;
use crate::structures::Type;
use crate::value::in_range;

verus! {

/// The error of [`snailquote::unescape`]; nothing of it is looked at.
#[verifier::external_type_specification]
#[verifier::external_body]
pub struct ExUnescapeError(snailquote::UnescapeError);

/// A literal as program text gives it.
#[derive(Clone, Debug, PartialEq)]
pub enum Literal {
    /// A float, as its IEEE-754 word.
    Float(u32),
    Boolean(bool),
    U8(u8),
    I8(i8),
    U16(u16),
    I16(i16),
    U32(u32),
    I32(i32),
    String(String),
    Bytes(Vec<u8>),
}

/// What a literal says, as mathematics.
pub enum Meaning {
    Float(u32),
    Boolean(bool),
    /// An integer of the given type.
    Integer(Type, int),
    Text(Seq<char>),
    Bytes(Seq<u8>),
}

impl View for Literal {
    type V = Meaning;

    open spec fn view(&self) -> Meaning {
        match self {
            Literal::Float(w) => Meaning::Float(*w),
            Literal::Boolean(b) => Meaning::Boolean(*b),
            Literal::U8(n) => Meaning::Integer(Type::U8, *n as int),
            Literal::I8(n) => Meaning::Integer(Type::I8, *n as int),
            Literal::U16(n) => Meaning::Integer(Type::U16, *n as int),
            Literal::I16(n) => Meaning::Integer(Type::I16, *n as int),
            Literal::U32(n) => Meaning::Integer(Type::U32, *n as int),
            Literal::I32(n) => Meaning::Integer(Type::I32, *n as int),
            Literal::String(s) => Meaning::Text(s@),
            Literal::Bytes(b) => Meaning::Bytes(b@),
        }
    }
}

/// What [`snailquote::unescape`] makes of a text: the text it returns, or
/// nothing where it returns an error.
pub uninterp spec fn unescaped(text: Seq<char>) -> Option<Seq<char>>;

/// Resolves shell-like quotes and escapes with [`snailquote::unescape`].
/// The outcome depends on the text alone; it goes by the name
/// [`unescaped`], of which nothing more is claimed.
#[verifier::external_body]
fn unescape(raw: &str) -> (r: Result<String, snailquote::UnescapeError>)
    ensures
        match r {
            Ok(text) => unescaped(raw@) == Some(text@),
            Err(_) => unescaped(raw@) is None,
        },
{
    snailquote::unescape(raw)
}

/// Whether the character is a decimal digit.
pub open spec fn is_digit(c: char) -> bool {
    '0' <= c <= '9'
}

/// Whether every character is a decimal digit.
pub open spec fn all_digits(s: Seq<char>) -> bool {
    forall|i: int| 0 <= i < s.len() ==> is_digit(#[trigger] s[i])
}

/// The number that a run of decimal digits spells.
pub open spec fn spelled(s: Seq<char>) -> int
    decreases s.len(),
{
    if s.len() == 0 {
        0
    } else {
        spelled(s.drop_last()) * 10 + (s.last() as int - '0' as int)
    }
}

/// The integer that a text spells: an optional sign, `+` always and `-`
/// where `signed` is set, then at least one decimal digit and nothing else.
pub open spec fn integer(s: Seq<char>, signed: bool) -> Option<int> {
    let negative = signed && s.len() > 0 && s[0] == '-';
    let digits = if s.len() > 0 && (s[0] == '+' || negative) {
        s.skip(1)
    } else {
        s
    };
    if digits.len() == 0 || !all_digits(digits) {
        None
    } else if negative {
        Some(-spelled(digits))
    } else {
        Some(spelled(digits))
    }
}

/// The integer of type `t` that a text spells, if it spells one that the
/// type holds.
pub open spec fn integer_of(s: Seq<char>, t: Type) -> Option<int> {
    match integer(s, t.is_signed()) {
        Some(n) => if in_range(t, n) {
            Some(n)
        } else {
            None
        },
        None => None,
    }
}

/// Whether `s` ends with `suffix`.
pub open spec fn ends_with(s: Seq<char>, suffix: Seq<char>) -> bool {
    s.len() >= suffix.len() && s.skip(s.len() - suffix.len()) == suffix
}

/// The integer type that a literal's suffix names, if it has one. The
/// suffixes are tried in this order: `_u8`, `_i8`, `_u16`, `_i16`,
/// `_u32`, `_i32`.
pub open spec fn suffix_type(s: Seq<char>) -> Option<Type> {
    if ends_with(s, "_u8"@) {
        Some(Type::U8)
    } else if ends_with(s, "_i8"@) {
        Some(Type::I8)
    } else if ends_with(s, "_u16"@) {
        Some(Type::U16)
    } else if ends_with(s, "_i16"@) {
        Some(Type::I16)
    } else if ends_with(s, "_u32"@) {
        Some(Type::U32)
    } else if ends_with(s, "_i32"@) {
        Some(Type::I32)
    } else {
        None
    }
}

/// How long the suffix of an integer type is, underscore included.
pub open spec fn suffix_length(t: Type) -> int {
    match t {
        Type::U8 | Type::I8 => 3,
        _ => 4,
    }
}

/// What a literal's text means, given what `unescaped` makes of it.
///
/// * `true` and `false` are the booleans.
/// * A text with an integer type's suffix is the integer of that type
///   that the text before the suffix spells, and an error where it spells
///   none.
/// * Any other text is the string that resolving its quotes gives, and an
///   error where they cannot be resolved.
pub open spec fn meaning(raw: Seq<char>, resolved: Option<Seq<char>>) -> Result<Meaning, ()> {
    if raw == "true"@ {
        Ok(Meaning::Boolean(true))
    } else if raw == "false"@ {
        Ok(Meaning::Boolean(false))
    } else {
        match suffix_type(raw) {
            Some(t) => match integer_of(raw.take(raw.len() - suffix_length(t)), t) {
                Some(n) => Ok(Meaning::Integer(t, n)),
                None => Err(()),
            },
            None => match resolved {
                Some(text) => Ok(Meaning::Text(text)),
                None => Err(()),
            },
        }
    }
}

/// Whether two texts are the same.
fn same(a: &str, b: &str) -> (r: bool)
    ensures
        r == (a@ == b@),
{
    let n = a.unicode_len();
    if n != b.unicode_len() {
        return false;
    }
    let mut i: usize = 0;
    while i < n
        invariant
            i <= n,
            n == a@.len(),
            n == b@.len(),
            forall|j: int| 0 <= j < i ==> a@[j] == b@[j],
        decreases n - i,
    {
        if a.get_char(i) != b.get_char(i) {
            return false;
        }
        i += 1;
    }
    assert(a@ =~= b@);
    true
}

/// The text before `suffix`, where `raw` ends with it.
fn strip_suffix<'a>(raw: &'a str, suffix: &str) -> (r: Option<&'a str>)
    ensures
        r is Some == ends_with(raw@, suffix@),
        r matches Some(rest) ==> rest@ == raw@.take(raw@.len() - suffix@.len()),
{
    let n = raw.unicode_len();
    let m = suffix.unicode_len();
    if n < m {
        return None;
    }
    let tail = raw.substring_char(n - m, n);
    assert(tail@ =~= raw@.skip(raw@.len() - suffix@.len()));
    if same(tail, suffix) {
        let rest = raw.substring_char(0, n - m);
        assert(rest@ =~= raw@.take(raw@.len() - suffix@.len()));
        Some(rest)
    } else {
        None
    }
}

/// A run of digits spells at least what any of its beginnings spells.
proof fn spelled_grows(s: Seq<char>, k: int)
    requires
        all_digits(s),
        0 <= k <= s.len(),
    ensures
        0 <= spelled(s.take(k)) <= spelled(s),
    decreases s.len() - k,
{
    if k == s.len() {
        assert(s.take(k) =~= s);
        spelled_is_natural(s);
    } else {
        spelled_grows(s, k + 1);
        assert(s.take(k + 1).drop_last() =~= s.take(k));
        spelled_is_natural(s.take(k));
    }
}

/// A run of digits spells no negative number.
proof fn spelled_is_natural(s: Seq<char>)
    requires
        all_digits(s),
    ensures
        0 <= spelled(s),
    decreases s.len(),
{
    if s.len() > 0 {
        spelled_is_natural(s.drop_last());
    }
}

/// Reads the integer that a text spells, where it lies between `least`
/// and `most`.
#[verifier::loop_isolation(false)]
fn parse_integer(text: &str, signed: bool, least: i64, most: i64) -> (r: Option<i64>)
    requires
        -0x8000_0000 <= least <= 0,
        0 <= most <= 0xFFFF_FFFF,
    ensures
        r == match integer(text@, signed) {
            Some(n) => if least <= n <= most {
                Some(n as i64)
            } else {
                None
            },
            None => None,
        },
{
    let n = text.unicode_len();
    if n == 0 {
        return None;
    }
    let first = text.get_char(0);
    let negative = signed && first == '-';
    let start: usize = if first == '+' || negative {
        1
    } else {
        0
    };
    let ghost digits = text@.skip(start as int);
    assert(text@.skip(0) =~= text@);
    assert(digits.len() == n - start);
    if start == n {
        return None;
    }
    let mut total: i64 = 0;
    let mut i: usize = start;
    while i < n
        invariant
            start <= i <= n,
            n == text@.len(),
            digits == text@.skip(start as int),
            all_digits(digits.take(i - start)),
            total == spelled(digits.take(i - start)),
            0 <= total <= 0xFFFF_FFFF,
        decreases n - i,
    {
        let c = text.get_char(i);
        if c < '0' || c > '9' {
            assert(!is_digit(digits[i - start]));
            return None;
        }
        let d: i64 = (c as u32 - '0' as u32) as i64;
        let next: i64 = total * 10 + d;
        proof {
            assert(digits.take(i + 1 - start).drop_last() =~= digits.take(i - start));
            assert(digits.take(i + 1 - start).last() == c);
            assert(next == spelled(digits.take(i + 1 - start)));
            assert forall|j: int| 0 <= j < i + 1 - start implies is_digit(
                #[trigger] digits.take(i + 1 - start)[j],
            ) by {
                if j < i - start {
                    assert(digits.take(i - start)[j] == digits[j]);
                }
            }
        }
        if next > 0xFFFF_FFFF {
            proof {
                if all_digits(digits) {
                    spelled_grows(digits, i + 1 - start);
                }
            }
            return None;
        }
        total = next;
        i += 1;
    }
    assert(digits.take(n - start) =~= digits);
    let value: i64 = if negative {
        -total
    } else {
        total
    };
    if value < least || value > most {
        None
    } else {
        Some(value)
    }
}

impl Literal {
    /// The integer literal of type `t` that carries `n`.
    fn of_integer(t: Type, n: i64) -> (literal: Literal)
        requires
            t.is_integer(),
            in_range(t, n as int),
        ensures
            literal@ == Meaning::Integer(t, n as int),
    {
        match t {
            Type::U8 => Literal::U8(n as u8),
            Type::I8 => Literal::I8(n as i8),
            Type::U16 => Literal::U16(n as u16),
            Type::I16 => Literal::I16(n as i16),
            Type::U32 => Literal::U32(n as u32),
            _ => Literal::I32(n as i32),
        }
    }

    /// Reads the integer of type `t` that `digits` spells.
    fn suffixed(digits: &str, t: Type) -> (r: Result<Literal, ()>)
        requires
            t.is_integer(),
        ensures
            match integer_of(digits@, t) {
                Some(n) => r matches Ok(literal) && literal@ == Meaning::Integer(t, n),
                None => r is Err,
            },
    {
        let (signed, least, most): (bool, i64, i64) = match t {
            Type::U8 => (false, 0, 0xFF),
            Type::I8 => (true, -0x80, 0x7F),
            Type::U16 => (false, 0, 0xFFFF),
            Type::I16 => (true, -0x8000, 0x7FFF),
            Type::U32 => (false, 0, 0xFFFF_FFFF),
            _ => (true, -0x8000_0000, 0x7FFF_FFFF),
        };
        match parse_integer(digits, signed, least, most) {
            Some(n) => Ok(Literal::of_integer(t, n)),
            None => Err(()),
        }
    }

    /// The literal of a text that is neither a boolean nor an integer with
    /// a suffix, given what resolving its quotes gave: the string, or an
    /// error where that failed.
    pub fn quoted(resolved: Result<String, snailquote::UnescapeError>) -> (r: Result<Literal, ()>)
        ensures
            match resolved {
                Ok(text) => r matches Ok(literal) && literal@ == Meaning::Text(text@),
                Err(_) => r is Err,
            },
    {
        match resolved {
            Ok(text) => Ok(Literal::String(text)),
            Err(_) => Err(()),
        }
    }

    /// Reads a literal from its text.
    pub fn parse(raw: &str) -> (r: Result<Literal, ()>)
        ensures
            match meaning(raw@, unescaped(raw@)) {
                Ok(m) => r matches Ok(literal) && literal@ == m,
                Err(_) => r is Err,
            },
    {
        proof {
            reveal_strlit("_u8");
            reveal_strlit("_i8");
            reveal_strlit("_u16");
            reveal_strlit("_i16");
            reveal_strlit("_u32");
            reveal_strlit("_i32");
        }
        if same(raw, "true") {
            Ok(Literal::Boolean(true))
        } else if same(raw, "false") {
            Ok(Literal::Boolean(false))
        } else if let Some(digits) = strip_suffix(raw, "_u8") {
            Literal::suffixed(digits, Type::U8)
        } else if let Some(digits) = strip_suffix(raw, "_i8") {
            Literal::suffixed(digits, Type::I8)
        } else if let Some(digits) = strip_suffix(raw, "_u16") {
            Literal::suffixed(digits, Type::U16)
        } else if let Some(digits) = strip_suffix(raw, "_i16") {
            Literal::suffixed(digits, Type::I16)
        } else if let Some(digits) = strip_suffix(raw, "_u32") {
            Literal::suffixed(digits, Type::U32)
        } else if let Some(digits) = strip_suffix(raw, "_i32") {
            Literal::suffixed(digits, Type::I32)
        } else {
            Literal::quoted(unescape(raw))
        }
    }
}

} // verus!
