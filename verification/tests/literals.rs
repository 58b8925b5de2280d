use lasagna::parser::Literal;

#[test]
fn booleans() {
    assert_eq!(Literal::parse("true"), Ok(Literal::Boolean(true)));
    assert_eq!(Literal::parse("false"), Ok(Literal::Boolean(false)));
}

#[test]
fn integers_take_their_type_from_the_suffix() {
    assert_eq!(Literal::parse("200_u8"), Ok(Literal::U8(200)));
    assert_eq!(Literal::parse("-128_i8"), Ok(Literal::I8(-128)));
    assert_eq!(Literal::parse("65535_u16"), Ok(Literal::U16(65535)));
    assert_eq!(Literal::parse("-32768_i16"), Ok(Literal::I16(-32768)));
    assert_eq!(Literal::parse("4294967295_u32"), Ok(Literal::U32(4294967295)));
    assert_eq!(Literal::parse("-2147483648_i32"), Ok(Literal::I32(-2147483648)));
    assert_eq!(Literal::parse("2147483647_i32"), Ok(Literal::I32(2147483647)));
    assert_eq!(Literal::parse("+7_u8"), Ok(Literal::U8(7)));
    assert_eq!(Literal::parse("+7_i8"), Ok(Literal::I8(7)));
    assert_eq!(Literal::parse("007_u8"), Ok(Literal::U8(7)));
    assert_eq!(Literal::parse("-0_i8"), Ok(Literal::I8(0)));
    assert_eq!(Literal::parse("0000000000000000000000255_u8"), Ok(Literal::U8(255)));
}

#[test]
fn integers_out_of_range_or_malformed_are_errors() {
    for text in [
        "256_u8",
        "-1_u8",
        "-0_u8",
        "128_i8",
        "-129_i8",
        "65536_u16",
        "32768_i16",
        "4294967296_u32",
        "2147483648_i32",
        "-2147483649_i32",
        "99999999999999999999999999_u32",
        "_u8",
        "+_u8",
        "-_i8",
        "1 _u8",
        " 1_u8",
        "1_2_u8",
        "0x10_u8",
        "1.0_u8",
        "++1_u8",
        "+-1_i8",
        "1-_i8",
        "\u{0661}_u8",
    ] {
        assert_eq!(Literal::parse(text), Err(()), "{:?}", text);
    }
}

#[test]
fn integers_read_as_the_standard_library_reads_them() {
    let bodies = [
        "0", "1", "-1", "+1", "127", "128", "-128", "-129", "255", "256", "32767", "32768",
        "-32768", "-32769", "65535", "65536", "2147483647", "2147483648", "-2147483648",
        "-2147483649", "4294967295", "4294967296", "", "+", "-", "00", "-00", "+00", "1a", "a1",
        " 1", "1 ", "--1", "18446744073709551616",
    ];
    for body in bodies {
        assert_eq!(
            Literal::parse(&format!("{}_u8", body)),
            body.parse::<u8>().map(Literal::U8).map_err(|_| ()),
            "{:?}",
            body
        );
        assert_eq!(
            Literal::parse(&format!("{}_i8", body)),
            body.parse::<i8>().map(Literal::I8).map_err(|_| ())
        );
        assert_eq!(
            Literal::parse(&format!("{}_u16", body)),
            body.parse::<u16>().map(Literal::U16).map_err(|_| ())
        );
        assert_eq!(
            Literal::parse(&format!("{}_i16", body)),
            body.parse::<i16>().map(Literal::I16).map_err(|_| ())
        );
        assert_eq!(
            Literal::parse(&format!("{}_u32", body)),
            body.parse::<u32>().map(Literal::U32).map_err(|_| ())
        );
        assert_eq!(
            Literal::parse(&format!("{}_i32", body)),
            body.parse::<i32>().map(Literal::I32).map_err(|_| ())
        );
    }
}

#[test]
fn other_text_is_a_string_with_its_quotes_resolved() {
    assert_eq!(Literal::parse("foo"), Ok(Literal::String("foo".to_string())));
    assert_eq!(
        Literal::parse("'String with spaces'"),
        Ok(Literal::String("String with spaces".to_string()))
    );
    assert_eq!(
        Literal::parse("\"new\\nline\""),
        Ok(Literal::String("new\nline".to_string()))
    );
    assert_eq!(
        Literal::parse("'some spaces'_some_unquoted_\"and a \\t tab\""),
        Ok(Literal::String("some spaces_some_unquoted_and a \t tab".to_string()))
    );
    assert_eq!(Literal::parse("\"\\u{65b9}\""), Ok(Literal::String("\u{65b9}".to_string())));
    assert_eq!(Literal::parse(""), Ok(Literal::String(String::new())));
    assert_eq!(Literal::parse("True"), Ok(Literal::String("True".to_string())));
    assert_eq!(Literal::parse("1_u64"), Ok(Literal::String("1_u64".to_string())));
    assert_eq!(Literal::parse("'true'"), Ok(Literal::String("true".to_string())));
}

#[test]
fn text_that_cannot_be_unquoted_is_an_error() {
    assert_eq!(Literal::parse("\"bad \\q escape\""), Err(()));
    assert_eq!(Literal::parse("\"dangling\\"), Err(()));
    assert_eq!(Literal::parse("\"\\u{110000}\""), Err(()));
    assert_eq!(Literal::parse("\"\\u65b9\""), Err(()));
}

#[test]
fn quoted_takes_what_unescaping_gave() {
    assert_eq!(
        Literal::quoted(snailquote::unescape("'a b'")),
        Ok(Literal::String("a b".to_string()))
    );
    assert_eq!(Literal::quoted(Ok("kept as is".to_string())), Ok(Literal::String("kept as is".to_string())));
    assert_eq!(Literal::quoted(snailquote::unescape("\"\\q\"")), Err(()));
}

#[test]
fn suffix_wins_over_quoting() {
    assert_eq!(Literal::parse("'5'_u8"), Err(()));
    assert_eq!(Literal::parse("true_u8"), Err(()));
}
