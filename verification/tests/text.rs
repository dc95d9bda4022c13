use libbeaglebone::text::{decimal_string, parse_u32, trimmed};

#[test]
fn decimal_string_writes_every_digit() {
    assert_eq!(decimal_string(0), "0");
    assert_eq!(decimal_string(7), "7");
    assert_eq!(decimal_string(10), "10");
    assert_eq!(decimal_string(69), "69");
    assert_eq!(decimal_string(100), "100");
    assert_eq!(decimal_string(500_000), "500000");
    assert_eq!(decimal_string(1_234_567_890), "1234567890");
    assert_eq!(decimal_string(4_294_967_295), "4294967295");
}

#[test]
fn decimal_string_agrees_with_the_standard_formatting() {
    let mut n: u32 = 1;
    for _ in 0..40 {
        assert_eq!(decimal_string(n), n.to_string());
        n = n.wrapping_mul(2_654_435_761).wrapping_add(12_345);
    }
}

#[test]
fn trimmed_takes_white_space_off_both_ends() {
    assert_eq!(trimmed("1\n"), "1");
    assert_eq!(trimmed("  12 34 \t\r\n"), "12 34");
    assert_eq!(trimmed(""), "");
    assert_eq!(trimmed(" \n\t "), "");
    assert_eq!(trimmed("abc"), "abc");
    assert_eq!(trimmed("\u{a0}x\u{3000}"), "x");
    assert_eq!(trimmed("\u{2003}\u{85}caf\u{e9}\u{2028}\u{2029}"), "caf\u{e9}");
    assert_eq!(trimmed("\u{200b}x"), "\u{200b}x");
    assert_eq!(trimmed("\u{1c}x\u{1f}"), "\u{1c}x\u{1f}");
}

#[test]
fn trimmed_agrees_with_the_standard_trimming() {
    let samples: [&str; 8] = [
        "\u{9}\u{a}\u{b}\u{c}\u{d} x \u{1680}",
        "\u{2000}\u{2001}\u{2002}\u{200a}y\u{202f}\u{205f}",
        "\u{8}z\u{e}",
        "\u{180e}w",
        "\u{feff}v",
        " \u{e9} ",
        "\u{2007}0\u{2008}",
        "\u{200b}",
    ];
    for sample in samples {
        assert_eq!(trimmed(sample), sample.trim());
    }
}

#[test]
fn parse_u32_reads_decimal_numerals() {
    assert_eq!(parse_u32("0"), Some(0));
    assert_eq!(parse_u32("1234"), Some(1234));
    assert_eq!(parse_u32("+1234"), Some(1234));
    assert_eq!(parse_u32("0042"), Some(42));
    assert_eq!(parse_u32("4294967295"), Some(4_294_967_295));
    assert_eq!(parse_u32("+4294967295"), Some(4_294_967_295));
    assert_eq!(parse_u32("000004294967295"), Some(4_294_967_295));
}

#[test]
fn parse_u32_refuses_everything_else() {
    let refused: [&str; 14] = [
        "",
        "+",
        "-",
        "-0",
        "++1",
        "1+",
        " 1",
        "1 ",
        "1_000",
        "0x10",
        "4294967296",
        "4294967300",
        "42949672950",
        "\u{661}",
    ];
    for text in refused {
        assert_eq!(parse_u32(text), None);
    }
}

#[test]
fn parse_u32_agrees_with_the_standard_parsing() {
    let samples: [&str; 10] =
        ["12", "+0", "-5", "", "+", "4294967295", "4294967296", "9a", "00", "1e3"];
    for sample in samples {
        assert_eq!(parse_u32(sample), sample.parse::<u32>().ok());
    }
}

#[test]
fn parse_u32_reads_what_decimal_string_wrote() {
    let numbers: [u32; 7] = [0, 9, 10, 99, 100, 65_536, 4_294_967_295];
    for n in numbers {
        assert_eq!(parse_u32(&decimal_string(n)), Some(n));
    }
}

#[test]
fn trimmed_removes_exactly_the_white_space_of_unicode() {
    let mut code: u32 = 0;
    while code <= 0x10FFFF {
        if let Some(c) = char::from_u32(code) {
            let alone = c.to_string();
            assert_eq!(trimmed(&alone).is_empty(), c.is_whitespace());
            let around = format!("{}x{}", c, c);
            assert_eq!(trimmed(&around), around.trim());
        }
        code += if code < 0x3100 { 1 } else { 0x101 };
    }
}

#[test]
fn parse_u32_agrees_with_the_standard_parsing_near_the_limit() {
    let mut n: u64 = 4_294_967_200;
    while n < 4_294_967_400 {
        let text = n.to_string();
        assert_eq!(parse_u32(&text), text.parse::<u32>().ok());
        let signed = format!("+{}", n);
        assert_eq!(parse_u32(&signed), signed.parse::<u32>().ok());
        n += 1;
    }
}
