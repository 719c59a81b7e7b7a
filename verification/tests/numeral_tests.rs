use imager::numeral::{parse_i32, parse_u32, parse_u8};

fn corpus() -> Vec<String> {
    let mut texts: Vec<String> = [
        "", "0", "7", "007", "+7", "-7", "+", "-", "++7", "--7", "+-7", "-+7", " 7", "7 ", "7a",
        "a7", "1_000", "255", "256", "0255", "+255", "-0", "+0", "00", "4294967295", "4294967296",
        "04294967295", "2147483647", "2147483648", "-2147483648", "-2147483649", "+2147483647",
        "99999999999999999999999999", "-99999999999999999999999999", "1.5", "1e3", "0x10", "٣",
        "１２", "12\n", "\t12", "9", "10", "100", "18446744073709551616",
    ]
    .iter()
    .map(|t| t.to_string())
    .collect();
    for n in 0..300i64 {
        texts.push(n.to_string());
        texts.push(format!("-{}", n));
        texts.push(format!("+{}", n));
    }
    for n in [
        2147483390i64, 2147483646, 2147483647, 2147483648, 2147483649, 4294967294, 4294967295,
        4294967296, 4294967297, 42949672950, 21474836470,
    ]
    .iter()
    {
        texts.push(n.to_string());
        texts.push(format!("-{}", n));
    }
    texts
}

#[test]
fn parse_u8_exact_values() {
    assert_eq!(parse_u8("0"), Some(0));
    assert_eq!(parse_u8("255"), Some(255));
    assert_eq!(parse_u8("+12"), Some(12));
    assert_eq!(parse_u8("012"), Some(12));
    assert_eq!(parse_u8("256"), None);
    assert_eq!(parse_u8("-1"), None);
    assert_eq!(parse_u8(""), None);
    assert_eq!(parse_u8("+"), None);
    assert_eq!(parse_u8("1 "), None);
}

#[test]
fn parse_u32_exact_values() {
    assert_eq!(parse_u32("0"), Some(0));
    assert_eq!(parse_u32("4294967295"), Some(u32::MAX));
    assert_eq!(parse_u32("4294967296"), None);
    assert_eq!(parse_u32("100"), Some(100));
    assert_eq!(parse_u32("-0"), None);
    assert_eq!(parse_u32("12x"), None);
}

#[test]
fn parse_i32_exact_values() {
    assert_eq!(parse_i32("0"), Some(0));
    assert_eq!(parse_i32("-0"), Some(0));
    assert_eq!(parse_i32("50"), Some(50));
    assert_eq!(parse_i32("-50"), Some(-50));
    assert_eq!(parse_i32("+50"), Some(50));
    assert_eq!(parse_i32("2147483647"), Some(i32::MAX));
    assert_eq!(parse_i32("2147483648"), None);
    assert_eq!(parse_i32("-2147483648"), Some(i32::MIN));
    assert_eq!(parse_i32("-2147483649"), None);
    assert_eq!(parse_i32("-"), None);
    assert_eq!(parse_i32("--1"), None);
    assert_eq!(parse_i32("1.0"), None);
}

#[test]
fn parse_u8_agrees_with_std() {
    for text in corpus() {
        assert_eq!(parse_u8(&text), text.parse::<u8>().ok(), "on {:?}", text);
    }
}

#[test]
fn parse_u32_agrees_with_std() {
    for text in corpus() {
        assert_eq!(parse_u32(&text), text.parse::<u32>().ok(), "on {:?}", text);
    }
}

#[test]
fn parse_i32_agrees_with_std() {
    for text in corpus() {
        assert_eq!(parse_i32(&text), text.parse::<i32>().ok(), "on {:?}", text);
    }
}
