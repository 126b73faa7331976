use enclave::text::{int_to_decimal, is_white_space, trim, unsigned_to_decimal};

#[test]
fn white_space_agrees_with_std_for_every_char() {
    for code in 0u32..=0x10FFFF {
        if let Some(c) = char::from_u32(code) {
            assert_eq!(is_white_space(c), c.is_whitespace(), "code point {:#x}", code);
        }
    }
}

#[test]
fn trim_matches_std_trim() {
    let samples = [
        "",
        "   ",
        "  Ali  ",
        "\t\nMess Hall\u{3000}",
        "\u{a0}x\u{2028}",
        "no-space",
        " a b ",
        "\u{85}\u{1680}",
    ];
    for s in samples {
        assert_eq!(trim(s), s.trim());
    }
}

#[test]
fn trim_keeps_inner_spaces() {
    assert_eq!(trim("  Ahmad bin Ali \t"), "Ahmad bin Ali");
}

#[test]
fn decimal_rendering_matches_to_string() {
    let samples: [i64; 9] = [0, 7, 10, 42, 900101, -1, -305, i64::MAX, i64::MIN];
    for n in samples {
        assert_eq!(int_to_decimal(n), n.to_string());
    }
    assert_eq!(int_to_decimal(i32::MAX as i64), "2147483647");
    assert_eq!(int_to_decimal(i32::MIN as i64), "-2147483648");
    assert_eq!(unsigned_to_decimal(u64::MAX), u64::MAX.to_string());
    assert_eq!(unsigned_to_decimal(401), "401");
}
