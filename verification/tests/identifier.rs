use rkaiq::text::{chars_of, dec_digit, hex_digit, parse_dec, parse_hex, same_text};
use rkaiq::types::{
    CameraFacing, CameraFacingParseError, CameraModuleInfo, CameraModuleInfoParseError,
    MODULE_PATTERN,
};

fn group(text: &str) -> Option<String> {
    Some(text.to_string())
}

#[test]
fn identifier_of_a_back_camera() {
    let info = CameraModuleInfo::from_str("m00_b_ov5695 4-0036-1").unwrap();
    assert_eq!(info.index, 0);
    assert_eq!(info.facing, CameraFacing::Back);
    assert_eq!(info.name, "ov5695");
    assert_eq!(info.bus, 4);
    assert_eq!(info.reg, 0x0036);
}

#[test]
fn identifier_as_a_whole_value() {
    assert_eq!(
        CameraModuleInfo::from_str("m01_f_gc2053 1-0037"),
        Ok(CameraModuleInfo {
            index: 1,
            facing: CameraFacing::Front,
            name: "gc2053".to_string(),
            bus: 1,
            reg: 0x37,
        })
    );
}

#[test]
fn identifier_of_each_facing() {
    let facing = |s: &str| CameraModuleInfo::from_str(s).unwrap().facing;
    assert_eq!(facing("m00_b_imx415 3-001a"), CameraFacing::Back);
    assert_eq!(facing("m00_f_imx415 3-001a"), CameraFacing::Front);
    assert_eq!(facing("m00_l_imx415 3-001a"), CameraFacing::Left);
    assert_eq!(facing("m00_r_imx415 3-001a"), CameraFacing::Right);
}

#[test]
fn identifier_index_and_address_are_hexadecimal() {
    let info = CameraModuleInfo::from_str("m1F_l_os04a10 7-ABcd").unwrap();
    assert_eq!(info.index, 0x1f);
    assert_eq!(info.facing, CameraFacing::Left);
    assert_eq!(info.name, "os04a10");
    assert_eq!(info.bus, 7);
    assert_eq!(info.reg, 0xabcd);
}

#[test]
fn identifier_bus_is_decimal() {
    let info = CameraModuleInfo::from_str("m01_f_imx415 10-001a").unwrap();
    assert_eq!(info.index, 1);
    assert_eq!(info.facing, CameraFacing::Front);
    assert_eq!(info.name, "imx415");
    assert_eq!(info.bus, 10);
    assert_eq!(info.reg, 0x001a);
    assert_eq!(CameraModuleInfo::from_str("m10_b_cam 0012-0010").unwrap().bus, 12);
    assert_eq!(CameraModuleInfo::from_str("m10_b_cam 255-0010").unwrap().bus, 255);
}

#[test]
fn identifier_that_was_written_is_read_back() {
    let facings = [
        ('b', CameraFacing::Back),
        ('f', CameraFacing::Front),
        ('l', CameraFacing::Left),
        ('r', CameraFacing::Right),
    ];
    let numbers = [(0, 0, 0), (1, 9, 0x36), (9, 10, 0x1a), (0x10, 16, 0x100), (0xff, 99, 0xffff)];
    for (letter, facing) in facings {
        for (index, bus, reg) in numbers {
            let text = format!("m{:02x}_{}_{} {}-{:04x}", index, letter, "ov5695", bus, reg);
            assert_eq!(
                CameraModuleInfo::from_str(&text),
                Ok(CameraModuleInfo { index, facing, name: "ov5695".to_string(), bus, reg })
            );
        }
    }
    let text = format!("m{:02x}_{}_{} {}-{:04x}", 0xab, 'l', "A1b2", usize::MAX, 0xcdef);
    assert_eq!(
        CameraModuleInfo::from_str(&text),
        Ok(CameraModuleInfo {
            index: 0xab,
            facing: CameraFacing::Left,
            name: "A1b2".to_string(),
            bus: usize::MAX,
            reg: 0xcdef,
        })
    );
}

#[test]
fn identifier_is_found_inside_a_text() {
    let info = CameraModuleInfo::from_str("sensor: m02_r_imx415   7-001a (mipi)").unwrap();
    assert_eq!(info.index, 2);
    assert_eq!(info.facing, CameraFacing::Right);
    assert_eq!(info.name, "imx415");
    assert_eq!(info.bus, 7);
    assert_eq!(info.reg, 0x1a);
}

#[test]
fn identifier_takes_the_leftmost_match() {
    let info = CameraModuleInfo::from_str("m03_b_first 1-0001 m04_f_second 2-0002").unwrap();
    assert_eq!(info.index, 3);
    assert_eq!(info.name, "first");
    assert_eq!(info.bus, 1);
    assert_eq!(info.reg, 1);
}

#[test]
fn identifier_without_bus_address() {
    assert_eq!(
        CameraModuleInfo::from_str("m00_b_ov5695"),
        Err(CameraModuleInfoParseError::NotMatched)
    );
    assert_eq!(
        CameraModuleInfo::from_str("m00_b_ov5695 4"),
        Err(CameraModuleInfoParseError::NotMatched)
    );
    assert_eq!(
        CameraModuleInfo::from_str("m00_b_ov5695 4-003"),
        Err(CameraModuleInfoParseError::NotMatched)
    );
}

#[test]
fn identifier_of_another_shape() {
    let not_matched = Err(CameraModuleInfoParseError::NotMatched);
    assert_eq!(CameraModuleInfo::from_str(""), not_matched);
    assert_eq!(CameraModuleInfo::from_str("/dev/video0"), not_matched);
    assert_eq!(CameraModuleInfo::from_str("m0_b_ov5695 4-0036"), not_matched);
    assert_eq!(CameraModuleInfo::from_str("m0g_b_ov5695 4-0036"), not_matched);
    assert_eq!(CameraModuleInfo::from_str("m00_bb_ov5695 4-0036"), not_matched);
    assert_eq!(CameraModuleInfo::from_str("m00_b_ov5695_4-0036"), not_matched);
    assert_eq!(CameraModuleInfo::from_str("m00_b_ov5695 a-0036"), not_matched);
    assert_eq!(CameraModuleInfo::from_str("m00_b_ 4-0036"), not_matched);
}

#[test]
fn identifier_with_unknown_facing() {
    let failed = Err(CameraModuleInfoParseError::ParseFacingFailed);
    assert_eq!(CameraModuleInfo::from_str("m00_x_ov5695 4-0036-1"), failed);
    assert_eq!(CameraModuleInfo::from_str("m00_B_ov5695 4-0036-1"), failed);
    assert_eq!(CameraModuleInfo::from_str("m00_7_ov5695 4-0036-1"), failed);
}

#[test]
fn identifier_with_a_bus_too_large() {
    assert_eq!(
        CameraModuleInfo::from_str("m00_b_ov5695 100000000000000000000000000000000-0036"),
        Err(CameraModuleInfoParseError::ParseBusFailed)
    );
}

#[test]
fn pattern_that_is_no_regular_expression() {
    let regex_error = Err(CameraModuleInfoParseError::RegexError);
    assert_eq!(CameraModuleInfo::from_str_with("m(", "m00_b_ov5695 4-0036"), regex_error);
    assert_eq!(CameraModuleInfo::from_str_with("[a-", ""), regex_error);
    assert_eq!(CameraModuleInfo::from_str_with(r"(\w{1000}){1000}", "m"), regex_error);
}

#[test]
fn pattern_of_another_shape() {
    let not_matched = Err(CameraModuleInfoParseError::NotMatched);
    assert_eq!(CameraModuleInfo::from_str_with("m", "m00_b_ov5695 4-0036"), not_matched);
    assert_eq!(CameraModuleInfo::from_str_with("(m)(0)(0)(_)", "m00_b_ov5695 4-0036"), not_matched);
    assert_eq!(
        CameraModuleInfo::from_str_with("(m)(0)(0)(_)(b)(_)", "m00_b_ov5695 4-0036"),
        not_matched
    );
    assert_eq!(
        CameraModuleInfo::from_str_with("(0)(b)?_(b)_(o)(v)", "m00_b_ov5695 4-0036"),
        not_matched
    );
    assert_eq!(
        CameraModuleInfo::from_str_with(r"(\d+):(\w+):(\w+):(\d+):(\d+)", "cam 1f:x"),
        not_matched
    );
}

#[test]
fn pattern_with_five_groups() {
    assert_eq!(
        CameraModuleInfo::from_str_with(r"(\w+):(\w+):(\w+):(\w+):(\w+)", "cam 1f:front:gc2053:12:3c!"),
        Ok(CameraModuleInfo {
            index: 0x1f,
            facing: CameraFacing::Front,
            name: "gc2053".to_string(),
            bus: 12,
            reg: 0x3c,
        })
    );
    assert_eq!(
        CameraModuleInfo::from_str_with(r"(\w+):(\w+):(\w+):(\w+):(\w+)", "1f:front:gc2053:a:3c"),
        Err(CameraModuleInfoParseError::ParseBusFailed)
    );
    assert_eq!(
        CameraModuleInfo::from_str_with(r"(\w+):(\w+):(\w+):(\w+):(\w+)", "1f:front:gc2053:1:xyz"),
        Err(CameraModuleInfoParseError::ParseRegFailed)
    );
    assert_eq!(
        CameraModuleInfo::from_str_with(r"(\w+):(\w+):(\w+):(\w+):(\w+)", "index:front:gc2053:1:3c"),
        Err(CameraModuleInfoParseError::ParseIndexFailed)
    );
}

#[test]
fn pattern_of_identifiers_is_the_default() {
    for text in ["m00_b_ov5695 4-0036-1", "m00_x_ov5695 4-0036-1", "m00_b_ov5695", ""] {
        assert_eq!(
            CameraModuleInfo::from_str(text),
            CameraModuleInfo::from_str_with(MODULE_PATTERN, text)
        );
    }
}

#[test]
fn fields_give_each_error_in_turn() {
    assert_eq!(
        CameraModuleInfo::from_fields("zz", "?", "n", "zz", "zz"),
        Err(CameraModuleInfoParseError::ParseIndexFailed)
    );
    assert_eq!(
        CameraModuleInfo::from_fields("00", "?", "n", "zz", "zz"),
        Err(CameraModuleInfoParseError::ParseFacingFailed)
    );
    assert_eq!(
        CameraModuleInfo::from_fields("00", "b", "n", "zz", "zz"),
        Err(CameraModuleInfoParseError::ParseBusFailed)
    );
    assert_eq!(
        CameraModuleInfo::from_fields("00", "b", "n", "4", "zz"),
        Err(CameraModuleInfoParseError::ParseRegFailed)
    );
    assert_eq!(
        CameraModuleInfo::from_fields("00", "back", "n", "4", "0036"),
        Ok(CameraModuleInfo {
            index: 0,
            facing: CameraFacing::Back,
            name: "n".to_string(),
            bus: 4,
            reg: 0x36,
        })
    );
}

#[test]
fn groups_need_the_match_and_five_fields() {
    let full = vec![
        group("m0a_r_x1 2-00ff"),
        group("0a"),
        group("r"),
        group("x1"),
        group("2"),
        group("00ff"),
    ];
    assert_eq!(
        CameraModuleInfo::from_groups(&full),
        Ok(CameraModuleInfo {
            index: 10,
            facing: CameraFacing::Right,
            name: "x1".to_string(),
            bus: 2,
            reg: 255,
        })
    );
    let not_matched = Err(CameraModuleInfoParseError::NotMatched);
    assert_eq!(CameraModuleInfo::from_groups(&Vec::new()), not_matched);
    assert_eq!(CameraModuleInfo::from_groups(&full[..5].to_vec()), not_matched);
    let mut longer = full.clone();
    longer.push(group("1"));
    assert_eq!(CameraModuleInfo::from_groups(&longer), not_matched);
    for i in 0..6 {
        let mut holed = full.clone();
        holed[i] = None;
        assert_eq!(CameraModuleInfo::from_groups(&holed), not_matched);
    }
}

#[test]
fn default_identifier() {
    let info = CameraModuleInfo::default();
    assert_eq!(info.index, 0);
    assert_eq!(info.facing, CameraFacing::Back);
    assert_eq!(info.name, "");
    assert_eq!(info.bus, 0);
    assert_eq!(info.reg, 0);
    assert_eq!(CameraFacing::default(), CameraFacing::Back);
}

#[test]
fn facing_names() {
    assert_eq!(CameraFacing::from_str("b"), Ok(CameraFacing::Back));
    assert_eq!(CameraFacing::from_str("back"), Ok(CameraFacing::Back));
    assert_eq!(CameraFacing::from_str("f"), Ok(CameraFacing::Front));
    assert_eq!(CameraFacing::from_str("front"), Ok(CameraFacing::Front));
    assert_eq!(CameraFacing::from_str("l"), Ok(CameraFacing::Left));
    assert_eq!(CameraFacing::from_str("left"), Ok(CameraFacing::Left));
    assert_eq!(CameraFacing::from_str("r"), Ok(CameraFacing::Right));
    assert_eq!(CameraFacing::from_str("right"), Ok(CameraFacing::Right));
}

#[test]
fn facing_of_other_texts() {
    let not_matched = Err(CameraFacingParseError::NotMatched);
    assert_eq!(CameraFacing::from_str(""), not_matched);
    assert_eq!(CameraFacing::from_str("B"), not_matched);
    assert_eq!(CameraFacing::from_str("Back"), not_matched);
    assert_eq!(CameraFacing::from_str("ba"), not_matched);
    assert_eq!(CameraFacing::from_str("back "), not_matched);
    assert_eq!(CameraFacing::from_str("x"), not_matched);
}

#[test]
fn hexadecimal_numbers() {
    assert_eq!(parse_hex("0"), Some(0));
    assert_eq!(parse_hex("0036"), Some(54));
    assert_eq!(parse_hex("ff"), Some(255));
    assert_eq!(parse_hex("FF"), Some(255));
    assert_eq!(parse_hex("aBc"), Some(0xabc));
    assert_eq!(parse_hex("+1f"), Some(31));
    assert_eq!(parse_hex("000000000000000000000000000000000001"), Some(1));
}

#[test]
fn hexadecimal_limits() {
    let max = format!("{:x}", usize::MAX);
    assert_eq!(parse_hex(&max), Some(usize::MAX));
    assert_eq!(parse_hex(&format!("{}0", max)), None);
    assert_eq!(parse_hex(&format!("1{}", max)), None);
    assert_eq!(parse_hex(&format!("1{}", "0".repeat(max.len()))), None);
}

#[test]
fn hexadecimal_refusals() {
    assert_eq!(parse_hex(""), None);
    assert_eq!(parse_hex("+"), None);
    assert_eq!(parse_hex("-1"), None);
    assert_eq!(parse_hex("++1"), None);
    assert_eq!(parse_hex("1+"), None);
    assert_eq!(parse_hex("0x10"), None);
    assert_eq!(parse_hex("1g"), None);
    assert_eq!(parse_hex(" 1"), None);
    assert_eq!(parse_hex("1 "), None);
    assert_eq!(parse_hex("1_0"), None);
    assert_eq!(parse_hex("\u{ff11}"), None);
}

#[test]
fn hexadecimal_agrees_with_std() {
    let texts = [
        "", "+", "-", "0", "7", "a", "F", "g", "+0", "+ff", "-ff", "10", "0010", "dead", "BEEF",
        "12345678", "ffffffff", "100000000", "ffffffffffffffff", "10000000000000000", "1 2",
        "é", "+g", "++",
    ];
    for text in texts {
        assert_eq!(parse_hex(text), usize::from_str_radix(text, 16).ok());
    }
}

#[test]
fn decimal_numbers() {
    assert_eq!(parse_dec("0"), Some(0));
    assert_eq!(parse_dec("4"), Some(4));
    assert_eq!(parse_dec("10"), Some(10));
    assert_eq!(parse_dec("0010"), Some(10));
    assert_eq!(parse_dec("+17"), Some(17));
    assert_eq!(parse_dec("1234567890"), Some(1234567890));
    assert_eq!(parse_dec("000000000000000000000000000000000001"), Some(1));
}

#[test]
fn decimal_limits() {
    let max = usize::MAX.to_string();
    assert_eq!(parse_dec(&max), Some(usize::MAX));
    assert_eq!(parse_dec(&format!("{}0", max)), None);
    assert_eq!(parse_dec(&format!("1{}", max)), None);
    let mut above = max.clone().into_bytes();
    let last = above.len() - 1;
    above[last] += 1;
    assert_eq!(parse_dec(&String::from_utf8(above).unwrap()), None);
}

#[test]
fn decimal_refusals() {
    assert_eq!(parse_dec(""), None);
    assert_eq!(parse_dec("+"), None);
    assert_eq!(parse_dec("-1"), None);
    assert_eq!(parse_dec("++1"), None);
    assert_eq!(parse_dec("1+"), None);
    assert_eq!(parse_dec("a"), None);
    assert_eq!(parse_dec("1f"), None);
    assert_eq!(parse_dec("0x10"), None);
    assert_eq!(parse_dec(" 1"), None);
    assert_eq!(parse_dec("1 "), None);
    assert_eq!(parse_dec("1_0"), None);
    assert_eq!(parse_dec("\u{ff11}"), None);
}

#[test]
fn decimal_agrees_with_std() {
    let texts = [
        "", "+", "-", "0", "7", "a", "F", "+0", "+99", "-99", "10", "0010", "4294967295",
        "4294967296", "18446744073709551615", "18446744073709551616", "99999999999999999999",
        "1 2", "é", "+g", "++", "12a",
    ];
    for text in texts {
        assert_eq!(parse_dec(text), text.parse::<usize>().ok());
    }
}

#[test]
fn decimal_digits() {
    assert_eq!(dec_digit('0'), Some(0));
    assert_eq!(dec_digit('5'), Some(5));
    assert_eq!(dec_digit('9'), Some(9));
    assert_eq!(dec_digit('/'), None);
    assert_eq!(dec_digit(':'), None);
    assert_eq!(dec_digit('a'), None);
    assert_eq!(dec_digit('\u{0661}'), None);
}

#[test]
fn hexadecimal_digits() {
    assert_eq!(hex_digit('0'), Some(0));
    assert_eq!(hex_digit('9'), Some(9));
    assert_eq!(hex_digit('a'), Some(10));
    assert_eq!(hex_digit('f'), Some(15));
    assert_eq!(hex_digit('A'), Some(10));
    assert_eq!(hex_digit('F'), Some(15));
    assert_eq!(hex_digit('g'), None);
    assert_eq!(hex_digit('G'), None);
    assert_eq!(hex_digit('/'), None);
    assert_eq!(hex_digit(':'), None);
    assert_eq!(hex_digit('@'), None);
    assert_eq!(hex_digit('`'), None);
}

#[test]
fn characters_and_equal_texts() {
    assert_eq!(chars_of("aé1"), vec!['a', 'é', '1']);
    assert_eq!(chars_of(""), Vec::<char>::new());
    assert!(same_text("left", "left"));
    assert!(same_text("", ""));
    assert!(!same_text("left", "lefT"));
    assert!(!same_text("left", "lef"));
    assert!(!same_text("", "l"));
}
