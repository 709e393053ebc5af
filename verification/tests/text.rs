use web_sw_cor24_x_tinyc::text::{format_padded, parse_u32, str_eq};

#[test]
fn parse_matches_std() {
    let samples = [
        "", "+", "-", "0", "00", "007", "+7", "++7", "-7", "12a", "a12", " 1", "1 ", "4294967295",
        "4294967296", "+4294967295", "99999999999999999999", "123456789", "0000000000000000001",
        "１２", "1_000", "+-1", "٣",
    ];
    for s in samples {
        assert_eq!(parse_u32(s), s.parse::<u32>().ok(), "input {s:?}");
    }
    for n in (0..100000u32).step_by(7) {
        let s = n.to_string();
        assert_eq!(parse_u32(&s), Some(n));
    }
}

#[test]
fn padded_numbers_match_format() {
    for &n in &[0u64, 1, 9, 10, 15, 16, 255, 256, 4095, 0xABCDEF, 0x1234567, u32::MAX as u64, u64::MAX] {
        assert_eq!(format_padded(n, 16, 6, '0'), format!("{:06x}", n));
        assert_eq!(format_padded(n, 16, 2, '0'), format!("{:02x}", n));
        assert_eq!(format_padded(n, 10, 2, '0'), format!("{:02}", n));
        assert_eq!(format_padded(n, 10, 5, ' '), format!("{:>5}", n));
        assert_eq!(format_padded(n, 10, 0, ' '), format!("{}", n));
    }
}

#[test]
fn string_equality() {
    assert!(str_eq("", ""));
    assert!(str_eq("héllo", "héllo"));
    assert!(!str_eq("hello", "hell"));
    assert!(!str_eq("hello", "hellp"));
}
