use web_sw_cor24_x_tinyc::listing::{
    format_listing_line, is_error_line, line_number_label, listing_columns, ListingLine,
};

fn reference_format(address: u32, bytes: &[u8], source: &str) -> String {
    if bytes.is_empty() {
        format!("{:>22}{}", "", source)
    } else {
        let hex: String = bytes.iter().map(|b| format!("{b:02x} ")).collect();
        format!("{:06x}  {:<14}{}", address, hex.trim_end(), source)
    }
}

fn line(address: u32, bytes: &[u8], source: &str) -> ListingLine {
    ListingLine { address, bytes: bytes.to_vec(), source: source.to_string() }
}

#[test]
fn listing_lines_match_format() {
    let cases: Vec<(u32, Vec<u8>, &str)> = vec![
        (0, vec![], "; comment"),
        (0, vec![], ""),
        (0x10, vec![0x2b], "  push fp"),
        (0x123, vec![0x29, 0x65, 0x01], "  la r0, 1"),
        (0xABCDEF, vec![1, 2, 3, 4, 5], "x"),
        (0x1000000, vec![0xff; 7], "long — line"),
        (7, vec![0, 0x0f, 0xf0], ""),
    ];
    for (a, b, s) in cases {
        assert_eq!(format_listing_line(&line(a, &b, s)), reference_format(a, &b, s));
    }
}

#[test]
fn gutter_labels() {
    assert_eq!(line_number_label(1, 9), "1\n");
    assert_eq!(line_number_label(1, 10), " 1\n");
    assert_eq!(line_number_label(42, 120), " 42\n");
    for count in [1usize, 9, 10, 99, 100, 12345] {
        let width = count.to_string().len();
        for n in [1usize, 5, 10, 99, 100, count] {
            assert_eq!(line_number_label(n, count), format!("{:>width$}\n", n));
        }
    }
}

#[test]
fn columns_of_a_line() {
    let l = line(0x12, &[0x29, 0x65], "  la r0, 1");
    let f = format_listing_line(&l);
    let c = listing_columns(&l);
    assert_eq!(c.address, &f[..6]);
    assert_eq!(c.gap, &f[6..8]);
    assert_eq!(c.hex, &f[8..22]);
    assert_eq!(c.source.as_deref(), Some(&f[22..]));
    assert_eq!(c.address, "000012");
    assert_eq!(c.hex, "29 65         ");
    let c = listing_columns(&line(0, &[1], ""));
    assert_eq!(c.source, None);
}

#[test]
fn error_lines() {
    assert!(is_error_line(Some(3), 3));
    assert!(!is_error_line(Some(3), 4));
    assert!(!is_error_line(None, 1));
}
