use listing_gateway::hex::{parse_hex, push_hex};

#[test]
fn push_hex_pads_to_the_width() {
    let mut out: Vec<u8> = b"x".to_vec();
    push_hex(&mut out, 0x2a, 8);
    assert_eq!(out, b"x0000002a".to_vec());
}

#[test]
fn push_hex_drops_digits_beyond_the_width() {
    let mut out: Vec<u8> = Vec::new();
    push_hex(&mut out, 0x1234, 2);
    assert_eq!(out, b"34".to_vec());
}

#[test]
fn push_hex_of_width_zero_appends_nothing() {
    let mut out: Vec<u8> = b"ab".to_vec();
    push_hex(&mut out, 77, 0);
    assert_eq!(out, b"ab".to_vec());
}

#[test]
fn push_hex_writes_the_largest_number_in_sixteen_digits() {
    let mut out: Vec<u8> = Vec::new();
    push_hex(&mut out, u64::MAX, 16);
    assert_eq!(out, b"ffffffffffffffff".to_vec());
}

#[test]
fn parse_hex_reads_a_field_inside_a_token() {
    let bytes = b"zz00ff10zz".to_vec();
    assert_eq!(parse_hex(&bytes, 2, 6), Some(0x00ff10));
    assert_eq!(parse_hex(&bytes, 4, 2), Some(255));
    assert_eq!(parse_hex(&bytes, 2, 0), Some(0));
}

#[test]
fn parse_hex_refuses_anything_but_lower_case_digits() {
    assert_eq!(parse_hex(&b"0F".to_vec(), 0, 2), None);
    assert_eq!(parse_hex(&b"0g".to_vec(), 0, 2), None);
    assert_eq!(parse_hex(&b"-1".to_vec(), 0, 2), None);
    assert_eq!(parse_hex(&b" 1".to_vec(), 0, 2), None);
    assert_eq!(parse_hex(&b"0/".to_vec(), 0, 2), None);
    assert_eq!(parse_hex(&b"0:".to_vec(), 0, 2), None);
    assert_eq!(parse_hex(&b"0`".to_vec(), 0, 2), None);
}

#[test]
fn parse_hex_reads_back_what_push_hex_wrote() {
    for n in [0u64, 1, 15, 16, 255, 4096, u32::MAX as u64, u64::MAX] {
        let mut out: Vec<u8> = Vec::new();
        push_hex(&mut out, n, 16);
        assert_eq!(parse_hex(&out, 0, 16), Some(n));
    }
}
