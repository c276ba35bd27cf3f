use gitminer::numeral::{push_decimal, push_hexadecimal, push_signed_decimal};

fn dec(n: u64, width: u8) -> String {
    let mut buf = Vec::new();
    push_decimal(&mut buf, n, width);
    String::from_utf8(buf).unwrap()
}

fn hex(n: u64, width: u8) -> String {
    let mut buf = Vec::new();
    push_hexadecimal(&mut buf, n, width);
    String::from_utf8(buf).unwrap()
}

#[test]
fn decimal_pads_to_width() {
    assert_eq!(dec(0, 0), "0");
    assert_eq!(dec(0, 1), "0");
    assert_eq!(dec(0, 2), "00");
    assert_eq!(dec(7, 2), "07");
    assert_eq!(dec(42, 2), "42");
    assert_eq!(dec(123, 2), "123");
    assert_eq!(dec(186, 1), "186");
    assert_eq!(dec(u64::MAX, 1), "18446744073709551615");
    assert_eq!(dec(5, 6), "000005");
}

#[test]
fn decimal_agrees_with_format() {
    for n in [0u64, 1, 9, 10, 11, 99, 100, 101, 4294967295, 4294967296, u64::MAX] {
        assert_eq!(dec(n, 1), format!("{}", n));
        assert_eq!(dec(n, 2), format!("{:02}", n));
    }
}

#[test]
fn hexadecimal_is_lowercase_and_padded() {
    assert_eq!(hex(0, 8), "00000000");
    assert_eq!(hex(0xbeef, 8), "0000beef");
    assert_eq!(hex(0xABCDEF01, 8), "abcdef01");
    assert_eq!(hex(u32::MAX as u64, 8), "ffffffff");
    assert_eq!(hex(0x1_0000_0000, 8), "100000000");
    assert_eq!(hex(255, 1), "ff");
    assert_eq!(hex(0, 0), "0");
}

#[test]
fn hexadecimal_agrees_with_format() {
    for n in [0u64, 1, 9, 10, 15, 16, 255, 256, 0xdeadbeef, u32::MAX as u64, u64::MAX] {
        assert_eq!(hex(n, 8), format!("{:08x}", n));
        assert_eq!(hex(n, 1), format!("{:x}", n));
    }
}

#[test]
fn signed_decimal_agrees_with_format() {
    for n in [0i64, 1, -1, 9, -9, 10, -10, 1700000000, -1700000000, i64::MAX, i64::MIN] {
        let mut buf = Vec::new();
        push_signed_decimal(&mut buf, n);
        assert_eq!(String::from_utf8(buf).unwrap(), format!("{}", n));
    }
}

#[test]
fn numerals_append_to_what_is_there() {
    let mut buf = b"x=".to_vec();
    push_decimal(&mut buf, 12, 2);
    buf.push(b'-');
    push_hexadecimal(&mut buf, 0x2a, 8);
    assert_eq!(buf, b"x=12-0000002a".to_vec());
}
