use conn_diag::text::decimal_text;

#[test]
fn zero_is_a_single_digit() {
    assert_eq!(decimal_text(0), "0");
}

#[test]
fn single_digits() {
    let expected = ["0", "1", "2", "3", "4", "5", "6", "7", "8", "9"];
    for n in 0u16..10 {
        assert_eq!(decimal_text(n), expected[n as usize]);
    }
}

#[test]
fn round_numbers_keep_their_zeros() {
    assert_eq!(decimal_text(10), "10");
    assert_eq!(decimal_text(100), "100");
    assert_eq!(decimal_text(1000), "1000");
    assert_eq!(decimal_text(10000), "10000");
    assert_eq!(decimal_text(8080), "8080");
    assert_eq!(decimal_text(50505), "50505");
}

#[test]
fn well_known_ports() {
    assert_eq!(decimal_text(1), "1");
    assert_eq!(decimal_text(22), "22");
    assert_eq!(decimal_text(80), "80");
    assert_eq!(decimal_text(443), "443");
    assert_eq!(decimal_text(3389), "3389");
}

#[test]
fn largest_port() {
    assert_eq!(decimal_text(u16::MAX), "65535");
}

#[test]
fn every_port_reads_as_the_standard_rendering() {
    for n in 0..=u16::MAX {
        assert_eq!(decimal_text(n), format!("{}", n));
    }
}
