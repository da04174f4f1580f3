use ssh_sessions::text::{decimal, joined};

#[test]
fn decimal_of_small_and_large_numbers() {
    assert_eq!(decimal(0), "0");
    assert_eq!(decimal(7), "7");
    assert_eq!(decimal(10), "10");
    assert_eq!(decimal(22), "22");
    assert_eq!(decimal(109), "109");
    assert_eq!(decimal(2222), "2222");
    assert_eq!(decimal(40960), "40960");
    assert_eq!(decimal(u16::MAX), "65535");
}

#[test]
fn decimal_agrees_with_the_standard_rendering() {
    let mut n: u16 = 0;
    loop {
        assert_eq!(decimal(n), n.to_string());
        if n > u16::MAX - 97 {
            break;
        }
        n += 97;
    }
}

#[test]
fn joined_puts_left_before_right() {
    assert_eq!(joined("ab", "cd"), "abcd");
    assert_eq!(joined("", "x"), "x");
    assert_eq!(joined("x", ""), "x");
    assert_eq!(joined("é", "ß"), "éß");
}
