use minitriangle::mem::{memcmp, memcpy, memset};

#[test]
fn memset_fills_a_prefix_and_keeps_the_rest() {
    let mut buf: Vec<u8> = vec![9, 9, 9, 9, 9];
    memset(&mut buf, 7, 3);
    assert_eq!(buf, vec![7, 7, 7, 9, 9]);
    memset(&mut buf, 0, 5);
    assert_eq!(buf, vec![0, 0, 0, 0, 0]);
    memset(&mut buf, 42, 0);
    assert_eq!(buf, vec![0, 0, 0, 0, 0]);
}

#[test]
fn memcpy_copies_a_prefix_and_keeps_the_rest() {
    let src: Vec<u8> = vec![1, 2, 3, 4];
    let mut dest: Vec<u8> = vec![9, 9, 9, 9, 9];
    memcpy(&mut dest, &src, 4);
    assert_eq!(dest, vec![1, 2, 3, 4, 9]);
    let mut dest2: Vec<u8> = vec![8, 8, 8];
    memcpy(&mut dest2, &src, 2);
    assert_eq!(dest2, vec![1, 2, 8]);
    memcpy(&mut dest2, &src, 0);
    assert_eq!(dest2, vec![1, 2, 8]);
}

#[test]
fn memcmp_is_zero_exactly_on_equal_prefixes() {
    let a: Vec<u8> = vec![1, 2, 3];
    let b: Vec<u8> = vec![1, 2, 4];
    assert_eq!(memcmp(&a, &b, 0), 0);
    assert_eq!(memcmp(&a, &b, 2), 0);
    assert_ne!(memcmp(&a, &b, 3), 0);
    assert_eq!(memcmp(&a, &a, 3), 0);
}

#[test]
fn memcmp_reports_the_first_difference_signed() {
    let a: Vec<u8> = vec![1, 200, 3];
    let b: Vec<u8> = vec![1, 100, 250];
    // First difference at index 1: 200 - 100.
    assert_eq!(memcmp(&a, &b, 3), 100);
    assert_eq!(memcmp(&b, &a, 3), -100);
    // A later difference is shadowed by the first one.
    let c: Vec<u8> = vec![1, 100, 3];
    assert_eq!(memcmp(&b, &c, 3), 247);
    assert_eq!(memcmp(&c, &b, 3), -247);
}
