use rk::utils::StringUtils;

#[test]
fn test_uslice_basic() {
    assert_eq!("".uslice(0, 0), "");
    assert_eq!("".uslice(1, 2), "");

    assert_eq!("a".uslice(0, 0), "");
    assert_eq!("a".uslice(0, 1), "a");
    assert_eq!("a".uslice(0, 2), "a");
    assert_eq!("a".uslice(1, 2), "");

    assert_eq!("ab".uslice(0, 1), "a");
    assert_eq!("ab".uslice(0, 2), "ab");
    assert_eq!("ab".uslice(0, 3), "ab");

    assert_eq!("ab".uslice(1, 1), "");
    assert_eq!("ab".uslice(2, 3), "");
    assert_eq!("ab".uslice(1, 2), "b");
    assert_eq!("ab".uslice(1, 3), "b");
}

#[test]
fn test_uslice_unicode() {
    assert_eq!("καλημέρα".uslice(0, 0), "");
    assert_eq!("καλημέρα".uslice(0, 4), "καλη");
    assert_eq!("καλημέρα".uslice(4, 8), "μέρα");
    assert_eq!("καλημέρα".uslice(4, 6), "μέ");
    assert_eq!("καλημέρα".uslice(4, 8), "μέρα");
}

#[test]
fn uslice_counts_code_points_not_bytes() {
    let s = "καλημέρα";
    assert_eq!(s.ulen(), 8);
    assert_eq!(s.len(), 16);
    assert_eq!(s.uslice(4, 8).chars().count(), 4);
    assert_eq!("😀a😀".uslice(1, 3), "a😀");
}

#[test]
fn empty_range_is_empty_for_any_text() {
    for s in ["", "a", "καλημέρα", "😀😀"] {
        assert_eq!(s.uslice(0, 0), "");
        assert_eq!(s.uslice(3, 1), "");
    }
}

#[test]
fn ulen_of_empty_and_ascii() {
    assert_eq!("".ulen(), 0);
    assert_eq!("hello".ulen(), 5);
}

#[test]
fn push_decimal_writes_numerals() {
    let mut s = String::from("n=");
    rk::utils::push_decimal(&mut s, 0);
    assert_eq!(s, "n=0");
    let mut s = String::new();
    rk::utils::push_decimal(&mut s, 1907);
    assert_eq!(s, "1907");
}
