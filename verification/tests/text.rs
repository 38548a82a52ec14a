use rstrace::text::decimal_string;
use rstrace::text::pairs_string;

#[test]
fn decimal_numerals() {
    assert_eq!(decimal_string(0), "0");
    assert_eq!(decimal_string(7), "7");
    assert_eq!(decimal_string(9), "9");
    assert_eq!(decimal_string(10), "10");
    assert_eq!(decimal_string(42), "42");
    assert_eq!(decimal_string(1005), "1005");
    assert_eq!(decimal_string(477_899), "477899");
    assert_eq!(decimal_string(u64::MAX), "18446744073709551615");
}

#[test]
fn decimal_numerals_agree_with_formatting() {
    let mut n: u64 = 1;
    for _ in 0..64 {
        assert_eq!(decimal_string(n), format!("{}", n));
        assert_eq!(decimal_string(n - 1), format!("{}", n - 1));
        n = n.wrapping_mul(2);
    }
}

#[test]
fn no_pairs_give_the_bracket_alone() {
    let none: Vec<(Vec<u8>, Vec<u8>)> = Vec::new();
    assert_eq!(pairs_string(&none), Some(String::from("[")));
}

#[test]
fn pairs_are_joined_by_commas_after_a_bracket() {
    let one = vec![(b"foo".to_vec(), b"bar".to_vec())];
    assert_eq!(pairs_string(&one), Some(String::from("[foo=bar")));
    let two = vec![(b"foo".to_vec(), b"bar".to_vec()), (b"x".to_vec(), b"y".to_vec())];
    assert_eq!(pairs_string(&two), Some(String::from("[foo=bar,x=y")));
    let three = vec![
        (b"a".to_vec(), b"1".to_vec()),
        (b"b".to_vec(), b"".to_vec()),
        (b"c".to_vec(), b"3".to_vec()),
    ];
    assert_eq!(pairs_string(&three), Some(String::from("[a=1,b=,c=3")));
}

#[test]
fn an_empty_key_and_value_still_make_a_pair() {
    let pairs = vec![(Vec::new(), Vec::new()), (b"k".to_vec(), b"v".to_vec())];
    assert_eq!(pairs_string(&pairs), Some(String::from("[=,k=v")));
}

#[test]
fn text_beyond_ascii_is_decoded() {
    let pairs = vec![("na\u{ef}ve".as_bytes().to_vec(), "caf\u{e9} \u{1f600}".as_bytes().to_vec())];
    assert_eq!(pairs_string(&pairs), Some(String::from("[na\u{ef}ve=caf\u{e9} \u{1f600}")));
}

#[test]
fn bytes_that_are_not_utf8_have_no_text() {
    let bad_key = vec![(vec![0xff, 0xfe], b"v".to_vec())];
    assert_eq!(pairs_string(&bad_key), None);
    let bad_value = vec![(b"k".to_vec(), vec![0xc3])];
    assert_eq!(pairs_string(&bad_value), None);
    let bad_later = vec![(b"a".to_vec(), b"1".to_vec()), (b"b".to_vec(), vec![0x80])];
    assert_eq!(pairs_string(&bad_later), None);
}
