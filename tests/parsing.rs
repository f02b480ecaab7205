use http_timings::head::{field_after, parse_unsigned, trim_bytes};

#[test]
fn unsigned_numbers_read_as_std_reads_them() {
    assert_eq!(parse_unsigned(&b"200".to_vec(), 65535), Some(200));
    assert_eq!(parse_unsigned(&b"+12".to_vec(), 65535), Some(12));
    assert_eq!(parse_unsigned(&b"65535".to_vec(), 65535), Some(65535));
    assert_eq!(parse_unsigned(&b"65536".to_vec(), 65535), None);
    assert_eq!(parse_unsigned(&b"".to_vec(), 65535), None);
    assert_eq!(parse_unsigned(&b"+".to_vec(), 65535), None);
    assert_eq!(parse_unsigned(&b"-1".to_vec(), 65535), None);
    assert_eq!(parse_unsigned(&b"1a".to_vec(), 65535), None);
    assert_eq!(
        parse_unsigned(&b"18446744073709551615".to_vec(), u64::MAX),
        Some(u64::MAX)
    );
    assert_eq!(parse_unsigned(&b"18446744073709551616".to_vec(), u64::MAX), None);
}

#[test]
fn trimming_removes_white_space_at_both_ends() {
    assert_eq!(trim_bytes(&b" \t gzip \r".to_vec()), b"gzip".to_vec());
    assert_eq!(trim_bytes(&b"   ".to_vec()), Vec::<u8>::new());
    assert_eq!(trim_bytes(&b"a b".to_vec()), b"a b".to_vec());
}

#[test]
fn second_field_lies_between_the_first_two_separators() {
    assert_eq!(field_after(&b"HTTP/1.1 200 OK".to_vec(), b' '), Some(b"200".to_vec()));
    assert_eq!(field_after(&b"Content-Length: 5".to_vec(), b':'), Some(b" 5".to_vec()));
    assert_eq!(field_after(&b"a:b:c".to_vec(), b':'), Some(b"b".to_vec()));
    assert_eq!(field_after(&b"none".to_vec(), b':'), None);
}
