use feed_ingest::feed::source::extract_offset;

#[test]
fn test_extract_offset() {
    assert_eq!(1, extract_offset(&"1 month".to_string()).unwrap());
    assert!(extract_offset(&"0 month".to_string()).is_none());
    assert!(extract_offset(&"1 months".to_string()).is_none());
    assert!(extract_offset(&"-1 months".to_string()).is_none());
    assert!(extract_offset(&"12 month".to_string()).is_none());
    assert_eq!(12, extract_offset(&"12 months".to_string()).unwrap());
}

#[test]
fn accepts_every_plural_count_from_two_upward() {
    assert_eq!(2, extract_offset(&"2 months".to_string()).unwrap());
    assert_eq!(9, extract_offset(&"9 months".to_string()).unwrap());
    assert_eq!(10, extract_offset(&"10 months".to_string()).unwrap());
    assert_eq!(120, extract_offset(&"120 months".to_string()).unwrap());
    assert_eq!(4294967295, extract_offset(&"4294967295 months".to_string()).unwrap());
}

#[test]
fn rejects_free_text_and_malformed_counts() {
    assert!(extract_offset(&"".to_string()).is_none());
    assert!(extract_offset(&"month".to_string()).is_none());
    assert!(extract_offset(&"a month".to_string()).is_none());
    assert!(extract_offset(&"2 months ago".to_string()).is_none());
    assert!(extract_offset(&"02 months".to_string()).is_none());
    assert!(extract_offset(&"0 months".to_string()).is_none());
    assert!(extract_offset(&" 1 month".to_string()).is_none());
    assert!(extract_offset(&"1 month ".to_string()).is_none());
}

#[test]
fn a_count_beyond_u32_yields_zero() {
    assert_eq!(0, extract_offset(&"4294967296 months".to_string()).unwrap());
    assert_eq!(0, extract_offset(&"99999999999999 months".to_string()).unwrap());
}
