use voicemail::utils::{chunked, dec_u64, join_transcript, trim_null_bytes};

#[test]
fn trim_strips_trailing_zeros() {
    let data = [1u8, 2, 3, 0, 0, 0];
    assert_eq!(trim_null_bytes(&data), &[1, 2, 3]);
}

#[test]
fn trim_keeps_leading_zeros() {
    let data = [0u8, 0, 7, 0];
    assert_eq!(trim_null_bytes(&data), &[0, 0, 7]);
}

#[test]
fn trim_of_all_zeros_is_empty() {
    let data = [0u8, 0, 0];
    assert_eq!(trim_null_bytes(&data), &[] as &[u8]);
    assert_eq!(trim_null_bytes(&[]), &[] as &[u8]);
}

#[test]
fn trim_without_trailing_zeros_is_identity() {
    let data = [9u8, 8, 7];
    assert_eq!(trim_null_bytes(&data), &[9, 8, 7]);
}

#[test]
fn chunked_splits_with_short_tail() {
    let data: Vec<u8> = (0..7).collect();
    let mut it = chunked(data, 3);
    assert_eq!(it.next(), Some(vec![0, 1, 2]));
    assert_eq!(it.next(), Some(vec![3, 4, 5]));
    assert_eq!(it.next(), Some(vec![6]));
    assert_eq!(it.next(), None);
}

#[test]
fn chunked_zero_size_yields_nothing() {
    let mut it = chunked(vec![1u8, 2, 3], 0);
    assert_eq!(it.next(), None);
}

#[test]
fn decimal_rendering() {
    assert_eq!(dec_u64(0), "0");
    assert_eq!(dec_u64(7), "7");
    assert_eq!(dec_u64(40000), "40000");
    assert_eq!(dec_u64(20250903120320), "20250903120320");
}

#[test]
fn transcript_joining_skips_empty_parts() {
    let parts = vec![
        String::from("hello"),
        String::new(),
        String::from("world"),
    ];
    assert_eq!(join_transcript(&parts), "hello world");
    assert_eq!(join_transcript(&vec![]), "");
    assert_eq!(join_transcript(&vec![String::new(), String::new()]), "");
    assert_eq!(join_transcript(&vec![String::from("one")]), "one");
}
