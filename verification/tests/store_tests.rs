use voicemail::codec::decode_ulaw;
use voicemail::store::{append_at, zero_blob, BLOB_CAPACITY};
use voicemail::utils::trim_null_bytes;

#[test]
fn zero_blob_capacity() {
    let b = zero_blob(BLOB_CAPACITY);
    assert_eq!(b.len(), 300000);
    assert!(b.iter().all(|&x| x == 0));
}

#[test]
fn appends_fill_a_prefix_and_leave_zeros() {
    let mut blob = zero_blob(1000);
    let chunk1 = vec![0xAAu8; 160];
    let chunk2 = vec![0xBBu8; 160];
    let off = append_at(&mut blob, 0, &chunk1);
    assert_eq!(off, 160);
    let off = append_at(&mut blob, off, &chunk2);
    assert_eq!(off, 320);
    assert_eq!(&blob[0..160], &chunk1[..]);
    assert_eq!(&blob[160..320], &chunk2[..]);
    assert!(blob[320..].iter().all(|&x| x == 0));
    let mut expected = Vec::new();
    expected.extend_from_slice(&chunk1);
    expected.extend_from_slice(&chunk2);
    assert_eq!(trim_null_bytes(&blob), &expected[..]);
}

#[test]
fn append_past_end_is_a_no_op() {
    let mut blob = zero_blob(100);
    blob[0] = 9;
    let before = blob.clone();
    // a seek past the end fails: offset and blob stay as they were
    let off = append_at(&mut blob, 101, &[1, 2, 3]);
    assert_eq!(off, 101);
    assert_eq!(blob, before);
    // repeating it changes nothing either
    let off = append_at(&mut blob, 101, &[1, 2, 3]);
    assert_eq!(off, 101);
    assert_eq!(blob, before);
}

#[test]
fn append_truncates_at_capacity() {
    let mut blob = zero_blob(100);
    let off = append_at(&mut blob, 90, &[7u8; 20]);
    assert_eq!(off, 100); // only ten bytes fit
    assert_eq!(&blob[90..], &[7u8; 10]);
    // at the very end nothing more fits, the offset no longer moves
    let off = append_at(&mut blob, off, &[8u8; 20]);
    assert_eq!(off, 100);
}

#[test]
fn ulaw_decoding_matches_the_reference_table() {
    let samples = decode_ulaw(&[0, 127, 128, 255, 0xFE]);
    assert_eq!(samples, vec![-32124, 0, 32124, 0, 8]);
}
