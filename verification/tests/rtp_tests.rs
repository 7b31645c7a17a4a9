use voicemail::rtp::{
    build_rtp_packet, capture_should_stop, greeting_packets, ingest_action, parse_rtp_header,
    IngestAction,
};

#[test]
fn packet_layout() {
    let payload = [0x11u8, 0x22, 0x33];
    let p = build_rtp_packet(0, 0x0102, 0x03040506, 0xAABBCCDD, &payload);
    assert_eq!(
        p,
        vec![
            0x80, 0x00, 0x01, 0x02, 0x03, 0x04, 0x05, 0x06, 0xAA, 0xBB, 0xCC, 0xDD, 0x11, 0x22,
            0x33
        ]
    );
}

#[test]
fn parse_inverts_build() {
    let payload = vec![7u8; 160];
    let p = build_rtp_packet(0, 321, 4800, 0x1234_5678, &payload);
    let h = parse_rtp_header(&p).unwrap();
    assert_eq!(h.payload_type, 0);
    assert_eq!(h.sequence, 321);
    assert_eq!(h.timestamp, 4800);
    assert_eq!(h.ssrc, 0x1234_5678);
}

#[test]
fn parse_rejects_bad_headers() {
    assert!(parse_rtp_header(&[0x80u8; 11]).is_none()); // too short
    let mut wrong_version = [0u8; 12];
    wrong_version[0] = 0x40;
    assert!(parse_rtp_header(&wrong_version).is_none());
    let mut with_csrc = [0u8; 16];
    with_csrc[0] = 0x81; // version 2, CC = 1
    assert!(parse_rtp_header(&with_csrc).is_none());
    let mut with_extension = [0u8; 16];
    with_extension[0] = 0x90; // version 2, X bit
    assert!(parse_rtp_header(&with_extension).is_none());
}

#[test]
fn greeting_stream_numbering() {
    // 400 bytes: two full 160-byte frames and one 80-byte tail
    let data: Vec<u8> = (0..400u32).map(|i| (i % 251) as u8 | 1).collect();
    let packets = greeting_packets(&data, 0xDEADBEEF, 0);
    assert_eq!(packets.len(), 3); // ceil(400 / 160)
    for (i, p) in packets.iter().enumerate() {
        assert_eq!(p[0], 0x80);
        assert_eq!(p[1], 0); // negotiated payload type
        let seq = u16::from_be_bytes([p[2], p[3]]);
        assert_eq!(seq as usize, i + 1); // sequence numbers 1..=N
        let ts = u32::from_be_bytes([p[4], p[5], p[6], p[7]]);
        assert_eq!(ts as usize, 160 * i); // timestamps 0, 160, 320, ...
        let ssrc = u32::from_be_bytes([p[8], p[9], p[10], p[11]]);
        assert_eq!(ssrc, 0xDEADBEEF); // constant SSRC
    }
    assert_eq!(&packets[0][12..], &data[0..160]);
    assert_eq!(&packets[1][12..], &data[160..320]);
    assert_eq!(&packets[2][12..], &data[320..400]);
}

#[test]
fn greeting_of_empty_data_is_empty() {
    let packets = greeting_packets(&[], 1, 0);
    assert!(packets.is_empty());
}

#[test]
fn ingest_appends_pcmu_payload() {
    let payload = vec![0xFFu8; 160];
    let packet = build_rtp_packet(0, 1, 0, 42, &payload);
    let mut buf = packet.clone();
    buf.resize(1500, 0);
    match ingest_action(&buf, packet.len()) {
        IngestAction::Append(p) => assert_eq!(p, payload),
        IngestAction::Skip => panic!("PCMU packet must be appended"),
    }
}

#[test]
fn ingest_skips_other_payload_types() {
    let packet = build_rtp_packet(8, 1, 0, 42, &[1u8; 160]);
    let mut buf = packet.clone();
    buf.resize(1500, 0);
    assert!(matches!(
        ingest_action(&buf, packet.len()),
        IngestAction::Skip
    ));
}

#[test]
fn ingest_skips_non_rtp_datagrams() {
    let buf = vec![0u8; 1500];
    assert!(matches!(ingest_action(&buf, 5), IngestAction::Skip));
    assert!(matches!(ingest_action(&buf, 100), IngestAction::Skip));
}

#[test]
fn capture_cap_is_thirty_seconds() {
    assert!(!capture_should_stop(0));
    assert!(!capture_should_stop(30));
    assert!(capture_should_stop(31));
}
