use voicemail::sdp::{build_answer_sdp, parse_offer, rtp_candidate_ports, SdpError};
use voicemail::sip::{finish_accept, plan_call, CallError};

fn offer(pt: u8) -> String {
    format!(
        "v=0\r\no=- 0 0 IN IP4 10.0.0.2\r\ns=call\r\nc=IN IP4 10.0.0.2\r\nt=0 0\r\nm=audio 40000 RTP/AVP {}\r\n",
        pt
    )
}

#[test]
fn offer_parses_to_addr_port_and_format() {
    let o = parse_offer(offer(0).as_bytes()).unwrap();
    assert_eq!(o.addr, b"10.0.0.2".to_vec());
    assert_eq!(o.port, 40000);
    assert_eq!(o.payload_type, 0);
}

#[test]
fn offer_with_ttl_suffix_keeps_base_address() {
    let text = "c=IN IP4 224.2.36.42/127\r\nm=audio 5004 RTP/AVP 0\r\n";
    let o = parse_offer(text.as_bytes()).unwrap();
    assert_eq!(o.addr, b"224.2.36.42".to_vec());
}

#[test]
fn offer_without_connection_is_rejected() {
    let text = "v=0\r\nm=audio 40000 RTP/AVP 0\r\n";
    assert_eq!(
        parse_offer(text.as_bytes()).unwrap_err(),
        SdpError::NoConnection
    );
}

#[test]
fn offer_without_audio_media_is_rejected() {
    let text = "v=0\r\nc=IN IP4 10.0.0.2\r\n";
    assert_eq!(
        parse_offer(text.as_bytes()).unwrap_err(),
        SdpError::NoAudioPort
    );
}

#[test]
fn offer_with_malformed_lines_is_rejected() {
    let bad_c = "c=IN IP6 ::1\r\nm=audio 40000 RTP/AVP 0\r\n";
    assert_eq!(parse_offer(bad_c.as_bytes()).unwrap_err(), SdpError::Malformed);
    let bad_port = "c=IN IP4 10.0.0.2\r\nm=audio port RTP/AVP 0\r\n";
    assert_eq!(
        parse_offer(bad_port.as_bytes()).unwrap_err(),
        SdpError::Malformed
    );
    let big_port = "c=IN IP4 10.0.0.2\r\nm=audio 70000 RTP/AVP 0\r\n";
    assert_eq!(
        parse_offer(big_port.as_bytes()).unwrap_err(),
        SdpError::Malformed
    );
}

#[test]
fn multiple_formats_fall_back_to_pcmu() {
    let text = "c=IN IP4 10.0.0.2\r\nm=audio 40000 RTP/AVP 0 8 101\r\n";
    let o = parse_offer(text.as_bytes()).unwrap();
    assert_eq!(o.payload_type, 0);
}

#[test]
fn pcma_offer_fails_before_any_binding() {
    // unsupported codec: accept fails, nothing else happens for this call
    let from = "From: <sip:102@192.168.1.1:5060>;tag=abc";
    match plan_call(from, offer(8).as_bytes()) {
        Err(CallError::UnsupportedCodec(8)) => {}
        other => panic!("expected UnsupportedCodec(8), got {:?}", other.map(|_| ())),
    }
}

#[test]
fn unparseable_offer_fails_the_plan() {
    let from = "From: <sip:102@192.168.1.1:5060>;tag=abc";
    match plan_call(from, b"") {
        Err(CallError::Sdp(SdpError::NoConnection)) => {}
        _ => panic!("expected Sdp(NoConnection)"),
    }
}

#[test]
fn pcmu_offer_yields_a_plan() {
    let from = "From: <sip:102@192.168.1.1:5060>;tag=abc";
    let plan = plan_call(from, offer(0).as_bytes()).unwrap();
    assert_eq!(plan.caller, "102");
    assert_eq!(plan.offer.addr, b"10.0.0.2".to_vec());
    assert_eq!(plan.offer.port, 40000);
    assert_eq!(plan.offer.payload_type, 0);
}

#[test]
fn answer_follows_the_template() {
    let answer = build_answer_sdp("192.168.1.5", 5063, 0, 12345);
    let expected = "v=0\r\n\
        o=- 0 0 IN IP4 192.168.1.5\r\n\
        s=rsipstack example\r\n\
        c=IN IP4 192.168.1.5\r\n\
        t=0 0\r\n\
        m=audio 5063 RTP/AVP 0\r\n\
        a=rtpmap:0 PCMU/8000\r\n\
        a=ssrc:12345\r\n\
        a=sendrecv\r\n";
    assert_eq!(answer, expected);
}

#[test]
fn probe_ports_step_by_two() {
    let ports = rtp_candidate_ports(5061);
    assert_eq!(ports.len(), 100);
    assert_eq!(ports[0], 5061);
    assert_eq!(ports[1], 5063);
    assert_eq!(ports[99], 5061 + 198);
}

#[test]
fn exhausted_probe_range_fails_the_call() {
    // all hundred candidate ports were busy: no bound endpoint
    match finish_accept(0, 1, None) {
        Err(CallError::NoFreePort) => {}
        _ => panic!("expected NoFreePort"),
    }
}

#[test]
fn bound_endpoint_yields_the_answer() {
    let answer = finish_accept(0, 7, Some((String::from("10.0.0.1"), 5061))).unwrap();
    assert!(answer.contains("m=audio 5061 RTP/AVP 0"));
    assert!(answer.contains("a=ssrc:7"));
    assert!(answer.contains("c=IN IP4 10.0.0.1"));
}
