use voicemail::caller::extract_caller;

#[test]
fn extracts_the_user_part() {
    assert_eq!(extract_caller("<sip:102@192.168.1.1:5060>;tag=abc"), "102");
}

#[test]
fn extracts_from_a_full_from_header() {
    assert_eq!(
        extract_caller("From: \"Alice\" <sip:alice@example.com>;tag=77"),
        "alice"
    );
}

#[test]
fn header_without_uri_yields_empty() {
    assert_eq!(extract_caller("From: anonymous"), "");
    assert_eq!(extract_caller(""), "");
}
