use voicemail::sip::{
    dialog_event_action, first_from_header, first_non_loopback_v4, media_mode, normalize_sip_server,
    registration_step, route_transaction, DialogAction, DialogEvent, Ipv4, MediaMode,
    MediaSessionOption, NetInterface, RegistrationStep, SipMethod, TxAction,
};

#[test]
fn registration_refresh_and_failure() {
    // 200 OK with expires=60: re-register after 60 s (at least 50)
    assert_eq!(registration_step(true, 60), RegistrationStep::Retry(60));
    assert_eq!(registration_step(true, 10), RegistrationStep::Retry(50));
    assert_eq!(registration_step(true, 0), RegistrationStep::Retry(50));
    // a non-OK answer (e.g. 401) is fatal to the signalling loop
    assert_eq!(registration_step(false, 60), RegistrationStep::Fail);
}

#[test]
fn transaction_routing() {
    assert_eq!(
        route_transaction(true, true, SipMethod::Other),
        TxAction::RouteToDialog
    );
    assert_eq!(
        route_transaction(true, false, SipMethod::Invite),
        TxAction::Drop
    );
    assert_eq!(
        route_transaction(false, false, SipMethod::Invite),
        TxAction::HandleInvite
    );
    assert_eq!(
        route_transaction(false, false, SipMethod::Ack),
        TxAction::HandleInvite
    );
    assert_eq!(
        route_transaction(false, false, SipMethod::Other),
        TxAction::ReplyOk
    );
}

#[test]
fn dialog_events() {
    assert_eq!(
        dialog_event_action(DialogEvent::Calling { server_invite: true }),
        DialogAction::StartCall
    );
    assert_eq!(
        dialog_event_action(DialogEvent::Calling {
            server_invite: false
        }),
        DialogAction::Ignore
    );
    assert_eq!(dialog_event_action(DialogEvent::Early), DialogAction::Ignore);
    assert_eq!(
        dialog_event_action(DialogEvent::Terminated),
        DialogAction::RemoveDialog
    );
    assert_eq!(
        dialog_event_action(DialogEvent::OtherState),
        DialogAction::Ignore
    );
}

#[test]
fn media_mode_selection() {
    assert_eq!(media_mode(true, true), MediaMode::Echo);
    assert_eq!(media_mode(true, false), MediaMode::Echo);
    assert_eq!(media_mode(false, true), MediaMode::Record);
    assert_eq!(media_mode(false, false), MediaMode::GreetingOnly);
}

#[test]
fn sip_server_normalization() {
    assert_eq!(normalize_sip_server("example.com"), "sip:example.com");
    assert_eq!(normalize_sip_server("sip:example.com"), "sip:example.com");
    assert_eq!(normalize_sip_server("sips:example.com"), "sips:example.com");
    assert_eq!(normalize_sip_server(""), "sip:");
}

#[test]
fn from_header_selection() {
    let headers = vec![
        String::from("Via: SIP/2.0/UDP host"),
        String::from("From: <sip:102@host>"),
        String::from("From: <sip:other@host>"),
    ];
    assert_eq!(first_from_header(&headers), Some(1));
    let none = vec![String::from("Via: x"), String::from("To: y")];
    assert_eq!(first_from_header(&none), None);
}

#[test]
fn interface_selection() {
    let lo = NetInterface {
        loopback: true,
        v4: Some(Ipv4 {
            a: 127,
            b: 0,
            c: 0,
            d: 1,
        }),
    };
    let v6_only = NetInterface {
        loopback: false,
        v4: None,
    };
    let lan = NetInterface {
        loopback: false,
        v4: Some(Ipv4 {
            a: 192,
            b: 168,
            c: 1,
            d: 5,
        }),
    };
    let ip = first_non_loopback_v4(&vec![lo, v6_only, lan]).unwrap();
    assert_eq!(ip.format(), "192.168.1.5");
    assert_eq!(first_non_loopback_v4(&vec![lo, v6_only]), None);
}

#[test]
fn media_session_option_header_slot() {
    let mut opt = MediaSessionOption {
        from: None,
        external_ip: None,
        rtp_start_port: 5061,
        echo: false,
        rec: true,
    };
    assert_eq!(opt.get_header(), None);
    opt.set_header(String::from("From: <sip:1@h>"));
    assert_eq!(opt.get_header(), Some(String::from("From: <sip:1@h>")));
}
