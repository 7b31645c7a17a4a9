//! SIP signalling decisions.
//!
//! The network loop itself — the UDP endpoint, the registration timer, the
//! transaction and dialog pumps — runs outside the library; every decision
//! those loops take is a function here: how to route a transaction, what a
//! dialog event means, when a registration must be retried or given up, and
//! how an incoming INVITE turns into an accepted media session.

use crate::caller::{extract_caller, regex_group1_concat};
use crate::sdp::{build_answer_sdp, parse_offer, spec_answer_sdp, spec_parse_offer, OfferInfo,
    SdpError};
use vstd::prelude::*;

verus! {

/// Per-call media configuration, shared between the transaction pump (which
/// stashes the last `From` header) and the dialog handler.
#[derive(Clone, Debug)]
pub struct MediaSessionOption {
    pub from: Option<String>,
    pub external_ip: Option<String>,
    pub rtp_start_port: u16,
    pub echo: bool,
    pub rec: bool,
}

impl MediaSessionOption {
    pub fn set_header(&mut self, header: String)
        ensures
            final(self).from matches Some(h) && h@ == header@,
            final(self).external_ip == old(self).external_ip,
            final(self).rtp_start_port == old(self).rtp_start_port,
            final(self).echo == old(self).echo,
            final(self).rec == old(self).rec,
    {
        self.from = Some(header);
    }

    pub fn get_header(&self) -> (r: Option<String>)
        ensures
            match (r, self.from) {
                (Some(a), Some(b)) => a@ == b@,
                (None, None) => true,
                _ => false,
            },
    {
        match &self.from {
            Some(h) => Some(h.clone()),
            None => None,
        }
    }
}

/// An IPv4 address as four plain octets.
#[derive(Clone, Copy, Debug, PartialEq, Eq, Structural)]
pub struct Ipv4 {
    pub a: u8,
    pub b: u8,
    pub c: u8,
    pub d: u8,
}

impl Ipv4 {
    /// Dotted-decimal rendering.
    pub fn format(&self) -> (r: String)
        ensures
            r@ == crate::utils::spec_dec(self.a as int) + seq!['.'] + crate::utils::spec_dec(
                self.b as int,
            ) + seq!['.'] + crate::utils::spec_dec(self.c as int) + seq!['.']
                + crate::utils::spec_dec(self.d as int),
    {
        let mut s = crate::utils::dec_u64(self.a as u64);
        crate::utils::push_char(&mut s, '.');
        let b = crate::utils::dec_u64(self.b as u64);
        s.append(b.as_str());
        crate::utils::push_char(&mut s, '.');
        let c = crate::utils::dec_u64(self.c as u64);
        s.append(c.as_str());
        crate::utils::push_char(&mut s, '.');
        let d = crate::utils::dec_u64(self.d as u64);
        s.append(d.as_str());
        assert(s@ =~= crate::utils::spec_dec(self.a as int) + seq!['.'] + crate::utils::spec_dec(
            self.b as int,
        ) + seq!['.'] + crate::utils::spec_dec(self.c as int) + seq!['.'] + crate::utils::spec_dec(
            self.d as int,
        ));
        s
    }
}

/// One host interface, reduced to what the selection needs.
#[derive(Clone, Copy, Debug)]
pub struct NetInterface {
    pub loopback: bool,
    pub v4: Option<Ipv4>,
}

/// Errors of the signalling layer.
#[derive(Clone, Copy, Debug, PartialEq, Eq, Structural)]
pub enum SipError {
    /// No non-loopback IPv4 interface was found.
    NoInterface,
}

/// Relies on get_if_addrs' `get_if_addrs` and the `Interface` accessors:
/// lists the host's interfaces with their loopback flag and IPv4 address,
/// `None` when enumeration itself fails.  What comes back depends on the
/// machine; nothing more is assumed of it.
#[verifier::external_body]
fn list_interfaces() -> (r: Option<Vec<NetInterface>>)
{
    let list = match get_if_addrs::get_if_addrs() {
        Ok(l) => l,
        Err(_) => return None,
    };
    let mut out: Vec<NetInterface> = Vec::new();
    for i in list {
        let v4 = match &i.addr {
            get_if_addrs::IfAddr::V4(x) => Some(x.ip.octets()),
            _ => None,
        };
        let v4 = v4.map(|o| Ipv4 { a: o[0], b: o[1], c: o[2], d: o[3] });
        out.push(NetInterface { loopback: i.is_loopback(), v4 });
    }
    Some(out)
}

/// The first non-loopback interface carrying an IPv4 address.
pub open spec fn spec_first_v4(s: Seq<NetInterface>) -> Option<Ipv4>
    decreases s.len(),
{
    if s.len() == 0 {
        Option::None
    } else if !s.first().loopback && s.first().v4 is Some {
        s.first().v4
    } else {
        spec_first_v4(s.drop_first())
    }
}

/// Select the first non-loopback IPv4 interface from a list.
pub fn first_non_loopback_v4(ifaces: &Vec<NetInterface>) -> (r: Option<Ipv4>)
    ensures
        r == spec_first_v4(ifaces@),
{
    let mut i: usize = 0;
    proof {
        assert(ifaces@.skip(0) =~= ifaces@);
    }
    while i < ifaces.len()
        invariant
            i <= ifaces@.len(),
            spec_first_v4(ifaces@) == spec_first_v4(ifaces@.skip(i as int)),
        decreases ifaces@.len() - i,
    {
        proof {
            assert(ifaces@.skip(i as int).first() == ifaces@[i as int]);
            assert(ifaces@.skip(i as int).drop_first() =~= ifaces@.skip(i as int + 1));
        }
        let iface = ifaces[i];
        if !iface.loopback {
            if let Some(ip) = iface.v4 {
                return Some(ip);
            }
        }
        i = i + 1;
    }
    None
}

/// The local address SIP and RTP bind to: the first non-loopback IPv4
/// interface of the host.
pub fn get_first_non_loopback_interface() -> (r: Result<Ipv4, SipError>)
{
    match list_interfaces() {
        None => Err(SipError::NoInterface),
        Some(ifaces) => match first_non_loopback_v4(&ifaces) {
            Some(ip) => Ok(ip),
            None => Err(SipError::NoInterface),
        },
    }
}

/// Does the string already carry a `sip:` or `sips:` scheme?
pub open spec fn has_sip_scheme(s: Seq<char>) -> bool {
    ||| (s.len() >= 4 && s[0] == 's' && s[1] == 'i' && s[2] == 'p' && s[3] == ':')
    ||| (s.len() >= 5 && s[0] == 's' && s[1] == 'i' && s[2] == 'p' && s[3] == 's' && s[4] == ':')
}

/// Prefix a configured registrar with `sip:` unless a scheme is present.
pub fn normalize_sip_server(s: &str) -> (r: String)
    ensures
        has_sip_scheme(s@) ==> r@ == s@,
        !has_sip_scheme(s@) ==> r@ == "sip:"@ + s@,
{
    let n = s.unicode_len();
    let with_scheme = if n >= 4 && s.get_char(0) == 's' && s.get_char(1) == 'i' && s.get_char(2)
        == 'p' {
        if s.get_char(3) == ':' {
            true
        } else if n >= 5 && s.get_char(3) == 's' && s.get_char(4) == ':' {
            true
        } else {
            false
        }
    } else {
        false
    };
    if with_scheme {
        String::from_str(s)
    } else {
        let mut out = String::from_str("sip:");
        out.append(s);
        out
    }
}

/// One step of the registration loop: after a `200 OK` sleep at least 50
/// seconds (more if the registrar granted a longer expiry) and re-register;
/// any other answer is fatal to the signalling loop.
#[derive(Clone, Copy, Debug, PartialEq, Eq, Structural)]
pub enum RegistrationStep {
    Retry(u64),
    Fail,
}

pub fn registration_step(ok: bool, expires: u64) -> (r: RegistrationStep)
    ensures
        ok ==> r == RegistrationStep::Retry(
            if expires > 50 {
                expires
            } else {
                50u64
            },
        ),
        !ok ==> r == RegistrationStep::Fail,
{
    if ok {
        RegistrationStep::Retry(
            if expires > 50 {
                expires
            } else {
                50
            },
        )
    } else {
        RegistrationStep::Fail
    }
}

#[derive(Clone, Copy, Debug, PartialEq, Eq, Structural)]
pub enum SipMethod {
    Invite,
    Ack,
    Other,
}

/// What the transaction pump does with one incoming transaction.
#[derive(Clone, Copy, Debug, PartialEq, Eq, Structural)]
pub enum TxAction {
    /// In-dialog request: hand it to the matched dialog.
    RouteToDialog,
    /// In-dialog request for a dialog nobody knows: drop it.
    Drop,
    /// Out-of-dialog INVITE or ACK: obtain a server dialog and let it handle
    /// the transaction (answering `481` when no dialog can be made).
    HandleInvite,
    /// Any other out-of-dialog request: answer `200 OK`.
    ReplyOk,
}

pub fn route_transaction(has_to_tag: bool, dialog_found: bool, method: SipMethod) -> (r: TxAction)
    ensures
        has_to_tag && dialog_found ==> r == TxAction::RouteToDialog,
        has_to_tag && !dialog_found ==> r == TxAction::Drop,
        !has_to_tag && (method == SipMethod::Invite || method == SipMethod::Ack) ==> r
            == TxAction::HandleInvite,
        !has_to_tag && method == SipMethod::Other ==> r == TxAction::ReplyOk,
{
    if has_to_tag {
        if dialog_found {
            TxAction::RouteToDialog
        } else {
            TxAction::Drop
        }
    } else {
        match method {
            SipMethod::Invite => TxAction::HandleInvite,
            SipMethod::Ack => TxAction::HandleInvite,
            SipMethod::Other => TxAction::ReplyOk,
        }
    }
}

/// A dialog lifecycle event, reduced to what the pump decides on.
#[derive(Clone, Copy, Debug, PartialEq, Eq, Structural)]
pub enum DialogEvent {
    Calling { server_invite: bool },
    Early,
    Terminated,
    OtherState,
}

#[derive(Clone, Copy, Debug, PartialEq, Eq, Structural)]
pub enum DialogAction {
    /// A server-invite dialog has a caller: start the call handler.
    StartCall,
    /// Nothing to do (client dialogs, early media, unknown states).
    Ignore,
    /// The dialog ended: remove it from the dialog layer.
    RemoveDialog,
}

pub fn dialog_event_action(e: DialogEvent) -> (r: DialogAction)
    ensures
        e == (DialogEvent::Calling { server_invite: true }) ==> r == DialogAction::StartCall,
        e == (DialogEvent::Calling { server_invite: false }) ==> r == DialogAction::Ignore,
        e == DialogEvent::Early || e == DialogEvent::OtherState ==> r == DialogAction::Ignore,
        e == DialogEvent::Terminated ==> r == DialogAction::RemoveDialog,
{
    match e {
        DialogEvent::Calling { server_invite } => {
            if server_invite {
                DialogAction::StartCall
            } else {
                DialogAction::Ignore
            }
        },
        DialogEvent::Early => DialogAction::Ignore,
        DialogEvent::Terminated => DialogAction::RemoveDialog,
        DialogEvent::OtherState => DialogAction::Ignore,
    }
}

/// Does this stringified header open with `From`?
pub open spec fn starts_with_from(s: Seq<char>) -> bool {
    s.len() >= 4 && s[0] == 'F' && s[1] == 'r' && s[2] == 'o' && s[3] == 'm'
}

fn is_from_header(s: &String) -> (r: bool)
    ensures
        r == starts_with_from(s@),
{
    let st = s.as_str();
    st.unicode_len() >= 4 && st.get_char(0) == 'F' && st.get_char(1) == 'r' && st.get_char(2)
        == 'o' && st.get_char(3) == 'm'
}

/// The first header whose rendering opens with `From`, as stashed by the
/// transaction pump for the dialog handler.
pub fn first_from_header(headers: &Vec<String>) -> (r: Option<usize>)
    ensures
        match r {
            Some(ix) => ix < headers@.len() && starts_with_from(headers@[ix as int]@) && forall|
                j: int,
            | 0 <= j < ix ==> !starts_with_from(#[trigger] headers@[j]@),
            None => forall|j: int|
                0 <= j < headers@.len() ==> !starts_with_from(#[trigger] headers@[j]@),
        },
{
    let mut i: usize = 0;
    while i < headers.len()
        invariant
            i <= headers@.len(),
            forall|j: int| 0 <= j < i ==> !starts_with_from(#[trigger] headers@[j]@),
        decreases headers@.len() - i,
    {
        if is_from_header(&headers[i]) {
            return Some(i);
        }
        i = i + 1;
    }
    None
}

/// How the media task runs a call: echo the peer's packets back, record
/// them, or only play the greeting.  Echo wins over recording.
#[derive(Clone, Copy, Debug, PartialEq, Eq, Structural)]
pub enum MediaMode {
    Echo,
    Record,
    GreetingOnly,
}

pub fn media_mode(echo: bool, rec: bool) -> (r: MediaMode)
    ensures
        echo ==> r == MediaMode::Echo,
        !echo && rec ==> r == MediaMode::Record,
        !echo && !rec ==> r == MediaMode::GreetingOnly,
{
    if echo {
        MediaMode::Echo
    } else if rec {
        MediaMode::Record
    } else {
        MediaMode::GreetingOnly
    }
}

/// Why a call could not be accepted.
#[derive(Clone, Copy, Debug, PartialEq, Eq, Structural)]
pub enum CallError {
    /// The offer did not parse down to address, port and format.
    Sdp(SdpError),
    /// The offer's payload type is not PCMU.
    UnsupportedCodec(u8),
    /// No RTP port in the probe range could be bound.
    NoFreePort,
}

/// Everything the dialog handler decides about an INVITE before any socket
/// is bound: the caller identity and the peer's media endpoint.
#[derive(Debug, Clone)]
pub struct CallPlan {
    pub caller: String,
    pub offer: OfferInfo,
}

/// Work an incoming INVITE out into a call plan: extract the caller from
/// the `From` header, parse the offer, and reject any codec but PCMU
/// before a socket is bound.
pub fn plan_call(from_header: &str, body: &[u8]) -> (r: Result<CallPlan, CallError>)
    ensures
        match r {
            Ok(p) => {
                &&& spec_parse_offer(body@) matches Ok(o) && o.0 == p.offer.addr@ && o.1
                    == p.offer.port as int && o.2 == 0
                &&& p.offer.payload_type == 0
                &&& p.caller@ == regex_group1_concat(
                    "<[^:]+:(?<a>[^@]+)@.*$"@,
                    from_header@,
                )
            },
            Err(CallError::Sdp(e)) => spec_parse_offer(body@) == Result::<(Seq<u8>, int, int),
                SdpError,
            >::Err(e),
            Err(CallError::UnsupportedCodec(pt)) => {
                &&& pt != 0
                &&& spec_parse_offer(body@) matches Ok(o) && o.2 == pt as int
            },
            Err(CallError::NoFreePort) => false,
        },
{
    let caller = extract_caller(from_header);
    let offer = match parse_offer(body) {
        Ok(o) => o,
        Err(e) => {
            return Err(CallError::Sdp(e));
        },
    };
    if offer.payload_type != 0 {
        return Err(CallError::UnsupportedCodec(offer.payload_type));
    }
    Ok(CallPlan { caller, offer })
}

/// Finish the accept once the binder has (or has not) bound a local RTP
/// socket: no bound port fails the call, a bound endpoint yields the answer
/// SDP to accept with.
pub fn finish_accept(pt: u8, ssrc: u32, bound: Option<(String, u16)>) -> (r: Result<
    String,
    CallError,
>)
    ensures
        match r {
            Ok(answer) => bound matches Some(b) && answer@ == spec_answer_sdp(
                b.0@,
                b.1 as int,
                pt as int,
                ssrc as int,
            ),
            Err(e) => bound is None && e == CallError::NoFreePort,
        },
{
    match bound {
        None => Err(CallError::NoFreePort),
        Some((ip, port)) => Ok(build_answer_sdp(ip.as_str(), port, pt, ssrc)),
    }
}

} // verus!
