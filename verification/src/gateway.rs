//! The gateway client's verified core: classifying inbound frames, the
//! connection state machine, and the two outbound frames.
//!
//! The surrounding process owns the socket. It feeds every observable
//! occurrence — a connect result, a decoded frame, a timer firing, a send
//! result, the stream ending — into `gateway_step` and performs the returned
//! action; the step function alone decides what happens next.

use vstd::prelude::*;
use vstd::string::StringExecFns;
use crate::json::{
    FieldRead, append_json_escaped, json_escaped, parsed_json, spec_field_opt_str,
    spec_field_str, spec_field_u64,
};
use crate::models::{
    Channel, IdentifyPayload, ProtocolError, envelope_ok, envelope_payload, parse_channel,
    parse_envelope, parse_hello,
};

verus! {

/// What one frame of text means to the protocol, spelled out over the JSON
/// tree the text parses to. `Invalid` covers text that is not JSON
/// (`not_json`) as well as JSON that does not fit the shape the tag demands.
pub enum FrameSpec {
    Hello { heartbeat_interval: u64 },
    ChannelUpdate { id: Seq<char>, name: Option<Seq<char>> },
    HeartbeatAck,
    Other { op: u64 },
    Invalid { not_json: bool },
}

/// The `op` tag of an envelope that passed `envelope_ok`.
pub open spec fn env_op(v: serde_json::Value) -> u64 {
    match spec_field_u64(v, "op"@) {
        FieldRead::Present(n) => n,
        _ => 0,
    }
}

/// The event type of an envelope that passed `envelope_ok`.
pub open spec fn env_t(v: serde_json::Value) -> Option<Seq<char>> {
    match spec_field_opt_str(v, "t"@) {
        FieldRead::Present(x) => x,
        _ => Option::None,
    }
}

/// The second decode stage over an already-read envelope: which payload
/// shape the tag demands, and whether the payload fits it.
pub open spec fn payload_frame(op: u64, t: Option<Seq<char>>, d: Option<serde_json::Value>) -> FrameSpec {
    if op == 10 {
        match d {
            Option::None => FrameSpec::Invalid { not_json: false },
            Option::Some(p) => match spec_field_u64(p, "heartbeat_interval"@) {
                FieldRead::Present(hb) => FrameSpec::Hello { heartbeat_interval: hb },
                _ => FrameSpec::Invalid { not_json: false },
            },
        }
    } else if op == 0 && t == Option::Some("CHANNEL_UPDATE"@) {
        match d {
            Option::None => FrameSpec::Invalid { not_json: false },
            Option::Some(p) => match (spec_field_str(p, "id"@), spec_field_opt_str(p, "name"@)) {
                (FieldRead::Present(id), FieldRead::Present(nm)) => FrameSpec::ChannelUpdate {
                    id,
                    name: nm,
                },
                _ => FrameSpec::Invalid { not_json: false },
            },
        }
    } else if op == 11 {
        FrameSpec::HeartbeatAck
    } else {
        FrameSpec::Other { op }
    }
}

/// What one frame of text means: both decode stages composed.
pub open spec fn frame_spec(s: Seq<char>) -> FrameSpec {
    match parsed_json(s) {
        Option::None => FrameSpec::Invalid { not_json: true },
        Option::Some(v) => if !envelope_ok(v) {
            FrameSpec::Invalid { not_json: false }
        } else {
            payload_frame(env_op(v), env_t(v), envelope_payload(v))
        },
    }
}

/// A decoded inbound frame, reduced to the shapes the client reacts to.
pub enum InboundEvent {
    Hello { heartbeat_interval: u64 },
    ChannelUpdate { channel: Channel },
    HeartbeatAck,
    Other { op: u8 },
}

fn is_channel_update(t: &Option<String>) -> (r: bool)
    ensures
        r == (t.deep_view() == Option::Some("CHANNEL_UPDATE"@)),
{
    match t {
        Option::None => false,
        Option::Some(s) => s.eq(&"CHANNEL_UPDATE".to_owned()),
    }
}

/// Decode one frame of text, envelope first, payload second. The result is
/// exactly what `frame_spec` says of the text: a decoded event for a frame
/// the protocol knows, an error for anything that does not fit.
pub fn decode_event(text: &str) -> (r: Result<InboundEvent, ProtocolError>)
    ensures
        match r {
            Result::Ok(ev) => match ev {
                InboundEvent::Hello { heartbeat_interval } => frame_spec(text@)
                    == (FrameSpec::Hello { heartbeat_interval }),
                InboundEvent::ChannelUpdate { channel } => frame_spec(text@)
                    == (FrameSpec::ChannelUpdate {
                    id: channel.id@,
                    name: channel.name.deep_view(),
                }),
                InboundEvent::HeartbeatAck => frame_spec(text@) == FrameSpec::HeartbeatAck,
                InboundEvent::Other { op } => frame_spec(text@) == (FrameSpec::Other {
                    op: op as u64,
                }),
            },
            Result::Err(e) => frame_spec(text@) == (FrameSpec::Invalid {
                not_json: e is NotJson,
            }),
        },
{
    let m = match parse_envelope(text) {
        Result::Ok(m) => m,
        Result::Err(e) => {
            return Result::Err(e);
        },
    };
    if m.op == 10 {
        match &m.d {
            Option::None => Result::Err(ProtocolError::Malformed),
            Option::Some(d) => match parse_hello(d) {
                Result::Ok(h) => Result::Ok(
                    InboundEvent::Hello { heartbeat_interval: h.heartbeat_interval },
                ),
                Result::Err(e) => Result::Err(e),
            },
        }
    } else if m.op == 0 && is_channel_update(&m.t) {
        match &m.d {
            Option::None => Result::Err(ProtocolError::Malformed),
            Option::Some(d) => match parse_channel(d) {
                Result::Ok(c) => Result::Ok(InboundEvent::ChannelUpdate { channel: c }),
                Result::Err(e) => Result::Err(e),
            },
        }
    } else if m.op == 11 {
        Result::Ok(InboundEvent::HeartbeatAck)
    } else {
        Result::Ok(InboundEvent::Other { op: m.op })
    }
}

/// Where the connection stands: disconnected, waiting for the greeting,
/// authenticate frame sent but not yet confirmed on the wire, or live with a
/// heartbeat obligation.
pub enum ConnState {
    Disconnected,
    AwaitingGreeting,
    Authenticating { heartbeat_interval: u64 },
    Active { heartbeat_interval: u64 },
}

/// Everything the connection-owning task can observe and must report to the
/// state machine.
pub enum GatewayEvent {
    Connected,
    ConnectFailed,
    Inbound { frame: Result<InboundEvent, ProtocolError> },
    NonText,
    ConnectionLost,
    HeartbeatDue,
    SendOk,
    SendFailed,
}

/// What the connection-owning task must do next. `Backoff` means: wait the
/// fixed reconnect delay, cancel any heartbeat timer, then connect again.
/// `StartHeartbeat` means: the connection is live, fire `HeartbeatDue` every
/// `interval_ms` until the next `Backoff`. `Reconcile` means: run the shared
/// compare-and-update with the given name.
pub enum GatewayAction {
    Nothing,
    Backoff,
    SendIdentify,
    StartHeartbeat { interval_ms: u64 },
    SendHeartbeat,
    Reconcile { name: Option<String> },
}

/// The whole transition table.
///
/// Connecting leads to `AwaitingGreeting`; there only a well-formed greeting
/// advances (to `Authenticating`, sending the authenticate frame) and every
/// other frame, transport failure or stream end falls back to `Disconnected`
/// with the fixed backoff. A confirmed send makes the session `Active`;
/// there the heartbeat timer drives `SendHeartbeat`, a dispatched update for
/// the watched id demands a reconcile, malformed or unknown frames are
/// ignored, and any send failure, close or transport error ends the session
/// with the same backoff. No state is terminal.
pub open spec fn gateway_step_spec(st: ConnState, ev: GatewayEvent, watched_id: Seq<char>) -> (
    ConnState,
    GatewayAction,
) {
    match st {
        ConnState::Disconnected => match ev {
            GatewayEvent::Connected => (ConnState::AwaitingGreeting, GatewayAction::Nothing),
            GatewayEvent::ConnectFailed => (ConnState::Disconnected, GatewayAction::Backoff),
            _ => (st, GatewayAction::Nothing),
        },
        ConnState::AwaitingGreeting => match ev {
            GatewayEvent::Inbound { frame } => match frame {
                Result::Ok(InboundEvent::Hello { heartbeat_interval }) => (
                    ConnState::Authenticating { heartbeat_interval },
                    GatewayAction::SendIdentify,
                ),
                _ => (ConnState::Disconnected, GatewayAction::Backoff),
            },
            GatewayEvent::NonText => (ConnState::Disconnected, GatewayAction::Backoff),
            GatewayEvent::ConnectionLost => (ConnState::Disconnected, GatewayAction::Backoff),
            _ => (st, GatewayAction::Nothing),
        },
        ConnState::Authenticating { heartbeat_interval } => match ev {
            GatewayEvent::SendOk => (
                ConnState::Active { heartbeat_interval },
                GatewayAction::StartHeartbeat { interval_ms: heartbeat_interval },
            ),
            GatewayEvent::SendFailed => (ConnState::Disconnected, GatewayAction::Backoff),
            GatewayEvent::ConnectionLost => (ConnState::Disconnected, GatewayAction::Backoff),
            _ => (st, GatewayAction::Nothing),
        },
        ConnState::Active { heartbeat_interval } => match ev {
            GatewayEvent::HeartbeatDue => (st, GatewayAction::SendHeartbeat),
            GatewayEvent::SendFailed => (ConnState::Disconnected, GatewayAction::Backoff),
            GatewayEvent::ConnectionLost => (ConnState::Disconnected, GatewayAction::Backoff),
            GatewayEvent::Inbound { frame } => match frame {
                Result::Ok(InboundEvent::ChannelUpdate { channel }) => if channel.id@
                    == watched_id {
                    (st, GatewayAction::Reconcile { name: channel.name })
                } else {
                    (st, GatewayAction::Nothing)
                },
                _ => (st, GatewayAction::Nothing),
            },
            _ => (st, GatewayAction::Nothing),
        },
    }
}

/// One step of the connection state machine; the result is exactly the
/// transition table's entry for the given state and event.
pub fn gateway_step(st: ConnState, ev: GatewayEvent, watched_id: &String) -> (r: (
    ConnState,
    GatewayAction,
))
    ensures
        r == gateway_step_spec(st, ev, watched_id@),
{
    match st {
        ConnState::Disconnected => match ev {
            GatewayEvent::Connected => (ConnState::AwaitingGreeting, GatewayAction::Nothing),
            GatewayEvent::ConnectFailed => (ConnState::Disconnected, GatewayAction::Backoff),
            _ => (ConnState::Disconnected, GatewayAction::Nothing),
        },
        ConnState::AwaitingGreeting => match ev {
            GatewayEvent::Inbound { frame } => match frame {
                Result::Ok(InboundEvent::Hello { heartbeat_interval }) => (
                    ConnState::Authenticating { heartbeat_interval },
                    GatewayAction::SendIdentify,
                ),
                _ => (ConnState::Disconnected, GatewayAction::Backoff),
            },
            GatewayEvent::NonText => (ConnState::Disconnected, GatewayAction::Backoff),
            GatewayEvent::ConnectionLost => (ConnState::Disconnected, GatewayAction::Backoff),
            _ => (ConnState::AwaitingGreeting, GatewayAction::Nothing),
        },
        ConnState::Authenticating { heartbeat_interval } => match ev {
            GatewayEvent::SendOk => (
                ConnState::Active { heartbeat_interval },
                GatewayAction::StartHeartbeat { interval_ms: heartbeat_interval },
            ),
            GatewayEvent::SendFailed => (ConnState::Disconnected, GatewayAction::Backoff),
            GatewayEvent::ConnectionLost => (ConnState::Disconnected, GatewayAction::Backoff),
            _ => (ConnState::Authenticating { heartbeat_interval }, GatewayAction::Nothing),
        },
        ConnState::Active { heartbeat_interval } => match ev {
            GatewayEvent::HeartbeatDue => (
                ConnState::Active { heartbeat_interval },
                GatewayAction::SendHeartbeat,
            ),
            GatewayEvent::SendFailed => (ConnState::Disconnected, GatewayAction::Backoff),
            GatewayEvent::ConnectionLost => (ConnState::Disconnected, GatewayAction::Backoff),
            GatewayEvent::Inbound { frame } => match frame {
                Result::Ok(InboundEvent::ChannelUpdate { channel }) => {
                    if channel.id.eq(watched_id) {
                        (
                            ConnState::Active { heartbeat_interval },
                            GatewayAction::Reconcile { name: channel.name },
                        )
                    } else {
                        (ConnState::Active { heartbeat_interval }, GatewayAction::Nothing)
                    }
                },
                _ => (ConnState::Active { heartbeat_interval }, GatewayAction::Nothing),
            },
            _ => (ConnState::Active { heartbeat_interval }, GatewayAction::Nothing),
        },
    }
}

/// The heartbeat frame, as it goes onto the wire.
pub open spec fn heartbeat_json() -> Seq<char> {
    "{\"op\":1}"@
}

/// The authenticate payload on its own: the token and the client
/// properties, every text escaped.
pub open spec fn identify_payload_json(
    token: Seq<char>,
    os: Seq<char>,
    browser: Seq<char>,
    device: Seq<char>,
) -> Seq<char> {
    "{\"token\":\""@ + json_escaped(token) + "\",\"properties\":{\"os\":\""@ + json_escaped(os)
        + "\",\"browser\":\""@ + json_escaped(browser) + "\",\"device\":\""@ + json_escaped(device)
        + "\"}}"@
}

/// The authenticate frame, as it goes onto the wire: tag 2 around the
/// payload.
pub open spec fn identify_json(
    token: Seq<char>,
    os: Seq<char>,
    browser: Seq<char>,
    device: Seq<char>,
) -> Seq<char> {
    "{\"op\":2,\"d\":"@ + identify_payload_json(token, os, browser, device) + "}"@
}

/// The text of the heartbeat frame.
pub fn encode_heartbeat() -> (r: String)
    ensures
        r@ == heartbeat_json(),
{
    "{\"op\":1}".to_owned()
}

/// The text of the authenticate payload for the given values.
pub fn encode_identify_payload(p: &IdentifyPayload) -> (r: String)
    ensures
        r@ == identify_payload_json(
            p.token@,
            p.properties.os@,
            p.properties.browser@,
            p.properties.device@,
        ),
{
    let mut out = "{\"token\":\"".to_owned();
    append_json_escaped(&mut out, p.token.as_str());
    out.append("\",\"properties\":{\"os\":\"");
    append_json_escaped(&mut out, p.properties.os.as_str());
    out.append("\",\"browser\":\"");
    append_json_escaped(&mut out, p.properties.browser.as_str());
    out.append("\",\"device\":\"");
    append_json_escaped(&mut out, p.properties.device.as_str());
    out.append("\"}}");
    proof {
        assert(out@ =~= identify_payload_json(
            p.token@,
            p.properties.os@,
            p.properties.browser@,
            p.properties.device@,
        ));
    }
    out
}

/// The text of the authenticate frame for the given payload.
pub fn encode_identify(p: &IdentifyPayload) -> (r: String)
    ensures
        r@ == identify_json(p.token@, p.properties.os@, p.properties.browser@, p.properties.device@),
{
    let mut out = "{\"op\":2,\"d\":".to_owned();
    let payload = encode_identify_payload(p);
    out.append(payload.as_str());
    out.append("}");
    proof {
        assert(out@ =~= identify_json(
            p.token@,
            p.properties.os@,
            p.properties.browser@,
            p.properties.device@,
        ));
    }
    out
}

} // verus!
