//! The wire-level shapes of the gateway protocol and the REST resource
//! record, with the verified parsers that read them out of JSON text.
//!
//! Decoding is done in two stages, envelope first, payload second: every
//! frame is one `GatewayMessage` whose `d` member stays an opaque JSON value
//! until the `op` tag says which payload shape to read out of it.

use vstd::prelude::*;
use crate::json::{
    FieldRead, field_opt_str, field_opt_u64, field_str, field_u64, is_null_of, json_clone,
    json_get, json_is_null, json_parse, obj_field, parsed_json, spec_field_opt_str,
    spec_field_opt_u64, spec_field_str, spec_field_u64,
};

verus! {

/// One frame of the gateway protocol: an integer `op` tag selecting the
/// semantics, an optional sequence number, an optional event type, and an
/// opaque payload whose shape depends on the tag.
pub struct GatewayMessage {
    pub op: u8,
    pub s: Option<u64>,
    pub t: Option<String>,
    pub d: Option<serde_json::Value>,
}

/// The greeting payload (`op` 10): the interval the heartbeat must fire at.
pub struct HelloPayload {
    pub heartbeat_interval: u64,
}

/// The authenticate payload (`op` 2).
pub struct IdentifyPayload {
    pub token: String,
    pub properties: IdentifyProperties,
}

/// The client-properties block of the authenticate payload.
pub struct IdentifyProperties {
    pub os: String,
    pub browser: String,
    pub device: String,
}

/// The resource record both the REST endpoint and the dispatch payload
/// carry: an id and an optional name.
pub struct Channel {
    pub id: String,
    pub name: Option<String>,
}

/// Why a frame could not be decoded: the text is not JSON at all, or it is
/// JSON whose shape does not fit the protocol.
pub enum ProtocolError {
    NotJson,
    Malformed,
}

/// The payload member of an envelope: an absent or null `d` reads as no
/// payload.
pub open spec fn envelope_payload(v: serde_json::Value) -> Option<serde_json::Value> {
    match obj_field(v, "d"@) {
        Option::None => Option::None,
        Option::Some(f) => if is_null_of(f) {
            Option::None
        } else {
            Option::Some(f)
        },
    }
}

/// Whether a JSON tree fits the envelope shape: a numeric `op` tag that fits
/// the tag's range, and, where present, a numeric `s` and a textual `t`.
pub open spec fn envelope_ok(v: serde_json::Value) -> bool {
    &&& match spec_field_u64(v, "op"@) {
        FieldRead::Present(op) => op <= 255,
        _ => false,
    }
    &&& spec_field_opt_u64(v, "s"@) is Present
    &&& spec_field_opt_str(v, "t"@) is Present
}

/// First decode stage: one text frame to one envelope. Succeeds exactly on
/// JSON text of the envelope shape; the payload is carried through opaque.
pub fn parse_envelope(text: &str) -> (r: Result<GatewayMessage, ProtocolError>)
    ensures
        r is Ok <==> (parsed_json(text@) matches Option::Some(v) && envelope_ok(v)),
        r matches Ok(m) ==> (parsed_json(text@) matches Option::Some(v) && {
            &&& spec_field_u64(v, "op"@) == FieldRead::Present(m.op as u64)
            &&& spec_field_opt_u64(v, "s"@) == FieldRead::Present(m.s)
            &&& spec_field_opt_str(v, "t"@) == FieldRead::Present(m.t.deep_view())
            &&& m.d == envelope_payload(v)
        }),
        r matches Err(e) ==> (e is NotJson <==> parsed_json(text@) is None),
{
    let v = match json_parse(text) {
        Option::Some(v) => v,
        Option::None => {
            return Result::Err(ProtocolError::NotJson);
        },
    };
    let op64 = match field_u64(&v, "op") {
        FieldRead::Present(n) => n,
        _ => {
            return Result::Err(ProtocolError::Malformed);
        },
    };
    if op64 > 255 {
        return Result::Err(ProtocolError::Malformed);
    }
    let seq_no = match field_opt_u64(&v, "s") {
        FieldRead::Present(x) => x,
        _ => {
            return Result::Err(ProtocolError::Malformed);
        },
    };
    let event_type = match field_opt_str(&v, "t") {
        FieldRead::Present(x) => x,
        _ => {
            return Result::Err(ProtocolError::Malformed);
        },
    };
    let payload = match json_get(&v, "d") {
        Option::None => Option::None,
        Option::Some(f) => if json_is_null(f) {
            Option::None
        } else {
            Option::Some(json_clone(f))
        },
    };
    Result::Ok(GatewayMessage { op: op64 as u8, s: seq_no, t: event_type, d: payload })
}

/// Second decode stage for a greeting: the payload must carry the heartbeat
/// interval as a number.
pub fn parse_hello(d: &serde_json::Value) -> (r: Result<HelloPayload, ProtocolError>)
    ensures
        r is Ok <==> spec_field_u64(*d, "heartbeat_interval"@) is Present,
        r matches Ok(h) ==> spec_field_u64(*d, "heartbeat_interval"@) == FieldRead::Present(
            h.heartbeat_interval,
        ),
        r matches Err(e) ==> e is Malformed,
{
    match field_u64(d, "heartbeat_interval") {
        FieldRead::Present(n) => Result::Ok(HelloPayload { heartbeat_interval: n }),
        _ => Result::Err(ProtocolError::Malformed),
    }
}

/// Second decode stage for a resource record: a textual `id` is required,
/// the `name` may be a string, null, or absent.
pub fn parse_channel(d: &serde_json::Value) -> (r: Result<Channel, ProtocolError>)
    ensures
        r is Ok <==> (spec_field_str(*d, "id"@) is Present && spec_field_opt_str(*d, "name"@)
            is Present),
        r matches Ok(c) ==> {
            &&& spec_field_str(*d, "id"@) == FieldRead::Present(c.id@)
            &&& spec_field_opt_str(*d, "name"@) == FieldRead::Present(c.name.deep_view())
        },
        r matches Err(e) ==> e is Malformed,
{
    let id = match field_str(d, "id") {
        FieldRead::Present(s) => s,
        _ => {
            return Result::Err(ProtocolError::Malformed);
        },
    };
    let name = match field_opt_str(d, "name") {
        FieldRead::Present(x) => x,
        _ => {
            return Result::Err(ProtocolError::Malformed);
        },
    };
    Result::Ok(Channel { id, name })
}

} // verus!
