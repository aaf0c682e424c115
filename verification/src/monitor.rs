//! The REST side of the watcher: the fixed endpoints, the request URL, the
//! response-body parse, and the poller's reconcile step.
//!
//! The HTTP call itself is made outside the library; it hands the response
//! body (or its failure) to these functions as plain values.

use vstd::prelude::*;
use vstd::string::StringExecFns;
use crate::json::{FieldRead, json_parse, parsed_json, spec_field_opt_str, spec_field_str};
use crate::models::{Channel, parse_channel};
use crate::state::{SharedState, alert_of};

verus! {

pub const DISCORD_API_BASE: &'static str = "https://discord.com/api/v9";

pub const DISCORD_GATEWAY_URL: &'static str = "wss://gateway.discord.gg/?v=9&encoding=json";

pub const USER_AGENT: &'static str =
    "Mozilla/5.0 (X11; Linux x86_64) AppleWebKit/537.36 (KHTML, like Gecko) Chrome/120.0.0.0 Safari/537.36";

/// Why one fetch of the resource failed: the endpoint answered with a
/// non-success status, the transport failed, or the body did not hold a
/// resource record. Every failure is logged and survived; none stops the
/// poller.
pub enum FetchError {
    Status(u16),
    Transport,
    Decode,
}

/// The REST URL of the watched resource.
pub fn api_url(channel_id: &str) -> (r: String)
    ensures
        r@ == DISCORD_API_BASE@ + "/channels/"@ + channel_id@,
{
    let mut url = DISCORD_API_BASE.to_owned();
    url.append("/channels/");
    url.append(channel_id);
    proof {
        assert(url@ =~= DISCORD_API_BASE@ + "/channels/"@ + channel_id@);
    }
    url
}

/// Whether a response body holds a resource record: JSON with a textual
/// `id` and a string, null or absent `name`.
pub open spec fn channel_body_ok(s: Seq<char>) -> bool {
    &&& parsed_json(s) is Some
    &&& match parsed_json(s) {
        Option::Some(v) => spec_field_str(v, "id"@) is Present && spec_field_opt_str(v, "name"@)
            is Present,
        Option::None => false,
    }
}

/// Parse a REST response body into the resource record. Succeeds exactly on
/// a body that holds one; anything else is a decode failure.
pub fn parse_channel_body(body: &str) -> (r: Result<Channel, FetchError>)
    ensures
        r is Ok <==> channel_body_ok(body@),
        r matches Ok(c) ==> (parsed_json(body@) matches Option::Some(v) && {
            &&& spec_field_str(v, "id"@) == FieldRead::Present(c.id@)
            &&& spec_field_opt_str(v, "name"@) == FieldRead::Present(c.name.deep_view())
        }),
        r matches Err(e) ==> e is Decode,
{
    let v = match json_parse(body) {
        Option::Some(v) => v,
        Option::None => {
            return Result::Err(FetchError::Decode);
        },
    };
    match parse_channel(&v) {
        Result::Ok(c) => Result::Ok(c),
        Result::Err(_) => Result::Err(FetchError::Decode),
    }
}

/// One round of the poller after its fetch came back: a fetched name is
/// reconciled against the shared state and may raise an alert; a failed
/// fetch changes nothing and raises nothing — the poller only logs it and
/// keeps its fixed schedule.
pub fn poll_step(fetched: Result<Option<String>, FetchError>, state: &mut SharedState) -> (alert:
    Option<String>)
    ensures
        fetched matches Ok(name) ==> final(state)@ == name.deep_view() && alert.deep_view()
            == alert_of(old(state)@, name.deep_view()),
        fetched is Err ==> final(state)@ == old(state)@ && alert is None,
{
    match fetched {
        Result::Ok(name) => {
            let (_, alert) = state.observe(name);
            alert
        },
        Result::Err(_) => Option::None,
    }
}

/// The bootstrap fetch's reconcile: a fetched name is installed without any
/// alert; a failed fetch leaves the state empty and the process running.
pub fn bootstrap_step(fetched: Result<Option<String>, FetchError>, state: &mut SharedState)
    ensures
        fetched matches Ok(name) ==> final(state)@ == name.deep_view(),
        fetched is Err ==> final(state)@ == old(state)@,
{
    match fetched {
        Result::Ok(name) => state.set(name),
        Result::Err(_) => (),
    }
}

} // verus!
