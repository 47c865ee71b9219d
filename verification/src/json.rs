//! The dynamic JSON substrate in one module: the trusted boundary to
//! `serde_json`, and the verified classification of inbound JSON-lane
//! frames into responses and notifications.

use vstd::prelude::*;
use crate::codec::push_all;

verus! {

#[verifier::external_type_specification]
#[verifier::external_body]
pub struct ExValue(serde_json::Value);

/// Whether `serde_json` parses these bytes as one JSON value; the outcome
/// is a function of the bytes alone.
pub uninterp spec fn json_parses(bytes: Seq<u8>) -> bool;

/// Relies on `serde_json::from_slice::<Value>`: parsing succeeds or fails
/// as a function of the input bytes alone.
#[verifier::external_body]
fn json_from_slice(bytes: &Vec<u8>) -> (r: Option<serde_json::Value>)
    ensures
        r is Some <==> json_parses(bytes@),
{
    match serde_json::from_slice(bytes) {
        Ok(v) => Some(v),
        Err(_) => None,
    }
}

/// Relies on `serde_json::Value::get`: looks a key up when the value is
/// an object.
#[verifier::external_body]
fn json_get<'a>(v: &'a serde_json::Value, key: &str) -> (r: Option<&'a serde_json::Value>) {
    v.get(key)
}

/// Relies on `serde_json::Value::as_u64`: the numeric value when it is a
/// non-negative integer.
#[verifier::external_body]
fn json_as_u64(v: &serde_json::Value) -> (r: Option<u64>) {
    v.as_u64()
}

/// Relies on `serde_json::Value::as_bool`.
#[verifier::external_body]
fn json_as_bool(v: &serde_json::Value) -> (r: Option<bool>) {
    v.as_bool()
}

/// Relies on `serde_json::Value::as_str`; the borrowed text is handed out
/// owned.
#[verifier::external_body]
fn json_as_string(v: &serde_json::Value) -> (r: Option<String>) {
    match v.as_str() {
        Some(s) => Some(s.to_string()),
        None => None,
    }
}

/// Relies on `serde_json::Value`'s derived `Clone`: the copy equals the
/// original.
#[verifier::external_body]
fn json_clone(v: &serde_json::Value) -> (r: serde_json::Value)
    ensures
        r == *v,
{
    v.clone()
}

/// One JSON-lane frame after classification.
#[allow(inconsistent_fields)]
pub enum InboundFrame {
    /// A success response: `{id, accepted: true, data?}`.
    Success { id: u32, data: Option<serde_json::Value> },
    /// An error response: `{id, error, reason}`.
    Error { id: u32, reason: String },
    /// A notification: no usable response shape; `target_id` is its
    /// `targetId` field when that is a string.
    Notification { target_id: Option<String>, message: serde_json::Value },
    /// Bytes that did not parse as JSON, kept verbatim.
    Unexpected { data: Vec<u8> },
}

/// The shape a frame routes to, decided from which fields are present:
/// a response needs an `id` that fits `u32` plus either an `accepted`
/// boolean or an `error` with a string `reason`; everything else is a
/// notification.
#[derive(Debug, Clone, Copy, PartialEq, Eq, Structural)]
pub enum InboundKind {
    Success { id: u32 },
    Error { id: u32 },
    Notification,
}

pub open spec fn route_spec(
    id: Option<u64>,
    has_accepted: bool,
    has_error: bool,
    has_reason: bool,
) -> InboundKind {
    match id {
        Some(n) => if n <= u32::MAX {
            if has_accepted {
                InboundKind::Success { id: n as u32 }
            } else if has_error && has_reason {
                InboundKind::Error { id: n as u32 }
            } else {
                InboundKind::Notification
            }
        } else {
            InboundKind::Notification
        },
        None => InboundKind::Notification,
    }
}

/// Routes one parsed frame from the presence and shape of its fields,
/// exactly as `route_spec` says.
pub fn route_message(id: Option<u64>, has_accepted: bool, has_error: bool, has_reason: bool) -> (r:
    InboundKind)
    ensures
        r == route_spec(id, has_accepted, has_error, has_reason),
{
    match id {
        Some(n) => {
            if n <= u32::MAX as u64 {
                if has_accepted {
                    InboundKind::Success { id: n as u32 }
                } else if has_error && has_reason {
                    InboundKind::Error { id: n as u32 }
                } else {
                    InboundKind::Notification
                }
            } else {
                InboundKind::Notification
            }
        },
        None => InboundKind::Notification,
    }
}

/// Classifies one JSON-lane frame body. Bytes that do not parse come back
/// verbatim as `Unexpected`; parsed values are routed by `route_spec` over
/// their `id`, `accepted`, `error` and `reason` fields.
pub fn classify_frame(bytes: &Vec<u8>) -> (r: InboundFrame)
    ensures
        r is Unexpected <==> !json_parses(bytes@),
        r matches InboundFrame::Unexpected { data } ==> data@ == bytes@,
{
    match json_from_slice(bytes) {
        None => {
            let mut data: Vec<u8> = Vec::new();
            push_all(&mut data, bytes);
            InboundFrame::Unexpected { data }
        },
        Some(v) => {
            let id: Option<u64> = match json_get(&v, "id") {
                Some(f) => json_as_u64(f),
                None => None,
            };
            let has_accepted: bool = match json_get(&v, "accepted") {
                Some(f) => json_as_bool(f).is_some(),
                None => false,
            };
            let has_error: bool = json_get(&v, "error").is_some();
            let reason: Option<String> = match json_get(&v, "reason") {
                Some(f) => json_as_string(f),
                None => None,
            };
            match route_message(id, has_accepted, has_error, reason.is_some()) {
                InboundKind::Success { id } => {
                    let data: Option<serde_json::Value> = match json_get(&v, "data") {
                        Some(f) => Some(json_clone(f)),
                        None => None,
                    };
                    InboundFrame::Success { id, data }
                },
                InboundKind::Error { id } => {
                    match reason {
                        Some(reason) => InboundFrame::Error { id, reason },
                        // The router picks the error shape only when a
                        // reason is present.
                        None => vstd::pervasive::unreached(),
                    }
                },
                InboundKind::Notification => {
                    let target_id: Option<String> = match json_get(&v, "targetId") {
                        Some(f) => json_as_string(f),
                        None => None,
                    };
                    InboundFrame::Notification { target_id, message: v }
                },
            }
        },
    }
}

} // verus!
