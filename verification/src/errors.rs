//! Error types for interacting with the lights.

use vstd::prelude::*;
use crate::net::Ipv4;
use crate::net::spec_ipv4_text;
use crate::text::push_dec128;
use crate::text::spec_dec;

verus! {

/// All error types that can occur when interacting with the lights.
///
/// Errors raised around an underlying I/O or parse error carry its rendered
/// text in `detail`.
#[derive(Debug, Clone)]
pub enum Error {
    /// Failed to serialize data to JSON.
    JsonDump { detail: String },
    /// Failed to deserialize JSON data.
    JsonLoad { detail: String },
    /// A network socket operation failed while communicating with a bulb.
    Socket { action: String, detail: String },
    /// The UDP response from a bulb contained invalid UTF-8.
    Utf8Decode { detail: String },
    /// Attempted to send a [`crate::Payload`] with no attributes set.
    NoAttribute,
    /// Attempted to register for push notifications before the listener was
    /// started, so no registration message exists yet.
    NotStarted,
    /// The specified room does not exist.
    RoomNotFound { room_id: u128 },
    /// The specified light does not exist in the given room.
    LightNotFound { room_id: u128, light_id: u128 },
    /// The provided IP address is invalid (e.g., already in use).
    InvalidIP { ip: Ipv4, reason: String },
    /// The room update would result in no changes.
    NoChangeRoom { room_id: u128 },
    /// The light update would result in no changes.
    NoChangeLight { room_id: u128, light_id: u128 },
    /// Attempted to modify a light in a room that has no lights.
    NoLights { room_id: u128 },
    /// Failed to parse a [`crate::Color`] from a string.
    InvalidColorString { text: String },
}

impl Error {
    /// Create a new socket error.
    pub fn socket(action: &str, detail: String) -> (r: Self)
        ensures
            r matches Error::Socket { action: a, detail: d } && a@ == action@ && d == detail,
    {
        Error::Socket { action: action.to_owned(), detail }
    }

    /// Create a new light not found error.
    pub fn light_not_found(room_id: u128, light_id: u128) -> (r: Self)
        ensures
            r == (Error::LightNotFound { room_id, light_id }),
    {
        Error::LightNotFound { room_id, light_id }
    }

    /// Create a new invalid IP error.
    pub fn invalid_ip(ip: &Ipv4, reason: &str) -> (r: Self)
        ensures
            r matches Error::InvalidIP { ip: i, reason: t } && i == *ip && t@ == reason@,
    {
        Error::InvalidIP { ip: *ip, reason: reason.to_owned() }
    }

    /// Create a new no change light error.
    pub fn no_change_light(room_id: u128, light_id: u128) -> (r: Self)
        ensures
            r == (Error::NoChangeLight { room_id, light_id }),
    {
        Error::NoChangeLight { room_id, light_id }
    }
}

/// The rendered text of an error, as diagnostics record it.
pub open spec fn spec_error_message(e: Error) -> Seq<char> {
    match e {
        Error::JsonDump { detail } => "failed to dump json: "@ + detail@,
        Error::JsonLoad { detail } => "failed to load json: "@ + detail@,
        Error::Socket { action, detail } => "socket "@ + action@ + " error: "@ + detail@,
        Error::Utf8Decode { detail } => "utf8 decoding error: "@ + detail@,
        Error::NoAttribute => "invalid payload; no attributes set"@,
        Error::NotStarted => "push listener not started; no registration message available"@,
        Error::RoomNotFound { room_id } => "room not found "@ + spec_dec(room_id as nat),
        Error::LightNotFound { room_id, light_id } => "light "@ + spec_dec(light_id as nat)
            + " not found in room "@ + spec_dec(room_id as nat),
        Error::InvalidIP { ip, reason } => "light with ip "@ + spec_ipv4_text(ip)
            + " is invalid because the IP is "@ + reason@,
        Error::NoChangeRoom { room_id } => "no change for room "@ + spec_dec(room_id as nat),
        Error::NoChangeLight { room_id, light_id } => "no change for light "@ + spec_dec(
            light_id as nat,
        ) + " in room "@ + spec_dec(room_id as nat),
        Error::NoLights { room_id } => "no lights in room "@ + spec_dec(room_id as nat),
        Error::InvalidColorString { text } => "invalid color string: "@ + text@,
    }
}

impl Error {
    /// Render the error as text.
    pub fn message(&self) -> (r: String)
        ensures
            r@ == spec_error_message(*self),
    {
        let mut out = String::new();
        match self {
            Error::JsonDump { detail } => {
                out.append("failed to dump json: ");
                out.append(detail.as_str());
            },
            Error::JsonLoad { detail } => {
                out.append("failed to load json: ");
                out.append(detail.as_str());
            },
            Error::Socket { action, detail } => {
                out.append("socket ");
                out.append(action.as_str());
                out.append(" error: ");
                out.append(detail.as_str());
            },
            Error::Utf8Decode { detail } => {
                out.append("utf8 decoding error: ");
                out.append(detail.as_str());
            },
            Error::NoAttribute => {
                out.append("invalid payload; no attributes set");
            },
            Error::NotStarted => {
                out.append("push listener not started; no registration message available");
            },
            Error::RoomNotFound { room_id } => {
                out.append("room not found ");
                push_dec128(&mut out, *room_id);
            },
            Error::LightNotFound { room_id, light_id } => {
                out.append("light ");
                push_dec128(&mut out, *light_id);
                out.append(" not found in room ");
                push_dec128(&mut out, *room_id);
            },
            Error::InvalidIP { ip, reason } => {
                out.append("light with ip ");
                let t = ip.to_text();
                out.append(t.as_str());
                out.append(" is invalid because the IP is ");
                out.append(reason.as_str());
            },
            Error::NoChangeRoom { room_id } => {
                out.append("no change for room ");
                push_dec128(&mut out, *room_id);
            },
            Error::NoChangeLight { room_id, light_id } => {
                out.append("no change for light ");
                push_dec128(&mut out, *light_id);
                out.append(" in room ");
                push_dec128(&mut out, *room_id);
            },
            Error::NoLights { room_id } => {
                out.append("no lights in room ");
                push_dec128(&mut out, *room_id);
            },
            Error::InvalidColorString { text } => {
                out.append("invalid color string: ");
                out.append(text.as_str());
            },
        }
        proof {
            assert(out@ =~= spec_error_message(*self));
        }
        out
    }
}

} // verus!
