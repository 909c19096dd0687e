//! Lighting response types.

use vstd::prelude::*;
use crate::net::Ipv4;
use crate::payload::Payload;
use crate::status::LightStatus;
use crate::types::PowerMode;

verus! {

/// A response from a lighting command.
///
/// Pass this to [`crate::Light::process_reply`] to update the internal
/// status cache after sending commands to bulbs.
#[derive(Debug, Clone, Copy)]
pub struct LightingResponse {
    pub ip: Ipv4,
    pub response: LightingResponseType,
}

/// The type of lighting response.
#[derive(Debug, Clone, Copy)]
pub enum LightingResponseType {
    /// Response from a lighting setting change
    Payload(Payload),
    /// Response from a power state change
    Power(PowerMode),
    /// Response from a status query
    Status(LightStatus),
}

impl LightingResponse {
    /// Create a response from a payload.
    pub fn payload(ip: Ipv4, payload: Payload) -> (r: Self)
        ensures
            r == (LightingResponse { ip, response: LightingResponseType::Payload(payload) }),
    {
        LightingResponse { ip, response: LightingResponseType::Payload(payload) }
    }

    /// Create a response from a power mode change.
    pub fn power(ip: Ipv4, power: PowerMode) -> (r: Self)
        ensures
            r == (LightingResponse { ip, response: LightingResponseType::Power(power) }),
    {
        LightingResponse { ip, response: LightingResponseType::Power(power) }
    }

    /// Create a response from a status query.
    pub fn status(ip: Ipv4, status: LightStatus) -> (r: Self)
        ensures
            r == (LightingResponse { ip, response: LightingResponseType::Status(status) }),
    {
        LightingResponse { ip, response: LightingResponseType::Status(status) }
    }
}

} // verus!
