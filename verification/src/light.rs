//! Individual light control.

use vstd::prelude::*;
use crate::codec::encode_command;
use crate::codec::encode_payload;
use crate::codec::encode_state_params;
use crate::errors::Error;
use crate::history::MessageHistory;
use crate::history::MessageType;
use crate::net::Ipv4;
use crate::payload::Payload;
use crate::response::LightingResponse;
use crate::response::LightingResponseType;
use crate::status::LightStatus;
use crate::transport::CommandPort;
use crate::transport::send_with_retries;
use crate::transport::spec_transport_post;
use crate::types::FanDirection;
use crate::types::FanMode;
use crate::types::FanSpeed;
use crate::types::FanState;
use crate::types::PowerMode;

verus! {

/// Represents a single smart light bulb.
///
/// A `Light` holds a bulb's address, an optional user-friendly name, the
/// last status it is known to have, and a message history for diagnostics.
/// Commands reach the bulb through a [`CommandPort`] the caller supplies.
#[derive(Debug, Clone)]
pub struct Light {
    pub ip: Ipv4,
    pub name: Option<String>,
    pub status: Option<LightStatus>,
    pub history: MessageHistory,
}

/// The status cache after a lighting response is applied: a payload response
/// folds the payload in (or establishes a fresh status), a power response
/// sets the emitting flag, and a status response merges the reported status.
pub open spec fn spec_apply_reply(
    status: Option<LightStatus>,
    resp: LightingResponseType,
) -> Option<LightStatus> {
    match resp {
        LightingResponseType::Payload(p) => Some(
            match status {
                Some(s) => s.spec_update_from_payload(p),
                None => LightStatus::spec_from_payload(p),
            },
        ),
        LightingResponseType::Power(pm) => Some(
            match status {
                Some(s) => LightStatus { emitting: pm != PowerMode::Off, ..s },
                None => LightStatus {
                    color: None,
                    brightness: None,
                    emitting: pm != PowerMode::Off,
                    scene: None,
                    speed: None,
                    temp: None,
                    cool: None,
                    warm: None,
                    last: None,
                },
            },
        ),
        LightingResponseType::Status(st) => Some(
            match status {
                Some(s) => s.spec_update(st),
                None => st,
            },
        ),
    }
}

impl Light {
    pub open spec fn wf(self) -> bool {
        self.history.wf()
    }

    /// Create a new light with the given IP address.
    pub fn new(ip: Ipv4, name: Option<&str>) -> (r: Self)
        ensures
            r.wf(),
            r.ip == ip,
            match name {
                Some(n) => r.name matches Some(rn) && rn@ == n@,
                None => r.name is None,
            },
            r.status is None,
            r.history.spec_entries() == Seq::<crate::history::HistoryEntry>::empty(),
    {
        Light {
            ip,
            name: match name {
                Some(n) => Some(n.to_owned()),
                None => None,
            },
            status: None,
            history: MessageHistory::new(),
        }
    }

    /// Get the IP address of this light.
    pub fn ip(&self) -> (r: Ipv4)
        ensures
            r == self.ip,
    {
        self.ip
    }

    /// Get the name of this light.
    pub fn name(&self) -> (r: Option<&String>)
        ensures
            r == match self.name {
                Some(n) => Some(&n),
                None => None,
            },
    {
        self.name.as_ref()
    }

    /// Get the last known status of this light.
    pub fn status(&self) -> (r: Option<&LightStatus>)
        ensures
            r == match self.status {
                Some(s) => Some(&s),
                None => None,
            },
    {
        self.status.as_ref()
    }

    /// The message history of this light.
    pub fn history(&self) -> (r: &MessageHistory)
        ensures
            r == &self.history,
    {
        &self.history
    }

    /// Clear the message history.
    pub fn clear_history(&mut self)
        ensures
            final (self).wf(),
            final (self).ip == old(self).ip,
            final (self).name == old(self).name,
            final (self).status == old(self).status,
            final (self).history.spec_entries() == Seq::<crate::history::HistoryEntry>::empty(),
            final (self).history.spec_last_error() is None,
    {
        self.history.clear();
    }

    /// Send one encoded command to this bulb through the port, with the
    /// transport's retry policy, recording the exchange in the history.
    /// Returns the decoded reply text together with the transport's
    /// per-attempt log and requested delays.
    pub fn send_command<P: CommandPort>(&mut self, port: &mut P, message: &str) -> (r: (
        Result<String, Error>,
        Ghost<Seq<Result<String, Error>>>,
        Ghost<Seq<u64>>,
    ))
        requires
            old(self).wf(),
        ensures
            final (self).wf(),
            spec_transport_post(r.1@, r.2@, r.0),
            final (self).ip == old(self).ip,
            final (self).name == old(self).name,
            final (self).status == old(self).status,
    {
        let now = port.now_ms();
        self.history.record(MessageType::Send, message, now);
        let (outcome, alog, dlog) = send_with_retries(port, &mut self.history, self.ip, message);
        match outcome {
            Ok(text) => {
                let now = port.now_ms();
                self.history.record(MessageType::Receive, text.as_str(), now);
                (Ok(text), alog, dlog)
            },
            Err(e) => (Err(e), alog, dlog),
        }
    }

    /// Apply lighting settings to this bulb.
    ///
    /// A payload with no lighting attribute is rejected without any network
    /// traffic. Otherwise the payload travels as a `setPilot` command; on a
    /// decoded reply the returned response echoes the payload, for
    /// [`process_reply`](Self::process_reply) to fold into the cached state.
    pub fn set<P: CommandPort>(&mut self, port: &mut P, payload: &Payload) -> (r: (
        Result<LightingResponse, Error>,
        Ghost<Seq<Result<String, Error>>>,
        Ghost<Seq<u64>>,
    ))
        requires
            old(self).wf(),
        ensures
            final (self).wf(),
            final (self).ip == old(self).ip,
            final (self).name == old(self).name,
            final (self).status == old(self).status,
            !payload.spec_is_valid() ==> (r.0 matches Err(e) && e == Error::NoAttribute),
            payload.spec_is_valid() ==> {
                &&& spec_transport_post(r.1@, r.2@, if r.0 is Ok {
                    Ok(r.1@.last()->Ok_0)
                } else {
                    Err(r.0->Err_0)
                })
                &&& (r.0 matches Ok(resp) ==> resp == LightingResponse::spec_of_payload(
                    old(self).ip,
                    *payload,
                ))
            },
    {
        if !payload.is_valid() {
            let ghost ea: Seq<Result<String, Error>> = Seq::empty();
            let ghost ed: Seq<u64> = Seq::empty();
            return (Err(Error::NoAttribute), Ghost(ea), Ghost(ed));
        }
        let params = encode_payload(payload);
        let message = encode_command("setPilot", Some(params.as_str()));
        let (outcome, alog, dlog) = self.send_command(port, message.as_str());
        match outcome {
            Ok(_) => (Ok(LightingResponse::payload(self.ip, *payload)), alog, dlog),
            Err(e) => (Err(e), alog, dlog),
        }
    }

    /// Set the power state of this light: on and off travel as a `setState`
    /// command, reboot as a `reboot` command.
    pub fn set_power<P: CommandPort>(&mut self, port: &mut P, power: &PowerMode) -> (r: (
        Result<LightingResponse, Error>,
        Ghost<Seq<Result<String, Error>>>,
        Ghost<Seq<u64>>,
    ))
        requires
            old(self).wf(),
        ensures
            final (self).wf(),
            final (self).ip == old(self).ip,
            final (self).name == old(self).name,
            final (self).status == old(self).status,
            spec_transport_post(r.1@, r.2@, if r.0 is Ok {
                Ok(r.1@.last()->Ok_0)
            } else {
                Err(r.0->Err_0)
            }),
            r.0 matches Ok(resp) ==> resp == (LightingResponse {
                ip: old(self).ip,
                response: LightingResponseType::Power(*power),
            }),
    {
        let on = match power {
            PowerMode::On => true,
            PowerMode::Off => false,
            PowerMode::Reboot => {
                let message = encode_command("reboot", None);
                let (outcome, alog, dlog) = self.send_command(port, message.as_str());
                match outcome {
                    Ok(_) => {
                        let resp = LightingResponse::power(self.ip, PowerMode::Reboot);
                        return (Ok(resp), alog, dlog);
                    },
                    Err(e) => {
                        return (Err(e), alog, dlog);
                    },
                }
            },
        };
        let params = encode_state_params(on);
        let message = encode_command("setState", Some(params.as_str()));
        let (outcome, alog, dlog) = self.send_command(port, message.as_str());
        match outcome {
            Ok(_) => {
                let mode = if on {
                    PowerMode::On
                } else {
                    PowerMode::Off
                };
                (Ok(LightingResponse::power(self.ip, mode)), alog, dlog)
            },
            Err(e) => (Err(e), alog, dlog),
        }
    }

    /// Factory reset the bulb.
    ///
    /// **Warning**: This resets all settings including the wireless
    /// configuration.
    pub fn reset<P: CommandPort>(&mut self, port: &mut P) -> (r: (
        Result<(), Error>,
        Ghost<Seq<Result<String, Error>>>,
        Ghost<Seq<u64>>,
    ))
        requires
            old(self).wf(),
        ensures
            final (self).wf(),
            final (self).ip == old(self).ip,
            final (self).name == old(self).name,
            final (self).status == old(self).status,
            spec_transport_post(r.1@, r.2@, if r.0 is Ok {
                Ok(r.1@.last()->Ok_0)
            } else {
                Err(r.0->Err_0)
            }),
    {
        let message = encode_command("reset", None);
        let (outcome, alog, dlog) = self.send_command(port, message.as_str());
        match outcome {
            Ok(_) => (Ok(()), alog, dlog),
            Err(e) => (Err(e), alog, dlog),
        }
    }

    /// Set the fan state (on/off) and optional settings of a fan-equipped
    /// fixture: the given attributes travel together as one `setPilot`
    /// command.
    pub fn fan_set_state<P: CommandPort>(
        &mut self,
        port: &mut P,
        state: Option<FanState>,
        mode: Option<FanMode>,
        speed: Option<FanSpeed>,
        direction: Option<FanDirection>,
    ) -> (r: (
        Result<LightingResponse, Error>,
        Ghost<Seq<Result<String, Error>>>,
        Ghost<Seq<u64>>,
    ))
        requires
            old(self).wf(),
        ensures
            final (self).wf(),
            final (self).ip == old(self).ip,
            final (self).name == old(self).name,
            final (self).status == old(self).status,
            spec_transport_post(r.1@, r.2@, if r.0 is Ok {
                Ok(r.1@.last()->Ok_0)
            } else {
                Err(r.0->Err_0)
            }),
            r.0 matches Ok(resp) ==> resp == LightingResponse::spec_of_payload(
                old(self).ip,
                spec_fan_payload(state, mode, speed, direction),
            ),
    {
        let mut payload = Payload::new();
        if let Some(s) = state {
            payload.fan_state(&s);
        }
        if let Some(m) = mode {
            payload.fan_mode(&m);
        }
        if let Some(sp) = speed {
            payload.fan_speed(&sp);
        }
        if let Some(d) = direction {
            payload.fan_direction(&d);
        }
        let params = encode_payload(&payload);
        let message = encode_command("setPilot", Some(params.as_str()));
        let (outcome, alog, dlog) = self.send_command(port, message.as_str());
        match outcome {
            Ok(_) => (Ok(LightingResponse::payload(self.ip, payload)), alog, dlog),
            Err(e) => (Err(e), alog, dlog),
        }
    }

    /// Turn the fan on, optionally with a mode and speed.
    pub fn fan_turn_on<P: CommandPort>(
        &mut self,
        port: &mut P,
        mode: Option<FanMode>,
        speed: Option<FanSpeed>,
    ) -> (r: (
        Result<LightingResponse, Error>,
        Ghost<Seq<Result<String, Error>>>,
        Ghost<Seq<u64>>,
    ))
        requires
            old(self).wf(),
        ensures
            final (self).wf(),
            final (self).ip == old(self).ip,
            final (self).name == old(self).name,
            final (self).status == old(self).status,
            r.0 matches Ok(resp) ==> resp == LightingResponse::spec_of_payload(
                old(self).ip,
                spec_fan_payload(Some(FanState::On), mode, speed, None),
            ),
    {
        self.fan_set_state(port, Some(FanState::On), mode, speed, None)
    }

    /// Turn the fan off.
    pub fn fan_turn_off<P: CommandPort>(&mut self, port: &mut P) -> (r: (
        Result<LightingResponse, Error>,
        Ghost<Seq<Result<String, Error>>>,
        Ghost<Seq<u64>>,
    ))
        requires
            old(self).wf(),
        ensures
            final (self).wf(),
            final (self).ip == old(self).ip,
            final (self).name == old(self).name,
            final (self).status == old(self).status,
            r.0 matches Ok(resp) ==> resp == LightingResponse::spec_of_payload(
                old(self).ip,
                spec_fan_payload(Some(FanState::Off), None, None, None),
            ),
    {
        self.fan_set_state(port, Some(FanState::Off), None, None, None)
    }

    /// Set the fan speed.
    pub fn set_fan_speed<P: CommandPort>(&mut self, port: &mut P, speed: FanSpeed) -> (r: (
        Result<LightingResponse, Error>,
        Ghost<Seq<Result<String, Error>>>,
        Ghost<Seq<u64>>,
    ))
        requires
            old(self).wf(),
        ensures
            final (self).wf(),
            final (self).ip == old(self).ip,
            final (self).name == old(self).name,
            final (self).status == old(self).status,
            r.0 matches Ok(resp) ==> resp == LightingResponse::spec_of_payload(
                old(self).ip,
                spec_fan_payload(None, None, Some(speed), None),
            ),
    {
        self.fan_set_state(port, None, None, Some(speed), None)
    }

    /// Set the fan mode (normal or breeze).
    pub fn set_fan_mode<P: CommandPort>(&mut self, port: &mut P, mode: FanMode) -> (r: (
        Result<LightingResponse, Error>,
        Ghost<Seq<Result<String, Error>>>,
        Ghost<Seq<u64>>,
    ))
        requires
            old(self).wf(),
        ensures
            final (self).wf(),
            final (self).ip == old(self).ip,
            final (self).name == old(self).name,
            final (self).status == old(self).status,
            r.0 matches Ok(resp) ==> resp == LightingResponse::spec_of_payload(
                old(self).ip,
                spec_fan_payload(None, Some(mode), None, None),
            ),
    {
        self.fan_set_state(port, None, Some(mode), None, None)
    }

    /// Set the fan rotation direction.
    pub fn set_fan_direction<P: CommandPort>(
        &mut self,
        port: &mut P,
        direction: FanDirection,
    ) -> (r: (
        Result<LightingResponse, Error>,
        Ghost<Seq<Result<String, Error>>>,
        Ghost<Seq<u64>>,
    ))
        requires
            old(self).wf(),
        ensures
            final (self).wf(),
            final (self).ip == old(self).ip,
            final (self).name == old(self).name,
            final (self).status == old(self).status,
            r.0 matches Ok(resp) ==> resp == LightingResponse::spec_of_payload(
                old(self).ip,
                spec_fan_payload(None, None, None, Some(direction)),
            ),
    {
        self.fan_set_state(port, None, None, None, Some(direction))
    }

    /// Update the cached status from a lighting response.
    ///
    /// Returns `true` exactly when the response is addressed to this light;
    /// only then is the cached status updated.
    pub fn process_reply(&mut self, resp: &LightingResponse) -> (r: bool)
        ensures
            r == (resp.ip == old(self).ip),
            final (self).ip == old(self).ip,
            final (self).name == old(self).name,
            final (self).history == old(self).history,
            final (self).status == if resp.ip == old(self).ip {
                spec_apply_reply(old(self).status, resp.response)
            } else {
                old(self).status
            },
    {
        if resp.ip != self.ip {
            return false;
        }
        match &resp.response {
            LightingResponseType::Payload(payload) => self.update_status_from_payload(payload),
            LightingResponseType::Power(power) => self.update_status_from_power(power),
            LightingResponseType::Status(status) => self.update_status(status),
        }
        true
    }

    /// Update non-lighting attributes (name and address) from another light.
    ///
    /// Returns `true` if anything changed.
    pub(crate) fn update(&mut self, other: &Self) -> (r: bool)
        ensures
            final (self).ip == other.ip,
            spec_name_eq(final (self).name, other.name),
            final (self).status == old(self).status,
            final (self).history == old(self).history,
            r == (!spec_name_eq(old(self).name, other.name) || old(self).ip != other.ip),
    {
        let mut changed = false;
        let name_differs = match (&self.name, &other.name) {
            (Some(a), Some(b)) => !crate::text::str_eq(a.as_str(), b.as_str()),
            (None, None) => false,
            _ => true,
        };
        if name_differs {
            self.name = match &other.name {
                Some(n) => Some(n.clone()),
                None => None,
            };
            changed = true;
        }
        proof {
            assert(spec_name_eq(self.name, other.name));
        }
        if self.ip != other.ip {
            self.ip = other.ip;
            changed = true;
        }
        changed
    }

    fn update_status(&mut self, status: &LightStatus)
        ensures
            *final (self) == (Light {
                status: spec_apply_reply(
                    old(self).status,
                    LightingResponseType::Status(*status),
                ),
                ..*old(self)
            }),
    {
        if let Some(current) = &mut self.status {
            current.update(status);
        } else {
            self.status = Some(*status);
        }
    }

    fn update_status_from_payload(&mut self, payload: &Payload)
        ensures
            *final (self) == (Light {
                status: spec_apply_reply(
                    old(self).status,
                    LightingResponseType::Payload(*payload),
                ),
                ..*old(self)
            }),
    {
        if let Some(status) = &mut self.status {
            status.update_from_payload(payload);
        } else {
            self.status = Some(LightStatus::from(payload));
        }
    }

    fn update_status_from_power(&mut self, power: &PowerMode)
        ensures
            *final (self) == (Light {
                status: spec_apply_reply(old(self).status, LightingResponseType::Power(*power)),
                ..*old(self)
            }),
    {
        if let Some(status) = &mut self.status {
            status.update_from_power(power);
        } else {
            self.status = Some(LightStatus::from(power));
        }
    }
}

/// Whether two optional names hold the same text.
pub open spec fn spec_name_eq(a: Option<String>, b: Option<String>) -> bool {
    match (a, b) {
        (Some(x), Some(y)) => x@ == y@,
        (None, None) => true,
        _ => false,
    }
}

/// The payload a fan command carries: exactly the given attributes.
pub open spec fn spec_fan_payload(
    state: Option<FanState>,
    mode: Option<FanMode>,
    speed: Option<FanSpeed>,
    direction: Option<FanDirection>,
) -> Payload {
    Payload {
        fan_state: match state {
            Some(s) => Some(s.spec_value()),
            None => None,
        },
        fan_mode: match mode {
            Some(m) => Some(m.spec_value()),
            None => None,
        },
        fan_speed: match speed {
            Some(s) => Some(s.value),
            None => None,
        },
        fan_reverse: match direction {
            Some(d) => Some(d.spec_value()),
            None => None,
        },
        ..Payload::spec_empty()
    }
}

impl LightingResponse {
    /// The payload-echoing response a successful settings command returns.
    pub open spec fn spec_of_payload(ip: Ipv4, payload: Payload) -> LightingResponse {
        LightingResponse { ip, response: LightingResponseType::Payload(payload) }
    }
}

} // verus!
