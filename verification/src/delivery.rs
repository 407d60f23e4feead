//! The delivery pipeline up to the wire: what is sent for a closed session,
//! where to, and what the collector's answer means.

use vstd::prelude::*;
use vstd::string::StringExecFns;
use crate::config::{Config, ConfigView};
use crate::session::{Session, SessionView};

verus! {

/// Name of the header that carries the key.
pub const AUTHORIZATION_HEADER: &'static str = "Authorization";

/// What precedes the key in the authorization header.
pub const BEARER_PREFIX: &'static str = "Bearer ";

/// The body of one request: a closed session with its two times written as
/// RFC 3339 text.
#[derive(Clone, Debug)]
pub struct SessionPayload {
    pub device_id: String,
    pub device_platform: String,
    pub app_name: String,
    pub start_time: String,
    pub end_time: String,
    pub time_zone: String,
}

/// A payload as plain text.
pub struct SessionPayloadView {
    pub device_id: Seq<char>,
    pub device_platform: Seq<char>,
    pub app_name: Seq<char>,
    pub start_time: Seq<char>,
    pub end_time: Seq<char>,
    pub time_zone: Seq<char>,
}

impl View for SessionPayload {
    type V = SessionPayloadView;

    open spec fn view(&self) -> SessionPayloadView {
        SessionPayloadView {
            device_id: self.device_id@,
            device_platform: self.device_platform@,
            app_name: self.app_name@,
            start_time: self.start_time@,
            end_time: self.end_time@,
            time_zone: self.time_zone@,
        }
    }
}

/// One request to the collector.
#[derive(Clone, Debug)]
pub struct DeliveryRequest {
    /// Address the request is posted to.
    pub url: String,
    /// Value of the `Authorization` header, where a key is configured.
    pub authorization: Option<String>,
    /// The body, sent as JSON.
    pub payload: SessionPayload,
}

/// A request as plain values.
pub struct DeliveryRequestView {
    pub url: Seq<char>,
    pub authorization: Option<Seq<char>>,
    pub payload: SessionPayloadView,
}

impl View for DeliveryRequest {
    type V = DeliveryRequestView;

    open spec fn view(&self) -> DeliveryRequestView {
        DeliveryRequestView {
            url: self.url@,
            authorization: match self.authorization {
                Some(value) => Some(value@),
                None => None,
            },
            payload: self.payload@,
        }
    }
}

/// Why no request could be made for a session.
#[derive(Clone, Copy, Debug, PartialEq, Eq, Structural)]
pub enum DeliveryError {
    /// The calendar cannot hold the session's start or end.
    TimeOutOfRange,
}

/// How one delivery attempt ended. A session is sent once: whatever the
/// outcome, it is not sent again.
#[derive(Clone, Copy, Debug, PartialEq, Eq, Structural)]
pub enum DeliveryOutcome {
    /// The collector answered with a status from 200 to 299.
    Accepted,
    /// The collector answered with another status.
    Rejected { status: u16 },
    /// No answer came.
    NetworkError,
}

/// The payload for `session` with the given texts of its two times.
pub open spec fn payload_of(session: SessionView, start_text: Seq<char>, end_text: Seq<char>)
    -> SessionPayloadView {
    SessionPayloadView {
        device_id: session.device_id,
        device_platform: session.platform,
        app_name: session.app_name,
        start_time: start_text,
        end_time: end_text,
        time_zone: session.time_zone,
    }
}

/// The members of the JSON object that is sent for a payload: each name
/// with its text, in the order in which they are written.
pub open spec fn wire_fields_of(payload: SessionPayloadView) -> Seq<(Seq<char>, Seq<char>)> {
    seq![
        ("deviceId"@, payload.device_id),
        ("devicePlatform"@, payload.device_platform),
        ("appName"@, payload.app_name),
        ("startTime"@, payload.start_time),
        ("endTime"@, payload.end_time),
        ("timeZone"@, payload.time_zone),
    ]
}

/// The value of the authorization header for a key.
pub open spec fn authorization_of(api_key: Option<Seq<char>>) -> Option<Seq<char>> {
    match api_key {
        Some(key) => Some(BEARER_PREFIX@ + key),
        None => None,
    }
}

/// The request for `session` under `config`, given the texts of its times.
pub open spec fn request_of(
    config: ConfigView,
    session: SessionView,
    start_text: Seq<char>,
    end_text: Seq<char>,
) -> DeliveryRequestView {
    DeliveryRequestView {
        url: config.server_url,
        authorization: authorization_of(config.api_key),
        payload: payload_of(session, start_text, end_text),
    }
}

/// What an answer of the collector means.
pub open spec fn outcome_of(status: Option<u16>) -> DeliveryOutcome {
    match status {
        None => DeliveryOutcome::NetworkError,
        Some(code) => if 200 <= code < 300 {
            DeliveryOutcome::Accepted
        } else {
            DeliveryOutcome::Rejected { status: code }
        },
    }
}

impl SessionPayload {
    /// The members of the JSON object to send, each name with its text.
    pub fn wire_fields(&self) -> (fields: Vec<(&'static str, String)>)
        ensures
            fields@.len() == wire_fields_of(self@).len(),
            forall|i: int|
                0 <= i < fields@.len() ==> (#[trigger] fields@[i]).0@ == wire_fields_of(self@)[i].0
                    && fields@[i].1@ == wire_fields_of(self@)[i].1,
    {
        let mut fields: Vec<(&'static str, String)> = Vec::new();
        fields.push(("deviceId", self.device_id.clone()));
        fields.push(("devicePlatform", self.device_platform.clone()));
        fields.push(("appName", self.app_name.clone()));
        fields.push(("startTime", self.start_time.clone()));
        fields.push(("endTime", self.end_time.clone()));
        fields.push(("timeZone", self.time_zone.clone()));
        fields
    }
}

/// Puts the payload together from a session and the texts of its times.
pub fn assemble_payload(
    session: &Session,
    start_text: String,
    end_text: String,
) -> (payload: SessionPayload)
    ensures
        payload@ == payload_of(session@, start_text@, end_text@),
{
    SessionPayload {
        device_id: session.device_id().clone(),
        device_platform: session.platform().clone(),
        app_name: session.app_name().clone(),
        start_time: start_text,
        end_time: end_text,
        time_zone: session.time_zone().clone(),
    }
}

/// The payload for a session, its times written as RFC 3339 text. There is
/// none exactly where the calendar cannot hold one of the two times.
pub fn build_payload(session: &Session) -> (payload: Result<SessionPayload, DeliveryError>)
    ensures
        payload is Ok <==> session@.start_time.text() is Some && session@.end_time.text() is Some,
        payload matches Ok(p) ==> p@ == payload_of(
            session@,
            session@.start_time.text()->Some_0,
            session@.end_time.text()->Some_0,
        ),
        payload matches Err(e) ==> e == DeliveryError::TimeOutOfRange,
{
    match session.start_time().to_rfc3339() {
        None => Err(DeliveryError::TimeOutOfRange),
        Some(start_text) => match session.end_time().to_rfc3339() {
            None => Err(DeliveryError::TimeOutOfRange),
            Some(end_text) => Ok(assemble_payload(session, start_text, end_text)),
        },
    }
}

/// The value of the `Authorization` header: the key behind the bearer
/// prefix, or no header without a key.
pub fn authorization_header(api_key: &Option<String>) -> (value: Option<String>)
    ensures
        crate::event::opt_text(value) == authorization_of(crate::event::opt_text(*api_key)),
{
    match api_key {
        None => None,
        Some(key) => {
            let mut value = BEARER_PREFIX.to_owned();
            value.append(key.as_str());
            Some(value)
        },
    }
}

/// The request that delivers `session` to the configured collector. There
/// is none exactly where the calendar cannot hold one of the session's
/// times.
pub fn plan_delivery(
    config: &Config,
    session: &Session,
) -> (request: Result<DeliveryRequest, DeliveryError>)
    ensures
        request is Ok <==> session@.start_time.text() is Some && session@.end_time.text() is Some,
        request matches Ok(r) ==> r@ == request_of(
            config@,
            session@,
            session@.start_time.text()->Some_0,
            session@.end_time.text()->Some_0,
        ),
        request matches Err(e) ==> e == DeliveryError::TimeOutOfRange,
{
    match build_payload(session) {
        Err(error) => Err(error),
        Ok(payload) => Ok(
            DeliveryRequest {
                url: config.server_url.clone(),
                authorization: authorization_header(&config.api_key),
                payload,
            },
        ),
    }
}

/// Reads the end of a delivery attempt: the status of the collector's
/// answer, or `None` where the request failed before an answer came.
pub fn classify_response(status: Option<u16>) -> (outcome: DeliveryOutcome)
    ensures
        outcome == outcome_of(status),
{
    match status {
        None => DeliveryOutcome::NetworkError,
        Some(code) => if 200 <= code && code < 300 {
            DeliveryOutcome::Accepted
        } else {
            DeliveryOutcome::Rejected { status: code }
        },
    }
}

} // verus!
